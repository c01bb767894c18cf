//! The engine's tunables as a plain host value record.
//!
//! `NormalizeOptions` mirrors, field for field, the option struct the
//! native engine takes by value on every expansion call. It is pure
//! data: copied across the boundary, never owning a native allocation.
//! The `ADDRESS_*` constants are the engine's address-component flags,
//! combined bitwise in `NormalizeOptions::address_components`.

use vstd::prelude::*;

verus! {

pub const ADDRESS_NONE: u16 = 0;

pub const ADDRESS_ANY: u16 = 1u16 << 0;

pub const ADDRESS_NAME: u16 = 1u16 << 1;

pub const ADDRESS_HOUSE_NUMBER: u16 = 1u16 << 2;

pub const ADDRESS_STREET: u16 = 1u16 << 3;

pub const ADDRESS_UNIT: u16 = 1u16 << 4;

pub const ADDRESS_LEVEL: u16 = 1u16 << 5;

pub const ADDRESS_STAIRCASE: u16 = 1u16 << 6;

pub const ADDRESS_ENTRANCE: u16 = 1u16 << 7;

pub const ADDRESS_CATEGORY: u16 = 1u16 << 8;

pub const ADDRESS_NEAR: u16 = 1u16 << 9;

pub const ADDRESS_TOPONYM: u16 = 1u16 << 13;

pub const ADDRESS_POSTAL_CODE: u16 = 1u16 << 14;

pub const ADDRESS_PO_BOX: u16 = 1u16 << 15;

pub const ADDRESS_ALL: u16 = 0xffff;

/// The address components an expansion call considers by default.
pub const DEFAULT_ADDRESS_COMPONENTS: u16 = ADDRESS_NAME | ADDRESS_HOUSE_NUMBER
    | ADDRESS_STREET | ADDRESS_PO_BOX | ADDRESS_UNIT | ADDRESS_LEVEL | ADDRESS_ENTRANCE
    | ADDRESS_STAIRCASE | ADDRESS_POSTAL_CODE;

/// The engine's expansion tunables, copied by value across the boundary.
///
/// Obtainable through `Core::get_default_options` on a live session and
/// then freely mutated by the caller; the record owns no native state.
pub struct NormalizeOptions {
    /// Language hints (ISO codes); empty means the engine classifies.
    pub languages: Vec<String>,
    /// Bitwise combination of the `ADDRESS_*` flags.
    pub address_components: u16,
    pub latin_ascii: bool,
    pub transliterate: bool,
    pub strip_accents: bool,
    pub decompose: bool,
    pub lowercase: bool,
    pub trim_string: bool,
    pub drop_parentheticals: bool,
    pub replace_numeric_hyphens: bool,
    pub delete_numeric_hyphens: bool,
    pub split_alpha_from_numeric: bool,
    pub replace_word_hyphens: bool,
    pub delete_word_hyphens: bool,
    pub delete_final_periods: bool,
    pub delete_acronym_periods: bool,
    pub drop_english_possessives: bool,
    pub delete_apostrophes: bool,
    pub expand_numex: bool,
    pub roman_numerals: bool,
}

/// The engine's documented default record: no language hints, the
/// default component set, and the documented default for every flag.
pub open spec fn is_default_options(o: NormalizeOptions) -> bool {
    &&& o.languages@.len() == 0
    &&& o.address_components == DEFAULT_ADDRESS_COMPONENTS
    &&& o.latin_ascii == true
    &&& o.transliterate == true
    &&& o.strip_accents == true
    &&& o.decompose == true
    &&& o.lowercase == true
    &&& o.trim_string == true
    &&& o.drop_parentheticals == false
    &&& o.replace_numeric_hyphens == false
    &&& o.delete_numeric_hyphens == false
    &&& o.split_alpha_from_numeric == false
    &&& o.replace_word_hyphens == true
    &&& o.delete_word_hyphens == true
    &&& o.delete_final_periods == true
    &&& o.delete_acronym_periods == true
    &&& o.drop_english_possessives == true
    &&& o.delete_apostrophes == true
    &&& o.expand_numex == true
    &&& o.roman_numerals == true
}

/// Build the engine's documented default record.
pub fn default_options() -> (r: NormalizeOptions)
    ensures
        is_default_options(r),
{
    NormalizeOptions {
        languages: Vec::new(),
        address_components: DEFAULT_ADDRESS_COMPONENTS,
        latin_ascii: true,
        transliterate: true,
        strip_accents: true,
        decompose: true,
        lowercase: true,
        trim_string: true,
        drop_parentheticals: false,
        replace_numeric_hyphens: false,
        delete_numeric_hyphens: false,
        split_alpha_from_numeric: false,
        replace_word_hyphens: true,
        delete_word_hyphens: true,
        delete_final_periods: true,
        delete_acronym_periods: true,
        drop_english_possessives: true,
        delete_apostrophes: true,
        expand_numex: true,
        roman_numerals: true,
    }
}

} // verus!
