use postal::lifecycle::EngineState;
use postal::marshal::{bytes_to_c_buffer, ExpansionArray, MarshalError};
use postal::options::{
    ADDRESS_ENTRANCE, ADDRESS_HOUSE_NUMBER, ADDRESS_LEVEL, ADDRESS_NAME, ADDRESS_PO_BOX,
    ADDRESS_POSTAL_CODE, ADDRESS_STAIRCASE, ADDRESS_STREET, ADDRESS_UNIT,
    DEFAULT_ADDRESS_COMPONENTS,
};

#[test]
fn default_options_match_the_documented_record() {
    let mut st = EngineState::new();
    let core = st.acquire_default(true).unwrap();
    let opts = core.get_default_options();

    assert!(opts.languages.is_empty());
    assert_eq!(opts.address_components, DEFAULT_ADDRESS_COMPONENTS);
    assert_eq!(
        DEFAULT_ADDRESS_COMPONENTS,
        ADDRESS_NAME | ADDRESS_HOUSE_NUMBER | ADDRESS_STREET | ADDRESS_PO_BOX | ADDRESS_UNIT
            | ADDRESS_LEVEL | ADDRESS_ENTRANCE | ADDRESS_STAIRCASE | ADDRESS_POSTAL_CODE
    );
    assert_eq!(DEFAULT_ADDRESS_COMPONENTS, 49406);

    assert!(opts.latin_ascii);
    assert!(opts.transliterate);
    assert!(opts.strip_accents);
    assert!(opts.decompose);
    assert!(opts.lowercase);
    assert!(opts.trim_string);
    assert!(!opts.drop_parentheticals);
    assert!(!opts.replace_numeric_hyphens);
    assert!(!opts.delete_numeric_hyphens);
    assert!(!opts.split_alpha_from_numeric);
    assert!(opts.replace_word_hyphens);
    assert!(opts.delete_word_hyphens);
    assert!(opts.delete_final_periods);
    assert!(opts.delete_acronym_periods);
    assert!(opts.drop_english_possessives);
    assert!(opts.delete_apostrophes);
    assert!(opts.expand_numex);
    assert!(opts.roman_numerals);

    assert!(st.release(core));
}

#[test]
fn expansion_scenario_from_setup_to_teardown() {
    let mut st = EngineState::new();
    let core = st.acquire_default(true).unwrap();
    let opts = core.get_default_options();
    assert!(opts.lowercase);

    // The session marshals the input for the boundary...
    let input = core.expand_request("123 Main St").unwrap();
    assert_eq!(input.bytes, b"123 Main St\0".to_vec());

    // ...the native expansion call returns an array of candidate
    // strings, copied entry for entry...
    let raw = ExpansionArray {
        entries: vec![b"123 main street\0".to_vec(), b"123 main saint\0".to_vec()],
    };

    // ...and decoding hands the caller one owned string per candidate.
    let expansions = core.expand_result(raw);
    assert_eq!(expansions.len(), 2);
    assert_eq!(expansions[0], b"123 main street".to_vec());

    // Dropping the only session triggers exactly one teardown.
    assert!(st.release(core));
}

#[test]
fn empty_input_expands_without_an_error() {
    let mut st = EngineState::new();
    let core = st.acquire_default(true).unwrap();

    let input = core.expand_request("").unwrap();
    assert_eq!(input.bytes, b"\0".to_vec());

    // A zero-length native result is valid: nothing to copy, nothing to
    // decode, and no array destructor call owed on a null result.
    let raw = ExpansionArray { entries: vec![] };
    let expansions = core.expand_result(raw);
    assert!(expansions.is_empty());

    assert!(st.release(core));
}

#[test]
fn embedded_nul_never_reaches_the_boundary() {
    let mut st = EngineState::new();
    let core = st.acquire_default(true).unwrap();
    match core.expand_request("123 Main\u{0} St") {
        Err(MarshalError::EmbeddedNul { position }) => assert_eq!(position, 8),
        Ok(_) => panic!("an input with an embedded null byte must be rejected"),
    }
    assert!(st.release(core));
}

#[test]
fn sub_capabilities_follow_the_native_outcome() {
    let mut st = EngineState::new();
    let core = st.acquire_default(true).unwrap();

    assert!(core.setup_parser(true).is_some());
    assert!(core.setup_parser(false).is_none());
    assert!(core.setup_language_classifier(true).is_some());
    assert!(core.setup_language_classifier(false).is_none());

    let dir = bytes_to_c_buffer(b"/data/models").unwrap();
    assert!(core.setup_parser_datadir(&dir, true).is_some());
    assert!(core.setup_parser_datadir(&dir, false).is_none());
    assert!(core.setup_language_classifier_datadir(&dir, true).is_some());
    assert!(core.setup_language_classifier_datadir(&dir, false).is_none());

    let parser = core.setup_parser(true).unwrap();
    let classifier = core.setup_language_classifier(true).unwrap();
    // Both capabilities stay bound to the session that made them: the
    // session is reachable, live, through either one.
    assert!(parser.session().get_default_options().lowercase);
    assert!(classifier.session().get_default_options().lowercase);

    assert!(st.release(core));
}
