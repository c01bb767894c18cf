//! Operations of a live session, and its scoped sub-capabilities.
//!
//! Everything here is reachable only through a `Core`, the capability
//! token a successful acquisition issued: holding one proves the engine
//! is initialized. The per-call entry points — expansion, parser and
//! classifier construction — need no lock; only init and teardown
//! transitions do, and those live in `lifecycle`.
//!
//! The two expansion entry points of the boundary (plain and root form)
//! share one marshalling discipline, stated here once: the input is
//! rejected before the boundary if it holds an embedded null byte, and
//! the copied result array is decoded entry for entry.

use vstd::prelude::*;
use vstd::string::StringSliceAdditionalSpecFns;

use crate::lifecycle::Core;
use crate::marshal;
use crate::marshal::CBuffer;
use crate::marshal::ExpansionArray;
use crate::marshal::MarshalError;
use crate::options::NormalizeOptions;
use crate::options::default_options;
use crate::options::is_default_options;

verus! {

/// A parser capability: constructible only from a live session, and —
/// by the borrow it holds — unable to outlive it.
pub struct AddressParser<'a> {
    session: &'a Core,
}

impl<'a> AddressParser<'a> {
    /// The session this capability is bound to.
    pub closed spec fn spec_session(&self) -> &'a Core {
        self.session
    }

    /// The session this capability is bound to.
    pub fn session(&self) -> (r: &'a Core)
        ensures
            r == self.spec_session(),
    {
        self.session
    }
}

/// A language-classifier capability, bound to its session exactly as
/// `AddressParser` is.
pub struct LanguageClassifier<'a> {
    session: &'a Core,
}

impl<'a> LanguageClassifier<'a> {
    /// The session this capability is bound to.
    pub closed spec fn spec_session(&self) -> &'a Core {
        self.session
    }

    /// The session this capability is bound to.
    pub fn session(&self) -> (r: &'a Core)
        ensures
            r == self.spec_session(),
    {
        self.session
    }
}

impl Core {
    /// The engine's documented default option record. Pure: the record
    /// the native engine hands back by value is a fixed, documented
    /// default, transcribed here field for field.
    pub fn get_default_options(&self) -> (r: NormalizeOptions)
        ensures
            is_default_options(r),
    {
        default_options()
    }

    /// Marshal the input text of one expansion call. The text is
    /// rejected here, before anything reaches the native boundary, if
    /// and only if it holds an embedded null byte; otherwise the
    /// returned buffer is exactly the text's bytes, null-terminated.
    ///
    /// The plain and the root expansion entry point take the same input
    /// in the same form; both are served by this one function.
    pub fn expand_request(&self, input: &str) -> (r: Result<CBuffer, MarshalError>)
        ensures
            r is Ok <==> !marshal::has_nul(input.spec_bytes()),
            r matches Ok(c) ==> c.wf() && c.content() == input.spec_bytes(),
            r matches Err(MarshalError::EmbeddedNul { position }) ==> {
                &&& position < input.spec_bytes().len()
                &&& input.spec_bytes()[position as int] == 0
                &&& forall|j: int| 0 <= j < position ==> input.spec_bytes()[j] != 0
            },
    {
        marshal::to_c_buffer(input)
    }

    /// Decode the copied result array of one expansion call: exactly one
    /// owned host byte string per native string, each matching the
    /// native bytes before the terminator. Consumes the array; the
    /// native allocation it was copied from is then released, once,
    /// through the engine's dedicated array destructor.
    pub fn expand_result(&self, raw: ExpansionArray) -> (r: Vec<Vec<u8>>)
        requires
            raw.wf(),
        ensures
            r@.len() == raw.entries@.len(),
            forall|i: int|
                0 <= i < r@.len() ==> r@[i]@ == marshal::c_buffer_content(raw.entries@[i]@),
    {
        marshal::decode_expansions(raw)
    }

    /// Construct a parser capability, `native_ok` being what the native
    /// parser setup call reported: a capability is issued exactly on
    /// success, and it cannot outlive this session.
    pub fn setup_parser<'a>(&'a self, native_ok: bool) -> (r: Option<AddressParser<'a>>)
        ensures
            r is Some <==> native_ok,
            r matches Some(p) ==> p.spec_session() == self,
    {
        if native_ok {
            Some(AddressParser { session: self })
        } else {
            None
        }
    }

    /// Construct a parser capability whose native setup was pointed at
    /// `directory` — a buffer this session marshalled, so known
    /// well-formed. Carries the same hazard as a directory acquisition:
    /// on success the engine re-homed its data directory globally.
    pub fn setup_parser_datadir<'a>(&'a self, directory: &CBuffer, native_ok: bool) -> (r: Option<
        AddressParser<'a>,
    >)
        requires
            directory.wf(),
        ensures
            r is Some <==> native_ok,
            r matches Some(p) ==> p.spec_session() == self,
    {
        if native_ok {
            Some(AddressParser { session: self })
        } else {
            None
        }
    }

    /// Construct a language-classifier capability; symmetric to
    /// `setup_parser`.
    pub fn setup_language_classifier<'a>(&'a self, native_ok: bool) -> (r: Option<
        LanguageClassifier<'a>,
    >)
        ensures
            r is Some <==> native_ok,
            r matches Some(c) ==> c.spec_session() == self,
    {
        if native_ok {
            Some(LanguageClassifier { session: self })
        } else {
            None
        }
    }

    /// Construct a language-classifier capability with a data directory;
    /// symmetric to `setup_parser_datadir`, hazard included.
    pub fn setup_language_classifier_datadir<'a>(
        &'a self,
        directory: &CBuffer,
        native_ok: bool,
    ) -> (r: Option<LanguageClassifier<'a>>)
        requires
            directory.wf(),
        ensures
            r is Some <==> native_ok,
            r matches Some(c) ==> c.spec_session() == self,
    {
        if native_ok {
            Some(LanguageClassifier { session: self })
        } else {
            None
        }
    }
}

} // verus!
