//! Marshalling between host values and the native call boundary.
//!
//! The boundary speaks in null-terminated byte buffers and C-style arrays
//! of such buffers. Everything that crosses it goes through this module:
//! host strings become owned null-terminated buffers (refusing strings
//! that already hold a null byte), and copied native result arrays become
//! owned host byte strings.

use vstd::prelude::*;
use vstd::string::StringSliceAdditionalSpecFns;

verus! {

/// Failure of converting a host value for the native call boundary.
#[derive(Debug, PartialEq, Eq)]
pub enum MarshalError {
    /// The host byte string holds a null byte at the given position, so
    /// it cannot cross the boundary as a null-terminated buffer.
    EmbeddedNul { position: usize },
}

/// A well-formed C buffer: non-empty, one terminating null byte, and no
/// null byte before it.
pub open spec fn is_c_buffer(b: Seq<u8>) -> bool {
    &&& b.len() > 0
    &&& b[b.len() - 1] == 0
    &&& forall|i: int| 0 <= i < b.len() - 1 ==> b[i] != 0
}

/// The bytes a C buffer carries: everything before the terminator.
pub open spec fn c_buffer_content(b: Seq<u8>) -> Seq<u8> {
    b.subrange(0, b.len() - 1)
}

/// Whether a host byte string holds a null byte anywhere.
pub open spec fn has_nul(b: Seq<u8>) -> bool {
    exists|i: int| 0 <= i < b.len() && b[i] == 0
}

/// An owned null-terminated buffer, ready to be handed to the native
/// boundary.
pub struct CBuffer {
    pub bytes: Vec<u8>,
}

impl CBuffer {
    /// The buffer really is null-terminated with no embedded null.
    pub open spec fn wf(&self) -> bool {
        is_c_buffer(self.bytes@)
    }

    /// The bytes the buffer carries, terminator excluded.
    pub open spec fn content(&self) -> Seq<u8> {
        c_buffer_content(self.bytes@)
    }

    /// Length of the buffer, terminator included.
    pub fn len(&self) -> (n: usize)
        ensures
            n == self.bytes@.len(),
    {
        self.bytes.len()
    }
}

/// Append a terminating null byte to `b`, refusing byte strings that
/// already hold one: the boundary has no way to see past an embedded
/// null, so such an input must be rejected before it crosses.
pub fn bytes_to_c_buffer(b: &[u8]) -> (r: Result<CBuffer, MarshalError>)
    ensures
        r is Ok <==> !has_nul(b@),
        r matches Ok(c) ==> c.wf() && c.content() == b@ && c.bytes@ == b@.push(0u8),
        r matches Err(MarshalError::EmbeddedNul { position }) ==> {
            &&& position < b@.len()
            &&& b@[position as int] == 0
            &&& forall|j: int| 0 <= j < position ==> b@[j] != 0
        },
{
    let mut out: Vec<u8> = Vec::new();
    let mut i: usize = 0;
    while i < b.len()
        invariant
            i <= b@.len(),
            out@ == b@.subrange(0, i as int),
            forall|j: int| 0 <= j < i ==> b@[j] != 0,
        decreases b@.len() - i,
    {
        let byte = b[i];
        if byte == 0 {
            return Err(MarshalError::EmbeddedNul { position: i });
        }
        out.push(byte);
        i += 1;
    }
    proof {
        assert(b@.subrange(0, b@.len() as int) =~= b@);
    }
    out.push(0);
    let c = CBuffer { bytes: out };
    proof {
        assert(c.bytes@ =~= b@.push(0u8));
        assert(c.content() =~= b@);
    }
    Ok(c)
}

/// Marshal a host string for the boundary: its UTF-8 bytes with a
/// terminating null appended, or an error naming the first embedded null.
pub fn to_c_buffer(s: &str) -> (r: Result<CBuffer, MarshalError>)
    ensures
        r is Ok <==> !has_nul(s.spec_bytes()),
        r matches Ok(c) ==> c.wf() && c.content() == s.spec_bytes(),
        r matches Err(MarshalError::EmbeddedNul { position }) ==> {
            &&& position < s.spec_bytes().len()
            &&& s.spec_bytes()[position as int] == 0
            &&& forall|j: int| 0 <= j < position ==> s.spec_bytes()[j] != 0
        },
{
    bytes_to_c_buffer(s.as_bytes())
}

/// One copied native string, decoded: the bytes before the terminator,
/// as an owned host byte string.
pub fn decode_c_string(b: &Vec<u8>) -> (r: Vec<u8>)
    requires
        is_c_buffer(b@),
    ensures
        r@ == c_buffer_content(b@),
{
    let mut out: Vec<u8> = Vec::new();
    let mut i: usize = 0;
    let end = b.len() - 1;
    while i < end
        invariant
            is_c_buffer(b@),
            end == b@.len() - 1,
            i <= end,
            out@ == b@.subrange(0, i as int),
        decreases end - i,
    {
        out.push(b[i]);
        i += 1;
    }
    proof {
        assert(out@ =~= c_buffer_content(b@));
    }
    out
}

/// The copied contents of one native result array: each entry the raw
/// bytes, terminator included, of one null-terminated native string.
///
/// A value of this type stands for a native allocation that has been
/// copied but not yet released. It is consumed, by move, exactly once —
/// by `decode_expansions` — after which the caller's only remaining duty
/// toward the native allocation is to release it, once, through the
/// engine's dedicated array destructor.
pub struct ExpansionArray {
    pub entries: Vec<Vec<u8>>,
}

impl ExpansionArray {
    /// Every entry is a well-formed C buffer.
    pub open spec fn wf(&self) -> bool {
        forall|i: int| 0 <= i < self.entries@.len() ==> is_c_buffer(self.entries@[i]@)
    }

    /// Number of native strings in the array.
    pub fn len(&self) -> (n: usize)
        ensures
            n == self.entries@.len(),
    {
        self.entries.len()
    }
}

/// Decode every entry of a copied native result array into an owned host
/// byte string. An empty array decodes to an empty sequence: zero-length
/// results are valid, not an error.
pub fn decode_expansions(arr: ExpansionArray) -> (r: Vec<Vec<u8>>)
    requires
        arr.wf(),
    ensures
        r@.len() == arr.entries@.len(),
        forall|i: int| 0 <= i < r@.len() ==> r@[i]@ == c_buffer_content(arr.entries@[i]@),
{
    let mut out: Vec<Vec<u8>> = Vec::new();
    let mut i: usize = 0;
    while i < arr.entries.len()
        invariant
            arr.wf(),
            i <= arr.entries@.len(),
            out@.len() == i,
            forall|j: int| 0 <= j < i ==> out@[j]@ == c_buffer_content(arr.entries@[j]@),
        decreases arr.entries@.len() - i,
    {
        let s = decode_c_string(&arr.entries[i]);
        out.push(s);
        i += 1;
    }
    out
}

} // verus!
