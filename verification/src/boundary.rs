//! Boundary value transfer: owned host strings to and from the
//! NUL-terminated byte buffers the native engine expects.
//!
//! Every buffer handed to native code is the UTF-8 bytes of the text,
//! none of them zero, followed by one terminating zero byte.  A null
//! pointer coming back from native code stands for "no value" and is
//! carried here as `None`.

use vstd::prelude::*;
use vstd::string::StrSliceExecFns;

verus! {

broadcast use vstd::utf8::group_utf8_lib;

/// Errors from moving a value across the language boundary.
#[derive(Debug, Clone, Copy, PartialEq, Eq, Structural)]
pub enum BoundaryError {
    /// The text's UTF-8 bytes hold a zero byte, so the text cannot be
    /// carried as a NUL-terminated buffer.
    InteriorNul,
}

/// True when no byte of `b` is zero.
pub open spec fn nul_free(b: Seq<u8>) -> bool {
    forall|i: int| 0 <= i < b.len() ==> b[i] != 0u8
}

/// An owned byte buffer in the shape the native engine expects: content
/// bytes, none of them zero, then one terminating zero byte.
#[derive(Debug)]
pub struct ForeignBuffer {
    bytes: Vec<u8>,
}

impl View for ForeignBuffer {
    type V = Seq<u8>;

    closed spec fn view(&self) -> Seq<u8> {
        self.bytes@
    }
}

impl ForeignBuffer {
    /// The buffer's content: everything before the terminator.
    pub open spec fn content(self) -> Seq<u8> {
        self@.take(self@.len() - 1)
    }

    pub open spec fn wf(self) -> bool {
        &&& self@.len() >= 1
        &&& self@.last() == 0u8
        &&& nul_free(self.content())
    }

    /// The buffer for the empty text: nothing but the terminator.
    pub fn empty() -> (r: ForeignBuffer)
        ensures
            r.wf(),
            r.content() == Seq::<u8>::empty(),
    {
        let mut bytes: Vec<u8> = Vec::new();
        bytes.push(0);
        let buf = ForeignBuffer { bytes };
        assert(buf.content() =~= Seq::<u8>::empty());
        buf
    }

    /// Frees the buffer.  Ownership ends here, so each buffer is released
    /// exactly once: a released buffer cannot be passed anywhere again.
    pub fn release(self) {
    }

    /// The raw bytes, terminator included, for the caller that makes the
    /// native call.
    pub fn as_bytes(&self) -> (r: &Vec<u8>)
        ensures
            r@ == self@,
    {
        &self.bytes
    }

    /// Gives the buffer up to the caller, terminator included.
    pub fn into_bytes(self) -> (r: Vec<u8>)
        ensures
            r@ == self@,
    {
        self.bytes
    }
}

/// Relies on core::str::from_utf8: it returns `Ok` exactly when the bytes
/// are valid UTF-8, and then a view of those bytes decoded; the body only
/// turns that view into an owned string.
#[verifier::external_body]
fn utf8_to_string(bytes: &Vec<u8>) -> (r: Option<String>)
    ensures
        r is Some <==> vstd::utf8::valid_utf8(bytes@),
        r is Some ==> r->0@ == vstd::utf8::decode_utf8(bytes@),
{
    match core::str::from_utf8(bytes.as_slice()) {
        Ok(s) => Some(s.to_owned()),
        Err(_) => None,
    }
}

/// Allocates the foreign-encoded copy of `text`: its UTF-8 bytes followed
/// by a terminating zero.  Fails exactly when the bytes hold an interior
/// zero, which a NUL-terminated buffer cannot carry.
pub fn to_foreign(text: &str) -> (r: Result<ForeignBuffer, BoundaryError>)
    ensures
        r is Ok <==> nul_free(vstd::utf8::encode_utf8(text@)),
        r is Ok ==> (r->Ok_0).wf() && (r->Ok_0).content() == vstd::utf8::encode_utf8(text@),
        r is Err ==> r->Err_0 == BoundaryError::InteriorNul,
{
    let mut bytes = text.as_bytes_vec();
    let mut i: usize = 0;
    while i < bytes.len()
        invariant
            bytes@ == vstd::utf8::encode_utf8(text@),
            0 <= i <= bytes@.len(),
            forall|t: int| 0 <= t < i ==> bytes@[t] != 0u8,
        decreases bytes@.len() - i,
    {
        if bytes[i] == 0 {
            return Err(BoundaryError::InteriorNul);
        }
        i += 1;
    }
    bytes.push(0);
    let buf = ForeignBuffer { bytes };
    assert(buf.content() =~= vstd::utf8::encode_utf8(text@));
    Ok(buf)
}

/// The optional-value variant: `None` becomes `None`, standing for the
/// null pointer handed to native code in place of a buffer.
pub fn to_foreign_opt(text: Option<&str>) -> (r: Result<Option<ForeignBuffer>, BoundaryError>)
    ensures
        text is None ==> r == Ok::<Option<ForeignBuffer>, BoundaryError>(None),
        text is Some ==> {
            let b = vstd::utf8::encode_utf8(text->0@);
            &&& (r is Ok <==> nul_free(b))
            &&& (r is Ok ==> r->Ok_0 is Some && (r->Ok_0->0).wf() && (r->Ok_0->0).content() == b)
            &&& (r is Err ==> r->Err_0 == BoundaryError::InteriorNul)
        },
{
    match text {
        None => Ok(None),
        Some(t) => match to_foreign(t) {
            Ok(buf) => Ok(Some(buf)),
            Err(e) => Err(e),
        },
    }
}

/// Copies a host string out of bytes received from native code.  `None`
/// stands for the null pointer and yields "no value"; bytes that are not
/// valid UTF-8 also yield "no value" — a quiet failure, never a fault.
pub fn from_foreign(raw: Option<Vec<u8>>) -> (r: Option<String>)
    ensures
        raw is None ==> r is None,
        r is Some <==> raw is Some && vstd::utf8::valid_utf8(raw->0@),
        r is Some ==> r->0@ == vstd::utf8::decode_utf8(raw->0@),
{
    match raw {
        None => None,
        Some(bytes) => utf8_to_string(&bytes),
    }
}

/// Round trip across the boundary: a string whose encoding survives
/// `to_foreign` is read back unchanged from the buffer's content.
pub proof fn lemma_boundary_round_trip(text: Seq<char>)
    ensures
        vstd::utf8::valid_utf8(vstd::utf8::encode_utf8(text)),
        vstd::utf8::decode_utf8(vstd::utf8::encode_utf8(text)) == text,
{
}

} // verus!
