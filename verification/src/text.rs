//! The three-way decoding policy for byte strings obtained from the engine.
//!
//! The engine reports text as C strings: either a null pointer or a sequence
//! of bytes that is only a *candidate* for UTF-8. A null reply stands here as
//! `None`, a non-null reply as `Some` of the bytes without their terminator.
//! Every text accessor in the crate offers the same triad: the raw bytes, a
//! validated string that fails on invalid UTF-8, and a lossy string that
//! substitutes the replacement character. The choice is deliberate and
//! visible; nothing converts silently.

use vstd::prelude::*;
use vstd::utf8::{decode_utf8, valid_utf8};

use crate::error::WhisperError;

verus! {

/// The characters that lossy UTF-8 decoding produces for the given bytes.
pub uninterp spec fn utf8_lossy(bytes: Seq<u8>) -> Seq<char>;

/// The bytes of an engine text reply; `None` stands for a null pointer.
pub open spec fn text_view(text: Option<Vec<u8>>) -> Option<Seq<u8>> {
    match text {
        None => None,
        Some(b) => Some(b@),
    }
}

/// What the raw-bytes decoder returns for a reply.
pub open spec fn spec_to_bytes(text: Option<Seq<u8>>) -> Result<Seq<u8>, WhisperError> {
    match text {
        None => Err(WhisperError::NullPointer),
        Some(b) => Ok(b),
    }
}

/// What the validating decoder returns for a reply.
pub open spec fn spec_to_str(text: Option<Seq<u8>>) -> Result<Seq<char>, WhisperError> {
    match text {
        None => Err(WhisperError::NullPointer),
        Some(b) => if valid_utf8(b) {
            Ok(decode_utf8(b))
        } else {
            Err(WhisperError::InvalidUtf8)
        },
    }
}

/// What the lossy decoder returns for a reply.
pub open spec fn spec_to_str_lossy(text: Option<Seq<u8>>) -> Result<Seq<char>, WhisperError> {
    match text {
        None => Err(WhisperError::NullPointer),
        Some(b) => Ok(utf8_lossy(b)),
    }
}

/// A byte-result seen at the level of the decoding policy.
pub open spec fn bytes_result_view(r: Result<Vec<u8>, WhisperError>) -> Result<
    Seq<u8>,
    WhisperError,
> {
    match r {
        Ok(b) => Ok(b@),
        Err(e) => Err(e),
    }
}

/// A string-result seen at the level of the decoding policy.
pub open spec fn str_result_view(r: Result<String, WhisperError>) -> Result<
    Seq<char>,
    WhisperError,
> {
    match r {
        Ok(s) => Ok(s@),
        Err(e) => Err(e),
    }
}

/// The lossy decoder fails only on a null reply: whenever the validating
/// decoder did not report `NullPointer`, the lossy decoder succeeds.
pub proof fn lemma_lossy_succeeds_without_null(text: Option<Seq<u8>>)
    ensures
        spec_to_str(text) != Err::<Seq<char>, WhisperError>(WhisperError::NullPointer)
            ==> spec_to_str_lossy(text) is Ok,
{
}

/// Relies on `String::from_utf8`: it succeeds exactly on the byte sequences
/// that are valid UTF-8, and then returns the string those bytes spell.
#[verifier::external_body]
fn string_from_utf8(bytes: Vec<u8>) -> (r: Option<String>)
    ensures
        r is Some <==> valid_utf8(bytes@),
        r matches Some(s) ==> s@ == decode_utf8(bytes@),
{
    String::from_utf8(bytes).ok()
}

/// Relies on `String::from_utf8_lossy`: the result is a function of the bytes
/// alone; valid UTF-8 is returned unchanged, and each invalid sequence is
/// replaced with U+FFFD.
#[verifier::external_body]
fn string_from_utf8_lossy(bytes: &Vec<u8>) -> (r: String)
    ensures
        r@ == utf8_lossy(bytes@),
        valid_utf8(bytes@) ==> r@ == decode_utf8(bytes@),
{
    String::from_utf8_lossy(bytes).into_owned()
}

/// Decode an engine text reply as raw bytes.
pub(crate) fn decode_bytes(text: &Option<Vec<u8>>) -> (r: Result<Vec<u8>, WhisperError>)
    ensures
        bytes_result_view(r) == spec_to_bytes(text_view(*text)),
{
    match text {
        None => Err(WhisperError::NullPointer),
        Some(b) => Ok(clone_bytes(b)),
    }
}

/// Decode an engine text reply as a validated string.
pub(crate) fn decode_str(text: &Option<Vec<u8>>) -> (r: Result<String, WhisperError>)
    ensures
        str_result_view(r) == spec_to_str(text_view(*text)),
{
    match text {
        None => Err(WhisperError::NullPointer),
        Some(b) => match string_from_utf8(clone_bytes(b)) {
            Some(s) => Ok(s),
            None => Err(WhisperError::InvalidUtf8),
        },
    }
}

/// Decode an engine text reply as a lossy string.
pub(crate) fn decode_str_lossy(text: &Option<Vec<u8>>) -> (r: Result<String, WhisperError>)
    ensures
        str_result_view(r) == spec_to_str_lossy(text_view(*text)),
{
    match text {
        None => Err(WhisperError::NullPointer),
        Some(b) => Ok(string_from_utf8_lossy(b)),
    }
}

/// Copy a byte buffer.
pub(crate) fn clone_bytes(b: &Vec<u8>) -> (r: Vec<u8>)
    ensures
        r@ == b@,
{
    let mut out: Vec<u8> = Vec::new();
    let mut i: usize = 0;
    while i < b.len()
        invariant
            i <= b@.len(),
            out@ == b@.subrange(0, i as int),
        decreases b@.len() - i,
    {
        out.push(b[i]);
        assert(out@ == b@.subrange(0, (i + 1) as int));
        i = i + 1;
    }
    assert(b@.subrange(0, b@.len() as int) == b@);
    out
}

} // verus!
