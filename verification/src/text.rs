//! Byte buffers as the host hands them over, and their decoding to text.

use crate::error::Error;
use core::str::Utf8Error;
use vstd::prelude::*;
use vstd::utf8::{decode_utf8, valid_utf8};

verus! {

#[verifier::external_type_specification]
#[verifier::external_body]
pub struct ExUtf8Error(Utf8Error);

/// `core::str::from_utf8`: succeeds exactly on well-formed UTF-8, and the
/// string slice it then returns holds the characters that the bytes encode.
/// Nothing is claimed about the error value.
pub assume_specification[ core::str::from_utf8 ](v: &[u8]) -> (r: Result<&str, Utf8Error>)
    ensures
        r is Ok <==> valid_utf8(v@),
        r matches Ok(s) ==> s@ == decode_utf8(v@),
;

/// A length-carrying byte buffer owned by the host. It need not end in a
/// NUL byte and need not hold valid text. `buf` is `None` where the host's
/// pointer is null.
pub struct AptStr {
    pub buf: Option<Vec<u8>>,
}

impl View for AptStr {
    type V = Option<Seq<u8>>;

    open spec fn view(&self) -> Option<Seq<u8>> {
        match self.buf {
            Some(bytes) => Some(bytes@),
            None => None,
        }
    }
}

/// The bytes a buffer carries, if it carries any: a null buffer and a
/// zero-length buffer both carry none.
pub open spec fn carried_bytes(buffer: Option<Seq<u8>>) -> Option<Seq<u8>> {
    match buffer {
        Some(bytes) if bytes.len() > 0 => Some(bytes),
        _ => None,
    }
}

/// What a buffer decodes to: no text where it carries no bytes, an error
/// where its bytes are not valid UTF-8, and otherwise the decoded text.
pub open spec fn decoded(buffer: Option<Seq<u8>>) -> Result<Option<Seq<char>>, Error> {
    match carried_bytes(buffer) {
        None => Ok(None),
        Some(bytes) => if valid_utf8(bytes) {
            Ok(Some(decode_utf8(bytes)))
        } else {
            Err(Error::InvalidText)
        },
    }
}

/// The text a buffer is known to hold: `Some` exactly where decoding
/// succeeds with text.
pub open spec fn present_text(buffer: Option<Seq<u8>>) -> Option<Seq<char>> {
    match decoded(buffer) {
        Ok(Some(text)) => Some(text),
        _ => None,
    }
}

/// The view of a decoding outcome, with the text as a sequence of
/// characters.
pub open spec fn outcome_view(outcome: Result<Option<String>, Error>) -> Result<
    Option<Seq<char>>,
    Error,
> {
    match outcome {
        Ok(Some(text)) => Ok(Some(text@)),
        Ok(None) => Ok(None),
        Err(e) => Err(e),
    }
}

/// Decodes a host buffer to text.
///
/// A null or zero-length buffer is absent text, not an empty string. Bytes
/// that are not valid UTF-8 are reported as `Error::InvalidText`.
pub fn apt_str_to_string(origin: &AptStr) -> (outcome: Result<Option<String>, Error>)
    ensures
        outcome_view(outcome) == decoded(origin@),
{
    match &origin.buf {
        None => Ok(None),
        Some(bytes) => {
            if bytes.len() == 0 {
                Ok(None)
            } else {
                match core::str::from_utf8(bytes.as_slice()) {
                    Ok(text) => Ok(Some(text.to_owned())),
                    Err(_) => Err(Error::InvalidText),
                }
            }
        },
    }
}

} // verus!
