//! Reading a payload as text.

use crate::error::MqError;
use vstd::prelude::*;
use vstd::utf8::*;

verus! {

/// The error of `core::str::from_utf8`. Nothing is read from it.
#[verifier::external_type_specification]
#[verifier::external_body]
pub struct ExUtf8Error(core::str::Utf8Error);

/// `core::str::from_utf8` succeeds exactly on the byte strings that are
/// valid UTF-8, and the string slice it then returns holds the characters
/// that those bytes encode.
pub assume_specification[ core::str::from_utf8 ](v: &[u8]) -> (r: Result<
    &str,
    core::str::Utf8Error,
>)
    ensures
        r is Ok <==> valid_utf8(v@),
        r matches Ok(s) ==> s@ == decode_utf8(v@),
;

/// What a payload reads as: its characters where the bytes are valid UTF-8,
/// the decode error where they are not.
pub open spec fn text_of(bytes: Seq<u8>) -> Result<Seq<char>, MqError> {
    if valid_utf8(bytes) {
        Ok(decode_utf8(bytes))
    } else {
        Err(MqError::DecodeError)
    }
}

/// Reads a payload as text.
pub fn decode_text(bytes: &[u8]) -> (r: Result<String, MqError>)
    ensures
        match r {
            Ok(s) => text_of(bytes@) == Ok::<Seq<char>, MqError>(s@),
            Err(e) => text_of(bytes@) == Err::<Seq<char>, MqError>(e),
        },
{
    match core::str::from_utf8(bytes) {
        Ok(s) => Ok(s.to_owned()),
        Err(_) => Err(MqError::DecodeError),
    }
}

/// Text that was written out as bytes reads back as the same text.
pub proof fn lemma_text_round_trip(chars: Seq<char>)
    ensures
        text_of(encode_utf8(chars)) == Ok::<Seq<char>, MqError>(chars),
{
    encode_utf8_valid_utf8(chars);
    encode_utf8_decode_utf8(chars);
}

} // verus!
