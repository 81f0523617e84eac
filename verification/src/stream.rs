//! The body of an HTTP response as text.

use crate::result::AppError;
use vstd::prelude::*;
use vstd::utf8::{decode_utf8, valid_utf8};

verus! {

/// `std::string::FromUtf8Error`, which tells why bytes are no text. It is
/// carried along and never looked into.
#[verifier::external_type_specification]
#[verifier::external_body]
pub struct ExFromUtf8Error(std::string::FromUtf8Error);

/// `String::from_utf8` turns bytes into the text that they encode in UTF-8,
/// and fails exactly on bytes that are no valid UTF-8.
pub assume_specification[ String::from_utf8 ](bytes: Vec<u8>) -> (text: Result<
    String,
    std::string::FromUtf8Error,
>)
    ensures
        text is Ok <==> valid_utf8(bytes@),
        text matches Ok(text) ==> text@ == decode_utf8(bytes@),
;

/// Calls `anyhow::Error::from`, which wraps an error of any kind. Nothing is
/// claimed of the wrapped error.
#[verifier::external_body]
fn wrap_utf8_error(error: std::string::FromUtf8Error) -> (wrapped: anyhow::Error) {
    anyhow::Error::from(error)
}

/// The body of a response as text. The bytes have to be UTF-8; for other
/// bytes the result is an unexpected error.
pub fn read_body(bytes: Vec<u8>) -> (body: Result<String, AppError>)
    ensures
        valid_utf8(bytes@) ==> (body matches Ok(text) && text@ == decode_utf8(bytes@)),
        !valid_utf8(bytes@) ==> body matches Err(AppError::Unexpected(_)),
{
    match String::from_utf8(bytes) {
        Ok(text) => Ok(text),
        Err(error) => Err(AppError::Unexpected(wrap_utf8_error(error))),
    }
}

} // verus!
