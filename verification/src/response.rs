//! The response to a request whose payload or query string was rejected
//! before a handler saw it.

use crate::result::{
    error_fields, field_names, validation_message, ErrorBody, ErrorResponse,
    ValidationErrorPayload, BAD_REQUEST, UNPROCESSABLE_ENTITY,
};
use vstd::prelude::*;

verus! {

/// Why a payload or a query string was rejected.
#[derive(Debug)]
pub enum RequestError<'a> {
    /// It was read, and then failed its validations.
    Validate(&'a validator::ValidationErrors),
    /// The JSON payload could not be read; with what the reader says of it.
    JsonPayload(String),
    /// Anything else; with what the error says of itself.
    Other(String),
}

impl<'a> RequestError<'a> {
    /// The status code that the rejection is answered with: 422 for a JSON
    /// payload that could not be read, 400 for the rest.
    pub open spec fn status(&self) -> u16 {
        match self {
            RequestError::JsonPayload(_) => UNPROCESSABLE_ENTITY,
            _ => BAD_REQUEST,
        }
    }

    /// Whether `payload` is the body that tells of the rejection: failed
    /// validations are listed field by field under the code
    /// `"validation_error"`, and the other rejections are told in their own
    /// words, without a code.
    pub open spec fn is_told_by(&self, payload: ValidationErrorPayload) -> bool {
        match self {
            RequestError::Validate(errors) => {
                &&& payload.says(
                    Some("validation_error"@),
                    validation_message(error_fields(**errors).len()),
                )
                &&& payload.field_errors matches Some(entries) && field_names(entries@).to_set()
                    == error_fields(**errors)
            },
            RequestError::JsonPayload(text) | RequestError::Other(text) => {
                &&& payload.says(None, text@)
                &&& payload.field_errors is None
            },
        }
    }
}

/// The response to a rejected payload or query string: a status code, and a
/// body for JSON that describes what was wrong.
pub fn json_error_handler(err: RequestError) -> (response: ErrorResponse)
    ensures
        response.status == err.status(),
        response.body matches ErrorBody::Validation(payload) && err.is_told_by(payload)
            && payload.is_well_formed(),
{
    match err {
        RequestError::Validate(errors) => ErrorResponse {
            status: BAD_REQUEST,
            body: ErrorBody::Validation(ValidationErrorPayload::from_validation_errors(errors)),
        },
        RequestError::JsonPayload(text) => ErrorResponse {
            status: UNPROCESSABLE_ENTITY,
            body: ErrorBody::Validation(ValidationErrorPayload::new(text)),
        },
        RequestError::Other(text) => ErrorResponse {
            status: BAD_REQUEST,
            body: ErrorBody::Validation(ValidationErrorPayload::new(text)),
        },
    }
}

} // verus!
