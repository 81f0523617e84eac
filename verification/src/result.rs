//! Application errors, and the payloads that tell a client about them.

use crate::text::optional_text;
use vstd::prelude::*;
use vstd::std_specs::convert::FromSpecImpl;
use vstd::string::*;

verus! {

/// `sqlx::Error`, an error of the database driver. It is carried along and
/// never looked into.
#[verifier::external_type_specification]
#[verifier::external_body]
pub struct ExDriverError(sqlx::Error);

/// `anyhow::Error`, an error of any origin. It is carried along and never
/// looked into.
#[verifier::external_type_specification]
#[verifier::external_body]
pub struct ExOtherError(anyhow::Error);

/// `validator::ValidationError`, one failed validation of a field. It is
/// carried along and never looked into.
#[verifier::external_type_specification]
#[verifier::external_body]
pub struct ExFieldFailure(validator::ValidationError);

/// `validator::ValidationErrors`, the failed validations of a struct. It is
/// looked into only through `ValidationErrors::field_errors`.
#[verifier::external_type_specification]
#[verifier::external_body]
pub struct ExFailures(validator::ValidationErrors);

/// The names of the fields of `errors` that failed validations of their own,
/// as `ValidationErrors::field_errors` tells them.
pub uninterp spec fn error_fields(errors: validator::ValidationErrors) -> Set<Seq<char>>;

/// The reason phrase that `StatusCode::canonical_reason` gives for a status
/// code, where it knows one.
pub uninterp spec fn reason_phrase(code: u16) -> Option<Seq<char>>;

/// 400 Bad Request.
pub const BAD_REQUEST: u16 = 400;

/// 404 Not Found.
pub const NOT_FOUND: u16 = 404;

/// 422 Unprocessable Entity.
pub const UNPROCESSABLE_ENTITY: u16 = 422;

/// 500 Internal Server Error.
pub const INTERNAL_SERVER_ERROR: u16 = 500;

/// The payload that tells of an error with a fixed message.
#[derive(Debug)]
pub struct InternalErrorPayload {
    pub code: Option<&'static str>,
    pub error: &'static str,
}

impl InternalErrorPayload {
    /// A payload with the message `error` and no code.
    pub fn init(error: &'static str) -> (payload: Self)
        ensures
            payload.code is None,
            payload.error@ == error@,
    {
        Self { code: None, error }
    }

    /// A payload with the reason phrase of a status code as its message, or
    /// with `"Unknown error"` where the code has none.
    pub fn with_reason(reason: Option<&'static str>) -> (payload: Self)
        ensures
            payload.code is None,
            payload.error@ == match optional_text(reason) {
                Some(phrase) => phrase,
                None => "Unknown error"@,
            },
    {
        match reason {
            Some(phrase) => Self::init(phrase),
            None => Self::init("Unknown error"),
        }
    }
}

/// The failed validations of one field.
#[derive(Debug)]
pub struct FieldErrors {
    /// The name of the field.
    pub field: String,
    /// What was found wrong with it.
    pub errors: Vec<validator::ValidationError>,
}

/// The names of the fields of a list of failed validations, in its order.
pub open spec fn field_names(entries: Seq<FieldErrors>) -> Seq<Seq<char>> {
    entries.map_values(|entry: FieldErrors| entry.field@)
}

/// The payload that tells of a rejected input: a message, and where fields
/// were validated one by one, what was found wrong with each.
#[derive(Debug)]
pub struct ValidationErrorPayload {
    /// A short code for the kind of error; left out of the payload when
    /// there is none.
    pub code: Option<String>,
    /// The message.
    pub error: String,
    /// The failed validations field by field, each field once; left out of
    /// the payload when fields were not validated one by one.
    pub field_errors: Option<Vec<FieldErrors>>,
}

/// The message of a payload that tells of `fields` fields with errors.
pub open spec fn validation_message(fields: nat) -> Seq<char> {
    if fields > 1 {
        "Validations error"@
    } else {
        "Validation error"@
    }
}

impl ValidationErrorPayload {
    /// What the payload says, field errors apart: its code and its message.
    pub open spec fn says(&self, code: Option<Seq<char>>, error: Seq<char>) -> bool {
        &&& self.error@ == error
        &&& match code {
            Some(text) => self.code matches Some(own) && own@ == text,
            None => self.code is None,
        }
    }

    /// No field is listed twice.
    pub open spec fn is_well_formed(&self) -> bool {
        self.field_errors matches Some(entries) ==> field_names(entries@).no_duplicates()
    }

    /// A payload with the message `detail`, without a code.
    pub fn new(detail: String) -> (payload: Self)
        ensures
            payload.says(None, detail@),
            payload.error == detail,
            payload.field_errors is None,
            payload.is_well_formed(),
    {
        ValidationErrorPayload { code: None, error: detail, field_errors: None }
    }

    /// A payload with the code `code_error` and the message `detail`.
    pub fn with_code(code_error: String, detail: String) -> (payload: Self)
        ensures
            payload.says(Some(code_error@), detail@),
            payload.code == Some(code_error),
            payload.error == detail,
            payload.field_errors is None,
            payload.is_well_formed(),
    {
        ValidationErrorPayload { code: Some(code_error), error: detail, field_errors: None }
    }

    /// The payload for fields that failed their validations: the code is
    /// `"validation_error"`, and the message is `"Validations error"` for
    /// more than one entry and `"Validation error"` otherwise. The entries
    /// are taken as they are; it is for the caller to list each field once.
    pub fn with_field_errors(entries: Vec<FieldErrors>) -> (payload: Self)
        ensures
            payload.says(Some("validation_error"@), validation_message(entries@.len())),
            payload.field_errors == Some(entries),
            payload.is_well_formed() <==> field_names(entries@).no_duplicates(),
    {
        let error = if entries.len() > 1 {
            String::from_str("Validations error")
        } else {
            String::from_str("Validation error")
        };
        ValidationErrorPayload {
            code: Some(String::from_str("validation_error")),
            error,
            field_errors: Some(entries),
        }
    }

    /// The payload for the failed validations of a struct. It lists the
    /// fields that failed validations of their own, each once and in no
    /// particular order.
    pub fn from_validation_errors(errors: &validator::ValidationErrors) -> (payload: Self)
        ensures
            payload.says(Some("validation_error"@), validation_message(error_fields(*errors).len())),
            payload.field_errors matches Some(entries) && field_names(entries@).to_set()
                == error_fields(*errors),
            payload.is_well_formed(),
    {
        let entries = field_errors(errors);
        proof {
            field_names(entries@).unique_seq_to_set();
        }
        Self::with_field_errors(entries)
    }
}

impl<'a> From<&'a validator::ValidationErrors> for ValidationErrorPayload {
    /// The payload for the failed validations of a struct, as
    /// `from_validation_errors` makes it.
    fn from(errors: &'a validator::ValidationErrors) -> (payload: Self)
        ensures
            payload.says(Some("validation_error"@), validation_message(error_fields(*errors).len())),
            payload.field_errors matches Some(entries) && field_names(entries@).to_set()
                == error_fields(*errors),
            payload.is_well_formed(),
    {
        Self::from_validation_errors(errors)
    }
}

impl<'a> FromSpecImpl<&'a validator::ValidationErrors> for ValidationErrorPayload {
    /// The order in which the fields are listed is not fixed, so the payload
    /// is no function of the failed validations.
    open spec fn obeys_from_spec() -> bool {
        false
    }

    open spec fn from_spec(errors: &'a validator::ValidationErrors) -> Self {
        arbitrary()
    }
}

/// Calls `ValidationErrors::field_errors`, which gives the failed
/// validations of each field that has some of its own, in a map under the
/// field's name. Taken on trust: every such field comes once, as a key of
/// a map does, and the names are those that `error_fields` stands for. The
/// order of the entries is that of a walk through the map, and not fixed.
#[verifier::external_body]
fn field_errors(errors: &validator::ValidationErrors) -> (entries: Vec<FieldErrors>)
    ensures
        field_names(entries@).no_duplicates(),
        field_names(entries@).to_set() == error_fields(*errors),
{
    errors.field_errors().into_iter().map(
        |(field, found)| FieldErrors { field: String::from(field), errors: found.clone() },
    ).collect()
}

/// Calls `StatusCode::canonical_reason`, which looks the status code up in
/// the table of standard reason phrases. Taken on trust: the result is what
/// `reason_phrase` stands for, and the table gives
/// `"Internal Server Error"` for 500. A number that `StatusCode::from_u16`
/// takes for no status code has no phrase.
#[verifier::external_body]
fn canonical_reason(code: u16) -> (reason: Option<&'static str>)
    ensures
        optional_text(reason) == reason_phrase(code),
        code == 500 ==> optional_text(reason) == Some("Internal Server Error"@),
{
    match actix_web::http::StatusCode::from_u16(code) {
        Ok(status) => status.canonical_reason(),
        Err(_) => None,
    }
}

/// Calls `to_string` on a `sqlx::Error`: the text that its `Display`
/// writes. Nothing is claimed of the text.
#[verifier::external_body]
fn driver_error_text(error: &sqlx::Error) -> (text: String) {
    error.to_string()
}

/// Calls `to_string` on an `anyhow::Error`: the text that its `Display`
/// writes. Nothing is claimed of the text.
#[verifier::external_body]
fn other_error_text(error: &anyhow::Error) -> (text: String) {
    error.to_string()
}

/// What went wrong while a request was handled.
#[derive(Debug)]
pub enum AppError {
    /// The input was rejected, for a reason that is a fixed text.
    /// Answered with 400 Bad Request.
    StaticValidation(&'static str),
    /// The input was rejected, for a reason that was put together for the
    /// occasion, under an optional code. Answered with 400 Bad Request.
    Validation(Option<&'static str>, String),
    /// The database failed: it cannot be reached, it timed out and so on.
    /// Answered with 500 Internal Server Error.
    DB(sqlx::Error),
    /// The resource that was asked for cannot be found, or was deleted.
    /// Answered with 404 Not Found.
    ResourceNotFound { resource: &'static str, attribute: &'static str, value: String },
    /// Anything else. Answered with 500 Internal Server Error.
    Unexpected(anyhow::Error),
}

/// What is said of a resource that was not found: for the resource `order`
/// looked up by `id` with the value `123`, it is
/// `order with id equals to "123" not found or was removed`.
pub open spec fn not_found_message(resource: Seq<char>, attribute: Seq<char>, value: Seq<char>) -> Seq<
    char,
> {
    resource + " with "@ + attribute + " equals to \""@ + value + "\" not found or was removed"@
}

/// The body of a response that tells of an error.
#[derive(Debug)]
pub enum ErrorBody {
    /// A fixed message, always with a code, which may be null.
    Internal(InternalErrorPayload),
    /// A message made for the occasion.
    Validation(ValidationErrorPayload),
}

impl ErrorBody {
    /// The code that the body carries.
    pub open spec fn code(&self) -> Option<Seq<char>> {
        match self {
            ErrorBody::Internal(payload) => match payload.code {
                Some(code) => Some(code@),
                None => None,
            },
            ErrorBody::Validation(payload) => match payload.code {
                Some(code) => Some(code@),
                None => None,
            },
        }
    }

    /// The message that the body carries.
    pub open spec fn error(&self) -> Seq<char> {
        match self {
            ErrorBody::Internal(payload) => payload.error@,
            ErrorBody::Validation(payload) => payload.error@,
        }
    }

    /// Whether the body lists errors field by field.
    pub open spec fn has_field_errors(&self) -> bool {
        self matches ErrorBody::Validation(payload) && payload.field_errors is Some
    }
}

/// The response that tells a client of an error: a status code and a body
/// for JSON.
#[derive(Debug)]
pub struct ErrorResponse {
    pub status: u16,
    pub body: ErrorBody,
}

impl AppError {
    /// The status code that the error is answered with.
    pub open spec fn status(&self) -> u16 {
        match self {
            AppError::StaticValidation(_) | AppError::Validation(_, _) => BAD_REQUEST,
            AppError::ResourceNotFound { .. } => NOT_FOUND,
            AppError::DB(_) | AppError::Unexpected(_) => INTERNAL_SERVER_ERROR,
        }
    }

    /// Whether the error came up inside the server, so that a client is told
    /// nothing of its cause.
    pub open spec fn is_internal(&self) -> bool {
        self is DB || self is Unexpected
    }

    /// Whether the body for the error is a fixed message.
    pub open spec fn body_is_fixed(&self) -> bool {
        self is StaticValidation || self.is_internal()
    }

    /// The code in the body for the error.
    pub open spec fn body_code(&self) -> Option<Seq<char>> {
        match self {
            AppError::Validation(Some(code), _) => Some(code@),
            AppError::ResourceNotFound { .. } => Some("not_found"@),
            _ => None,
        }
    }

    /// The message in the body for the error. An error that came up inside
    /// the server is told with the reason phrase of its status code,
    /// whatever its cause.
    pub open spec fn body_error(&self) -> Seq<char> {
        match self {
            AppError::StaticValidation(message) => message@,
            AppError::Validation(_, message) => message@,
            AppError::ResourceNotFound { resource, attribute, value } => not_found_message(
                resource@,
                attribute@,
                value@,
            ),
            AppError::DB(_) | AppError::Unexpected(_) => "Internal Server Error"@,
        }
    }

    /// Whether `response` is the response for the error.
    pub open spec fn is_answered_by(&self, response: ErrorResponse) -> bool {
        &&& response.status == self.status()
        &&& response.body is Internal <==> self.body_is_fixed()
        &&& response.body.code() == self.body_code()
        &&& response.body.error() == self.body_error()
        &&& !response.body.has_field_errors()
    }

    /// The status code that the error is answered with: 400 for a rejected
    /// input, 404 for a resource that was not found, 500 for the rest.
    pub fn status_code(&self) -> (code: u16)
        ensures
            code == self.status(),
            code == 400 || code == 404 || code == 500,
    {
        match self {
            AppError::StaticValidation(_) | AppError::Validation(_, _) => BAD_REQUEST,
            AppError::ResourceNotFound { .. } => NOT_FOUND,
            AppError::DB(_) | AppError::Unexpected(_) => INTERNAL_SERVER_ERROR,
        }
    }

    /// What the error says of itself. A rejected input says its reason, a
    /// resource that was not found says which one it is, and the other
    /// errors say what their cause says.
    pub fn message(&self) -> (text: String)
        ensures
            !self.is_internal() ==> text@ == self.body_error(),
    {
        match self {
            AppError::StaticValidation(message) => String::from_str(message),
            AppError::Validation(_, message) => message.clone(),
            AppError::ResourceNotFound { resource, attribute, value } => {
                let mut text = String::from_str(resource);
                text.append(" with ");
                text.append(attribute);
                text.append(" equals to \"");
                text.append(value.as_str());
                text.append("\" not found or was removed");
                text
            },
            AppError::DB(cause) => driver_error_text(cause),
            AppError::Unexpected(cause) => other_error_text(cause),
        }
    }

    /// The response that tells a client of the error. For an error that
    /// came up inside the server the body holds the reason phrase of the
    /// status code and nothing of the cause.
    pub fn error_response(&self) -> (response: ErrorResponse)
        ensures
            self.is_answered_by(response),
    {
        let status = self.status_code();
        let body = match self {
            AppError::Validation(code, error) => match code {
                None => ErrorBody::Validation(ValidationErrorPayload::new(error.clone())),
                Some(code) => ErrorBody::Validation(
                    ValidationErrorPayload::with_code(String::from_str(code), error.clone()),
                ),
            },
            AppError::StaticValidation(error) => ErrorBody::Internal(
                InternalErrorPayload::init(error),
            ),
            AppError::ResourceNotFound { .. } => ErrorBody::Validation(
                ValidationErrorPayload::with_code(String::from_str("not_found"), self.message()),
            ),
            AppError::DB(_) | AppError::Unexpected(_) => ErrorBody::Internal(
                InternalErrorPayload::with_reason(canonical_reason(status)),
            ),
        };
        ErrorResponse { status, body }
    }
}

/// What a call of the database driver came to, with a failure of the driver
/// told as a failure of the database. Nothing is retried and nothing else is
/// changed.
pub fn db_result<T>(outcome: Result<T, sqlx::Error>) -> (result: Result<T, AppError>)
    ensures
        result == match outcome {
            Ok(value) => Ok::<T, AppError>(value),
            Err(cause) => Err::<T, AppError>(AppError::DB(cause)),
        },
{
    match outcome {
        Ok(value) => Ok(value),
        Err(cause) => Err(AppError::DB(cause)),
    }
}

impl From<sqlx::Error> for AppError {
    fn from(cause: sqlx::Error) -> (error: Self) {
        AppError::DB(cause)
    }
}

impl FromSpecImpl<sqlx::Error> for AppError {
    open spec fn obeys_from_spec() -> bool {
        true
    }

    open spec fn from_spec(cause: sqlx::Error) -> Self {
        AppError::DB(cause)
    }
}

impl From<anyhow::Error> for AppError {
    fn from(cause: anyhow::Error) -> (error: Self) {
        AppError::Unexpected(cause)
    }
}

impl FromSpecImpl<anyhow::Error> for AppError {
    open spec fn obeys_from_spec() -> bool {
        true
    }

    open spec fn from_spec(cause: anyhow::Error) -> Self {
        AppError::Unexpected(cause)
    }
}

/// The response to an error depends on the error's kind and on what the
/// caller put into it, and on nothing else: two errors that came up inside
/// the server are answered alike, whatever their causes.
pub proof fn lemma_internal_errors_answered_alike(
    first: AppError,
    second: AppError,
    response: ErrorResponse,
)
    requires
        first.is_internal(),
        second.is_internal(),
        first.is_answered_by(response),
    ensures
        second.is_answered_by(response),
        response.status == 500,
        response.body.error() == "Internal Server Error"@,
        response.body.code() is None,
{
}

/// Every error has one of three status codes, and that code alone tells
/// whether the error came up inside the server.
pub proof fn lemma_status_is_total(error: AppError)
    ensures
        error.status() == 400 || error.status() == 404 || error.status() == 500,
        error.status() == 500 <==> error.is_internal(),
        error.status() == 404 <==> error is ResourceNotFound,
        error.status() == 400 <==> (error is StaticValidation || error is Validation),
{
}

} // verus!
