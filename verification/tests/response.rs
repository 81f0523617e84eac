use actix_contrib_rest::response::{json_error_handler, RequestError};
use actix_contrib_rest::result::ErrorBody;
use validator::{ValidationError, ValidationErrors};

#[test]
fn failed_validations_are_bad_requests_with_field_errors() {
    let mut errors = ValidationErrors::new();
    errors.add("name", ValidationError::new("length"));
    let response = json_error_handler(RequestError::Validate(&errors));
    assert_eq!(response.status, 400);
    match response.body {
        ErrorBody::Validation(payload) => {
            assert_eq!(payload.code, Some(String::from("validation_error")));
            assert_eq!(payload.error, "Validation error");
            let entries = payload.field_errors.unwrap();
            assert_eq!(entries.len(), 1);
            assert_eq!(entries[0].field, "name");
            assert_eq!(entries[0].errors, vec![ValidationError::new("length")]);
        }
        ErrorBody::Internal(_) => panic!("a validation payload was expected"),
    }
}

#[test]
fn failed_validations_of_two_fields_use_the_plural() {
    let mut errors = ValidationErrors::new();
    errors.add("name", ValidationError::new("length"));
    errors.add("age", ValidationError::new("range"));
    let response = json_error_handler(RequestError::Validate(&errors));
    assert_eq!(response.status, 400);
    match response.body {
        ErrorBody::Validation(payload) => assert_eq!(payload.error, "Validations error"),
        ErrorBody::Internal(_) => panic!("a validation payload was expected"),
    }
}

#[test]
fn unreadable_json_is_unprocessable() {
    let response = json_error_handler(RequestError::JsonPayload(String::from(
        "Json deserialize error: missing field `name` at line 1 column 2",
    )));
    assert_eq!(response.status, 422);
    match response.body {
        ErrorBody::Validation(payload) => {
            assert_eq!(payload.code, None);
            assert_eq!(
                payload.error,
                "Json deserialize error: missing field `name` at line 1 column 2"
            );
            assert!(payload.field_errors.is_none());
        }
        ErrorBody::Internal(_) => panic!("a validation payload was expected"),
    }
}

#[test]
fn other_rejections_are_bad_requests() {
    let response =
        json_error_handler(RequestError::Other(String::from("Query error: unknown field")));
    assert_eq!(response.status, 400);
    match response.body {
        ErrorBody::Validation(payload) => {
            assert_eq!(payload.code, None);
            assert_eq!(payload.error, "Query error: unknown field");
            assert!(payload.field_errors.is_none());
        }
        ErrorBody::Internal(_) => panic!("a validation payload was expected"),
    }
}
