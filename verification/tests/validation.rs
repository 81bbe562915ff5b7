use blazingrail::error::AppError;
use blazingrail::models::{EventInput, ValidationError};

fn event(event_type: &str, payload: &str) -> EventInput {
    EventInput { event_type: event_type.to_string(), payload: payload.to_string() }
}

#[test]
fn valid_event_passes() {
    assert_eq!(event("user_action", "{\"id\":42}").validate(), Ok(()));
}

#[test]
fn empty_event_type_is_refused() {
    assert_eq!(event("", "{}").validate(), Err(ValidationError::EmptyEventType));
}

#[test]
fn event_type_of_64_chars_passes() {
    assert_eq!(event(&"a".repeat(64), "{}").validate(), Ok(()));
}

#[test]
fn event_type_of_65_chars_is_refused() {
    assert_eq!(event(&"a".repeat(65), "{}").validate(), Err(ValidationError::EventTypeTooLong));
}

#[test]
fn event_type_is_measured_in_characters() {
    // 64 characters of two bytes each.
    assert_eq!(event(&"é".repeat(64), "{}").validate(), Ok(()));
    assert_eq!(event(&"é".repeat(65), "{}").validate(), Err(ValidationError::EventTypeTooLong));
}

#[test]
fn payload_of_4096_bytes_passes() {
    let payload = format!("\"{}\"", "x".repeat(4094));
    assert_eq!(payload.len(), 4096);
    assert_eq!(event("t", &payload).validate(), Ok(()));
}

#[test]
fn payload_over_4096_bytes_is_refused() {
    let payload = format!("\"{}\"", "x".repeat(4095));
    assert_eq!(event("t", &payload).validate(), Err(ValidationError::PayloadTooLarge));
}

#[test]
fn payload_is_measured_in_bytes() {
    // 2048 two-byte characters and the quotes: 4098 bytes.
    let payload = format!("\"{}\"", "é".repeat(2048));
    assert_eq!(event("t", &payload).validate(), Err(ValidationError::PayloadTooLarge));
}

#[test]
fn payload_size_is_checked_before_event_type() {
    let payload = format!("\"{}\"", "x".repeat(5000));
    assert_eq!(event("", &payload).validate(), Err(ValidationError::PayloadTooLarge));
}

#[test]
fn validation_messages() {
    assert_eq!(ValidationError::EmptyEventType.message(), "event_type cannot be empty");
    assert_eq!(ValidationError::EventTypeTooLong.message(), "event_type must be <= 64 chars");
    assert_eq!(ValidationError::PayloadTooLarge.message(), "payload exceeds 4Kb limit");
}

#[test]
fn validation_error_answer() {
    let r = AppError::Validation(ValidationError::EmptyEventType).into_response();
    assert_eq!(r.status, 400);
    assert_eq!(r.type_, "https://api.blazingrail.dev/errors400");
    assert_eq!(r.title, "Validation Error");
    assert_eq!(r.details, "event_type cannot be empty");
}

#[test]
fn backpressure_answer() {
    let r = AppError::Backpressure.into_response();
    assert_eq!(r.status, 503);
    assert_eq!(r.type_, "https://api.blazingrail.dev/errors503");
    assert_eq!(r.title, "System Overloaded");
    assert_eq!(r.details, "Event queue is full. Retry later");
}

#[test]
fn internal_error_answer() {
    let r = AppError::Internal("boom".to_string()).into_response();
    assert_eq!(r.status, 500);
    assert_eq!(r.type_, "https://api.blazingrail.dev/errors500");
    assert_eq!(r.title, "Internal Error");
    assert_eq!(r.details, "boom");
}

#[test]
fn app_error_messages() {
    assert_eq!(
        AppError::Validation(ValidationError::PayloadTooLarge).message(),
        "validation failed payload exceeds 4Kb limit"
    );
    assert_eq!(AppError::Backpressure.message(), "queue is full, backpressure applied");
    assert_eq!(AppError::Internal("x".to_string()).message(), "internal server error x");
    assert_eq!(AppError::Backpressure.status(), 503);
}

#[test]
fn validation_error_converts_into_app_error() {
    let e: AppError = ValidationError::EventTypeTooLong.into();
    assert!(matches!(e, AppError::Validation(ValidationError::EventTypeTooLong)));
}
