use blazingrail::api::{accept_event, enqueue_outcome, handle_create_event, queue_depth, AppState, SendRejection};
use blazingrail::error::AppError;
use blazingrail::models::{EventInput, ValidationError};
use tokio::sync::{mpsc, watch};

fn event(event_type: &str) -> EventInput {
    EventInput { event_type: event_type.to_string(), payload: "{\"id\":42}".to_string() }
}

#[test]
fn valid_event_is_queued_until_full() {
    let (tx, mut rx) = mpsc::channel::<EventInput>(1);
    let (_stx, srx) = watch::channel(false);
    let state = AppState::new(tx, srx);
    assert!(handle_create_event(&state, event("a")).is_ok());
    assert!(matches!(handle_create_event(&state, event("b")), Err(AppError::Backpressure)));
    let got = rx.try_recv().unwrap();
    assert_eq!(got.event_type, "a");
    assert_eq!(got.payload, "{\"id\":42}");
    assert!(rx.try_recv().is_err());
}

#[test]
fn invalid_event_never_reaches_the_queue() {
    let (tx, mut rx) = mpsc::channel::<EventInput>(4);
    let (_stx, srx) = watch::channel(false);
    let state = AppState::new(tx, srx);
    match handle_create_event(&state, event("")) {
        Err(AppError::Validation(ValidationError::EmptyEventType)) => {}
        _ => panic!("expected a validation error"),
    }
    assert!(rx.try_recv().is_err());
}

#[test]
fn closed_queue_is_an_internal_error() {
    let (tx, rx) = mpsc::channel::<EventInput>(4);
    drop(rx);
    let (_stx, srx) = watch::channel(false);
    let state = AppState::new(tx, srx);
    match handle_create_event(&state, event("a")) {
        Err(AppError::Internal(m)) => assert_eq!(m, "Channel is closed"),
        _ => panic!("expected an internal error"),
    }
}

#[test]
fn enqueue_outcomes() {
    assert!(enqueue_outcome(Ok(())).is_ok());
    assert!(matches!(enqueue_outcome(Err(SendRejection::Full)), Err(AppError::Backpressure)));
    assert!(matches!(enqueue_outcome(Err(SendRejection::Closed)), Err(AppError::Internal(_))));
}

#[test]
fn queue_depth_is_bound_less_free_slots() {
    assert_eq!(queue_depth(16384, 16380), 4);
    assert_eq!(queue_depth(8, 8), 0);
}

#[test]
fn accepted_event_is_the_input_itself() {
    match accept_event(event("user_action")) {
        Ok(e) => {
            assert_eq!(e.event_type, "user_action");
            assert_eq!(e.payload, "{\"id\":42}");
        }
        Err(_) => panic!("expected the event back"),
    }
}

#[test]
fn refused_event_is_not_accepted() {
    match accept_event(event("")) {
        Err(AppError::Validation(ValidationError::EmptyEventType)) => {}
        _ => panic!("expected a validation error"),
    }
}

#[test]
fn queued_event_of_the_readme_example() {
    let (tx, mut rx) = mpsc::channel::<EventInput>(4);
    let (_stx, srx) = watch::channel(false);
    let state = AppState::new(tx, srx);
    assert!(handle_create_event(&state, event("user_action")).is_ok());
    assert_eq!(queue_depth(state.tx.max_capacity(), state.tx.capacity()), 1);
    let got = rx.try_recv().unwrap();
    assert_eq!(got.event_type, "user_action");
    assert_eq!(got.payload, "{\"id\":42}");
}
