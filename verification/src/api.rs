//! Admission of events: a submitted event is validated, then handed to the
//! batcher's queue without waiting; a full queue is answered with
//! backpressure.

use vstd::prelude::*;
use tokio::sync::mpsc::Sender;
use tokio::sync::mpsc::error::TrySendError;
use tokio::sync::watch::Receiver;
use crate::error::AppError;
use crate::models::EventInput;
use crate::sink::SinkError;

verus! {

/// `tokio::sync::mpsc::Sender`, the sending end of the bounded event queue;
/// opaque here.
#[verifier::external_type_specification]
#[verifier::external_body]
#[verifier::reject_recursive_types(T)]
pub struct ExSender<T>(Sender<T>);

/// `tokio::sync::watch::Receiver`, the receiving end of the shutdown signal;
/// opaque here.
#[verifier::external_type_specification]
#[verifier::external_body]
#[verifier::reject_recursive_types(T)]
pub struct ExReceiver<T>(Receiver<T>);

/// What the request handlers share: the sending end of the event queue and
/// the shutdown signal.
pub struct AppState {
    pub tx: Sender<EventInput>,
    pub shutdown_rx: Receiver<bool>,
}

impl AppState {
    pub fn new(tx: Sender<EventInput>, shutdown_rx: Receiver<bool>) -> (s: AppState)
        ensures
            s.tx == tx,
            s.shutdown_rx == shutdown_rx,
    {
        AppState { tx, shutdown_rx }
    }
}

/// Why the queue did not take an event.
#[derive(Debug, Clone, Copy, PartialEq, Eq, Structural)]
pub enum SendRejection {
    /// Every slot of the queue is taken.
    Full,
    /// The batcher no longer receives.
    Closed,
}

/// `tokio::sync::mpsc::Sender::try_send`: hands the event to the queue if a
/// slot is free, without waiting. Whether it does depends on the queue's
/// state, which nothing here models, so no outcome is promised; a refused
/// event is dropped. Only a validated event may be offered.
#[verifier::external_body]
fn try_send(tx: &Sender<EventInput>, event: EventInput) -> (r: Result<(), SendRejection>)
    requires
        event.spec_validate() is Ok,
{
    match tx.try_send(event) {
        Ok(()) => Ok(()),
        Err(TrySendError::Full(_)) => Err(SendRejection::Full),
        Err(TrySendError::Closed(_)) => Err(SendRejection::Closed),
    }
}

/// The answer for what the queue did with an event: a full queue is
/// backpressure, a closed one an internal error.
pub fn enqueue_outcome(sent: Result<(), SendRejection>) -> (r: Result<(), AppError>)
    ensures
        match sent {
            Ok(()) => r is Ok,
            Err(SendRejection::Full) => r matches Err(AppError::Backpressure),
            Err(SendRejection::Closed) => r matches Err(AppError::Internal(m)) && m@ == SinkError::ChannelClosed.spec_message(),
        },
{
    match sent {
        Ok(()) => Ok(()),
        Err(SendRejection::Full) => Err(AppError::Backpressure),
        Err(SendRejection::Closed) => Err(AppError::Internal(SinkError::ChannelClosed.message())),
    }
}

/// The validation of an event before it may be queued: the event itself
/// where it is valid, its validation error otherwise.
pub fn accept_event(input_event: EventInput) -> (r: Result<EventInput, AppError>)
    requires
        input_event.fits_in_memory(),
    ensures
        match input_event.spec_validate() {
            Ok(()) => r == Ok::<EventInput, AppError>(input_event),
            Err(e) => r == Err::<EventInput, AppError>(AppError::Validation(e)),
        },
{
    match input_event.validate() {
        Ok(()) => Ok(input_event),
        Err(e) => Err(AppError::Validation(e)),
    }
}

/// Admits an event: a refused event is answered with its validation error
/// and is not offered to the queue (only a validated event can be); a valid
/// event is offered to the queue as [`accept_event`] returns it, that is unchanged.
pub fn handle_create_event(state: &AppState, input_event: EventInput) -> (r: Result<(), AppError>)
    requires
        input_event.fits_in_memory(),
    ensures
        match input_event.spec_validate() {
            Err(e) => r == Err::<(), AppError>(AppError::Validation(e)),
            Ok(()) => r is Ok || r matches Err(AppError::Backpressure)
                || (r matches Err(AppError::Internal(m)) && m@ == SinkError::ChannelClosed.spec_message()),
        },
{
    match accept_event(input_event) {
        Err(e) => Err(e),
        Ok(accepted) => enqueue_outcome(try_send(&state.tx, accepted)),
    }
}

/// Events waiting in the queue: its bound less its free slots.
pub fn queue_depth(max_capacity: usize, capacity: usize) -> (depth: usize)
    requires
        capacity <= max_capacity,
    ensures
        depth == max_capacity - capacity,
{
    max_capacity - capacity
}

} // verus!
