//! The event that clients submit, and the rules that an event must meet.

use vstd::prelude::*;
use vstd::string::*;
use vstd::utf8::encode_utf8;

verus! {

/// Largest accepted payload, in bytes of its serialized JSON text.
pub const MAX_PAYLOAD_BYTES: usize = 4096;

/// Largest accepted event type, in characters.
pub const MAX_EVENT_TYPE_CHARS: usize = 64;

/// Why an event was refused.
#[derive(Debug, Clone, Copy, PartialEq, Eq, Structural)]
pub enum ValidationError {
    EmptyEventType,
    EventTypeTooLong,
    PayloadTooLarge,
}

/// An event as it is ingested: its type, and its payload as raw JSON text.
#[derive(Debug)]
pub struct EventInput {
    pub event_type: String,
    pub payload: String,
}

/// Number of bytes of the UTF-8 encoding of `s`.
pub open spec fn utf8_len(s: Seq<char>) -> nat {
    encode_utf8(s).len()
}

/// The outcome of validation, checks taken in order: payload size in bytes,
/// then an empty type, then the type's length in characters.
pub open spec fn spec_validate(event_type: Seq<char>, payload: Seq<char>) -> Result<(), ValidationError> {
    if utf8_len(payload) > MAX_PAYLOAD_BYTES {
        Err(ValidationError::PayloadTooLarge)
    } else if event_type.len() == 0 {
        Err(ValidationError::EmptyEventType)
    } else if event_type.len() > MAX_EVENT_TYPE_CHARS {
        Err(ValidationError::EventTypeTooLong)
    } else {
        Ok(())
    }
}

impl ValidationError {
    /// The text of the error, as the service reports it.
    pub open spec fn spec_message(self) -> Seq<char> {
        match self {
            ValidationError::EmptyEventType => "event_type cannot be empty"@,
            ValidationError::EventTypeTooLong => "event_type must be <= 64 chars"@,
            ValidationError::PayloadTooLarge => "payload exceeds 4Kb limit"@,
        }
    }

    pub fn message(&self) -> (s: String)
        ensures
            s@ == self.spec_message(),
    {
        match self {
            ValidationError::EmptyEventType => String::from_str("event_type cannot be empty"),
            ValidationError::EventTypeTooLong => String::from_str("event_type must be <= 64 chars"),
            ValidationError::PayloadTooLarge => String::from_str("payload exceeds 4Kb limit"),
        }
    }
}

impl EventInput {
    pub open spec fn spec_validate(&self) -> Result<(), ValidationError> {
        spec_validate(self.event_type@, self.payload@)
    }

    /// The payload's byte length is one that a `usize` holds, as that of
    /// every string in memory is.
    pub open spec fn fits_in_memory(&self) -> bool {
        utf8_len(self.payload@) <= usize::MAX
    }

    /// Checks the event against the size and emptiness rules.
    pub fn validate(&self) -> (r: Result<(), ValidationError>)
        requires
            self.fits_in_memory(),
        ensures
            r == self.spec_validate(),
    {
        if self.payload.as_str().len() > MAX_PAYLOAD_BYTES {
            return Err(ValidationError::PayloadTooLarge);
        }
        if self.event_type.as_str().is_empty() {
            return Err(ValidationError::EmptyEventType);
        }
        if self.event_type.as_str().unicode_len() > MAX_EVENT_TYPE_CHARS {
            return Err(ValidationError::EventTypeTooLong);
        }
        Ok(())
    }
}

} // verus!
