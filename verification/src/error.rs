//! How a refused request is answered.

use vstd::prelude::*;
use vstd::string::*;
use crate::models::ValidationError;
use crate::text::{decimal_digits, u64_to_decimal};

verus! {

/// Why a request to ingest an event was refused.
#[derive(Debug)]
pub enum AppError {
    Validation(ValidationError),
    Backpressure,
    Internal(String),
}

/// The problem description sent back for a refused request.
pub struct ErrorResponse {
    pub status: u16,
    pub type_: String,
    pub title: String,
    pub details: String,
}

/// Where the problem types are documented; the status code follows.
pub open spec fn problem_type_base() -> Seq<char> {
    "https://api.blazingrail.dev/errors"@
}

impl AppError {
    pub open spec fn spec_status(&self) -> u16 {
        match self {
            AppError::Validation(_) => 400,
            AppError::Backpressure => 503,
            AppError::Internal(_) => 500,
        }
    }

    pub open spec fn spec_title(&self) -> Seq<char> {
        match self {
            AppError::Validation(_) => "Validation Error"@,
            AppError::Backpressure => "System Overloaded"@,
            AppError::Internal(_) => "Internal Error"@,
        }
    }

    pub open spec fn spec_details(&self) -> Seq<char> {
        match self {
            AppError::Validation(e) => e.spec_message(),
            AppError::Backpressure => "Event queue is full. Retry later"@,
            AppError::Internal(e) => e@,
        }
    }

    pub open spec fn spec_message(&self) -> Seq<char> {
        match self {
            AppError::Validation(e) => "validation failed "@ + e.spec_message(),
            AppError::Backpressure => "queue is full, backpressure applied"@,
            AppError::Internal(e) => "internal server error "@ + e@,
        }
    }

    /// The text of the error, as the service logs it.
    pub fn message(&self) -> (s: String)
        ensures
            s@ == self.spec_message(),
    {
        match self {
            AppError::Validation(e) => String::from_str("validation failed ").concat(e.message().as_str()),
            AppError::Backpressure => String::from_str("queue is full, backpressure applied"),
            AppError::Internal(e) => String::from_str("internal server error ").concat(e.as_str()),
        }
    }

    /// The HTTP status of the answer.
    pub fn status(&self) -> (code: u16)
        ensures
            code == self.spec_status(),
            self is Validation ==> code == 400,
            self is Backpressure ==> code == 503,
            self is Internal ==> code == 500,
    {
        match self {
            AppError::Validation(_) => 400,
            AppError::Backpressure => 503,
            AppError::Internal(_) => 500,
        }
    }

    /// The answer to a refused request: its status, a problem type made of
    /// the documentation address and the status, a title, and the details.
    pub fn into_response(&self) -> (r: ErrorResponse)
        ensures
            r.status == self.spec_status(),
            r.type_@ == problem_type_base() + decimal_digits(self.spec_status() as nat),
            self is Validation ==> r.status == 400 && r.title@ == "Validation Error"@,
            self is Backpressure ==> r.status == 503 && r.title@ == "System Overloaded"@,
            self is Internal ==> r.status == 500 && r.title@ == "Internal Error"@,
            self matches AppError::Validation(e) ==> r.details@ == e.spec_message(),
            r.title@ == self.spec_title(),
            r.details@ == self.spec_details(),
    {
        let status = self.status();
        let (title, details) = match self {
            AppError::Validation(e) => (String::from_str("Validation Error"), e.message()),
            AppError::Backpressure => (
                String::from_str("System Overloaded"),
                String::from_str("Event queue is full. Retry later"),
            ),
            AppError::Internal(e) => (String::from_str("Internal Error"), e.clone()),
        };
        let code = u64_to_decimal(status as u64);
        let type_ = String::from_str("https://api.blazingrail.dev/errors").concat(code.as_str());
        ErrorResponse { status, type_, title, details }
    }
}

/// A refused event is a client error: every validation error is answered
/// 400 with its own message; a full queue 503; an internal error 500 with
/// its text. The problem type ends with the status's digits.
pub proof fn lemma_refusal_answers()
    ensures
        forall|e: ValidationError| #[trigger] AppError::Validation(e).spec_status() == 400
            && AppError::Validation(e).spec_details() == e.spec_message()
            && AppError::Validation(e).spec_title() == "Validation Error"@,
        AppError::Backpressure.spec_status() == 503,
        forall|m: String| #[trigger] AppError::Internal(m).spec_status() == 500
            && AppError::Internal(m).spec_details() == m@,
        decimal_digits(400) == seq!['4', '0', '0'],
        decimal_digits(503) == seq!['5', '0', '3'],
        decimal_digits(500) == seq!['5', '0', '0'],
{
    reveal_with_fuel(decimal_digits, 3);
    assert(decimal_digits(4) =~= seq!['4']);
    assert(decimal_digits(40) =~= seq!['4', '0']);
    assert(decimal_digits(400) =~= seq!['4', '0', '0']);
    assert(decimal_digits(5) =~= seq!['5']);
    assert(decimal_digits(50) =~= seq!['5', '0']);
    assert(decimal_digits(503) =~= seq!['5', '0', '3']);
    assert(decimal_digits(500) =~= seq!['5', '0', '0']);
}

impl From<ValidationError> for AppError {
    fn from(err: ValidationError) -> (r: AppError) {
        AppError::Validation(err)
    }
}

impl vstd::std_specs::convert::FromSpecImpl<ValidationError> for AppError {
    open spec fn obeys_from_spec() -> bool {
        true
    }

    open spec fn from_spec(err: ValidationError) -> AppError {
        AppError::Validation(err)
    }
}

} // verus!
