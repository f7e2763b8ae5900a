use crate::error::QuotaError;
use vstd::prelude::*;

verus! {

/// How many times one event's read, decide and write cycle may run.
pub const MAX_APPLY_ATTEMPTS: u32 = 3;

/// What the ingestion loop does after a write attempt.
#[derive(Clone, Copy, Debug, PartialEq, Eq, Structural)]
pub enum NextStep {
    /// The event is accounted.
    Finished,
    /// Read the record again, decide again and write again.
    Retry,
    /// The event failed; other events go on.
    Fail(QuotaError),
}

/// The step after write attempt number `attempt` (counted from 1) ended with
/// `outcome`: only a stale write is retried, and only while attempts remain.
pub open spec fn step_after(attempt: u32, outcome: Result<(), QuotaError>) -> NextStep {
    match outcome {
        Ok(()) => NextStep::Finished,
        Err(QuotaError::StaleWrite) => if attempt < MAX_APPLY_ATTEMPTS {
            NextStep::Retry
        } else {
            NextStep::Fail(QuotaError::StaleWrite)
        },
        Err(e) => NextStep::Fail(e),
    }
}

pub fn next_step(attempt: u32, outcome: Result<(), QuotaError>) -> (r: NextStep)
    ensures
        r == step_after(attempt, outcome),
{
    match outcome {
        Ok(()) => NextStep::Finished,
        Err(QuotaError::StaleWrite) => {
            if attempt < MAX_APPLY_ATTEMPTS {
                NextStep::Retry
            } else {
                NextStep::Fail(QuotaError::StaleWrite)
            }
        },
        Err(e) => NextStep::Fail(e),
    }
}

/// The API key an event carries: its body, unless it is missing or empty.
pub fn event_api_key(body: Option<String>) -> (r: Result<String, QuotaError>)
    ensures
        match body {
            Some(s) => if s@.len() > 0 {
                r == Ok::<String, QuotaError>(s)
            } else {
                r == Err::<String, QuotaError>(QuotaError::MalformedEvent)
            },
            None => r == Err::<String, QuotaError>(QuotaError::MalformedEvent),
        },
{
    match body {
        Some(s) => {
            if s.as_str().unicode_len() > 0 {
                Ok(s)
            } else {
                Err(QuotaError::MalformedEvent)
            }
        },
        None => Err(QuotaError::MalformedEvent),
    }
}

} // verus!
