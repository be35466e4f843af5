//! The outcome rule of the bidirectional relay and its idle watchdog.
use vstd::prelude::*;

verus! {

/// How the two relay directions ended.
#[derive(Debug, Clone)]
pub enum RelayEnd {
    /// A direction reached the end of its stream.
    Closed,
    /// A direction failed at the transport level.
    Failed { cause: String },
    /// The watchdog fired before either direction ended.
    IdleTimeout,
}

/// A relay that ended through the error path.
#[derive(Debug, Clone)]
pub enum RelayError {
    Forward { cause: String },
}

/// The watchdog bound, in seconds, that a setting asks for; zero disables it.
pub open spec fn deadline_of(idle_timeout_secs: u64) -> Option<u64> {
    if idle_timeout_secs == 0 {
        None
    } else {
        Some(idle_timeout_secs)
    }
}

/// The result a relay end is reported as: only a transport failure is an error.
pub open spec fn outcome_of(end: RelayEnd) -> Result<(), RelayError> {
    match end {
        RelayEnd::Closed => Ok(()),
        RelayEnd::IdleTimeout => Ok(()),
        RelayEnd::Failed { cause } => Err(RelayError::Forward { cause }),
    }
}

/// The watchdog bound over the whole relay, or `None` when it is disabled.
pub fn idle_deadline(idle_timeout_secs: u64) -> (r: Option<u64>)
    ensures
        r == deadline_of(idle_timeout_secs),
{
    if idle_timeout_secs > 0 {
        Some(idle_timeout_secs)
    } else {
        None
    }
}

/// The result of a relay that ended as `end`. A watchdog expiry is a clean end.
pub fn relay_outcome(end: RelayEnd) -> (r: Result<(), RelayError>)
    ensures
        r == outcome_of(end),
{
    match end {
        RelayEnd::Closed => Ok(()),
        RelayEnd::IdleTimeout => Ok(()),
        RelayEnd::Failed { cause } => Err(RelayError::Forward { cause }),
    }
}

} // verus!
