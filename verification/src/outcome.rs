//! Per-request outcome classification: from the observed response status (or
//! its absence, on a transport failure) to the recorded entry.

use vstd::prelude::*;
use crate::variant::WorkloadVariant;

verus! {

/// One measured request: whether it met its variant's expectation, and the
/// wall-clock microseconds the call took.
#[derive(Clone, Copy, PartialEq, Eq, Structural, Debug)]
pub struct ExperimentEntry {
    pub success: bool,
    pub time_us: u128,
}

/// A status code of the redirection class.
pub open spec fn spec_is_redirection(status: u16) -> bool {
    300 <= status < 400
}

/// A status code of the success class.
pub open spec fn spec_is_success(status: u16) -> bool {
    200 <= status < 300
}

/// What counts as success for a variant, given the response status, or
/// `None` for a transport failure (connection refused, timeout, DNS).
/// A redirect probe expects a redirection-class status; the two account
/// variants expect a success-class status; a transport failure never counts.
pub open spec fn spec_outcome(variant: WorkloadVariant, status: Option<u16>) -> bool {
    match status {
        None => false,
        Some(code) => match variant {
            WorkloadVariant::Redirect => spec_is_redirection(code),
            WorkloadVariant::SignUp => spec_is_success(code),
            WorkloadVariant::SignIn => spec_is_success(code),
        },
    }
}

/// Whether a status code is of the redirection class (300 to 399).
pub fn is_redirection_status(status: u16) -> (r: bool)
    ensures
        r == spec_is_redirection(status),
{
    300 <= status && status < 400
}

/// Whether a status code is of the success class (200 to 299).
pub fn is_success_status(status: u16) -> (r: bool)
    ensures
        r == spec_is_success(status),
{
    200 <= status && status < 300
}

/// Classify one observed response for the given variant.
pub fn classify_outcome(variant: WorkloadVariant, status: Option<u16>) -> (success: bool)
    ensures
        success == spec_outcome(variant, status),
{
    match status {
        None => false,
        Some(code) => match variant {
            WorkloadVariant::Redirect => is_redirection_status(code),
            WorkloadVariant::SignUp => is_success_status(code),
            WorkloadVariant::SignIn => is_success_status(code),
        },
    }
}

/// Build the entry a runner reports: the classified outcome and the measured
/// elapsed microseconds.
pub fn make_entry(variant: WorkloadVariant, status: Option<u16>, time_us: u128) -> (e:
    ExperimentEntry)
    ensures
        e.success == spec_outcome(variant, status),
        e.time_us == time_us,
{
    ExperimentEntry { success: classify_outcome(variant, status), time_us }
}

} // verus!
