//! Durations, through std's own constructors.
use vstd::prelude::*;

use std::time::Duration;

verus! {

/// What `Duration::from_secs` returns for `secs`.
pub uninterp spec fn spec_duration_from_secs(secs: u64) -> Duration;

/// What `Duration::from_millis` returns for `millis`.
pub uninterp spec fn spec_duration_from_millis(millis: u64) -> Duration;

/// The zero duration (`Duration::ZERO`, which is `Duration::from_secs(0)`).
pub open spec fn zero_duration() -> Duration {
    spec_duration_from_secs(0)
}

/// `Duration::from_secs`; its result is named, not described.
#[verifier::external_body]
pub(crate) fn duration_from_secs(secs: u64) -> (d: Duration)
    ensures
        d == spec_duration_from_secs(secs),
{
    Duration::from_secs(secs)
}

/// `Duration::from_millis`; its result is named, not described.
#[verifier::external_body]
pub(crate) fn duration_from_millis(millis: u64) -> (d: Duration)
    ensures
        d == spec_duration_from_millis(millis),
{
    Duration::from_millis(millis)
}

/// `Duration::is_zero`: by its documentation, whether the duration is
/// zero, that is `Duration::ZERO` (`Duration::from_secs(0)`).
#[verifier::external_body]
pub(crate) fn duration_is_zero(d: Duration) -> (b: bool)
    ensures
        b == (d == zero_duration()),
{
    d.is_zero()
}

} // verus!
