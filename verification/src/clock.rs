//! The wall clock by which the executor measures how long a computation ran.

use std::time::{Duration, Instant};
use vstd::prelude::*;

verus! {

/// A moment of the monotonic clock. What it holds is not visible here.
#[verifier::external_type_specification]
#[verifier::external_body]
pub struct ExInstant(std::time::Instant);

/// `Instant::now` reads the monotonic clock. Nothing is claimed of the moment
/// that it returns.
pub assume_specification[ Instant::now ]() -> (moment: Instant)
;

/// `Instant::elapsed` gives the time that has passed since the moment was
/// taken. Nothing is claimed of the span that it returns.
pub assume_specification[ Instant::elapsed ](moment: &Instant) -> (span: Duration)
;

/// `Duration::as_millis` gives the whole milliseconds that the span holds.
/// Nothing is claimed of the number that it returns.
pub assume_specification[ Duration::as_millis ](span: &Duration) -> (millis: u128)
;

/// The whole milliseconds that have passed since `moment`, or `u64::MAX` if
/// they do not fit.
pub(crate) fn millis_since(moment: &Instant) -> (millis: u64) {
    let span = moment.elapsed();
    saturate_millis(span.as_millis())
}

/// Brings a count of milliseconds into a `u64`: a count that fits comes back
/// as it is, a larger one as `u64::MAX`.
pub(crate) fn saturate_millis(millis: u128) -> (fitted: u64)
    ensures
        millis <= u64::MAX ==> fitted == millis,
        millis > u64::MAX ==> fitted == u64::MAX,
{
    if millis > 0xffff_ffff_ffff_ffff {
        u64::MAX
    } else {
        millis as u64
    }
}

} // verus!
