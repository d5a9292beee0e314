//! Time as a session measures it: nanoseconds since the session began.
use std::time::Instant;
use vstd::prelude::*;

verus! {

pub const NANOS_PER_SEC: u128 = 1_000_000_000;

#[verifier::external_type_specification]
#[verifier::external_body]
pub struct ExInstant(std::time::Instant);

/// `std::time::Instant::now`. Nothing is claimed of the instant that it returns.
pub assume_specification[ std::time::Instant::now ]() -> (now: std::time::Instant);

/// Calls `std::time::Instant::elapsed` and counts the result in nanoseconds.
///
/// Trusted: the time is a number of whole seconds that fits in 64 bits and less
/// than one second more, as every `std::time::Duration` is. How much time went
/// by is up to the clock, and left unsaid.
#[verifier::external_body]
pub(crate) fn elapsed(since: &Instant) -> (nanos: u128)
    ensures
        nanos / NANOS_PER_SEC <= u64::MAX,
{
    since.elapsed().as_nanos()
}

/// Whether `nanos` is what the clock can answer when it is asked how many
/// nanoseconds ago `since` was.
pub closed spec fn clock_answers(since: Instant, nanos: u128) -> bool {
    call_ensures(elapsed, (&since,), nanos)
}

/// Asks the clock how many nanoseconds ago `since` was.
pub(crate) fn elapsed_nanos(since: &Instant) -> (nanos: u128)
    ensures
        clock_answers(*since, nanos),
        call_ensures(elapsed, (since,), nanos),
        nanos / NANOS_PER_SEC <= u64::MAX,
{
    elapsed(since)
}

/// What the clock can answer is what `elapsed` can return, and nothing else: no
/// answer is scaled or shifted.
pub(crate) proof fn clock_answers_are_readings(since: Instant, nanos: u128)
    ensures
        clock_answers(since, nanos) <==> call_ensures(elapsed, (&since,), nanos),
{
}

/// A second has a thousand million nanoseconds.
pub proof fn second_has_its_nanoseconds()
    ensures
        NANOS_PER_SEC == 1_000_000_000,
{
}

} // verus!
