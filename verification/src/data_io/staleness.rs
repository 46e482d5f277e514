//! Signals that have not been heard for too long.
use std::time::Instant;
use vstd::prelude::*;

verus! {

/// A point in time of the machine's monotonic clock.
#[verifier::external_type_specification]
#[verifier::external_body]
pub struct ExInstant(Instant);

/// `Instant::now`: the present. Nothing is promised of it.
#[verifier::external_body]
fn now() -> Instant {
    Instant::now()
}

/// Whether the clock may read `t`: it is an outcome of `now`.
pub closed spec fn clock_reads(t: Instant) -> bool {
    call_ensures(now, (), t)
}

/// The present, as the clock reads it.
pub fn present() -> (t: Instant)
    ensures
        clock_reads(t),
{
    now()
}

/// `Instant::elapsed`: the whole seconds that have gone by since `t`. They
/// rest on the clock, so nothing is promised of them.
#[verifier::external_body]
pub(crate) fn elapsed(t: Instant) -> u64 {
    t.elapsed().as_secs()
}

/// Whether the clock may give `seconds` as the age of `t`: it is an outcome of
/// `elapsed` on `t`.
pub closed spec fn clock_gives(t: Instant, seconds: u64) -> bool {
    call_ensures(elapsed, (t,), seconds)
}

/// Whether `age` is what the clock may give as the age of a signal last heard
/// at `last`. One that was never heard has no age.
pub open spec fn age_fits(age: Option<u64>, last: Option<Instant>) -> bool {
    match last {
        Some(t) => age matches Some(seconds) && clock_gives(t, seconds),
        None => age is None,
    }
}

/// The age of a signal in whole seconds, if it was ever heard.
pub fn age_of(last: Option<Instant>) -> (age: Option<u64>)
    ensures
        age_fits(age, last),
{
    match last {
        Some(t) => Some(elapsed(t)),
        None => None,
    }
}

/// Whether a signal of the given age is older than the time limit.
pub open spec fn outdated(age: Option<u64>, timeout_seconds: u64) -> bool {
    age matches Some(seconds) && seconds > timeout_seconds
}

/// Whether a signal is older than `timeout_seconds`, by its age. One that was
/// never heard is not: no data yet is not the same as stale data.
pub fn is_outdated(age: Option<u64>, timeout_seconds: u64) -> (stale: bool)
    ensures
        stale == outdated(age, timeout_seconds),
{
    match age {
        Some(seconds) => seconds > timeout_seconds,
        None => false,
    }
}

/// Whether `last` is older than `timeout_seconds`. A signal that was never
/// heard is not stale.
pub fn is_stale(last: Option<Instant>, timeout_seconds: u64) -> (stale: bool)
    ensures
        exists|age: Option<u64>| #[trigger]
            age_fits(age, last) && stale == outdated(age, timeout_seconds),
        last is None ==> !stale,
        timeout_seconds == u64::MAX ==> !stale,
{
    let age = age_of(last);
    is_outdated(age, timeout_seconds)
}

/// A signal grows stale with age and not before its time: it is stale once its
/// age is above the time limit, and then stays so.
pub proof fn law_signals_grow_stale(age: u64, later: u64, timeout: u64)
    ensures
        outdated(Some(age), timeout) <==> age > timeout,
        outdated(Some(age), timeout) && later >= age ==> outdated(Some(later), timeout),
        !outdated(None, timeout),
{
}

/// A signal is stale where the clock gives it an age above the limit, and never
/// before it was heard.
pub proof fn law_unheard_signals_are_not_stale(
    last: Option<Instant>,
    timeout: u64,
    stale: bool,
)
    requires
        call_ensures(is_stale, (last, timeout), stale),
    ensures
        last is None ==> !stale,
        last matches Some(t) ==> exists|age: u64| #[trigger]
            clock_gives(t, age) && (stale <==> age > timeout),
{
    if let Some(t) = last {
        let age = choose|age: Option<u64>| #[trigger]
            age_fits(age, last) && stale == outdated(age, timeout);
        assert(clock_gives(t, age->0) && (stale <==> age->0 > timeout));
    }
}

} // verus!
