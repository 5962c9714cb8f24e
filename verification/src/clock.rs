//! Wall-clock timestamps in milliseconds since the Unix epoch.

use vstd::prelude::*;

verus! {

#[verifier::external_type_specification]
#[verifier::external_body]
pub struct ExSystemTime(std::time::SystemTime);

#[verifier::external_type_specification]
#[verifier::external_body]
pub struct ExSystemTimeError(std::time::SystemTimeError);

/// `std::time::SystemTime::now`: the current wall-clock time. Nothing is
/// claimed of the value: it depends on the machine's clock.
#[verifier::external_body]
fn system_now() -> std::time::SystemTime {
    std::time::SystemTime::now()
}

/// `std::time::SystemTime::duration_since`, measured from `UNIX_EPOCH`.
/// Nothing is claimed of the outcome: it depends on the clock that produced
/// `now`.
#[verifier::external_body]
fn since_unix_epoch(now: std::time::SystemTime) -> Result<
    std::time::Duration,
    std::time::SystemTimeError,
> {
    now.duration_since(std::time::UNIX_EPOCH)
}

/// `std::time::Duration::as_millis`: the whole milliseconds of a duration.
/// A `Duration` is opaque here, so nothing is claimed of the number.
#[verifier::external_body]
fn duration_millis(d: &std::time::Duration) -> u128 {
    d.as_millis()
}

/// The timestamp that a reading of the clock turns into: the milliseconds
/// truncated to 64 signed bits, or 0 when the clock stood before the epoch.
pub open spec fn spec_timestamp(millis: Option<u128>) -> i64 {
    match millis {
        Some(ms) => ms as i64,
        None => 0,
    }
}

/// Turns a clock reading into a timestamp (see `spec_timestamp`).
pub fn timestamp_from_millis(millis: Option<u128>) -> (t: i64)
    ensures
        t == spec_timestamp(millis),
{
    match millis {
        Some(ms) => ms as i64,
        None => 0,
    }
}

/// Calls `f` and gives back what it returned, which satisfies whatever `f`
/// promises of its result for no argument.
fn call0<R, F: Fn() -> R>(f: F) -> (r: R)
    requires
        call_requires(f, ()),
    ensures
        call_ensures(f, (), r),
{
    f()
}

/// Calls `f` on `a` and gives back what it returned, which satisfies
/// whatever `f` promises of its result for `a`.
fn call1<A, R, F: Fn(A) -> R>(f: F, a: A) -> (r: R)
    requires
        call_requires(f, (a,)),
    ensures
        call_ensures(f, (a,), r),
{
    f(a)
}

/// Whether `t` is the timestamp of a reading of the system clock: the
/// clock gave some time `now`; measured from the Unix epoch it gave either a
/// duration of `ms` whole milliseconds, and `t` is `ms` truncated to 64
/// signed bits, or an error (the clock stood before the epoch), and `t` is 0.
pub closed spec fn is_clock_reading(t: i64) -> bool {
    exists|now: std::time::SystemTime, r: Result<std::time::Duration, std::time::SystemTimeError>|
        #![trigger call_ensures(system_now, (), now), call_ensures(since_unix_epoch, (now,), r)]
        call_ensures(system_now, (), now) && call_ensures(since_unix_epoch, (now,), r) && match r {
            Ok(d) => exists|ms: u128|
                #![trigger call_ensures(duration_millis, (&d,), ms)]
                call_ensures(duration_millis, (&d,), ms) && t == spec_timestamp(Some(ms)),
            Err(_) => t == spec_timestamp(None),
        }
}

/// Milliseconds since the Unix epoch, read from the system clock; 0 when the
/// clock stands before the epoch. The reading depends on the machine's clock,
/// so the contract states that the result is the timestamp of the reading
/// taken during the call (`is_clock_reading`), and `timestamp_from_millis`
/// turns the reading into the result.
pub fn get_time() -> (t: i64)
    ensures
        is_clock_reading(t),
{
    let now = call0(system_now);
    let millis = match call1(since_unix_epoch, now) {
        Ok(d) => Some(call1(duration_millis, &d)),
        Err(_) => None,
    };
    timestamp_from_millis(millis)
}

} // verus!
