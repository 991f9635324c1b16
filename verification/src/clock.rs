//! Durations and times, as std holds them.

use vstd::prelude::*;
use std::time::{Duration, SystemTime};

verus! {

/// Nanoseconds in a second.
pub const SECOND: u64 = 1_000_000_000;

/// `std::time::SystemTime`, opaque here.
#[verifier::external_type_specification]
#[verifier::external_body]
pub struct ExSystemTime(SystemTime);

/// How many nanoseconds a `Duration` lasts.
pub uninterp spec fn in_nanos(duration: Duration) -> nat;

/// How many nanoseconds after the Unix epoch a `SystemTime` is.
pub uninterp spec fn since_epoch(time: SystemTime) -> int;

/// `Duration::from_secs` lasts that many seconds.
pub assume_specification[ Duration::from_secs ](secs: u64) -> (r: Duration)
    ensures
        in_nanos(r) == secs * SECOND,
;

/// `Duration::from_nanos` lasts that many nanoseconds.
pub assume_specification[ Duration::from_nanos ](nanos: u64) -> (r: Duration)
    ensures
        in_nanos(r) == nanos,
;

/// `Duration::as_nanos`: the nanoseconds a duration lasts.
pub assume_specification[ Duration::as_nanos ](duration: &Duration) -> (r: u128)
    ensures
        r == in_nanos(*duration),
;

/// `Duration::as_secs`: the whole seconds a duration lasts.
pub assume_specification[ Duration::as_secs ](duration: &Duration) -> (r: u64)
    ensures
        r == in_nanos(*duration) / SECOND as nat,
;

/// `SystemTime::UNIX_EPOCH` with a whole number of seconds added to it, up to
/// the most that 32 bits count, which every system's clock can hold.
#[verifier::external_body]
pub(crate) fn after_epoch(duration: Duration) -> (r: SystemTime)
    requires
        in_nanos(duration) <= i32::MAX * SECOND,
        in_nanos(duration) % SECOND as nat == 0,
    ensures
        since_epoch(r) == in_nanos(duration),
{
    SystemTime::UNIX_EPOCH + duration
}

/// `==` on two `SystemTime`s: whether they are equally far from the epoch.
#[verifier::external_body]
pub(crate) fn same_time(a: &SystemTime, b: &SystemTime) -> (r: bool)
    ensures
        r == (since_epoch(*a) == since_epoch(*b)),
{
    a == b
}

/// When a time is, where there is one.
pub open spec fn moment(time: Option<SystemTime>) -> Option<int> {
    match time {
        Some(t) => Some(since_epoch(t)),
        None => None,
    }
}

/// How long a duration is, where there is one.
pub open spec fn length(duration: Option<Duration>) -> Option<nat> {
    match duration {
        Some(d) => Some(in_nanos(d)),
        None => None,
    }
}

/// The moment a count of seconds since the epoch stands for. Counts of zero or
/// less stand for none.
pub open spec fn moment_at(seconds: Option<i32>) -> Option<int> {
    match seconds {
        Some(s) if s > 0 => Some(s * SECOND),
        _ => None,
    }
}

/// The length of a count of seconds. Counts of zero or less have none.
pub open spec fn length_of(seconds: Option<i32>) -> Option<nat> {
    match seconds {
        Some(s) if s > 0 => Some((s * SECOND) as nat),
        _ => None,
    }
}

/// The time a count of seconds since the epoch stands for.
pub fn time_at(seconds: Option<i32>) -> (r: Option<SystemTime>)
    ensures
        moment(r) == moment_at(seconds),
{
    match seconds {
        Some(s) if s > 0 => Some(after_epoch(Duration::from_secs(s as u64))),
        _ => None,
    }
}

/// The duration of a count of seconds.
pub fn duration_of(seconds: Option<i32>) -> (r: Option<Duration>)
    ensures
        length(r) == length_of(seconds),
{
    match seconds {
        Some(s) if s > 0 => Some(Duration::from_secs(s as u64)),
        _ => None,
    }
}

/// Whether two times are the same, or both absent.
pub fn same_moment(a: &Option<SystemTime>, b: &Option<SystemTime>) -> (r: bool)
    ensures
        r == (moment(*a) == moment(*b)),
{
    match (a, b) {
        (Some(x), Some(y)) => same_time(x, y),
        (None, None) => true,
        _ => false,
    }
}

} // verus!
