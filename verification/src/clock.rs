//! The wall clock, read as milliseconds since the Unix epoch.

use vstd::prelude::*;

verus! {

/// `std::time::SystemTime`, a reading of the wall clock.
#[verifier::external_type_specification]
#[verifier::external_body]
pub struct ExSystemTime(std::time::SystemTime);

/// `SystemTime::now`: the current reading of the wall clock. What it holds
/// depends on the moment of the call, so nothing is stated of it.
#[verifier::external_body]
fn system_time_now() -> (t: std::time::SystemTime) {
    std::time::SystemTime::now()
}

/// `SystemTime::duration_since` with the Unix epoch as the earlier time: the
/// time elapsed since the epoch, or `None` where the reading lies before it
/// (the call's error). The length depends on the reading, which is opaque
/// here, so nothing more is stated.
#[verifier::external_body]
fn elapsed_since_unix_epoch(t: &std::time::SystemTime) -> (d: Option<core::time::Duration>) {
    match t.duration_since(std::time::UNIX_EPOCH) {
        Ok(d) => Some(d),
        Err(_) => None,
    }
}

/// `Duration::as_secs`: the whole seconds of a duration. The duration is
/// opaque here, so nothing is stated of the number.
#[verifier::external_body]
fn duration_as_secs(d: &core::time::Duration) -> (secs: u64) {
    d.as_secs()
}

/// `Duration::subsec_nanos`: the fractional part of a duration in
/// nanoseconds, which its documentation says is always less than one billion.
#[verifier::external_body]
fn duration_subsec_nanos(d: &core::time::Duration) -> (nanos: u32)
    ensures
        nanos < 1_000_000_000,
{
    d.subsec_nanos()
}

/// The whole milliseconds in a duration of `secs` seconds and `nanos`
/// nanoseconds.
pub open spec fn whole_millis(secs: u64, nanos: u32) -> int {
    secs * 1000 + nanos / 1_000_000
}

/// The whole milliseconds in a duration of `secs` seconds and `nanos`
/// nanoseconds, as `Duration::as_millis` counts them.
pub fn millis_from_parts(secs: u64, nanos: u32) -> (ms: u128)
    ensures
        ms == whole_millis(secs, nanos),
{
    (secs as u128) * 1000 + (nanos / 1_000_000) as u128
}

/// The time elapsed since the Unix epoch by the wall clock, as whole seconds
/// and the nanoseconds beyond them; `None` where the clock reads a time before
/// the epoch. The value depends on the moment of the call.
pub fn unix_elapsed_now() -> (elapsed: Option<(u64, u32)>)
    ensures
        elapsed matches Some((_, nanos)) ==> nanos < 1_000_000_000,
{
    let now = system_time_now();
    match elapsed_since_unix_epoch(&now) {
        Some(d) => Some((duration_as_secs(&d), duration_subsec_nanos(&d))),
        None => None,
    }
}

/// The milliseconds elapsed since the Unix epoch by the wall clock, or `None`
/// where the clock reads a time before the epoch: `millis_from_parts` of the
/// seconds and nanoseconds that `unix_elapsed_now` reads. The reading itself
/// depends on the moment of the call and is opaque here, so the contract
/// states nothing of the value.
pub fn unix_millis_now() -> (ms: Option<u128>) {
    match unix_elapsed_now() {
        Some((secs, nanos)) => Some(millis_from_parts(secs, nanos)),
        None => None,
    }
}

} // verus!
