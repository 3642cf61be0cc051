//! The wall clock, read in nanoseconds since the Unix epoch.

use vstd::prelude::*;

verus! {

#[verifier::external_type_specification]
#[verifier::external_body]
pub struct ExSystemTime(std::time::SystemTime);

#[verifier::external_type_specification]
#[verifier::external_body]
pub struct ExSystemTimeError(std::time::SystemTimeError);

/// Why the wall clock could not be read as nanoseconds since the epoch.
#[derive(PartialEq, Eq, Structural, Debug, Clone, Copy)]
pub enum ClockError {
    /// The system clock reads a time before the Unix epoch.
    BeforeUnixEpoch,
}

/// Calls `std::time::SystemTime::now`. Nothing is claimed of the reading:
/// it is whatever the system clock says at the time of the call.
#[verifier::external_body]
fn system_time_now() -> std::time::SystemTime {
    std::time::SystemTime::now()
}

/// Calls `SystemTime::duration_since` with `std::time::UNIX_EPOCH`. Nothing
/// is claimed of the result: `SystemTime` is opaque here, so whether the
/// reading lies after the epoch, and by how much, is left unsaid.
#[verifier::external_body]
fn since_unix_epoch(
    t: &std::time::SystemTime,
) -> std::result::Result<std::time::Duration, std::time::SystemTimeError> {
    t.duration_since(std::time::UNIX_EPOCH)
}

/// Calls `Duration::as_nanos`. Nothing is claimed of the result: `Duration`
/// is opaque here, so the number of nanoseconds it holds is left unsaid.
#[verifier::external_body]
fn duration_as_nanos(d: &std::time::Duration) -> u128 {
    d.as_nanos()
}

/// A count of nanoseconds as the `u64` that the clock reports: the count
/// modulo 2^64.
pub fn nanos_to_time_ns(nanos: u128) -> (ns: u64)
    ensures
        ns == nanos % 0x1_0000_0000_0000_0000,
{
    #[verifier::truncate]
    let ns = nanos as u64;
    assert(ns == nanos % 0x1_0000_0000_0000_0000) by (bit_vector)
        requires
            ns == nanos as u64,
    ;
    ns
}

/// Reads the wall clock in nanoseconds since the Unix epoch. A clock that
/// reads a time before the epoch gives `ClockError::BeforeUnixEpoch`; any
/// other reading is turned into a `u64` by `nanos_to_time_ns`. The reading
/// itself is whatever the system clock says.
pub fn get_time_ns() -> (r: Result<u64, ClockError>)
    ensures
        r is Err ==> r == Err::<u64, ClockError>(ClockError::BeforeUnixEpoch),
{
    let now = system_time_now();
    match since_unix_epoch(&now) {
        Ok(d) => Ok(nanos_to_time_ns(duration_as_nanos(&d))),
        Err(_) => Err(ClockError::BeforeUnixEpoch),
    }
}

} // verus!
