//! Operating-system wall clock and monotonic clock readings.

use vstd::prelude::*;

use crate::error::{DaemonError, DomainErrorKind};
use crate::pairing::{PairingClock, PairingClockError, PairingNow};

verus! {

#[verifier::external_type_specification]
#[verifier::external_body]
pub struct ExSystemTime(std::time::SystemTime);

#[verifier::external_type_specification]
#[verifier::external_body]
pub struct ExInstant(std::time::Instant);

/// Trusted: `std::time::SystemTime::now`. Nothing is stated of the reading.
#[verifier::external_body]
fn wall_clock_now() -> (now: std::time::SystemTime) {
    std::time::SystemTime::now()
}

/// Trusted: `SystemTime::duration_since(UNIX_EPOCH)`; `None` when the reading
/// precedes the epoch. Nothing is stated of the duration.
#[verifier::external_body]
fn since_unix_epoch(time: std::time::SystemTime) -> (elapsed: Option<core::time::Duration>) {
    time.duration_since(std::time::UNIX_EPOCH).ok()
}

/// Trusted: `Duration::as_secs`. Nothing is stated of the count.
#[verifier::external_body]
fn whole_seconds(duration: core::time::Duration) -> (seconds: u64) {
    duration.as_secs()
}

/// Trusted: `std::time::Instant::now`. Nothing is stated of the reading.
#[verifier::external_body]
fn monotonic_now() -> (now: std::time::Instant) {
    std::time::Instant::now()
}

/// Trusted: `Instant::saturating_duration_since`. Nothing is stated of the duration.
#[verifier::external_body]
fn elapsed_since(later: std::time::Instant, origin: std::time::Instant) -> (elapsed: core::time::Duration) {
    later.saturating_duration_since(origin)
}

/// Trusted: `Duration::as_nanos`. Nothing is stated of the count.
#[verifier::external_body]
fn whole_nanos(duration: core::time::Duration) -> (nanos: u128) {
    duration.as_nanos()
}

/// Trusted: `Instant >= Instant`. Nothing is stated of the answer.
#[verifier::external_body]
fn instant_not_before(later: std::time::Instant, earlier: std::time::Instant) -> (not_before: bool) {
    later >= earlier
}

/// Whether the process monotonic clock has reached `deadline`.
pub fn deadline_reached(deadline: std::time::Instant) -> (reached: bool) {
    instant_not_before(monotonic_now(), deadline)
}

/// Whole seconds since the Unix epoch, or `None` when the wall clock precedes it.
pub fn unix_seconds_now() -> (seconds: Option<u64>) {
    match since_unix_epoch(wall_clock_now()) {
        Some(elapsed) => Some(whole_seconds(elapsed)),
        None => None,
    }
}

/// A wall-clock reading in whole seconds, or zero when it preceded the epoch.
pub fn seconds_or_zero(reading: Option<u64>) -> (seconds: u64)
    ensures
        seconds == (match reading {
            Some(seconds) => seconds,
            None => 0,
        }),
{
    match reading {
        Some(seconds) => seconds,
        None => 0,
    }
}

/// Whole seconds since the Unix epoch, or zero when the wall clock precedes it.
pub fn now_unix() -> (seconds: u64) {
    seconds_or_zero(unix_seconds_now())
}

/// The current Unix time as a signed value, saturating at `i64::MAX`.
pub fn now_unix_i64() -> (seconds: i64)
    ensures
        seconds >= 0,
{
    saturating_i64(now_unix())
}

/// The pairing wall clock from one reading: a wall clock before the epoch
/// makes the pairing clock unavailable.
pub fn pairing_unix_seconds(reading: Option<u64>) -> (seconds: Result<u64, DaemonError>)
    ensures
        match seconds {
            Ok(value) => reading == Some(value),
            Err(error) => reading is None && error.kind == DomainErrorKind::TransportUnavailable,
        },
{
    match reading {
        Some(seconds) => Ok(seconds),
        None => Err(DaemonError::new(DomainErrorKind::TransportUnavailable, "pairing clock is unavailable")),
    }
}

/// Whole seconds since the Unix epoch for pairing; a wall clock before the
/// epoch makes the pairing clock unavailable.
pub fn unix_now_u64() -> (seconds: Result<u64, DaemonError>)
    ensures
        seconds matches Err(error) ==> error.kind == DomainErrorKind::TransportUnavailable,
{
    pairing_unix_seconds(unix_seconds_now())
}

/// Unix seconds as the signed store column; a value beyond `i64::MAX` is
/// outside the supported range.
pub fn signed_unix_seconds(seconds: u64) -> (signed: Result<i64, DaemonError>)
    ensures
        match signed {
            Ok(value) => seconds <= i64::MAX && value == seconds,
            Err(error) => seconds > i64::MAX && error.kind == DomainErrorKind::TransportUnavailable,
        },
{
    if seconds <= i64::MAX as u64 {
        Ok(seconds as i64)
    } else {
        Err(DaemonError::new(DomainErrorKind::TransportUnavailable, "pairing clock is outside the supported range"))
    }
}

/// The pairing wall clock as the signed store column.
pub fn unix_now_i64() -> (seconds: Result<i64, DaemonError>)
    ensures
        match seconds {
            Ok(value) => value >= 0,
            Err(error) => error.kind == DomainErrorKind::TransportUnavailable,
        },
{
    let seconds = unix_now_u64()?;
    signed_unix_seconds(seconds)
}

/// Converts a Unix timestamp to the signed store column, saturating at `i64::MAX`.
pub fn saturating_i64(seconds: u64) -> (signed: i64)
    ensures
        signed == (if seconds <= i64::MAX { seconds as int } else { i64::MAX as int }),
{
    if seconds <= i64::MAX as u64 {
        seconds as i64
    } else {
        i64::MAX
    }
}

/// Production clock using `SystemTime` together with `Instant`.
///
/// Monotonic readings are nanoseconds elapsed since the clock was created.
#[derive(Clone, Copy, Debug)]
pub struct SystemPairingClock {
    origin: std::time::Instant,
}

impl SystemPairingClock {
    /// Creates a clock whose monotonic axis starts now.
    pub fn new() -> (clock: SystemPairingClock) {
        SystemPairingClock { origin: monotonic_now() }
    }
}

/// The monotonic axis saturates at `u64::MAX` nanoseconds.
pub open spec fn saturated_nanos(nanos: u128) -> u64 {
    if nanos <= u64::MAX { nanos as u64 } else { u64::MAX }
}

/// One pairing observation from a wall-clock reading in whole seconds since
/// the epoch (`None` before it) and the nanoseconds elapsed on the monotonic axis.
pub fn clock_reading(unix_seconds: Option<u64>, elapsed_nanos: u128) -> (now: Result<PairingNow, PairingClockError>)
    ensures
        match now {
            Ok(now) => unix_seconds == Some(now.spec_unix_seconds())
                && now.spec_monotonic() == saturated_nanos(elapsed_nanos),
            Err(_) => unix_seconds is None,
        },
{
    match unix_seconds {
        Some(seconds) => {
            let monotonic = if elapsed_nanos <= u64::MAX as u128 { elapsed_nanos as u64 } else { u64::MAX };
            Ok(PairingNow::new(seconds, monotonic))
        },
        None => Err(PairingClockError),
    }
}

impl PairingClock for SystemPairingClock {
    fn now(&self) -> (result: Result<PairingNow, PairingClockError>) {
        let unix_seconds = unix_seconds_now();
        let nanos = whole_nanos(elapsed_since(monotonic_now(), self.origin));
        clock_reading(unix_seconds, nanos)
    }
}

} // verus!
