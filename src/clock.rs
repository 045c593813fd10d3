//! Wall-clock timestamps in milliseconds since the Unix epoch.
use vstd::prelude::*;

verus! {

#[verifier::external_type_specification]
#[verifier::external_body]
pub struct ExSystemTime(std::time::SystemTime);

#[verifier::external_type_specification]
#[verifier::external_body]
pub struct ExSystemTimeError(std::time::SystemTimeError);

/// Why no timestamp could be produced.
#[derive(Debug, Clone, Copy, PartialEq, Eq, Structural)]
pub enum ClockError {
    /// The system clock reports a time before the Unix epoch.
    BeforeEpoch,
    /// The elapsed milliseconds do not fit in an `i64`.
    OutOfRange,
}

/// Relies on `SystemTime::now`: the current wall-clock time. Nothing is known
/// of the value; in particular two calls need not be ordered.
#[verifier::external_body]
fn system_now() -> (r: std::time::SystemTime) {
    std::time::SystemTime::now()
}

/// Relies on `SystemTime::duration_since` with `UNIX_EPOCH`: the time elapsed
/// since the epoch, or an error when `t` lies before it.
#[verifier::external_body]
fn since_epoch(t: &std::time::SystemTime) -> (r: Result<std::time::Duration, std::time::SystemTimeError>) {
    t.duration_since(std::time::UNIX_EPOCH)
}

/// Relies on `Duration::as_millis`: the whole milliseconds of `d`.
#[verifier::external_body]
fn whole_millis(d: &std::time::Duration) -> (r: u128) {
    d.as_millis()
}

/// Turns the milliseconds elapsed since the Unix epoch, or `None` when the
/// clock reads a time before the epoch, into a signed 64-bit timestamp.
pub fn timestamp_from_elapsed(elapsed: Option<u128>) -> (r: Result<i64, ClockError>)
    ensures
        elapsed is None ==> r == Err::<i64, ClockError>(ClockError::BeforeEpoch),
        elapsed matches Some(m) ==> (m <= i64::MAX ==> r == Ok::<i64, ClockError>(m as i64)),
        elapsed matches Some(m) ==> (m > i64::MAX ==> r == Err::<i64, ClockError>(ClockError::OutOfRange)),
{
    match elapsed {
        None => Err(ClockError::BeforeEpoch),
        Some(millis) => {
            if millis <= i64::MAX as u128 {
                Ok(millis as i64)
            } else {
                Err(ClockError::OutOfRange)
            }
        },
    }
}

/// Milliseconds elapsed since the Unix epoch on the system clock.
///
/// Fails with `BeforeEpoch` when the clock is set before the epoch, rather
/// than clamping, and with `OutOfRange` when the count does not fit in an
/// `i64`; a timestamp that is returned is never negative.
pub fn current_timestamp() -> (r: Result<i64, ClockError>)
    ensures
        r matches Ok(t) ==> t >= 0,
{
    let now = system_now();
    let elapsed = match since_epoch(&now) {
        Ok(d) => Some(whole_millis(&d)),
        Err(_) => None,
    };
    timestamp_from_elapsed(elapsed)
}

} // verus!
