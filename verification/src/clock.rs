//! The wall clock, read as milliseconds since the epoch.

use vstd::prelude::*;

verus! {

/// `std::time::SystemTime`, carried as it is.
#[verifier::external_type_specification]
#[verifier::external_body]
pub struct ExSystemTime(std::time::SystemTime);

/// `std::time::SystemTimeError`, carried as it is.
#[verifier::external_type_specification]
#[verifier::external_body]
pub struct ExSystemTimeError(std::time::SystemTimeError);

/// `SystemTime::now`: the time on the wall clock. Nothing is known of it.
#[verifier::external_body]
fn wall_clock() -> (now: std::time::SystemTime) {
    std::time::SystemTime::now()
}

/// `SystemTime::duration_since` the epoch: how long after the epoch a time
/// lies, or an error for a time before it.
#[verifier::external_body]
fn since_epoch(time: &std::time::SystemTime) -> (elapsed: Result<
    std::time::Duration,
    std::time::SystemTimeError,
>) {
    time.duration_since(std::time::UNIX_EPOCH)
}

/// `Duration::as_millis`: a duration in whole milliseconds.
#[verifier::external_body]
fn whole_millis(elapsed: &std::time::Duration) -> (millis: u128) {
    elapsed.as_millis()
}

/// The time now in milliseconds since the epoch, cut to 64 bits. A clock that
/// stands before the epoch reads as zero.
pub(crate) fn now_millis() -> (now: u64) {
    let time = wall_clock();
    match since_epoch(&time) {
        Ok(elapsed) => {
            let millis = whole_millis(&elapsed);
            (millis & 0xffff_ffff_ffff_ffff) as u64
        },
        Err(_) => 0,
    }
}

} // verus!
