//! Whether status replies carry the real time or a fixed zero.

use std::sync::atomic::{AtomicBool, Ordering};
use std::time::{Duration, SystemTime};

use vstd::prelude::*;

verus! {

#[verifier::external_type_specification]
#[verifier::external_body]
pub struct ExSystemTime(SystemTime);

/// Relies on `SystemTime::now`: a reading of the system clock.
#[verifier::external_body]
fn clock_now() -> (r: SystemTime) {
    SystemTime::now()
}

/// Relies on `SystemTime::duration_since`: the time elapsed since the Unix
/// epoch, none where the reading lies before it.
#[verifier::external_body]
fn since_epoch(t: &SystemTime) -> (r: Option<Duration>) {
    match t.duration_since(SystemTime::UNIX_EPOCH) {
        Ok(d) => Some(d),
        Err(_) => None,
    }
}

/// Relies on `Duration::as_secs`: the whole seconds of a duration.
pub assume_specification[ Duration::as_secs ](d: &Duration) -> u64;

/// A flag, on when created: on, stamps are the current Unix time in
/// seconds; off, they are zero, which keeps replies reproducible.
pub struct Timestamp(AtomicBool);

impl Timestamp {
    pub fn new() -> (r: Timestamp) {
        Timestamp(AtomicBool::new(true))
    }

    pub fn enable(&self, enable: bool) {
        self.0.store(enable, Ordering::Relaxed);
    }

    /// The stamp for a state of the flag and a clock reading in seconds
    /// since the epoch: the reading cut to 32 bits when on and readable,
    /// zero otherwise.
    pub fn stamp(enabled: bool, since_epoch: Option<u64>) -> (r: u32)
        ensures
            r == (if enabled && since_epoch is Some {
                since_epoch->Some_0 as u32
            } else {
                0
            }),
    {
        if enabled {
            match since_epoch {
                Some(s) => s as u32,
                None => 0,
            }
        } else {
            0
        }
    }

    /// The stamp now. The clock is read only where the flag is on.
    pub fn get(&self) -> (r: u32) {
        if self.0.load(Ordering::Relaxed) {
            let now = clock_now();
            let secs = match since_epoch(&now) {
                Some(d) => Some(d.as_secs()),
                None => None,
            };
            Timestamp::stamp(true, secs)
        } else {
            Timestamp::stamp(false, None)
        }
    }
}

} // verus!
