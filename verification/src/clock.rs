//! The cluster's clock, read through the Clock sysvar.

use vstd::prelude::*;

verus! {

/// The runtime's error type for a failed request of the program, such as
/// a read of a sysvar.
#[verifier::external_type_specification]
#[verifier::external_body]
pub struct ExProgramError(anchor_lang::prelude::ProgramError);

/// A reading of the cluster's clock: the time, in seconds since the Unix
/// epoch, that the Clock sysvar gave. Only a read of the clock makes one,
/// so a value of this type is a time that the clock gave.
#[derive(Clone, Copy, Debug, PartialEq, Eq)]
pub struct ClockReading {
    unix_timestamp: i64,
}

impl View for ClockReading {
    type V = i64;

    /// The time read.
    closed spec fn view(&self) -> i64 {
        self.unix_timestamp
    }
}

impl ClockReading {
    /// The time read, in seconds since the Unix epoch.
    pub fn unix_timestamp(&self) -> (t: i64)
        ensures
            t == self@,
    {
        self.unix_timestamp
    }
}

/// A result together with the clock reading it was decided at.
#[derive(Clone, Copy, Debug, PartialEq, Eq)]
pub struct Timed<T> {
    pub value: T,
    pub at: ClockReading,
}

/// Reads the cluster's clock with `Clock::get` (anchor_lang's re-export of
/// the Clock sysvar, `solana_sysvar::Sysvar::get`) and returns its
/// `unix_timestamp`. Nothing is promised of the time read, nor of when the
/// read fails: it is the runtime's to answer, and off-chain it always fails
/// with `UnsupportedSysvar`.
#[verifier::external_body]
pub(crate) fn clock_unix_timestamp() -> (r: Result<ClockReading, anchor_lang::prelude::ProgramError>) {
    match <anchor_lang::prelude::Clock as anchor_lang::prelude::SolanaSysvar>::get() {
        Ok(clock) => Ok(ClockReading { unix_timestamp: clock.unix_timestamp }),
        Err(e) => Err(e),
    }
}

} // verus!
