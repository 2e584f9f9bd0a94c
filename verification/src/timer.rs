//! Microsecond timer registers touched during bring-up.

use vstd::prelude::*;

verus! {

/// The microsecond timer registers that the bring-up sequence writes.
#[derive(Clone, Copy, PartialEq, Eq, Structural, Debug)]
pub struct TimerRegisters {
    /// Calibration constant that makes the microsecond counter count
    /// microseconds at the selected oscillator frequency.
    pub usec_cfg: u32,
}

impl TimerRegisters {
    /// The bank with every register reading zero.
    pub open spec fn spec_all_zero() -> TimerRegisters {
        TimerRegisters { usec_cfg: 0 }
    }

    /// A bank with every register reading zero.
    pub fn all_zero() -> (t: TimerRegisters)
        ensures
            t == TimerRegisters::spec_all_zero(),
    {
        TimerRegisters { usec_cfg: 0 }
    }
}

} // verus!
