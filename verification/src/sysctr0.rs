//! System counter (SYSCTR0) registers touched during bring-up.

use vstd::prelude::*;

verus! {

/// The system counter registers that the bring-up sequence writes.
#[derive(Clone, Copy, PartialEq, Eq, Structural, Debug)]
pub struct Sysctr0Registers {
    /// Base frequency, in hertz, of the hardware counter used for timekeeping.
    pub cntfid0: u32,
}

impl Sysctr0Registers {
    /// The bank with every register reading zero.
    pub open spec fn spec_all_zero() -> Sysctr0Registers {
        Sysctr0Registers { cntfid0: 0 }
    }

    /// A bank with every register reading zero.
    pub fn all_zero() -> (s: Sysctr0Registers)
        ensures
            s == Sysctr0Registers::spec_all_zero(),
    {
        Sysctr0Registers { cntfid0: 0 }
    }
}

} // verus!
