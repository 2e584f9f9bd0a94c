//! Power management controller (PMC) registers touched during bring-up.
//!
//! The scratch registers keep their contents across warm resets and carry
//! boot-reason and secure-state flags between boot stages.

use vstd::prelude::*;

verus! {

/// The PMC registers that the bring-up sequence reads and writes.
#[derive(Clone, Copy, PartialEq, Eq, Structural, Debug)]
pub struct PmcRegisters {
    /// Low-power-mode oscillator drive strength override.
    pub osc_edpd_over: u32,
    /// Second control register; holds the low-power comparator enable bit.
    pub cntrl2: u32,
    /// Scratch register holding a memory-comparator reference voltage field.
    pub scratch188: u32,
    /// Multiplier constant of the low-power timescale counter.
    pub tsc_mult: u32,
    /// General scratch register; two of its bits are cleared during bring-up.
    pub scratch20: u32,
    /// General scratch register; its lowest bit is cleared during bring-up.
    pub scratch190: u32,
    /// Secure scratch register; one bit is set to record a verified bring-up.
    pub secure_scratch21: u32,
    /// Security-engine crypto-operation control register.
    pub crypto_op: u32,
    /// Scratch register recording the boot reason.
    pub scratch200: u32,
    /// Register recording how the last reset was entered.
    pub reset_status: u32,
}

impl PmcRegisters {
    /// The bank with every register reading zero.
    pub open spec fn spec_all_zero() -> PmcRegisters {
        PmcRegisters {
            osc_edpd_over: 0,
            cntrl2: 0,
            scratch188: 0,
            tsc_mult: 0,
            scratch20: 0,
            scratch190: 0,
            secure_scratch21: 0,
            crypto_op: 0,
            scratch200: 0,
            reset_status: 0,
        }
    }

    /// A bank with every register reading zero.
    pub fn all_zero() -> (p: PmcRegisters)
        ensures
            p == PmcRegisters::spec_all_zero(),
    {
        PmcRegisters {
            osc_edpd_over: 0,
            cntrl2: 0,
            scratch188: 0,
            tsc_mult: 0,
            scratch20: 0,
            scratch190: 0,
            secure_scratch21: 0,
            crypto_op: 0,
            scratch200: 0,
            reset_status: 0,
        }
    }
}

} // verus!
