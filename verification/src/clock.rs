//! Clock and reset controller registers touched during bring-up.
//!
//! Each field stands for one memory-mapped register of the clock block;
//! the bring-up sequence patches bit fields or writes whole values.

use vstd::prelude::*;

verus! {

/// The clock/reset controller registers that the bring-up sequence writes.
#[derive(Clone, Copy, PartialEq, Eq, Structural, Debug)]
pub struct ClockRegisters {
    /// Spare register holding the CLK_M divisor field.
    pub spare_reg0: u32,
    /// Oscillator frequency selection and drive strength.
    pub osc_ctrl: u32,
    /// AHB/APB (HCLK/PCLK) divider fields.
    pub clk_system_rate: u32,
    /// Base register of the PLLMB phase-locked loop.
    pub pllmb_base: u32,
    /// System clock source divider.
    pub clk_source_sys: u32,
    /// System clock burst policy: source selection per performance state.
    pub sclk_burst_policy: u32,
    /// Super clock divider.
    pub sclk_divider: u32,
}

impl ClockRegisters {
    /// The bank with every register reading zero.
    pub open spec fn spec_all_zero() -> ClockRegisters {
        ClockRegisters {
            spare_reg0: 0,
            osc_ctrl: 0,
            clk_system_rate: 0,
            pllmb_base: 0,
            clk_source_sys: 0,
            sclk_burst_policy: 0,
            sclk_divider: 0,
        }
    }

    /// A bank with every register reading zero.
    pub fn all_zero() -> (c: ClockRegisters)
        ensures
            c == ClockRegisters::spec_all_zero(),
    {
        ClockRegisters {
            spare_reg0: 0,
            osc_ctrl: 0,
            clk_system_rate: 0,
            pllmb_base: 0,
            clk_source_sys: 0,
            sclk_burst_policy: 0,
            sclk_divider: 0,
        }
    }
}

} // verus!
