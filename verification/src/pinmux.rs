//! Pin multiplexer registers and routing helpers.
//!
//! Each field stands for the multiplexer register of one physical pin. A pin
//! register selects the pin's function and its electrical configuration;
//! the constants below name the bits that bring-up uses.

use vstd::prelude::*;

use crate::i2c::I2c;
use crate::uart::Uart;

verus! {

/// Pull-down selection in a pin register's pull field.
pub const PULL_DOWN: u32 = 0x4;

/// Pull-up selection in a pin register's pull field.
pub const PULL_UP: u32 = 0x8;

/// Tristate (high-impedance) bit of a pin register.
pub const TRISTATE: u32 = 0x10;

/// Input-buffer enable bit of a pin register.
pub const INPUT: u32 = 0x40;

/// The pin multiplexer registers that the bring-up sequence writes.
#[derive(Clone, Copy, PartialEq, Eq, Structural, Debug)]
pub struct PinmuxRegisters {
    /// Transmit pin of the second UART.
    pub uart2_tx: u32,
    /// Transmit pin of the third UART.
    pub uart3_tx: u32,
    /// Accessory-detect pin on port E, pin 6.
    pub pe6: u32,
    /// Accessory-detect pin on port H, pin 6.
    pub ph6: u32,
    /// Clock pin of the first generic I2C bus.
    pub gen1_i2c_scl: u32,
    /// Data pin of the first generic I2C bus.
    pub gen1_i2c_sda: u32,
    /// Clock pin of the power-rail I2C bus.
    pub pwr_i2c_scl: u32,
    /// Data pin of the power-rail I2C bus.
    pub pwr_i2c_sda: u32,
    /// Transmit pin of the first UART.
    pub uart1_tx: u32,
    /// Receive pin of the first UART.
    pub uart1_rx: u32,
    /// Request-to-send pin of the first UART.
    pub uart1_rts: u32,
    /// Clear-to-send pin of the first UART.
    pub uart1_cts: u32,
}

impl PinmuxRegisters {
    /// The bank with every pin register reading zero.
    pub open spec fn spec_all_zero() -> PinmuxRegisters {
        PinmuxRegisters {
            uart2_tx: 0,
            uart3_tx: 0,
            pe6: 0,
            ph6: 0,
            gen1_i2c_scl: 0,
            gen1_i2c_sda: 0,
            pwr_i2c_scl: 0,
            pwr_i2c_sda: 0,
            uart1_tx: 0,
            uart1_rx: 0,
            uart1_rts: 0,
            uart1_cts: 0,
        }
    }

    /// A bank with every pin register reading zero.
    pub fn all_zero() -> (p: PinmuxRegisters)
        ensures
            p == PinmuxRegisters::spec_all_zero(),
    {
        PinmuxRegisters {
            uart2_tx: 0,
            uart3_tx: 0,
            pe6: 0,
            ph6: 0,
            gen1_i2c_scl: 0,
            gen1_i2c_sda: 0,
            pwr_i2c_scl: 0,
            pwr_i2c_sda: 0,
            uart1_tx: 0,
            uart1_rx: 0,
            uart1_rts: 0,
            uart1_cts: 0,
        }
    }
}

/// The pin state that routing one I2C bus leaves behind: both bus pins are
/// taken out of tristate, given their bus function, and have their input
/// buffers enabled.
pub open spec fn i2c_pins_step(p: PinmuxRegisters, device: I2c) -> PinmuxRegisters {
    match device {
        I2c::C1 => PinmuxRegisters { gen1_i2c_scl: INPUT, gen1_i2c_sda: INPUT, ..p },
        I2c::C5 => PinmuxRegisters { pwr_i2c_scl: INPUT, pwr_i2c_sda: INPUT, ..p },
    }
}

/// Routes the pins of one I2C bus into their bus function.
pub fn configure_i2c(p: &mut PinmuxRegisters, device: &I2c)
    ensures
        *final(p) == i2c_pins_step(*old(p), *device),
{
    match device {
        I2c::C1 => {
            p.gen1_i2c_scl = INPUT;
            p.gen1_i2c_sda = INPUT;
        },
        I2c::C5 => {
            p.pwr_i2c_scl = INPUT;
            p.pwr_i2c_sda = INPUT;
        },
    }
}

/// The pin state that routing one UART device leaves behind: the outgoing
/// pins are driven, the incoming pins have their input buffers enabled with
/// the pulls the device expects.
pub open spec fn uart_pins_step(p: PinmuxRegisters, device: Uart) -> PinmuxRegisters {
    match device {
        Uart::A => PinmuxRegisters {
            uart1_tx: 0,
            uart1_rx: INPUT | PULL_UP,
            uart1_rts: 0,
            uart1_cts: INPUT | PULL_DOWN,
            ..p
        },
    }
}

/// Routes the pins of one UART device into their bus function.
pub fn configure_uart(p: &mut PinmuxRegisters, device: &Uart)
    ensures
        *final(p) == uart_pins_step(*old(p), *device),
{
    match device {
        Uart::A => {
            p.uart1_tx = 0;
            p.uart1_rx = INPUT | PULL_UP;
            p.uart1_rts = 0;
            p.uart1_cts = INPUT | PULL_DOWN;
        },
    }
}

} // verus!
