//! GPIO controller registers and per-pin configuration.
//!
//! Each port owns three registers with one bit per pin: `cnf` selects GPIO
//! mode over the pin's special function, `oe` selects output over input, and
//! `out` holds the driven level. Pin-multiplexer function selection must
//! precede GPIO-mode selection, which must precede input/output
//! configuration; the bring-up sequence keeps that order.

use vstd::prelude::*;

verus! {

/// A GPIO port with pins touched during bring-up.
#[derive(Clone, Copy, PartialEq, Eq, Structural, Debug)]
pub enum GpioPort {
    D,
    E,
    G,
    H,
    X,
}

/// Whether a pin follows its special function or the GPIO controller.
#[derive(Clone, Copy, PartialEq, Eq, Structural, Debug)]
pub enum GpioMode {
    /// The pin follows its special function.
    Sfio,
    /// The pin follows the GPIO controller.
    Gpio,
}

/// The electrical configuration of a pin under GPIO control.
#[derive(Clone, Copy, PartialEq, Eq, Structural, Debug)]
pub enum GpioConfig {
    /// Input with the buffer enabled.
    Input,
    /// Output driven low.
    OutputLow,
    /// Output driven high.
    OutputHigh,
}

/// The three per-pin register words of one GPIO port.
#[derive(Clone, Copy, PartialEq, Eq, Structural, Debug)]
pub struct GpioPortRegisters {
    /// GPIO-mode bits, one per pin.
    pub cnf: u32,
    /// Output-enable bits, one per pin.
    pub oe: u32,
    /// Output-level bits, one per pin.
    pub out: u32,
}

/// The GPIO ports that the bring-up sequence writes.
#[derive(Clone, Copy, PartialEq, Eq, Structural, Debug)]
pub struct GpioController {
    pub d: GpioPortRegisters,
    pub e: GpioPortRegisters,
    pub g: GpioPortRegisters,
    pub h: GpioPortRegisters,
    pub x: GpioPortRegisters,
}

impl GpioController {
    /// The controller with every register reading zero.
    pub open spec fn spec_all_zero() -> GpioController {
        GpioController {
            d: GpioPortRegisters { cnf: 0, oe: 0, out: 0 },
            e: GpioPortRegisters { cnf: 0, oe: 0, out: 0 },
            g: GpioPortRegisters { cnf: 0, oe: 0, out: 0 },
            h: GpioPortRegisters { cnf: 0, oe: 0, out: 0 },
            x: GpioPortRegisters { cnf: 0, oe: 0, out: 0 },
        }
    }

    /// A controller with every register reading zero.
    pub fn all_zero() -> (c: GpioController)
        ensures
            c == GpioController::spec_all_zero(),
    {
        let zero = GpioPortRegisters { cnf: 0, oe: 0, out: 0 };
        GpioController { d: zero, e: zero, g: zero, h: zero, x: zero }
    }
}

/// The registers of one port.
pub open spec fn port_regs(c: GpioController, port: GpioPort) -> GpioPortRegisters {
    match port {
        GpioPort::D => c.d,
        GpioPort::E => c.e,
        GpioPort::G => c.g,
        GpioPort::H => c.h,
        GpioPort::X => c.x,
    }
}

/// The controller with one port's registers replaced.
pub open spec fn with_port(
    c: GpioController,
    port: GpioPort,
    r: GpioPortRegisters,
) -> GpioController {
    match port {
        GpioPort::D => GpioController { d: r, ..c },
        GpioPort::E => GpioController { e: r, ..c },
        GpioPort::G => GpioController { g: r, ..c },
        GpioPort::H => GpioController { h: r, ..c },
        GpioPort::X => GpioController { x: r, ..c },
    }
}

/// One GPIO pin, named by its port and its bit position within the port.
#[derive(Clone, Copy, PartialEq, Eq, Structural, Debug)]
pub struct Gpio {
    pub port: GpioPort,
    pub pin: u32,
}

/// The port state after selecting a pin's mode: the pin's `cnf` bit is set
/// for GPIO mode and cleared for the special function; no other bit changes.
pub open spec fn set_mode_step(r: GpioPortRegisters, pin: u32, mode: GpioMode) -> GpioPortRegisters {
    match mode {
        GpioMode::Gpio => GpioPortRegisters { cnf: r.cnf | (1u32 << pin), ..r },
        GpioMode::Sfio => GpioPortRegisters { cnf: r.cnf & !(1u32 << pin), ..r },
    }
}

/// The port state after configuring a pin: the pin is put under GPIO control,
/// and its direction and driven level are set; no other bit changes.
pub open spec fn config_step(r: GpioPortRegisters, pin: u32, config: GpioConfig) -> GpioPortRegisters {
    let mask = 1u32 << pin;
    match config {
        GpioConfig::Input => GpioPortRegisters { cnf: r.cnf | mask, oe: r.oe & !mask, ..r },
        GpioConfig::OutputLow => GpioPortRegisters {
            cnf: r.cnf | mask,
            oe: r.oe | mask,
            out: r.out & !mask,
        },
        GpioConfig::OutputHigh => GpioPortRegisters {
            cnf: r.cnf | mask,
            oe: r.oe | mask,
            out: r.out | mask,
        },
    }
}

/// A mutable borrow of one port's registers, for read-modify-write patches.
fn port_mut(c: &mut GpioController, port: GpioPort) -> (r: &mut GpioPortRegisters)
    ensures
        *r == port_regs(*old(c), port),
        *final(c) == with_port(*old(c), port, *final(r)),
{
    match port {
        GpioPort::D => &mut c.d,
        GpioPort::E => &mut c.e,
        GpioPort::G => &mut c.g,
        GpioPort::H => &mut c.h,
        GpioPort::X => &mut c.x,
    }
}

impl Gpio {
    /// The volume-up button pin.
    pub fn button_vol_up() -> (g: Gpio)
        ensures
            g == (Gpio { port: GpioPort::X, pin: 6 }),
    {
        Gpio { port: GpioPort::X, pin: 6 }
    }

    /// The volume-down button pin.
    pub fn button_vol_down() -> (g: Gpio)
        ensures
            g == (Gpio { port: GpioPort::X, pin: 7 }),
    {
        Gpio { port: GpioPort::X, pin: 7 }
    }

    /// Selects whether this pin follows its special function or the GPIO
    /// controller. Patches only this pin's `cnf` bit.
    pub fn set_mode(&self, c: &mut GpioController, mode: GpioMode)
        requires
            self.pin < 8,
        ensures
            *final(c) == with_port(
                *old(c),
                self.port,
                set_mode_step(port_regs(*old(c), self.port), self.pin, mode),
            ),
    {
        let r = port_mut(c, self.port);
        match mode {
            GpioMode::Gpio => {
                r.cnf = r.cnf | (1u32 << self.pin);
            },
            GpioMode::Sfio => {
                r.cnf = r.cnf & !(1u32 << self.pin);
            },
        }
    }

    /// Puts this pin under GPIO control and sets its direction and, for
    /// outputs, its driven level. Patches only this pin's bits.
    pub fn config(&self, c: &mut GpioController, config: GpioConfig)
        requires
            self.pin < 8,
        ensures
            *final(c) == with_port(
                *old(c),
                self.port,
                config_step(port_regs(*old(c), self.port), self.pin, config),
            ),
    {
        let r = port_mut(c, self.port);
        let mask = 1u32 << self.pin;
        match config {
            GpioConfig::Input => {
                r.cnf = r.cnf | mask;
                r.oe = r.oe & !mask;
            },
            GpioConfig::OutputLow => {
                r.cnf = r.cnf | mask;
                r.oe = r.oe | mask;
                r.out = r.out & !mask;
            },
            GpioConfig::OutputHigh => {
                r.cnf = r.cnf | mask;
                r.oe = r.oe | mask;
                r.out = r.out | mask;
            },
        }
    }
}

} // verus!
