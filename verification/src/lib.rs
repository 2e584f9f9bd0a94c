//! Ordered hardware bring-up and secure key provisioning for a Tegra-family
//! system-on-chip entered before its boot program finished.
//!
//! The library models every hardware block it touches as plain data — register
//! banks as structs of `u32` fields, the security engine as key slots with an
//! irreversible lock state — and states each bring-up step as an exact state
//! transition. The surrounding program owns the real memory-mapped registers
//! and mirrors this model onto them; everything order- or security-sensitive
//! is decided and proved here.

use vstd::prelude::*;

pub mod clock;
pub mod fuse;
pub mod gpio;
pub mod i2c;
pub mod laws;
pub mod pinmux;
pub mod pmc;
pub mod se;
pub mod sysctr0;
pub mod timer;
pub mod uart;

use crate::clock::ClockRegisters;
use crate::fuse::fuse_read_step;
use crate::fuse::sbk_of;
use crate::fuse::FuseChip;
use crate::fuse::FuseKeyWords;
use crate::gpio::config_step;
use crate::gpio::port_regs;
use crate::gpio::set_mode_step;
use crate::gpio::with_port;
use crate::gpio::Gpio;
use crate::gpio::GpioConfig;
use crate::gpio::GpioController;
use crate::gpio::GpioMode;
use crate::gpio::GpioPort;
use crate::i2c::I2c;
use crate::pinmux::configure_i2c;
use crate::pinmux::configure_uart;
use crate::pinmux::i2c_pins_step;
use crate::pinmux::uart_pins_step;
use crate::pinmux::PinmuxRegisters;
use crate::pinmux::INPUT;
use crate::pmc::PmcRegisters;
use crate::se::clear_ram_step;
use crate::se::lock_sbk_step;
use crate::se::lock_ssk_step;
use crate::se::set_key_step;
use crate::se::KeyBytes;
use crate::se::LockState;
use crate::se::SeOp;
use crate::se::SeState;
use crate::se::SecurityEngine;
use crate::se::SBK_SLOT;
use crate::se::SSK_SLOT;
use crate::sysctr0::Sysctr0Registers;
use crate::timer::TimerRegisters;
use crate::uart::Uart;

verus! {

/// A programming error in the bring-up sequence. None of these is
/// recoverable: the surrounding program halts on any of them, since retrying
/// cannot make hardware state consistent after an invalid sequence.
#[derive(Clone, Copy, PartialEq, Eq, Structural, Debug)]
pub enum BringupError {
    /// A key slot beyond the hardware's slot count was addressed.
    KeySlotOutOfRange,
    /// Key material was written to, or read from, a locked key slot.
    KeySlotLocked,
    /// The fuse-held secret was read a second time within one boot cycle.
    FuseAlreadyRead,
    /// A bring-up step was invoked out of its place in the boot sequence.
    OutOfSequence,
    /// An explicit gap: the step's responsibilities are not yet written.
    NotImplemented,
}

/// The register state that the clock/oscillator configuration step leaves
/// behind, as a function of the state it found.
///
/// Every write is either a whole-register value or a masked bit-field patch
/// that keeps the unrelated bits of the old value.
pub open spec fn oscillators_step(
    c: ClockRegisters,
    s: Sysctr0Registers,
    t: TimerRegisters,
    p: PmcRegisters,
) -> (ClockRegisters, Sysctr0Registers, TimerRegisters, PmcRegisters) {
    (
        ClockRegisters {
            // CLK_M divisor 2.
            spare_reg0: (c.spare_reg0 & 0xFFFF_FFF3) | 4,
            // 38.4 MHz oscillator, documented drive strength.
            osc_ctrl: 0x5000_0071,
            // HCLK divider 1, PCLK divider 3 (after the transient 2/1 setting).
            clk_system_rate: 2,
            // PLLMB disabled.
            pllmb_base: c.pllmb_base & 0xBFFF_FFFF,
            // SCLK divider 1.
            clk_source_sys: 0,
            // Run state clocked from PLLP_OUT2 (204 MHz).
            sclk_burst_policy: 0x2000_4444,
            // Super clock divider enabled at 1.
            sclk_divider: 0x8000_0000,
        },
        Sysctr0Registers {
            // 19.2 MHz counter frequency.
            cntfid0: 19_200_000,
        },
        TimerRegisters {
            // Microsecond calibration for a 19.2 MHz clock.
            usec_cfg: 0x45F,
        },
        PmcRegisters {
            // Low-power oscillator drive strength, then its override enable.
            osc_edpd_over: (((p.osc_edpd_over & 0xFFFF_FF81) | 0xE) & 0xFFBF_FFFF) | 0x40_0000,
            cntrl2: (p.cntrl2 & 0xFFFF_EFFF) | 0x1000,
            // Low-power memory-comparator reference voltage range.
            scratch188: (p.scratch188 & 0xFCFF_FFFF) | 0x200_0000,
            // 19.2 MHz / 32.768 kHz timescale ratio, times 16.
            tsc_mult: (p.tsc_mult & 0xFFFF_0000) | 0x249F,
            ..p
        },
    )
}

/// Brings the main oscillator, the PLLs and the bus clock dividers to their
/// operating state. Runs once after reset, before any peripheral that depends
/// on a bus or peripheral clock.
///
/// The final register state is exactly [`oscillators_step`] of the state on
/// entry; no unrelated bit changes.
pub fn config_oscillators(
    c: &mut ClockRegisters,
    s: &mut Sysctr0Registers,
    t: &mut TimerRegisters,
    p: &mut PmcRegisters,
)
    ensures
        (*final(c), *final(s), *final(t), *final(p)) == oscillators_step(
            *old(c),
            *old(s),
            *old(t),
            *old(p),
        ),
{
    // CLK_M divisor 2.
    c.spare_reg0 = (c.spare_reg0 & 0xFFFF_FFF3) | 4;
    // Counter frequency for timekeeping.
    s.cntfid0 = 19_200_000;
    // Microsecond timer calibration for a 19.2 MHz clock.
    t.usec_cfg = 0x45F;

    // 38.4 MHz oscillator and drive strength.
    c.osc_ctrl = 0x5000_0071;

    // Low-power oscillator drive strength and its override enable.
    p.osc_edpd_over = (p.osc_edpd_over & 0xFFFF_FF81) | 0xE;
    p.osc_edpd_over = (p.osc_edpd_over & 0xFFBF_FFFF) | 0x40_0000;
    p.cntrl2 = (p.cntrl2 & 0xFFFF_EFFF) | 0x1000;
    // Low-power memory-comparator reference voltage range.
    p.scratch188 = (p.scratch188 & 0xFCFF_FFFF) | 0x200_0000;

    // HCLK divider 2, PCLK divider 1, while the clock source changes.
    c.clk_system_rate = 0x10;
    // Disable the unused PLLMB.
    c.pllmb_base = c.pllmb_base & 0xBFFF_FFFF;

    // Low-power timescale multiplier: 19.2 MHz / 32.768 kHz, times 16.
    p.tsc_mult = (p.tsc_mult & 0xFFFF_0000) | 0x249F;

    // SCLK divider 1.
    c.clk_source_sys = 0;
    // Run state clocked from PLLP_OUT2 (204 MHz).
    c.sclk_burst_policy = 0x2000_4444;
    // Enable the super clock divider at 1.
    c.sclk_divider = 0x8000_0000;
    // HCLK divider 1, PCLK divider 3.
    c.clk_system_rate = 2;
}

/// The register state that the pin routing step leaves behind, as a function
/// of the state it found: the composition, in program order, of the pin
/// multiplexer writes, the GPIO mode selections, and the GPIO configurations.
pub open spec fn gpios_step(p: PinmuxRegisters, g: GpioController) -> (
    PinmuxRegisters,
    GpioController,
) {
    let p1 = PinmuxRegisters { uart2_tx: 0, uart3_tx: 0, pe6: INPUT, ph6: INPUT, ..p };
    let g1 = with_port(g, GpioPort::G, set_mode_step(port_regs(g, GpioPort::G), 0, GpioMode::Gpio));
    let g2 = with_port(
        g1,
        GpioPort::D,
        set_mode_step(port_regs(g1, GpioPort::D), 1, GpioMode::Gpio),
    );
    let g3 = with_port(
        g2,
        GpioPort::E,
        set_mode_step(port_regs(g2, GpioPort::E), 6, GpioMode::Gpio),
    );
    let g4 = with_port(
        g3,
        GpioPort::H,
        set_mode_step(port_regs(g3, GpioPort::H), 6, GpioMode::Gpio),
    );
    let g5 = with_port(g4, GpioPort::G, config_step(port_regs(g4, GpioPort::G), 0, GpioConfig::Input));
    let g6 = with_port(g5, GpioPort::D, config_step(port_regs(g5, GpioPort::D), 1, GpioConfig::Input));
    let g7 = with_port(g6, GpioPort::E, config_step(port_regs(g6, GpioPort::E), 6, GpioConfig::Input));
    let g8 = with_port(g7, GpioPort::H, config_step(port_regs(g7, GpioPort::H), 6, GpioConfig::Input));
    let p2 = uart_pins_step(i2c_pins_step(i2c_pins_step(p1, I2c::C1), I2c::C5), Uart::A);
    let g9 = with_port(g8, GpioPort::X, config_step(port_regs(g8, GpioPort::X), 6, GpioConfig::Input));
    let g10 = with_port(
        g9,
        GpioPort::X,
        config_step(port_regs(g9, GpioPort::X), 7, GpioConfig::Input),
    );
    (p2, g10)
}

/// Assigns the physical pin functions needed before the second boot stage:
/// routes the second and third UART transmit pins to their GPIO function,
/// marks the accessory-detect pins as inputs, puts the affected pins under
/// GPIO control with input buffering, routes two I2C buses and one UART, and
/// configures the volume buttons as inputs.
///
/// Pin-multiplexer function selection precedes GPIO-mode selection, which
/// precedes input configuration. The final register state is exactly
/// [`gpios_step`] of the state on entry, so rerunning the step changes
/// nothing further.
pub fn config_gpios(p: &mut PinmuxRegisters, g: &mut GpioController)
    ensures
        (*final(p), *final(g)) == gpios_step(*old(p), *old(g)),
{
    // Route the second and third UART transmit pins to their GPIO function.
    p.uart2_tx = 0;
    p.uart3_tx = 0;

    // Accessory-detect pins become inputs at the multiplexer level.
    p.pe6 = INPUT;
    p.ph6 = INPUT;

    let uart_b_tx = Gpio { port: GpioPort::G, pin: 0 };
    let uart_c_tx = Gpio { port: GpioPort::D, pin: 1 };
    let accessory_e = Gpio { port: GpioPort::E, pin: 6 };
    let accessory_h = Gpio { port: GpioPort::H, pin: 6 };

    // GPIO mode for the accessory-detect and UART transmit pins.
    uart_b_tx.set_mode(g, GpioMode::Gpio);
    uart_c_tx.set_mode(g, GpioMode::Gpio);
    accessory_e.set_mode(g, GpioMode::Gpio);
    accessory_h.set_mode(g, GpioMode::Gpio);

    // Input buffering for the same four pins.
    uart_b_tx.config(g, GpioConfig::Input);
    uart_c_tx.config(g, GpioConfig::Input);
    accessory_e.config(g, GpioConfig::Input);
    accessory_h.config(g, GpioConfig::Input);

    // Bus pin states for two I2C buses and one UART.
    configure_i2c(p, &I2c::C1);
    configure_i2c(p, &I2c::C5);
    configure_uart(p, &Uart::A);

    // Volume buttons as inputs.
    Gpio::button_vol_up().config(g, GpioConfig::Input);
    Gpio::button_vol_down().config(g, GpioConfig::Input);
}

/// The register state that the persistent scratch step leaves behind: two
/// flag bits cleared, the verified-bring-up bit set, every other bit kept.
pub open spec fn scratch_step(p: PmcRegisters) -> PmcRegisters {
    PmcRegisters {
        scratch20: p.scratch20 & 0xFFF3_FFFF,
        scratch190: p.scratch190 & 0xFFFF_FFFE,
        secure_scratch21: p.secure_scratch21 | 0x10,
        ..p
    }
}

/// Sets the persistent power-management scratch state: clears one flag bit in
/// each of two scratch registers and sets the secure-scratch bit that tells
/// later-stage software a verified bring-up occurred.
///
/// The final register state is exactly [`scratch_step`] of the state on
/// entry, so rerunning the step changes nothing further.
pub fn config_pmc_scratch(p: &mut PmcRegisters)
    ensures
        *final(p) == scratch_step(*old(p)),
{
    p.scratch20 = p.scratch20 & 0xFFF3_FFFF;
    p.scratch190 = p.scratch190 & 0xFFFF_FFFE;
    p.secure_scratch21 = p.secure_scratch21 | 0x10;
}

/// The security-engine operations that one completed provisioning appends to
/// the engine's log, in execution order.
pub open spec fn provision_ops() -> Seq<SeOp> {
    seq![SeOp::SetKey(SBK_SLOT), SeOp::LockSbk, SeOp::SecureRamClear, SeOp::LockSsk]
}

/// Whether the key provisioning sequence is accepted: both key slots must
/// still be unlocked and the fuse-held secret must not have been read yet
/// this boot cycle. Anything else is a repeated or out-of-order provisioning
/// attempt, and is rejected before any state changes.
pub open spec fn provision_allowed(se: SeState, f: FuseChip) -> bool {
    &&& se.slots[SBK_SLOT as int].lock is Unlocked
    &&& se.slots[SSK_SLOT as int].lock is Unlocked
    &&& f.reads == 0
}

/// The engine state that one completed provisioning leaves behind: the key
/// write into the secure-boot-key slot, the lock-SBK command, the
/// secure-memory zero-fill and the lock-SSK command, in that order.
pub open spec fn provision_se_step(se: SeState, key: KeyBytes) -> SeState {
    lock_ssk_step(clear_ram_step(lock_sbk_step(set_key_step(se, SBK_SLOT as int, key))))
}

/// The PMC state that one completed provisioning leaves behind: the
/// crypto-operation register neutral, the boot-reason and reset-status
/// registers zero, every other register kept.
pub open spec fn provision_pmc_step(p: PmcRegisters) -> PmcRegisters {
    PmcRegisters { crypto_op: 0, scratch200: 0, reset_status: 0, ..p }
}

/// Runs the secure key provisioning that the chip's own boot program was
/// interrupted before: reads the device-unique secret from fuse storage (the
/// only read this boot cycle), programs it into the secure-boot-key slot,
/// locks that slot, zero-fills the secure memory window, neutralizes the
/// crypto-operation register, locks the secure-storage-key slot, and erases
/// the boot-reason and reset-status records.
///
/// Must run exactly once, after clock and scratch configuration. A repeated
/// attempt — a locked key slot or an already-read fuse secret — is rejected
/// as a programming error before anything changes.
pub fn config_se_brom(
    se: &mut SecurityEngine,
    f: &mut FuseChip,
    p: &mut PmcRegisters,
) -> (r: Result<(), BringupError>)
    requires
        old(se)@.wf(),
    ensures
        final(se)@.wf(),
        provision_allowed(old(se)@, *old(f)) ==> r is Ok && final(se)@ == provision_se_step(
            old(se)@,
            sbk_of(old(f).private_key),
        ) && *final(f) == fuse_read_step(*old(f)) && *final(p) == provision_pmc_step(*old(p)),
        !(old(se)@.slots[SBK_SLOT as int].lock is Unlocked && old(se)@.slots[
            SSK_SLOT as int
        ].lock is Unlocked) ==> r == Err::<(), BringupError>(BringupError::KeySlotLocked),
        old(se)@.slots[SBK_SLOT as int].lock is Unlocked && old(se)@.slots[
            SSK_SLOT as int
        ].lock is Unlocked && old(f).reads != 0 ==> r == Err::<(), BringupError>(
            BringupError::FuseAlreadyRead,
        ),
        !provision_allowed(old(se)@, *old(f)) ==> final(se)@ == old(se)@ && *final(f) == *old(f)
            && *final(p) == *old(p),
{
    // Reject a repeated provisioning attempt before touching anything:
    // retrying cannot make hardware state consistent, and a silent reapply
    // would hide the programming error.
    let sbk_locked = match se.slots[SBK_SLOT].lock {
        LockState::Unlocked => false,
        _ => true,
    };
    let ssk_locked = match se.slots[SSK_SLOT].lock {
        LockState::Unlocked => false,
        _ => true,
    };
    if sbk_locked || ssk_locked {
        return Err(BringupError::KeySlotLocked);
    }
    if f.reads != 0 {
        return Err(BringupError::FuseAlreadyRead);
    }

    // The only read of the device-unique secret this boot cycle.
    let sbk = match f.read_private_key() {
        Ok(k) => k,
        Err(e) => {
            proof {
                assert(false);
            }
            return Err(e);
        },
    };

    // Program the secret into its reserved slot, then lock the slot.
    match se.set_aes_keyslot(SBK_SLOT, sbk) {
        Ok(u) => u,
        Err(e) => {
            proof {
                assert(false);
            }
            return Err(e);
        },
    };
    match se.lock_sbk() {
        Ok(u) => u,
        Err(e) => {
            proof {
                assert(false);
            }
            return Err(e);
        },
    };

    // Scrub residual key-derivation artifacts from the secure window; later
    // secure-context behavior depends on it reading zero.
    se.clear_secure_ram();

    // Neutral crypto-operation state.
    p.crypto_op = 0;

    match se.lock_ssk() {
        Ok(u) => u,
        Err(e) => {
            proof {
                assert(false);
            }
            return Err(e);
        },
    };

    // Erase the record of how this boot cycle was entered.
    p.scratch200 = 0;
    p.reset_status = 0;
    Ok(())
}

/// Memory built-in-self-test workaround. An explicit gap in the bring-up
/// sequence: its responsibilities are not yet written down, and it fails
/// loudly rather than silently skipping hardware state that later steps
/// would assume consistent.
pub fn mbist_workaround() -> (r: Result<(), BringupError>)
    ensures
        r == Err::<(), BringupError>(BringupError::NotImplemented),
{
    Err(BringupError::NotImplemented)
}

/// Orchestrator progress through the bring-up state machine. Transitions are
/// strictly monotonic; none may be skipped, repeated or reversed.
#[derive(Clone, Copy, PartialEq, Eq, Structural, Debug)]
pub enum BootStage {
    Reset,
    ClocksReady,
    PinsReady,
    ScratchReady,
    KeysProvisioned,
    HandoffReady,
}

/// Every hardware block the bring-up sequence touches, owned as one
/// long-lived instance for the single boot execution.
#[derive(PartialEq, Eq, Debug)]
pub struct Hardware {
    pub clock: ClockRegisters,
    pub sysctr0: Sysctr0Registers,
    pub timer: TimerRegisters,
    pub pmc: PmcRegisters,
    pub pinmux: PinmuxRegisters,
    pub gpio: GpioController,
    pub se: SecurityEngine,
    pub fuse: FuseChip,
    pub stage: BootStage,
}

/// The mathematical state of all hardware the bring-up sequence touches.
#[verifier::ext_equal]
pub struct HwView {
    pub clock: ClockRegisters,
    pub sysctr0: Sysctr0Registers,
    pub timer: TimerRegisters,
    pub pmc: PmcRegisters,
    pub pinmux: PinmuxRegisters,
    pub gpio: GpioController,
    pub se: SeState,
    pub fuse: FuseChip,
    pub stage: BootStage,
}

impl View for Hardware {
    type V = HwView;

    open spec fn view(&self) -> HwView {
        HwView {
            clock: self.clock,
            sysctr0: self.sysctr0,
            timer: self.timer,
            pmc: self.pmc,
            pinmux: self.pinmux,
            gpio: self.gpio,
            se: self.se@,
            fuse: self.fuse,
            stage: self.stage,
        }
    }
}

impl Hardware {
    /// The hardware as a cold power-on leaves it for this routine: every
    /// modelled register zero, every key slot unlocked, the fuse secret not
    /// yet read, the orchestrator at reset.
    pub fn new(private_key: FuseKeyWords) -> (hw: Hardware)
        ensures
            hw@.se.wf(),
            hw.stage == BootStage::Reset,
            hw.fuse == (FuseChip { private_key, reads: 0 }),
            hw@.se.log == Seq::<SeOp>::empty(),
            forall|i: int|
                0 <= i < hw@.se.slots.len() ==> (#[trigger] hw@.se.slots[i]).lock
                    is Unlocked,
            forall|i: int| 0 <= i < hw@.se.ram.len() ==> hw@.se.ram[i] == 0u8,
            hw.clock == ClockRegisters::spec_all_zero(),
            hw.sysctr0 == Sysctr0Registers::spec_all_zero(),
            hw.timer == TimerRegisters::spec_all_zero(),
            hw.pmc == PmcRegisters::spec_all_zero(),
            hw.pinmux == PinmuxRegisters::spec_all_zero(),
            hw.gpio == GpioController::spec_all_zero(),
    {
        Hardware {
            clock: ClockRegisters::all_zero(),
            sysctr0: Sysctr0Registers::all_zero(),
            timer: TimerRegisters::all_zero(),
            pmc: PmcRegisters::all_zero(),
            pinmux: PinmuxRegisters::all_zero(),
            gpio: GpioController::all_zero(),
            se: SecurityEngine::new(),
            fuse: FuseChip::new(private_key),
            stage: BootStage::Reset,
        }
    }
}

/// Whether the whole bring-up sequence is accepted: the orchestrator must be
/// at reset and the provisioning preconditions must hold.
pub open spec fn boot_allowed(v: HwView) -> bool {
    &&& v.stage is Reset
    &&& provision_allowed(v.se, v.fuse)
}

/// The hardware state that one completed bring-up leaves behind: the clock,
/// pin and scratch steps applied in order, then the key provisioning, with
/// the orchestrator ready for handoff.
pub open spec fn boot_step(v: HwView) -> HwView {
    let (c, s, t, p1) = oscillators_step(v.clock, v.sysctr0, v.timer, v.pmc);
    let (px, g) = gpios_step(v.pinmux, v.gpio);
    let p2 = scratch_step(p1);
    let se = provision_se_step(v.se, sbk_of(v.fuse.private_key));
    let p3 = provision_pmc_step(p2);
    HwView {
        clock: c,
        sysctr0: s,
        timer: t,
        pmc: p3,
        pinmux: px,
        gpio: g,
        se,
        fuse: fuse_read_step(v.fuse),
        stage: BootStage::HandoffReady,
    }
}

/// Initializes the hardware in an early boot context, reproducing the steps
/// the chip's own boot program was interrupted before: clocks, pins,
/// persistent scratch state, then secure key provisioning, in that fixed
/// order. Reaching `HandoffReady` is the sole postcondition required before
/// control transfers to the second boot stage.
///
/// The sequence runs once: invoked out of order, or with provisioning
/// already begun, it is rejected as a programming error before anything
/// changes, and the surrounding program halts.
pub fn hardware_init(hw: &mut Hardware) -> (r: Result<(), BringupError>)
    requires
        old(hw)@.se.wf(),
    ensures
        final(hw)@.se.wf(),
        boot_allowed(old(hw)@) ==> r is Ok && final(hw)@ == boot_step(old(hw)@)
            && final(hw).stage == BootStage::HandoffReady,
        !(old(hw).stage is Reset) ==> r == Err::<(), BringupError>(BringupError::OutOfSequence),
        old(hw).stage is Reset && !(old(hw)@.se.slots[SBK_SLOT as int].lock is Unlocked
            && old(hw)@.se.slots[SSK_SLOT as int].lock is Unlocked) ==> r == Err::<
            (),
            BringupError,
        >(BringupError::KeySlotLocked),
        old(hw).stage is Reset && old(hw)@.se.slots[SBK_SLOT as int].lock is Unlocked
            && old(hw)@.se.slots[SSK_SLOT as int].lock is Unlocked && old(hw).fuse.reads != 0
            ==> r == Err::<(), BringupError>(BringupError::FuseAlreadyRead),
        !boot_allowed(old(hw)@) ==> final(hw)@ == old(hw)@,
{
    // Validate the whole sequence's preconditions before the first write:
    // partially-applied hardware state has no safe abandonment procedure.
    match hw.stage {
        BootStage::Reset => {},
        _ => {
            return Err(BringupError::OutOfSequence);
        },
    }
    let sbk_locked = match hw.se.slots[SBK_SLOT].lock {
        LockState::Unlocked => false,
        _ => true,
    };
    let ssk_locked = match hw.se.slots[SSK_SLOT].lock {
        LockState::Unlocked => false,
        _ => true,
    };
    if sbk_locked || ssk_locked {
        return Err(BringupError::KeySlotLocked);
    }
    if hw.fuse.reads != 0 {
        return Err(BringupError::FuseAlreadyRead);
    }

    config_oscillators(&mut hw.clock, &mut hw.sysctr0, &mut hw.timer, &mut hw.pmc);
    hw.stage = BootStage::ClocksReady;

    config_gpios(&mut hw.pinmux, &mut hw.gpio);
    hw.stage = BootStage::PinsReady;

    config_pmc_scratch(&mut hw.pmc);
    hw.stage = BootStage::ScratchReady;

    match config_se_brom(&mut hw.se, &mut hw.fuse, &mut hw.pmc) {
        Ok(u) => u,
        Err(e) => {
            proof {
                assert(false);
            }
            return Err(e);
        },
    };
    hw.stage = BootStage::KeysProvisioned;

    hw.stage = BootStage::HandoffReady;
    assert(hw@ =~~= boot_step(old(hw)@));
    Ok(())
}

} // verus!
