//! The guarantees the bring-up sequence is built around, stated on the same
//! transition functions that the executable contracts use and proved once
//! for all states: operation ordering, the single fuse read, confinement of
//! the secret, lock irreversibility, idempotence of the non-lock steps, and
//! the boot-record scrub.

use vstd::prelude::*;

use crate::boot_allowed;
use crate::boot_step;
use crate::clock::ClockRegisters;
use crate::gpios_step;
use crate::oscillators_step;
use crate::pinmux::PinmuxRegisters;
use crate::pmc::PmcRegisters;
use crate::provision_ops;
use crate::provision_se_step;
use crate::scratch_step;
use crate::se::clear_ram_step;
use crate::se::lock_sbk_allowed;
use crate::se::lock_sbk_step;
use crate::se::lock_ssk_allowed;
use crate::se::lock_ssk_step;
use crate::se::read_key_allowed;
use crate::se::set_key_allowed;
use crate::se::set_key_step;
use crate::se::KeyBytes;
use crate::se::SeOp;
use crate::se::SeState;
use crate::se::SBK_SLOT;
use crate::gpio::GpioController;
use crate::sysctr0::Sysctr0Registers;
use crate::timer::TimerRegisters;
use crate::HwView;

verus! {

/// Law: in any completed provisioning, the lock-SBK command comes strictly
/// after the key-slot write and strictly before the secure-memory zero-fill,
/// which comes strictly before lock-SSK. The four operations stand in the
/// engine's log in exactly that order, right after whatever was logged
/// before.
pub proof fn lemma_lock_order(s: SeState, key: KeyBytes)
    ensures
        ({
            let log = provision_se_step(s, key).log;
            let n = s.log.len() as int;
            &&& log =~= s.log + provision_ops()
            &&& log.len() == n + 4
            &&& log[n] == SeOp::SetKey(SBK_SLOT)
            &&& log[n + 1] == SeOp::LockSbk
            &&& log[n + 2] == SeOp::SecureRamClear
            &&& log[n + 3] == SeOp::LockSsk
        }),
{
}

/// Law: one completed bring-up reads the fuse-held secret exactly once; the
/// sequence is only accepted when no read has happened yet this boot cycle.
pub proof fn lemma_single_fuse_read(v: HwView)
    requires
        boot_allowed(v),
    ensures
        v.fuse.reads == 0,
        boot_step(v).fuse.reads == 1,
{
}

/// Law: the fuse-held secret reaches no state but the secure-boot-key slot's
/// key material. Two bring-ups from states that differ only in the fuse
/// words leave states that differ only in the fuse words and in that slot's
/// key; every register, every other slot, that slot's lock state, the secure
/// memory window and the operation log come out equal.
pub proof fn lemma_fuse_confinement(v1: HwView, v2: HwView)
    requires
        v1.se.wf(),
        v1.clock == v2.clock,
        v1.sysctr0 == v2.sysctr0,
        v1.timer == v2.timer,
        v1.pmc == v2.pmc,
        v1.pinmux == v2.pinmux,
        v1.gpio == v2.gpio,
        v1.se == v2.se,
        v1.stage == v2.stage,
        v1.fuse.reads == v2.fuse.reads,
    ensures
        ({
            let b1 = boot_step(v1);
            let b2 = boot_step(v2);
            &&& b1.clock == b2.clock
            &&& b1.sysctr0 == b2.sysctr0
            &&& b1.timer == b2.timer
            &&& b1.pmc == b2.pmc
            &&& b1.pinmux == b2.pinmux
            &&& b1.gpio == b2.gpio
            &&& b1.se.ram == b2.se.ram
            &&& b1.se.log == b2.se.log
            &&& b1.se.slots.len() == b2.se.slots.len()
            &&& forall|i: int|
                0 <= i < b1.se.slots.len() && i != SBK_SLOT ==> b1.se.slots[i] == b2.se.slots[i]
            &&& b1.se.slots[SBK_SLOT as int].lock == b2.se.slots[SBK_SLOT as int].lock
            &&& b1.fuse.reads == b2.fuse.reads
            &&& b1.stage == b2.stage
        }),
{
    let b1 = boot_step(v1);
    let b2 = boot_step(v2);
    assert(b1.se.ram =~= b2.se.ram);
}

/// Law: a locked key slot stays locked and inaccessible. A write of key
/// material into it is not accepted, a read of it is not accepted, and no
/// accepted engine operation — a key write elsewhere, either lock command,
/// or the secure-memory zero-fill — changes its lock state.
pub proof fn lemma_lock_irreversible(s: SeState, slot: int, other: int, key: KeyBytes)
    requires
        s.wf(),
        0 <= slot < s.slots.len(),
        !(s.slots[slot].lock is Unlocked),
    ensures
        !set_key_allowed(s, slot),
        !read_key_allowed(s, slot),
        set_key_allowed(s, other) ==> set_key_step(s, other, key).slots[slot].lock
            == s.slots[slot].lock,
        lock_sbk_allowed(s) ==> lock_sbk_step(s).slots[slot].lock == s.slots[slot].lock,
        lock_ssk_allowed(s) ==> lock_ssk_step(s).slots[slot].lock == s.slots[slot].lock,
        clear_ram_step(s).slots[slot].lock == s.slots[slot].lock,
{
}

proof fn lemma_and_twice(v: u32, m: u32)
    by (bit_vector)
    ensures
        (v & m) & m == v & m,
{
}

proof fn lemma_or_twice(v: u32, m: u32)
    by (bit_vector)
    ensures
        (v | m) | m == v | m,
{
}

proof fn lemma_patch_twice(v: u32, m: u32, b: u32)
    by (bit_vector)
    ensures
        (((v & m) | b) & m) | b == (v & m) | b,
{
}

proof fn lemma_osc_edpd_twice(v: u32)
    by (bit_vector)
    ensures
        (((((((v & 0xFFFF_FF81) | 0xE) & 0xFFBF_FFFF) | 0x40_0000) & 0xFFFF_FF81) | 0xE)
            & 0xFFBF_FFFF) | 0x40_0000 == (((v & 0xFFFF_FF81) | 0xE) & 0xFFBF_FFFF) | 0x40_0000,
{
}

proof fn lemma_gpio_pin_twice(v: u32, w: u32, m: u32)
    by (bit_vector)
    ensures
        (((v | m) | m) | m) | m == (v | m) | m,
        (w & !m) & !m == w & !m,
{
}

proof fn lemma_gpio_port_x_twice(v: u32, w: u32)
    by (bit_vector)
    ensures
        (((v | 0x40) | 0x80) | 0x40) | 0x80 == (v | 0x40) | 0x80,
        (((w & !0x40) & !0x80) & !0x40) & !0x80 == (w & !0x40) & !0x80,
{
}

/// Law: rerunning the clock/oscillator configuration on the state it
/// produced leaves that state unchanged. Every write is an absolute value or
/// a masked bit-field patch, never a counter or a toggle.
pub proof fn lemma_config_oscillators_idempotent(
    c: ClockRegisters,
    s: Sysctr0Registers,
    t: TimerRegisters,
    p: PmcRegisters,
)
    ensures
        ({
            let (c1, s1, t1, p1) = oscillators_step(c, s, t, p);
            oscillators_step(c1, s1, t1, p1) == (c1, s1, t1, p1)
        }),
{
    lemma_patch_twice(c.spare_reg0, 0xFFFF_FFF3, 4);
    lemma_and_twice(c.pllmb_base, 0xBFFF_FFFF);
    lemma_osc_edpd_twice(p.osc_edpd_over);
    lemma_patch_twice(p.cntrl2, 0xFFFF_EFFF, 0x1000);
    lemma_patch_twice(p.scratch188, 0xFCFF_FFFF, 0x200_0000);
    lemma_patch_twice(p.tsc_mult, 0xFFFF_0000, 0x249F);
}

/// Law: rerunning the pin routing on the state it produced leaves that
/// state unchanged. Every multiplexer write is absolute and every GPIO write
/// sets or clears fixed bits.
pub proof fn lemma_config_gpios_idempotent(p: PinmuxRegisters, g: GpioController)
    ensures
        ({
            let (p1, g1) = gpios_step(p, g);
            gpios_step(p1, g1) == (p1, g1)
        }),
{
    assert(1u32 << 0u32 == 1) by (bit_vector);
    assert(1u32 << 1u32 == 2) by (bit_vector);
    assert(1u32 << 6u32 == 0x40) by (bit_vector);
    assert(1u32 << 7u32 == 0x80) by (bit_vector);
    lemma_gpio_pin_twice(g.g.cnf, g.g.oe, 1);
    lemma_gpio_pin_twice(g.d.cnf, g.d.oe, 2);
    lemma_gpio_pin_twice(g.e.cnf, g.e.oe, 0x40);
    lemma_gpio_pin_twice(g.h.cnf, g.h.oe, 0x40);
    lemma_gpio_port_x_twice(g.x.cnf, g.x.oe);
}

/// Law: rerunning the persistent scratch configuration on the state it
/// produced leaves that state unchanged; its writes are masked bit patches.
pub proof fn lemma_config_pmc_scratch_idempotent(p: PmcRegisters)
    ensures
        scratch_step(scratch_step(p)) == scratch_step(p),
{
    lemma_and_twice(p.scratch20, 0xFFF3_FFFF);
    lemma_and_twice(p.scratch190, 0xFFFF_FFFE);
    lemma_or_twice(p.secure_scratch21, 0x10);
}

/// Law: after one completed bring-up, the boot-reason and reset-status
/// registers read zero and the crypto-operation register is neutral,
/// whatever they held on entry — later-stage software cannot tell how this
/// boot cycle was entered by inspecting them.
pub proof fn lemma_boot_record_erased(v: HwView)
    ensures
        boot_step(v).pmc.scratch200 == 0,
        boot_step(v).pmc.reset_status == 0,
        boot_step(v).pmc.crypto_op == 0,
{
}

} // verus!
