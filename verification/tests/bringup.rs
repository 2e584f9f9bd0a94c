use libswitch::clock::ClockRegisters;
use libswitch::config_gpios;
use libswitch::config_oscillators;
use libswitch::config_pmc_scratch;
use libswitch::config_se_brom;
use libswitch::fuse::FuseChip;
use libswitch::fuse::FuseKeyWords;
use libswitch::gpio::GpioController;
use libswitch::gpio::GpioPortRegisters;
use libswitch::hardware_init;
use libswitch::mbist_workaround;
use libswitch::pinmux::PinmuxRegisters;
use libswitch::pmc::PmcRegisters;
use libswitch::se::KeyBytes;
use libswitch::se::KeySlot;
use libswitch::se::LockState;
use libswitch::se::SeOp;
use libswitch::se::SecurityEngine;
use libswitch::sysctr0::Sysctr0Registers;
use libswitch::timer::TimerRegisters;
use libswitch::BootStage;
use libswitch::BringupError;
use libswitch::Hardware;

fn sample_key() -> FuseKeyWords {
    FuseKeyWords { w0: 0x11, w1: 0x22, w2: 0x33, w3: 0x44 }
}

#[test]
fn config_oscillators_from_all_zero() {
    let mut c = ClockRegisters::all_zero();
    let mut s = Sysctr0Registers::all_zero();
    let mut t = TimerRegisters::all_zero();
    let mut p = PmcRegisters::all_zero();

    config_oscillators(&mut c, &mut s, &mut t, &mut p);

    assert_eq!(c.clk_system_rate, 0x2);
    assert_eq!(c.sclk_burst_policy, 0x2000_4444);
    assert_ne!(c.sclk_divider & 0x8000_0000, 0);
    assert_eq!(c.sclk_divider, 0x8000_0000);
    assert_eq!(c.spare_reg0, 4);
    assert_eq!(c.osc_ctrl, 0x5000_0071);
    assert_eq!(c.pllmb_base, 0);
    assert_eq!(c.clk_source_sys, 0);
    assert_eq!(s.cntfid0, 19_200_000);
    assert_eq!(t.usec_cfg, 0x45F);
    assert_eq!(p.osc_edpd_over, 0x40_000E);
    assert_eq!(p.cntrl2, 0x1000);
    assert_eq!(p.scratch188, 0x200_0000);
    assert_eq!(p.tsc_mult, 0x249F);
}

#[test]
fn config_oscillators_twice_is_once() {
    let mut c = ClockRegisters {
        spare_reg0: 0xDEAD_BEEF,
        osc_ctrl: 0x1234_5678,
        clk_system_rate: 0xFFFF_FFFF,
        pllmb_base: 0xFFFF_FFFF,
        clk_source_sys: 0xABCD_EF01,
        sclk_burst_policy: 0x5555_5555,
        sclk_divider: 0x0F0F_0F0F,
    };
    let mut s = Sysctr0Registers { cntfid0: 77 };
    let mut t = TimerRegisters { usec_cfg: 88 };
    let mut p = PmcRegisters {
        osc_edpd_over: 0xFFFF_FFFF,
        cntrl2: 0xFFFF_FFFF,
        scratch188: 0xFFFF_FFFF,
        tsc_mult: 0xFFFF_FFFF,
        scratch20: 0xDEAD_BEEF,
        scratch190: 0x1357_9BDF,
        secure_scratch21: 0x2468_ACE0,
        crypto_op: 3,
        scratch200: 4,
        reset_status: 5,
    };

    config_oscillators(&mut c, &mut s, &mut t, &mut p);
    let (c1, s1, t1, p1) = (c, s, t, p);
    config_oscillators(&mut c, &mut s, &mut t, &mut p);

    assert_eq!(c, c1);
    assert_eq!(s, s1);
    assert_eq!(t, t1);
    assert_eq!(p, p1);
}

#[test]
fn config_gpios_from_all_zero() {
    let mut p = PinmuxRegisters::all_zero();
    let mut g = GpioController::all_zero();

    config_gpios(&mut p, &mut g);

    // Pin multiplexer: UART transmit pins routed to GPIO, detect pins and
    // bus pins with input buffers enabled.
    assert_eq!(p.uart2_tx, 0);
    assert_eq!(p.uart3_tx, 0);
    assert_eq!(p.pe6, 0x40);
    assert_eq!(p.ph6, 0x40);
    assert_eq!(p.gen1_i2c_scl, 0x40);
    assert_eq!(p.gen1_i2c_sda, 0x40);
    assert_eq!(p.pwr_i2c_scl, 0x40);
    assert_eq!(p.pwr_i2c_sda, 0x40);
    assert_eq!(p.uart1_tx, 0);
    assert_eq!(p.uart1_rx, 0x48);
    assert_eq!(p.uart1_rts, 0);
    assert_eq!(p.uart1_cts, 0x44);

    // GPIO: the touched pins are in GPIO mode and configured as inputs.
    assert_eq!(g.g, GpioPortRegisters { cnf: 0x01, oe: 0, out: 0 });
    assert_eq!(g.d, GpioPortRegisters { cnf: 0x02, oe: 0, out: 0 });
    assert_eq!(g.e, GpioPortRegisters { cnf: 0x40, oe: 0, out: 0 });
    assert_eq!(g.h, GpioPortRegisters { cnf: 0x40, oe: 0, out: 0 });
    assert_eq!(g.x, GpioPortRegisters { cnf: 0xC0, oe: 0, out: 0 });
}

#[test]
fn config_gpios_twice_is_once() {
    let mut p = PinmuxRegisters {
        uart2_tx: 0xFFFF_FFFF,
        uart3_tx: 0xFFFF_FFFF,
        pe6: 0x13,
        ph6: 0x57,
        gen1_i2c_scl: 0x9B,
        gen1_i2c_sda: 0xDF,
        pwr_i2c_scl: 0x24,
        pwr_i2c_sda: 0x68,
        uart1_tx: 0xAC,
        uart1_rx: 0xE0,
        uart1_rts: 0x11,
        uart1_cts: 0x22,
    };
    let mut g = GpioController {
        d: GpioPortRegisters { cnf: 0xFFFF_FFFF, oe: 0xFFFF_FFFF, out: 0xAAAA_AAAA },
        e: GpioPortRegisters { cnf: 0x0, oe: 0xFFFF_FFFF, out: 0x5555_5555 },
        g: GpioPortRegisters { cnf: 0x12, oe: 0x34, out: 0x56 },
        h: GpioPortRegisters { cnf: 0x9A, oe: 0xBC, out: 0xDE },
        x: GpioPortRegisters { cnf: 0xF0, oe: 0x0F, out: 0xFF },
    };

    config_gpios(&mut p, &mut g);
    let (p1, g1) = (p, g);
    config_gpios(&mut p, &mut g);

    assert_eq!(p, p1);
    assert_eq!(g, g1);
}

#[test]
fn config_pmc_scratch_exact_bits() {
    let mut p = PmcRegisters::all_zero();
    p.scratch20 = 0xFFFF_FFFF;
    p.scratch190 = 0xFFFF_FFFF;
    p.secure_scratch21 = 0;

    config_pmc_scratch(&mut p);

    assert_eq!(p.scratch20, 0xFFF3_FFFF);
    assert_eq!(p.scratch190, 0xFFFF_FFFE);
    assert_eq!(p.secure_scratch21, 0x10);
}

#[test]
fn config_pmc_scratch_twice_is_once() {
    let mut p = PmcRegisters {
        osc_edpd_over: 1,
        cntrl2: 2,
        scratch188: 3,
        tsc_mult: 4,
        scratch20: 0xDEAD_BEEF,
        scratch190: 0x1357_9BDF,
        secure_scratch21: 0x2468_ACE0,
        crypto_op: 5,
        scratch200: 6,
        reset_status: 7,
    };

    config_pmc_scratch(&mut p);
    let p1 = p;
    config_pmc_scratch(&mut p);

    assert_eq!(p, p1);
}

#[test]
fn provision_writes_key_and_locks_in_order() {
    let mut se = SecurityEngine::new();
    let mut fuse = FuseChip::new(sample_key());
    let mut pmc = PmcRegisters::all_zero();

    let r = config_se_brom(&mut se, &mut fuse, &mut pmc);

    assert!(r.is_ok());
    // The operations stand in the log in the required order.
    assert_eq!(
        se.log,
        vec![SeOp::SetKey(14), SeOp::LockSbk, SeOp::SecureRamClear, SeOp::LockSsk]
    );
    // The secret was read exactly once.
    assert_eq!(fuse.reads, 1);
    // The designated slot holds the fuse-derived bytes and is locked.
    assert_eq!(
        se.slots[14],
        KeySlot {
            key: KeyBytes { b0: 0x11, b1: 0x22, b2: 0x33, b3: 0x44 },
            lock: LockState::LockedSbk,
        }
    );
    assert_eq!(se.slots[15].lock, LockState::LockedSsk);
    // No other slot was touched.
    for i in 0..14 {
        assert_eq!(se.slots[i].lock, LockState::Unlocked);
        assert_eq!(se.slots[i].key, KeyBytes { b0: 0, b1: 0, b2: 0, b3: 0 });
    }
}

#[test]
fn provision_erases_boot_record() {
    let mut se = SecurityEngine::new();
    let mut fuse = FuseChip::new(sample_key());
    let mut pmc = PmcRegisters {
        osc_edpd_over: 0,
        cntrl2: 0,
        scratch188: 0,
        tsc_mult: 0,
        scratch20: 0,
        scratch190: 0,
        secure_scratch21: 0,
        crypto_op: 0xFFFF_FFFF,
        scratch200: 0xDEAD_BEEF,
        reset_status: 0x1234_5678,
    };

    let r = config_se_brom(&mut se, &mut fuse, &mut pmc);

    assert!(r.is_ok());
    assert_eq!(pmc.crypto_op, 0);
    assert_eq!(pmc.scratch200, 0);
    assert_eq!(pmc.reset_status, 0);
}

#[test]
fn provision_rejects_second_run() {
    let mut se = SecurityEngine::new();
    let mut fuse = FuseChip::new(sample_key());
    let mut pmc = PmcRegisters::all_zero();

    assert!(config_se_brom(&mut se, &mut fuse, &mut pmc).is_ok());

    // A second run finds the slots locked and is rejected before any change.
    let slots_before = se.slots.clone();
    let log_before = se.log.clone();
    let fuse_before = fuse;
    let r = config_se_brom(&mut se, &mut fuse, &mut pmc);
    assert_eq!(r, Err(BringupError::KeySlotLocked));
    assert_eq!(se.slots, slots_before);
    assert_eq!(se.log, log_before);
    assert_eq!(fuse, fuse_before);
}

#[test]
fn provision_rejects_reread_fuse() {
    let mut fuse = FuseChip::new(sample_key());
    assert!(fuse.read_private_key().is_ok());
    assert_eq!(fuse.reads, 1);

    // The secret may not be read twice in one boot cycle, even by a fresh
    // engine.
    let mut se = SecurityEngine::new();
    let mut pmc = PmcRegisters::all_zero();
    let r = config_se_brom(&mut se, &mut fuse, &mut pmc);
    assert_eq!(r, Err(BringupError::FuseAlreadyRead));
    assert!(se.log.is_empty());
}

#[test]
fn fuse_secret_reaches_only_its_slot() {
    // Two bring-ups that differ only in the fuse words must leave states
    // that differ only in the fuse words and in slot 14's key material.
    let mut hw1 = Hardware::new(sample_key());
    let mut hw2 = Hardware::new(FuseKeyWords { w0: 0xAA, w1: 0xBB, w2: 0xCC, w3: 0xDD });

    assert!(hardware_init(&mut hw1).is_ok());
    assert!(hardware_init(&mut hw2).is_ok());

    assert_eq!(hw1.clock, hw2.clock);
    assert_eq!(hw1.sysctr0, hw2.sysctr0);
    assert_eq!(hw1.timer, hw2.timer);
    assert_eq!(hw1.pmc, hw2.pmc);
    assert_eq!(hw1.pinmux, hw2.pinmux);
    assert_eq!(hw1.gpio, hw2.gpio);
    assert_eq!(hw1.se.secure_ram, hw2.se.secure_ram);
    assert_eq!(hw1.se.log, hw2.se.log);
    assert_eq!(hw1.stage, hw2.stage);
    assert_eq!(hw1.fuse.reads, hw2.fuse.reads);
    for i in 0..16 {
        assert_eq!(hw1.se.slots[i].lock, hw2.se.slots[i].lock);
        if i != 14 {
            assert_eq!(hw1.se.slots[i].key, hw2.se.slots[i].key);
        }
    }
    assert_ne!(hw1.se.slots[14].key, hw2.se.slots[14].key);
}

#[test]
fn fuse_read_returns_low_bytes_once() {
    let mut fuse = FuseChip::new(FuseKeyWords {
        w0: 0x0000_01AB,
        w1: 0x1234_56CD,
        w2: 0xFFFF_FFEF,
        w3: 0x0000_0000,
    });

    let first = fuse.read_private_key();
    assert_eq!(first, Ok(KeyBytes { b0: 0xAB, b1: 0xCD, b2: 0xEF, b3: 0x00 }));

    let second = fuse.read_private_key();
    assert_eq!(second, Err(BringupError::FuseAlreadyRead));
}

#[test]
fn locked_slot_rejects_writes_and_reads() {
    let mut se = SecurityEngine::new();
    let key = KeyBytes { b0: 1, b1: 2, b2: 3, b3: 4 };

    assert!(se.set_aes_keyslot(14, key).is_ok());
    assert_eq!(se.read_aes_keyslot(14), Ok(key));

    assert!(se.lock_sbk().is_ok());

    // Writes to the locked slot are rejected, and the slot is unchanged.
    let slots_before = se.slots.clone();
    let r = se.set_aes_keyslot(14, KeyBytes { b0: 9, b1: 9, b2: 9, b3: 9 });
    assert_eq!(r, Err(BringupError::KeySlotLocked));
    assert_eq!(se.slots, slots_before);

    // Reads of the locked slot return an error, never the key bytes.
    assert_eq!(se.read_aes_keyslot(14), Err(BringupError::KeySlotLocked));

    // Relocking is rejected as a programming error.
    assert_eq!(se.lock_sbk(), Err(BringupError::KeySlotLocked));
}

#[test]
fn keyslot_out_of_range_is_rejected() {
    let mut se = SecurityEngine::new();
    let key = KeyBytes { b0: 1, b1: 2, b2: 3, b3: 4 };
    assert_eq!(se.set_aes_keyslot(16, key), Err(BringupError::KeySlotOutOfRange));
    assert_eq!(se.read_aes_keyslot(99), Err(BringupError::KeySlotOutOfRange));
}

#[test]
fn mbist_workaround_fails_loudly() {
    assert_eq!(mbist_workaround(), Err(BringupError::NotImplemented));
}

#[test]
fn hardware_init_full_scenario() {
    let mut hw = Hardware::new(sample_key());
    // Make the boot record distinguishable on entry.
    hw.pmc.scratch200 = 0xBADC_0DE;
    hw.pmc.reset_status = 0x7;

    let r = hardware_init(&mut hw);
    assert!(r.is_ok());
    assert_eq!(hw.stage, BootStage::HandoffReady);

    // Key slot 14 is locked as the secure boot key; writes are rejected.
    assert_eq!(hw.se.slots[0xE].lock, LockState::LockedSbk);
    let r2 = hw.se.set_aes_keyslot(0xE, KeyBytes { b0: 0, b1: 0, b2: 0, b3: 0 });
    assert_eq!(r2, Err(BringupError::KeySlotLocked));

    // The secure memory window reads as all-zero bytes.
    assert_eq!(hw.se.secure_ram.len(), 0x10000);
    assert!(hw.se.secure_ram.iter().all(|b| *b == 0));

    // The crypto-operation register reads zero, and the boot record is gone.
    assert_eq!(hw.pmc.crypto_op, 0);
    assert_eq!(hw.pmc.scratch200, 0);
    assert_eq!(hw.pmc.reset_status, 0);

    // The secret was read exactly once.
    assert_eq!(hw.fuse.reads, 1);

    // Clock state matches the clock scenario.
    assert_eq!(hw.clock.clk_system_rate, 0x2);
    assert_eq!(hw.clock.sclk_burst_policy, 0x2000_4444);
    assert_ne!(hw.clock.sclk_divider & 0x8000_0000, 0);
}

#[test]
fn hardware_init_rejects_second_run() {
    let mut hw = Hardware::new(sample_key());
    assert!(hardware_init(&mut hw).is_ok());

    // The orchestrator is past Reset: a second run is out of sequence.
    let r = hardware_init(&mut hw);
    assert_eq!(r, Err(BringupError::OutOfSequence));
    assert_eq!(hw.stage, BootStage::HandoffReady);
}

#[test]
fn hardware_init_rejects_locked_slot_at_reset() {
    let mut hw = Hardware::new(sample_key());
    assert!(hw.se.lock_sbk().is_ok());

    // Still at Reset, but provisioning cannot run again: rejected before any
    // register changes.
    let pmc_before = hw.pmc;
    let r = hardware_init(&mut hw);
    assert_eq!(r, Err(BringupError::KeySlotLocked));
    assert_eq!(hw.stage, BootStage::Reset);
    assert_eq!(hw.pmc, pmc_before);
    assert_eq!(hw.fuse.reads, 0);
}
