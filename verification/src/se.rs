//! Security-engine model: key slots, irreversible lock states, the secure
//! memory window, and a log of the security-sensitive operations applied.
//!
//! A key slot holds key material and a lock state. Once a slot is locked its
//! contents can no longer be read back or rewritten until a full hardware
//! reset; the engine rejects such attempts instead of silently ignoring them.
//! The log records each completed operation in order, so that contracts can
//! state and prove ordering requirements between them.

use vstd::prelude::*;

use crate::BringupError;

verus! {

/// Number of hardware key slots.
pub const KEY_SLOT_COUNT: usize = 16;

/// The slot reserved for the secure boot key.
pub const SBK_SLOT: usize = 14;

/// The slot reserved for the secure storage key.
pub const SSK_SLOT: usize = 15;

/// Size, in bytes, of the secure memory window.
pub const SECURE_RAM_SIZE: usize = 0x10000;

/// Fixed-length key material, one byte per fuse word.
#[derive(Clone, Copy, PartialEq, Eq, Structural, Debug)]
pub struct KeyBytes {
    pub b0: u8,
    pub b1: u8,
    pub b2: u8,
    pub b3: u8,
}

impl KeyBytes {
    /// All-zero key material, the state of a slot out of reset.
    pub fn zero() -> (k: KeyBytes)
        ensures
            k == (KeyBytes { b0: 0, b1: 0, b2: 0, b3: 0 }),
    {
        KeyBytes { b0: 0, b1: 0, b2: 0, b3: 0 }
    }
}

/// The lock state of a key slot. Locking is irreversible until a full
/// hardware reset.
#[derive(Clone, Copy, PartialEq, Eq, Structural, Debug)]
pub enum LockState {
    /// The slot can be read and rewritten.
    Unlocked,
    /// Locked as the secure boot key: unreadable and unwritable.
    LockedSbk,
    /// Locked as the secure storage key: unreadable and unwritable.
    LockedSsk,
}

/// One hardware key slot.
#[derive(Clone, Copy, PartialEq, Eq, Structural, Debug)]
pub struct KeySlot {
    pub key: KeyBytes,
    pub lock: LockState,
}

/// A completed security-engine operation, as recorded in the engine's log.
#[derive(Clone, Copy, PartialEq, Eq, Structural, Debug)]
pub enum SeOp {
    /// Key material was written into the named slot.
    SetKey(usize),
    /// The secure-boot-key slot was locked.
    LockSbk,
    /// The secure memory window was zero-filled.
    SecureRamClear,
    /// The secure-storage-key slot was locked.
    LockSsk,
}

/// The mathematical state of the security engine.
#[verifier::ext_equal]
pub struct SeState {
    pub slots: Seq<KeySlot>,
    pub ram: Seq<u8>,
    pub log: Seq<SeOp>,
}

impl SeState {
    /// Well-formed engine state: the hardware's slot count and window size.
    pub open spec fn wf(self) -> bool {
        &&& self.slots.len() == KEY_SLOT_COUNT
        &&& self.ram.len() == SECURE_RAM_SIZE
    }
}

/// Whether a write of key material into `slot` is accepted: the slot must
/// exist and must not be locked.
pub open spec fn set_key_allowed(s: SeState, slot: int) -> bool {
    &&& 0 <= slot < s.slots.len()
    &&& s.slots[slot].lock is Unlocked
}

/// The engine state after an accepted key write: the slot holds the new
/// material and stays unlocked; the write is logged; nothing else changes.
pub open spec fn set_key_step(s: SeState, slot: int, key: KeyBytes) -> SeState {
    SeState {
        slots: s.slots.update(slot, KeySlot { key, lock: LockState::Unlocked }),
        log: s.log.push(SeOp::SetKey(slot as usize)),
        ..s
    }
}

/// Whether the lock-SBK command is accepted: the slot is not yet locked.
pub open spec fn lock_sbk_allowed(s: SeState) -> bool {
    s.slots[SBK_SLOT as int].lock is Unlocked
}

/// The engine state after lock-SBK: the secure-boot-key slot keeps its
/// material but becomes locked; the command is logged; nothing else changes.
pub open spec fn lock_sbk_step(s: SeState) -> SeState {
    SeState {
        slots: s.slots.update(
            SBK_SLOT as int,
            KeySlot { key: s.slots[SBK_SLOT as int].key, lock: LockState::LockedSbk },
        ),
        log: s.log.push(SeOp::LockSbk),
        ..s
    }
}

/// Whether the lock-SSK command is accepted: the slot is not yet locked.
pub open spec fn lock_ssk_allowed(s: SeState) -> bool {
    s.slots[SSK_SLOT as int].lock is Unlocked
}

/// The engine state after lock-SSK, analogous to [`lock_sbk_step`] for the
/// secure-storage-key slot.
pub open spec fn lock_ssk_step(s: SeState) -> SeState {
    SeState {
        slots: s.slots.update(
            SSK_SLOT as int,
            KeySlot { key: s.slots[SSK_SLOT as int].key, lock: LockState::LockedSsk },
        ),
        log: s.log.push(SeOp::LockSsk),
        ..s
    }
}

/// The engine state after the secure memory window is zero-filled.
pub open spec fn clear_ram_step(s: SeState) -> SeState {
    SeState {
        ram: Seq::new(s.ram.len(), |i: int| 0u8),
        log: s.log.push(SeOp::SecureRamClear),
        ..s
    }
}

/// Whether reading key material back from `slot` is accepted: the slot must
/// exist and must not be locked.
pub open spec fn read_key_allowed(s: SeState, slot: int) -> bool {
    &&& 0 <= slot < s.slots.len()
    &&& s.slots[slot].lock is Unlocked
}

/// The security engine. The surrounding program mirrors this model onto the
/// physical engine; tests read the lock states and the log as instrumentation.
#[derive(PartialEq, Eq, Debug)]
pub struct SecurityEngine {
    /// The hardware key slots, indexed by slot number.
    pub slots: Vec<KeySlot>,
    /// The secure memory window reserved for secure context.
    pub secure_ram: Vec<u8>,
    /// The completed security-sensitive operations, oldest first.
    pub log: Vec<SeOp>,
}

impl View for SecurityEngine {
    type V = SeState;

    open spec fn view(&self) -> SeState {
        SeState { slots: self.slots@, ram: self.secure_ram@, log: self.log@ }
    }
}

impl SecurityEngine {
    /// The engine as a full hardware reset leaves it: every slot unlocked and
    /// zero, the secure memory window zero, the log empty.
    pub fn new() -> (se: SecurityEngine)
        ensures
            se@.wf(),
            se@.log == Seq::<SeOp>::empty(),
            forall|i: int|
                0 <= i < KEY_SLOT_COUNT ==> se@.slots[i] == (KeySlot {
                    key: KeyBytes { b0: 0, b1: 0, b2: 0, b3: 0 },
                    lock: LockState::Unlocked,
                }),
            forall|i: int| 0 <= i < SECURE_RAM_SIZE ==> se@.ram[i] == 0u8,
    {
        let mut slots: Vec<KeySlot> = Vec::new();
        while slots.len() < KEY_SLOT_COUNT
            invariant
                slots@.len() <= KEY_SLOT_COUNT,
                forall|i: int|
                    0 <= i < slots@.len() ==> slots@[i] == (KeySlot {
                        key: KeyBytes { b0: 0, b1: 0, b2: 0, b3: 0 },
                        lock: LockState::Unlocked,
                    }),
            decreases KEY_SLOT_COUNT - slots@.len(),
        {
            slots.push(KeySlot { key: KeyBytes::zero(), lock: LockState::Unlocked });
        }
        let mut secure_ram: Vec<u8> = Vec::new();
        while secure_ram.len() < SECURE_RAM_SIZE
            invariant
                secure_ram@.len() <= SECURE_RAM_SIZE,
                forall|i: int| 0 <= i < secure_ram@.len() ==> secure_ram@[i] == 0u8,
            decreases SECURE_RAM_SIZE - secure_ram@.len(),
        {
            secure_ram.push(0u8);
        }
        SecurityEngine { slots, secure_ram, log: Vec::new() }
    }

    /// Programs key material into a slot. Accepted exactly when the slot
    /// exists and is not locked; a write to a locked slot is rejected and
    /// changes nothing.
    pub fn set_aes_keyslot(&mut self, slot: usize, key: KeyBytes) -> (r: Result<(), BringupError>)
        ensures
            set_key_allowed(old(self)@, slot as int) ==> r is Ok && final(self)@ == set_key_step(
                old(self)@,
                slot as int,
                key,
            ),
            slot >= old(self)@.slots.len() ==> r == Err::<(), BringupError>(
                BringupError::KeySlotOutOfRange,
            ),
            slot < old(self)@.slots.len() && !(old(self)@.slots[slot as int].lock is Unlocked)
                ==> r == Err::<(), BringupError>(BringupError::KeySlotLocked),
            !set_key_allowed(old(self)@, slot as int) ==> final(self)@ == old(self)@,
    {
        if slot >= self.slots.len() {
            return Err(BringupError::KeySlotOutOfRange);
        }
        match self.slots[slot].lock {
            LockState::Unlocked => {},
            _ => {
                return Err(BringupError::KeySlotLocked);
            },
        }
        self.slots[slot] = KeySlot { key, lock: LockState::Unlocked };
        self.log.push(SeOp::SetKey(slot));
        assert(self@ =~= set_key_step(old(self)@, slot as int, key));
        Ok(())
    }

    /// Reads key material back from a slot. Accepted exactly when the slot
    /// exists and is not locked; a locked slot is inaccessible and the read
    /// is rejected.
    pub fn read_aes_keyslot(&self, slot: usize) -> (r: Result<KeyBytes, BringupError>)
        ensures
            read_key_allowed(self@, slot as int) ==> r == Ok::<KeyBytes, BringupError>(
                self@.slots[slot as int].key,
            ),
            slot >= self@.slots.len() ==> r == Err::<KeyBytes, BringupError>(
                BringupError::KeySlotOutOfRange,
            ),
            slot < self@.slots.len() && !(self@.slots[slot as int].lock is Unlocked) ==> r
                == Err::<KeyBytes, BringupError>(BringupError::KeySlotLocked),
    {
        if slot >= self.slots.len() {
            return Err(BringupError::KeySlotOutOfRange);
        }
        match self.slots[slot].lock {
            LockState::Unlocked => Ok(self.slots[slot].key),
            _ => Err(BringupError::KeySlotLocked),
        }
    }

    /// Executes the lock-SBK command. Accepted exactly when the
    /// secure-boot-key slot is not yet locked; relocking is rejected as a
    /// programming error and changes nothing.
    pub fn lock_sbk(&mut self) -> (r: Result<(), BringupError>)
        requires
            old(self)@.wf(),
        ensures
            final(self)@.wf(),
            lock_sbk_allowed(old(self)@) ==> r is Ok && final(self)@ == lock_sbk_step(old(self)@),
            !lock_sbk_allowed(old(self)@) ==> r == Err::<(), BringupError>(
                BringupError::KeySlotLocked,
            ) && final(self)@ == old(self)@,
    {
        let current = self.slots[SBK_SLOT];
        match current.lock {
            LockState::Unlocked => {},
            _ => {
                return Err(BringupError::KeySlotLocked);
            },
        }
        self.slots[SBK_SLOT] = KeySlot { key: current.key, lock: LockState::LockedSbk };
        self.log.push(SeOp::LockSbk);
        assert(self@ =~= lock_sbk_step(old(self)@));
        Ok(())
    }

    /// Executes the lock-SSK command, analogous to [`Self::lock_sbk`] for the
    /// secure-storage-key slot.
    pub fn lock_ssk(&mut self) -> (r: Result<(), BringupError>)
        requires
            old(self)@.wf(),
        ensures
            final(self)@.wf(),
            lock_ssk_allowed(old(self)@) ==> r is Ok && final(self)@ == lock_ssk_step(old(self)@),
            !lock_ssk_allowed(old(self)@) ==> r == Err::<(), BringupError>(
                BringupError::KeySlotLocked,
            ) && final(self)@ == old(self)@,
    {
        let current = self.slots[SSK_SLOT];
        match current.lock {
            LockState::Unlocked => {},
            _ => {
                return Err(BringupError::KeySlotLocked);
            },
        }
        self.slots[SSK_SLOT] = KeySlot { key: current.key, lock: LockState::LockedSsk };
        self.log.push(SeOp::LockSsk);
        assert(self@ =~= lock_ssk_step(old(self)@));
        Ok(())
    }

    /// Zero-fills the secure memory window, removing residual key-derivation
    /// artifacts. Always succeeds; every byte of the window reads zero after.
    pub fn clear_secure_ram(&mut self)
        ensures
            final(self)@ == clear_ram_step(old(self)@),
    {
        let n = self.secure_ram.len();
        let mut i: usize = 0;
        while i < n
            invariant
                i <= n,
                n == self.secure_ram@.len(),
                self.slots@ == old(self).slots@,
                self.log@ == old(self).log@,
                forall|j: int| 0 <= j < i ==> self.secure_ram@[j] == 0u8,
            decreases n - i,
        {
            self.secure_ram[i] = 0u8;
            i = i + 1;
        }
        self.log.push(SeOp::SecureRamClear);
        assert(self@.ram =~= clear_ram_step(old(self)@).ram);
        assert(self@ =~= clear_ram_step(old(self)@));
    }
}

} // verus!
