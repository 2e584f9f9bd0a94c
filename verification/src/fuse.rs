//! Fuse storage: the one-time-programmable cells holding the per-device
//! secret key words.
//!
//! The secret is read at most once per boot cycle and never kept outside the
//! provisioner's transient scope; the chip model counts its reads so that the
//! single-read rule is part of every contract that touches it.

use vstd::prelude::*;

use crate::se::KeyBytes;
use crate::BringupError;

verus! {

/// The four fuse words holding the per-device secret key.
#[derive(Clone, Copy, PartialEq, Eq, Structural, Debug)]
pub struct FuseKeyWords {
    pub w0: u32,
    pub w1: u32,
    pub w2: u32,
    pub w3: u32,
}

/// The fuse array, with the count of secret reads made this boot cycle.
#[derive(Clone, Copy, PartialEq, Eq, Structural, Debug)]
pub struct FuseChip {
    /// The per-device secret key words, immutable once programmed.
    pub private_key: FuseKeyWords,
    /// How many times the secret has been read this boot cycle.
    pub reads: u32,
}

/// The secret key bytes derived from the fuse words: the low byte of each.
pub open spec fn sbk_of(k: FuseKeyWords) -> KeyBytes {
    KeyBytes {
        b0: (k.w0 & 0xFF) as u8,
        b1: (k.w1 & 0xFF) as u8,
        b2: (k.w2 & 0xFF) as u8,
        b3: (k.w3 & 0xFF) as u8,
    }
}

/// The chip after its first, and only permitted, secret read.
pub open spec fn fuse_read_step(f: FuseChip) -> FuseChip {
    FuseChip { private_key: f.private_key, reads: 1 }
}

impl FuseChip {
    /// A chip holding the given secret, with no read made yet this boot.
    pub fn new(private_key: FuseKeyWords) -> (f: FuseChip)
        ensures
            f == (FuseChip { private_key, reads: 0 }),
    {
        FuseChip { private_key, reads: 0 }
    }

    /// Reads the device-unique secret key bytes. Accepted exactly once per
    /// boot cycle; a second read is rejected and changes nothing.
    pub fn read_private_key(&mut self) -> (r: Result<KeyBytes, BringupError>)
        ensures
            old(self).reads == 0 ==> r == Ok::<KeyBytes, BringupError>(
                sbk_of(old(self).private_key),
            ) && *final(self) == fuse_read_step(*old(self)),
            old(self).reads != 0 ==> r == Err::<KeyBytes, BringupError>(
                BringupError::FuseAlreadyRead,
            ) && *final(self) == *old(self),
    {
        if self.reads != 0 {
            return Err(BringupError::FuseAlreadyRead);
        }
        self.reads = 1;
        Ok(
            KeyBytes {
                b0: (self.private_key.w0 & 0xFF) as u8,
                b1: (self.private_key.w1 & 0xFF) as u8,
                b2: (self.private_key.w2 & 0xFF) as u8,
                b3: (self.private_key.w3 & 0xFF) as u8,
            },
        )
    }
}

} // verus!
