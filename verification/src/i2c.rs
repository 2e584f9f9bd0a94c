//! Identifiers for the I2C buses whose pins the bring-up sequence routes.

use vstd::prelude::*;

verus! {

/// An I2C bus with pins touched during bring-up.
#[derive(Clone, Copy, PartialEq, Eq, Structural, Debug)]
pub enum I2c {
    /// The first generic I2C bus.
    C1,
    /// The power-rail I2C bus.
    C5,
}

} // verus!
