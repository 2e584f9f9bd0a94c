//! Identifiers for the UART devices whose pins the bring-up sequence routes.

use vstd::prelude::*;

verus! {

/// A UART device with pins touched during bring-up.
#[derive(Clone, Copy, PartialEq, Eq, Structural, Debug)]
pub enum Uart {
    /// The first UART device.
    A,
}

} // verus!
