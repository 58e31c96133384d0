//! The register catalogue of the fan controller.

use vstd::prelude::*;

pub mod holding_registers;
pub mod input_registers;

verus! {

/// A device register: where it lives and how many bytes the device returns
/// for it.
#[derive(Clone, Copy, Debug, PartialEq, Eq, Structural)]
pub struct Register {
    /// Register address on the device
    pub address: u16,
    /// Register length in bytes
    pub length: u8,
}

} // verus!
