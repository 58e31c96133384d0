//! Registers that the master may only read.

use vstd::prelude::*;
use crate::registers::Register;

verus! {

/// Address of the set point that the device currently runs at.
pub const CURRENT_SET_POINT: u16 = 0xD01A;

/// Width in bytes of the current set point. It is encoded as the commanded
/// set point is.
pub const CURRENT_SET_POINT_LENGTH: u8 = 2;

/// The current set point, as a value in contracts.
pub open spec fn spec_current_set_point() -> Register {
    Register { address: CURRENT_SET_POINT, length: CURRENT_SET_POINT_LENGTH }
}

/// The set point that the device currently runs at.
#[verifier::when_used_as_spec(spec_current_set_point)]
pub fn current_set_point() -> (register: Register)
    ensures
        register == spec_current_set_point(),
{
    Register { address: CURRENT_SET_POINT, length: CURRENT_SET_POINT_LENGTH }
}

} // verus!
