//! Registers that the master may write.

use vstd::prelude::*;
use crate::registers::Register;

verus! {

/// Address of the commanded set point.
pub const REFERENCE_SET_POINT: u16 = 0xD001;

/// Width in bytes of the commanded set point.
pub const REFERENCE_SET_POINT_LENGTH: u8 = 2;

/// The commanded set point, as a value in contracts.
pub open spec fn spec_reference_set_point() -> Register {
    Register { address: REFERENCE_SET_POINT, length: REFERENCE_SET_POINT_LENGTH }
}

/// The commanded set point.
#[verifier::when_used_as_spec(spec_reference_set_point)]
pub fn reference_set_point() -> (register: Register)
    ensures
        register == spec_reference_set_point(),
{
    Register { address: REFERENCE_SET_POINT, length: REFERENCE_SET_POINT_LENGTH }
}

} // verus!
