//! A Modbus RTU master for a single fan controller.
//!
//! The crate holds the protocol engine only: the register catalogue, the frame
//! codec, the transaction steps of the fan device, and the set-point state
//! that keeps observers in step with the device. It performs no I/O. A caller
//! owns the serial line, carries out the exchanges that the engine asks for and
//! hands back what came of them.

pub mod checksum;
pub mod codec;
pub mod fan;
pub mod fan_defaults;
pub mod ports;
pub mod registers;
pub mod set_point;
