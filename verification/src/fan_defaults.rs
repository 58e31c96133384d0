//! The serial line of the fan in its usual deployment.
//!
//! The line parameters must match the device exactly: a mismatch garbles the
//! frames in a way that cannot be told from a failing device.

use vstd::prelude::*;

verus! {

/// Number of data bits per character.
#[derive(Clone, Copy, Debug, PartialEq, Eq, Structural)]
pub enum DataBits {
    Five,
    Six,
    Seven,
    Eight,
}

/// Parity checking mode.
#[derive(Clone, Copy, Debug, PartialEq, Eq, Structural)]
pub enum Parity {
    /// No parity bit.
    Off,
    /// The parity bit makes the number of set bits odd.
    Odd,
    /// The parity bit makes the number of set bits even.
    Even,
}

/// Number of stop bits.
#[derive(Clone, Copy, Debug, PartialEq, Eq, Structural)]
pub enum StopBits {
    One,
    Two,
}

/// The device that the adapter of the fan shows up as.
pub const PORT_NAME: &'static str = "/dev/cu.usbserial-2150";

/// Symbols per second on the line.
pub const BAUD_RATE: u32 = 19_200;

/// The device address that the fan answers to.
pub const FAN_ADDRESS: u8 = 0x02;

/// How long a read may wait for its bytes, in seconds. A response that is
/// not complete by then is a transport failure.
pub const TIMEOUT_SECONDS: u64 = 1;

/// Data bits per character on the line.
pub const DATA_BITS: DataBits = DataBits::Eight;

/// Parity of the line.
pub const PARITY: Parity = Parity::Even;

/// Stop bits per character on the line.
pub const STOP_BITS: StopBits = StopBits::One;

} // verus!
