//! The frame codec: request frames out, response frames in.
//!
//! A request is eight bytes: device address, function code, register address
//! (big-endian), a 16-bit payload (big-endian), and the CRC-16/MODBUS of those
//! six bytes with its low byte first.

use vstd::prelude::*;
use crate::checksum::{checksum, crc16_modbus};
use crate::registers::Register;

verus! {

/// Function code "read input registers".
pub const READ_INPUT_REGISTERS: u8 = 0x04;

/// Function code "write single register".
pub const WRITE_SINGLE_REGISTER: u8 = 0x06;

/// The largest set point that the device accepts.
pub const MAX_SET_POINT: u16 = 64_000;

/// Number of bytes in a request frame.
pub const FRAME_LENGTH: usize = 8;

/// Bytes that surround the data of a read response: device address, function
/// code and byte count in front, two checksum bytes behind.
pub const READ_RESPONSE_OVERHEAD: usize = 5;

/// Number of bytes that are read back after a single-register write.
pub const WRITE_RESPONSE_LENGTH: usize = 7;

/// The more significant byte of a 16-bit value.
pub open spec fn high_byte(value: u16) -> u8 {
    (value / 256) as u8
}

/// The less significant byte of a 16-bit value.
pub open spec fn low_byte(value: u16) -> u8 {
    (value % 256) as u8
}

/// The 16-bit value whose big-endian bytes are `high`, `low`.
pub open spec fn be_u16(high: u8, low: u8) -> u16 {
    (high * 256 + low) as u16
}

/// The six bytes of a request that the checksum covers.
pub open spec fn header_bytes(
    device_address: u8,
    function_code: u8,
    register_address: u16,
    payload: u16,
) -> Seq<u8> {
    seq![
        device_address,
        function_code,
        high_byte(register_address),
        low_byte(register_address),
        high_byte(payload),
        low_byte(payload),
    ]
}

/// A header followed by a checksum, low byte first.
pub open spec fn sealed_bytes(header: Seq<u8>, sum: u16) -> Seq<u8> {
    header + seq![low_byte(sum), high_byte(sum)]
}

/// Whether eight bytes end in the checksum of the six before them, low byte
/// first.
pub open spec fn has_valid_checksum(bytes: Seq<u8>) -> bool {
    &&& bytes.len() == FRAME_LENGTH
    &&& bytes[6] == low_byte(crc16_modbus(bytes.subrange(0, 6)))
    &&& bytes[7] == high_byte(crc16_modbus(bytes.subrange(0, 6)))
}

/// The request that reads one register.
pub open spec fn read_frame(device_address: u8, register: Register) -> Seq<u8> {
    let header = header_bytes(device_address, READ_INPUT_REGISTERS, register.address, 1);
    sealed_bytes(header, crc16_modbus(header))
}

/// The request that writes `value` to a register.
pub open spec fn write_frame(device_address: u8, register: Register, value: u16) -> Seq<u8> {
    let header = header_bytes(device_address, WRITE_SINGLE_REGISTER, register.address, value);
    sealed_bytes(header, crc16_modbus(header))
}

/// The length of the response to a read of `register`.
pub open spec fn spec_read_response_length(register: Register) -> nat {
    (READ_RESPONSE_OVERHEAD + register.length) as nat
}

/// The value that a read response carries: the two bytes behind the
/// three-byte header, big-endian.
pub open spec fn read_response_value(buffer: Seq<u8>) -> u16 {
    be_u16(buffer[3], buffer[4])
}

/// Why a request could not be encoded.
#[derive(Clone, Copy, Debug, PartialEq, Eq, Structural)]
pub enum EncodingError {
    /// The set point is above [`MAX_SET_POINT`].
    ValueOutOfRange,
}

/// An outbound request frame: eight bytes that end in the checksum of the
/// first six, low byte first.
#[derive(Clone, Copy, Debug)]
pub struct Frame {
    bytes: [u8; 8],
}

impl View for Frame {
    type V = Seq<u8>;

    closed spec fn view(&self) -> Seq<u8> {
        self.bytes@
    }
}

impl Frame {
    #[verifier::type_invariant]
    closed spec fn sealed(&self) -> bool {
        has_valid_checksum(self.bytes@)
    }

    /// The bytes to put on the wire, in order.
    pub fn bytes(&self) -> (bytes: &[u8; 8])
        ensures
            bytes@ == self@,
            has_valid_checksum(self@),
    {
        proof {
            use_type_invariant(self);
        }
        &self.bytes
    }
}

/// Splits a 16-bit value into its big-endian bytes.
pub fn to_be_bytes(value: u16) -> (bytes: (u8, u8))
    ensures
        bytes.0 == high_byte(value),
        bytes.1 == low_byte(value),
        be_u16(bytes.0, bytes.1) == value,
{
    ((value / 256) as u8, (value % 256) as u8)
}

/// Joins two big-endian bytes into a 16-bit value.
pub fn from_be_bytes(high: u8, low: u8) -> (value: u16)
    ensures
        value == be_u16(high, low),
        high_byte(value) == high,
        low_byte(value) == low,
{
    high as u16 * 256 + low as u16
}

/// Lays out the six bytes of a request that the checksum covers.
pub fn request_header(
    device_address: u8,
    function_code: u8,
    register_address: u16,
    payload: u16,
) -> (header: [u8; 6])
    ensures
        header@ == header_bytes(device_address, function_code, register_address, payload),
{
    let address = to_be_bytes(register_address);
    let value = to_be_bytes(payload);
    let header = [device_address, function_code, address.0, address.1, value.0, value.1];
    header
}

/// Appends a checksum to a header. The two checksum bytes go out low byte
/// first, which is how the device expects them.
pub fn seal(header: &[u8; 6], sum: u16) -> (bytes: [u8; 8])
    ensures
        bytes@ == sealed_bytes(header@, sum),
{
    let sum_bytes = to_be_bytes(sum);
    let bytes = [
        header[0],
        header[1],
        header[2],
        header[3],
        header[4],
        header[5],
        sum_bytes.1,
        sum_bytes.0,
    ];
    bytes
}

/// Builds the frame for one request: header, then its checksum.
fn encode(device_address: u8, function_code: u8, register_address: u16, payload: u16) -> (frame:
    Frame)
    ensures
        frame@ == sealed_bytes(
            header_bytes(device_address, function_code, register_address, payload),
            crc16_modbus(header_bytes(device_address, function_code, register_address, payload)),
        ),
        has_valid_checksum(frame@),
{
    let header = request_header(device_address, function_code, register_address, payload);
    let sum = checksum(&header);
    let bytes = seal(&header, sum);
    assert(bytes@.subrange(0, 6) =~= header@);
    Frame { bytes }
}

/// Builds the request that reads one register: function code
/// [`READ_INPUT_REGISTERS`] and a register count of 1.
pub fn encode_read(device_address: u8, register: Register) -> (frame: Frame)
    ensures
        frame@ == read_frame(device_address, register),
        has_valid_checksum(frame@),
{
    encode(device_address, READ_INPUT_REGISTERS, register.address, 1)
}

/// Builds the request that writes `value` to a register: function code
/// [`WRITE_SINGLE_REGISTER`]. A value above [`MAX_SET_POINT`] is refused
/// before any byte is laid out.
pub fn encode_write(device_address: u8, register: Register, value: u16) -> (result: Result<
    Frame,
    EncodingError,
>)
    ensures
        value > MAX_SET_POINT ==> result == Err::<Frame, EncodingError>(
            EncodingError::ValueOutOfRange,
        ),
        value <= MAX_SET_POINT ==> result is Ok && result->Ok_0@ == write_frame(
            device_address,
            register,
            value,
        ) && has_valid_checksum(result->Ok_0@),
{
    if value > MAX_SET_POINT {
        return Err(EncodingError::ValueOutOfRange);
    }
    Ok(encode(device_address, WRITE_SINGLE_REGISTER, register.address, value))
}

/// Number of bytes in the response to a read of `register`.
pub fn read_response_length(register: Register) -> (length: usize)
    ensures
        length == spec_read_response_length(register),
{
    READ_RESPONSE_OVERHEAD + register.length as usize
}

/// Extracts the value from the response to a read. The checksum of the
/// response is not verified, nor are its address, function code and byte
/// count.
pub fn decode_read_response(buffer: &[u8], register: Register) -> (value: u16)
    requires
        buffer@.len() == spec_read_response_length(register),
    ensures
        value == read_response_value(buffer@),
        high_byte(value) == buffer@[3],
        low_byte(value) == buffer@[4],
{
    from_be_bytes(buffer[3], buffer[4])
}

/// Accepts the acknowledgement of a write. Only its length matters: its
/// contents are not held against the request.
pub fn decode_write_response(buffer: &[u8])
    requires
        buffer@.len() == WRITE_RESPONSE_LENGTH,
{
}

/// Splitting a 16-bit value into its big-endian bytes and joining them again
/// gives the value back.
pub proof fn lemma_split_then_join(value: u16)
    ensures
        be_u16(high_byte(value), low_byte(value)) == value,
{
}

/// Joining two bytes into a 16-bit value and splitting it again gives the
/// bytes back.
pub proof fn lemma_join_then_split(high: u8, low: u8)
    ensures
        high_byte(be_u16(high, low)) == high,
        low_byte(be_u16(high, low)) == low,
{
}

/// Every request frame is eight bytes long and ends in the checksum of its
/// first six bytes, low byte first. This holds of read requests and of write
/// requests for any value.
pub proof fn lemma_request_frames_are_sealed(device_address: u8, register: Register, value: u16)
    ensures
        has_valid_checksum(read_frame(device_address, register)),
        has_valid_checksum(write_frame(device_address, register, value)),
        read_frame(device_address, register).subrange(0, 6) == header_bytes(
            device_address,
            READ_INPUT_REGISTERS,
            register.address,
            1,
        ),
        write_frame(device_address, register, value).subrange(0, 6) == header_bytes(
            device_address,
            WRITE_SINGLE_REGISTER,
            register.address,
            value,
        ),
{
    let read_header = header_bytes(device_address, READ_INPUT_REGISTERS, register.address, 1);
    let write_header = header_bytes(
        device_address,
        WRITE_SINGLE_REGISTER,
        register.address,
        value,
    );
    assert(read_frame(device_address, register).subrange(0, 6) =~= read_header);
    assert(write_frame(device_address, register, value).subrange(0, 6) =~= write_header);
}

/// A read response of the length that the register asks for, whose bytes 3
/// and 4 hold `value` big-endian, decodes to exactly `value`.
pub proof fn lemma_read_response_carries_value(buffer: Seq<u8>, register: Register, value: u16)
    requires
        buffer.len() == spec_read_response_length(register),
        buffer[3] == high_byte(value),
        buffer[4] == low_byte(value),
    ensures
        read_response_value(buffer) == value,
{
    lemma_split_then_join(value);
}

/// The value that a write request carries can be read back from its bytes 4
/// and 5, and the register address from its bytes 2 and 3.
pub proof fn lemma_write_frame_carries_value(device_address: u8, register: Register, value: u16)
    ensures
        write_frame(device_address, register, value)[0] == device_address,
        write_frame(device_address, register, value)[1] == WRITE_SINGLE_REGISTER,
        be_u16(
            write_frame(device_address, register, value)[2],
            write_frame(device_address, register, value)[3],
        ) == register.address,
        be_u16(
            write_frame(device_address, register, value)[4],
            write_frame(device_address, register, value)[5],
        ) == value,
{
    lemma_split_then_join(value);
    lemma_split_then_join(register.address);
}

} // verus!
