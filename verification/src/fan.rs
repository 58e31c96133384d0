//! The fan device: one read or one write transaction at a time.
//!
//! The device performs no I/O itself. A transaction is advanced by calling
//! its function with what the serial line has done so far. The answer is
//! either the next exchange to carry out on the line, or the result of the
//! transaction. The caller holds the line for the whole of an exchange:
//! the request goes out in one piece, then exactly the stated number of bytes
//! is read back, and only then may another exchange begin.

use vstd::prelude::*;
use crate::codec::{
    decode_read_response, decode_write_response, encode_read, encode_write, has_valid_checksum,
    high_byte, lemma_read_response_carries_value, lemma_request_frames_are_sealed, low_byte,
    read_frame, read_response_length, read_response_value, spec_read_response_length, write_frame,
    Frame, MAX_SET_POINT, WRITE_RESPONSE_LENGTH,
};
use crate::registers::holding_registers::reference_set_point;
use crate::registers::input_registers::current_set_point;

verus! {

/// One request to put on the serial line and the number of bytes to read back.
#[derive(Clone, Copy, Debug)]
pub struct Exchange {
    pub request: Frame,
    pub response_length: usize,
}

/// What the serial line has done for the transaction so far.
#[derive(Debug)]
pub enum LinkEvent {
    /// Nothing yet: the transaction is about to start.
    Idle,
    /// The request went out and these bytes were read back. They should be
    /// as many as the exchange asked for.
    Response(Vec<u8>),
    /// The request could not be written or the response could not be read in
    /// time.
    Failed,
    /// The line could not be acquired: an earlier holder gave up while
    /// holding it.
    Poisoned,
}

/// The next move of a transaction.
#[derive(Debug)]
pub enum Step<T, E> {
    /// Carry out this exchange and come back with what the line did.
    Exchange(Exchange),
    /// The transaction is over.
    Done(Result<T, E>),
}

/// What a step amounts to: the bytes to send and the number to read back, or
/// the result.
pub enum StepView<T, E> {
    Exchange { request: Seq<u8>, response_length: nat },
    Done(Result<T, E>),
}

impl<T, E> StepView<T, E> {
    /// The bytes that the step puts on the wire: none unless it is an
    /// exchange.
    pub open spec fn wire_bytes(self) -> Seq<u8> {
        match self {
            StepView::Exchange { request, .. } => request,
            StepView::Done(_) => Seq::empty(),
        }
    }
}

impl<T, E> View for Step<T, E> {
    type V = StepView<T, E>;

    open spec fn view(&self) -> StepView<T, E> {
        match *self {
            Step::Exchange(exchange) => StepView::Exchange {
                request: exchange.request@,
                response_length: exchange.response_length as nat,
            },
            Step::Done(result) => StepView::Done(result),
        }
    }
}

/// Why a set point could not be written.
#[derive(Clone, Copy, Debug, PartialEq, Eq, Structural)]
pub enum UpdateSetPointError {
    /// Transport error: the request could not be written, or the
    /// acknowledgement did not arrive in full and in time.
    SerialPortError,
    /// The value is out of range: larger than [`MAX_SET_POINT`].
    ValueTooLarge,
    /// Lock error: the guard of the serial line is poisoned, because an
    /// earlier holder gave up while holding it.
    PoisonError,
}

/// Why the current set point could not be read.
#[derive(Clone, Copy, Debug, PartialEq, Eq, Structural)]
pub enum GetSetPointError {
    /// Transport error: the request could not be written, or the response
    /// did not arrive in full and in time.
    SerialPortError,
    /// Lock error: the guard of the serial line is poisoned, because an
    /// earlier holder gave up while holding it.
    PoisonError,
}

/// How a write ends once the line has reported. An acknowledgement counts
/// when it has [`WRITE_RESPONSE_LENGTH`] bytes, whatever they hold. One of
/// any other length was not read in full and is a transport failure.
pub open spec fn write_outcome(event: LinkEvent) -> Result<(), UpdateSetPointError>
    recommends
        event !is Idle,
{
    match event {
        LinkEvent::Response(bytes) => if bytes@.len() == WRITE_RESPONSE_LENGTH {
            Ok(())
        } else {
            Err(UpdateSetPointError::SerialPortError)
        },
        LinkEvent::Poisoned => Err(UpdateSetPointError::PoisonError),
        _ => Err(UpdateSetPointError::SerialPortError),
    }
}

/// How a read ends once the line has reported. A response counts when it is
/// as long as the register asks for; its value is then taken as it stands.
/// One of any other length was not read in full and is a transport failure.
pub open spec fn read_outcome(event: LinkEvent) -> Result<u16, GetSetPointError>
    recommends
        event !is Idle,
{
    match event {
        LinkEvent::Response(bytes) => if bytes@.len() == spec_read_response_length(
            current_set_point(),
        ) {
            Ok(read_response_value(bytes@))
        } else {
            Err(GetSetPointError::SerialPortError)
        },
        LinkEvent::Poisoned => Err(GetSetPointError::PoisonError),
        _ => Err(GetSetPointError::SerialPortError),
    }
}

/// The step that the write transaction for `set_point` makes after `event`.
pub open spec fn write_step(address: u8, set_point: u16, event: LinkEvent) -> StepView<
    (),
    UpdateSetPointError,
> {
    if set_point > MAX_SET_POINT {
        StepView::Done(Err(UpdateSetPointError::ValueTooLarge))
    } else if event is Idle {
        StepView::Exchange {
            request: write_frame(address, reference_set_point(), set_point),
            response_length: WRITE_RESPONSE_LENGTH as nat,
        }
    } else {
        StepView::Done(write_outcome(event))
    }
}

/// The step that the read transaction makes after `event`.
pub open spec fn read_step(address: u8, event: LinkEvent) -> StepView<u16, GetSetPointError> {
    if event is Idle {
        StepView::Exchange {
            request: read_frame(address, current_set_point()),
            response_length: spec_read_response_length(current_set_point()),
        }
    } else {
        StepView::Done(read_outcome(event))
    }
}

/// Describes a fan device on the modbus.
#[derive(Clone, Copy, Debug, PartialEq, Eq, Structural)]
pub struct Fan {
    address: u8,
}

impl Fan {
    /// A fan that answers to `address`.
    pub fn new(address: u8) -> (fan: Fan)
        ensures
            fan.address() == address,
    {
        Fan { address }
    }

    /// The device address of the fan, as a value in contracts.
    pub closed spec fn spec_address(&self) -> u8 {
        self.address
    }

    /// The device address of the fan.
    #[verifier::when_used_as_spec(spec_address)]
    pub fn address(&self) -> (address: u8)
        ensures
            address == self.spec_address(),
    {
        self.address
    }

    /// Advances the transaction that writes `set_point` to the device.
    ///
    /// A set point above [`MAX_SET_POINT`] ends the transaction at once,
    /// whatever the line has done: nothing is ever sent for it. Otherwise the
    /// first step asks for the write request to be exchanged for an
    /// acknowledgement, and the step after that reports how it went.
    pub fn set_current_set_point(&self, set_point: u16, event: &LinkEvent) -> (step: Step<
        (),
        UpdateSetPointError,
    >)
        ensures
            step@ == write_step(self.address(), set_point, *event),
            set_point > MAX_SET_POINT ==> step@.wire_bytes() == Seq::<u8>::empty(),
            step is Exchange ==> has_valid_checksum(step@.wire_bytes()),
    {
        if set_point > MAX_SET_POINT {
            return Step::Done(Err(UpdateSetPointError::ValueTooLarge));
        }
        match event {
            LinkEvent::Idle => {
                match encode_write(self.address, reference_set_point(), set_point) {
                    Ok(request) => Step::Exchange(
                        Exchange { request, response_length: WRITE_RESPONSE_LENGTH },
                    ),
                    Err(_) => Step::Done(Err(UpdateSetPointError::ValueTooLarge)),
                }
            },
            LinkEvent::Response(bytes) => {
                if bytes.len() == WRITE_RESPONSE_LENGTH {
                    decode_write_response(bytes.as_slice());
                    Step::Done(Ok(()))
                } else {
                    Step::Done(Err(UpdateSetPointError::SerialPortError))
                }
            },
            LinkEvent::Failed => Step::Done(Err(UpdateSetPointError::SerialPortError)),
            LinkEvent::Poisoned => Step::Done(Err(UpdateSetPointError::PoisonError)),
        }
    }

    /// Advances the transaction that reads the current set point from the
    /// device.
    ///
    /// The first step asks for the read request to be exchanged for a
    /// response, and the step after that reports the value or the failure.
    pub fn get_current_set_point(&self, event: &LinkEvent) -> (step: Step<u16, GetSetPointError>)
        ensures
            step@ == read_step(self.address(), *event),
            step is Exchange ==> has_valid_checksum(step@.wire_bytes()),
    {
        let register = current_set_point();
        match event {
            LinkEvent::Idle => Step::Exchange(
                Exchange {
                    request: encode_read(self.address, register),
                    response_length: read_response_length(register),
                },
            ),
            LinkEvent::Response(bytes) => {
                if bytes.len() == read_response_length(register) {
                    Step::Done(Ok(decode_read_response(bytes.as_slice(), register)))
                } else {
                    Step::Done(Err(GetSetPointError::SerialPortError))
                }
            },
            LinkEvent::Failed => Step::Done(Err(GetSetPointError::SerialPortError)),
            LinkEvent::Poisoned => Step::Done(Err(GetSetPointError::PoisonError)),
        }
    }
}

/// A set point above [`MAX_SET_POINT`] is refused whatever the line has done,
/// and no step of its transaction puts a byte on the wire.
pub proof fn lemma_out_of_range_write_sends_nothing(address: u8, set_point: u16, event: LinkEvent)
    requires
        set_point > MAX_SET_POINT,
    ensures
        write_step(address, set_point, event) == StepView::<(), UpdateSetPointError>::Done(
            Err(UpdateSetPointError::ValueTooLarge),
        ),
        write_step(address, set_point, event).wire_bytes() == Seq::<u8>::empty(),
{
}

/// Round trip of a write. For any set point within range the transaction
/// starts with one exchange: the sealed eight-byte write request for an
/// acknowledgement of [`WRITE_RESPONSE_LENGTH`] bytes. Whatever bytes the
/// acknowledgement of that length holds, the transaction then ends without
/// an error.
pub proof fn lemma_write_round_trip(address: u8, set_point: u16, reply: LinkEvent)
    requires
        set_point <= MAX_SET_POINT,
        reply matches LinkEvent::Response(bytes) && bytes@.len() == WRITE_RESPONSE_LENGTH,
    ensures
        write_step(address, set_point, LinkEvent::Idle) == (StepView::<
            (),
            UpdateSetPointError,
        >::Exchange {
            request: write_frame(address, reference_set_point(), set_point),
            response_length: WRITE_RESPONSE_LENGTH as nat,
        }),
        has_valid_checksum(write_step(address, set_point, LinkEvent::Idle).wire_bytes()),
        write_step(address, set_point, reply) == StepView::<(), UpdateSetPointError>::Done(Ok(())),
{
    lemma_request_frames_are_sealed(address, reference_set_point(), set_point);
}

/// Round trip of a read. The transaction starts with one exchange: the
/// sealed eight-byte read request for a response as long as the register
/// asks for. When the response of that length holds `value` big-endian in
/// its bytes 3 and 4, the transaction ends with exactly `value`.
pub proof fn lemma_read_round_trip(address: u8, value: u16, reply: LinkEvent)
    requires
        reply matches LinkEvent::Response(bytes) && bytes@.len() == spec_read_response_length(
            current_set_point(),
        ) && bytes@[3] == high_byte(value) && bytes@[4] == low_byte(value),
    ensures
        read_step(address, LinkEvent::Idle) == (StepView::<u16, GetSetPointError>::Exchange {
            request: read_frame(address, current_set_point()),
            response_length: spec_read_response_length(current_set_point()),
        }),
        has_valid_checksum(read_step(address, LinkEvent::Idle).wire_bytes()),
        read_step(address, reply) == StepView::<u16, GetSetPointError>::Done(Ok(value)),
{
    lemma_request_frames_are_sealed(address, current_set_point(), 0);
    lemma_read_response_carries_value(reply->Response_0@, current_set_point(), value);
}

/// What a transaction asks of the line. A step puts either nothing on the
/// wire or one whole request: eight bytes that end in their checksum. Only
/// the first step of a transaction asks for an exchange. Once the line has
/// reported, the transaction is over, so one transaction holds the line for
/// one exchange and never for part of one.
pub proof fn lemma_steps_send_whole_frames(address: u8, set_point: u16, event: LinkEvent)
    ensures
        write_step(address, set_point, event).wire_bytes().len() == 0 || has_valid_checksum(
            write_step(address, set_point, event).wire_bytes(),
        ),
        read_step(address, event).wire_bytes().len() == 0 || has_valid_checksum(
            read_step(address, event).wire_bytes(),
        ),
        event !is Idle ==> write_step(address, set_point, event) is Done && read_step(
            address,
            event,
        ) is Done,
{
    lemma_request_frames_are_sealed(address, reference_set_point(), set_point);
    lemma_request_frames_are_sealed(address, current_set_point(), set_point);
}

} // verus!
