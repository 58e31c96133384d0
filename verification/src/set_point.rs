//! The set-point state and the decisions of the two requests that touch it.
//!
//! The state holds the last known set point, a read-through cache, and the
//! value that was last published to the observers. A request is advanced by
//! calling its function with what the device has done for it so far. The
//! answer says what to do next: read or write on the device and come back, or
//! reply, with or without publishing first.

use vstd::prelude::*;
use crate::codec::MAX_SET_POINT;
use crate::fan::{GetSetPointError, UpdateSetPointError};

verus! {

/// The two values that the state holds.
pub struct SetPoints {
    /// The last known set point: none until the first read or write succeeds.
    pub cached: Option<u16>,
    /// The value that the observers saw last: none until the first write
    /// succeeds.
    pub published: Option<u16>,
}

/// What holds of the state at all times: a published value is within range
/// and is also the cached one.
pub open spec fn consistent(points: SetPoints) -> bool {
    points.published matches Some(value) ==> value <= MAX_SET_POINT && points.cached == Some(
        value,
    )
}

/// What the device has done for a request so far.
#[derive(Debug)]
pub enum DeviceEvent<T, E> {
    /// Nothing yet: the request has just come in.
    Pending,
    /// The transaction on the device has ended with this result.
    Finished(Result<T, E>),
}

/// How a request is answered.
#[derive(Clone, Copy, Debug, PartialEq, Eq, Structural)]
pub enum Reply {
    /// Success: the set point, to be sent as the body.
    Value(u16),
    /// The caller asked for a set point above [`MAX_SET_POINT`].
    ValueTooLarge,
    /// The device could not be reached.
    Failed,
}

/// What to do next for a read request.
#[derive(Clone, Copy, Debug, PartialEq, Eq, Structural)]
pub enum ReadAction {
    /// Answer the caller. The request is over.
    Respond(Reply),
    /// Read the current set point from the device and come back with the
    /// result.
    ReadDevice,
}

/// What to do next for a request to change the set point.
#[derive(Clone, Copy, Debug, PartialEq, Eq, Structural)]
pub enum UpdateAction {
    /// Answer the caller. The request is over.
    Respond(Reply),
    /// Write this set point to the device and come back with the result.
    WriteDevice(u16),
    /// Publish this set point to all observers, then answer the caller with
    /// it. The request is over.
    PublishAndRespond(u16),
}

/// The state after a read request has seen `event`, and what to do next.
///
/// A cached value is the answer, and the device is left alone. Without one
/// the device is read, and a value that comes back is cached.
pub open spec fn read_transition(
    points: SetPoints,
    event: DeviceEvent<u16, GetSetPointError>,
) -> (SetPoints, ReadAction) {
    match points.cached {
        Some(value) => (points, ReadAction::Respond(Reply::Value(value))),
        None => match event {
            DeviceEvent::Pending => (points, ReadAction::ReadDevice),
            DeviceEvent::Finished(Ok(value)) => (
                SetPoints { cached: Some(value), published: points.published },
                ReadAction::Respond(Reply::Value(value)),
            ),
            DeviceEvent::Finished(Err(_)) => (points, ReadAction::Respond(Reply::Failed)),
        },
    }
}

/// The state after a request to set `value` has seen `event`, and what to do
/// next.
///
/// A value out of range is refused at once. A value that the observers saw
/// last is answered without a write. Any other value is written, and once
/// the device has taken it, it is cached and published.
pub open spec fn update_transition(
    points: SetPoints,
    value: u16,
    event: DeviceEvent<(), UpdateSetPointError>,
) -> (SetPoints, UpdateAction) {
    if value > MAX_SET_POINT {
        (points, UpdateAction::Respond(Reply::ValueTooLarge))
    } else {
        match event {
            DeviceEvent::Pending => if points.published == Some(value) {
                (points, UpdateAction::Respond(Reply::Value(value)))
            } else {
                (points, UpdateAction::WriteDevice(value))
            },
            DeviceEvent::Finished(Ok(_)) => (
                SetPoints { cached: Some(value), published: Some(value) },
                UpdateAction::PublishAndRespond(value),
            ),
            DeviceEvent::Finished(Err(UpdateSetPointError::ValueTooLarge)) => (
                points,
                UpdateAction::Respond(Reply::ValueTooLarge),
            ),
            DeviceEvent::Finished(Err(_)) => (points, UpdateAction::Respond(Reply::Failed)),
        }
    }
}

impl Reply {
    /// The HTTP status that goes with the reply.
    pub open spec fn spec_status_code(self) -> u16 {
        match self {
            Reply::Value(_) => 200,
            Reply::ValueTooLarge => 400,
            Reply::Failed => 500,
        }
    }

    /// The HTTP status that goes with the reply.
    #[verifier::when_used_as_spec(spec_status_code)]
    pub fn status_code(self) -> (code: u16)
        ensures
            code == self.spec_status_code(),
    {
        match self {
            Reply::Value(_) => 200,
            Reply::ValueTooLarge => 400,
            Reply::Failed => 500,
        }
    }
}

/// The last known set point and the value that was last published.
#[derive(Debug)]
pub struct SetPointState {
    set_point: Option<u16>,
    published: Option<u16>,
}

impl View for SetPointState {
    type V = SetPoints;

    closed spec fn view(&self) -> SetPoints {
        SetPoints { cached: self.set_point, published: self.published }
    }
}

impl SetPointState {
    #[verifier::type_invariant]
    closed spec fn inv(&self) -> bool {
        consistent(self@)
    }

    /// The state at start-up: nothing is known and nothing was published.
    pub fn new() -> (state: SetPointState)
        ensures
            state@ == (SetPoints { cached: None, published: None }),
    {
        SetPointState { set_point: None, published: None }
    }

    /// The last known set point.
    pub fn set_point(&self) -> (value: Option<u16>)
        ensures
            value == self@.cached,
            consistent(self@),
    {
        proof {
            use_type_invariant(self);
        }
        self.set_point
    }

    /// The value that the observers saw last. A new observer is handed this
    /// value first.
    pub fn published(&self) -> (value: Option<u16>)
        ensures
            value == self@.published,
            consistent(self@),
    {
        proof {
            use_type_invariant(self);
        }
        self.published
    }
}

/// Advances a request for the current set point.
///
/// The request starts with [`DeviceEvent::Pending`]. When the answer is
/// [`ReadAction::ReadDevice`], the caller reads the set point from the fan and
/// calls again with the result.
pub fn get_current_set_point(
    state: &mut SetPointState,
    event: DeviceEvent<u16, GetSetPointError>,
) -> (action: ReadAction)
    ensures
        (final(state)@, action) == read_transition(old(state)@, event),
        consistent(final(state)@),
{
    proof {
        use_type_invariant(&*state);
    }
    if let Some(value) = state.set_point {
        return ReadAction::Respond(Reply::Value(value));
    }
    match event {
        DeviceEvent::Pending => ReadAction::ReadDevice,
        DeviceEvent::Finished(Ok(value)) => {
            *state = SetPointState { set_point: Some(value), published: state.published };
            ReadAction::Respond(Reply::Value(value))
        },
        DeviceEvent::Finished(Err(_)) => ReadAction::Respond(Reply::Failed),
    }
}

/// Advances a request to set the set point to `value`.
///
/// The request starts with [`DeviceEvent::Pending`]. When the answer is
/// [`UpdateAction::WriteDevice`], the caller writes the set point to the fan and
/// calls again with the result.
pub fn update_set_point(
    state: &mut SetPointState,
    value: u16,
    event: DeviceEvent<(), UpdateSetPointError>,
) -> (action: UpdateAction)
    ensures
        (final(state)@, action) == update_transition(old(state)@, value, event),
        consistent(final(state)@),
{
    proof {
        use_type_invariant(&*state);
    }
    if value > MAX_SET_POINT {
        return UpdateAction::Respond(Reply::ValueTooLarge);
    }
    match event {
        DeviceEvent::Pending => {
            // Don't write the value if the observers have it already
            let is_same = match state.published {
                Some(current_value) => current_value == value,
                None => false,
            };
            if is_same {
                UpdateAction::Respond(Reply::Value(value))
            } else {
                UpdateAction::WriteDevice(value)
            }
        },
        DeviceEvent::Finished(Ok(_)) => {
            *state = SetPointState { set_point: Some(value), published: Some(value) };
            UpdateAction::PublishAndRespond(value)
        },
        DeviceEvent::Finished(Err(UpdateSetPointError::ValueTooLarge)) => UpdateAction::Respond(
            Reply::ValueTooLarge,
        ),
        DeviceEvent::Finished(Err(_)) => UpdateAction::Respond(Reply::Failed),
    }
}

/// The state that a successful write of `value` leaves behind.
pub open spec fn after_write(points: SetPoints, value: u16) -> SetPoints {
    update_transition(points, value, DeviceEvent::Finished(Ok(()))).0
}

/// Both requests keep the state consistent, whatever the device reports.
pub proof fn lemma_requests_keep_consistency(
    points: SetPoints,
    value: u16,
    read_event: DeviceEvent<u16, GetSetPointError>,
    update_event: DeviceEvent<(), UpdateSetPointError>,
)
    requires
        consistent(points),
    ensures
        consistent(read_transition(points, read_event).0),
        consistent(update_transition(points, value, update_event).0),
{
}

/// A set point above [`MAX_SET_POINT`] is refused whatever the device has
/// reported: the state stays as it is, nothing is written and nothing is
/// published.
pub proof fn lemma_out_of_range_update_is_refused(
    points: SetPoints,
    value: u16,
    event: DeviceEvent<(), UpdateSetPointError>,
)
    requires
        value > MAX_SET_POINT,
    ensures
        update_transition(points, value, event) == (
            points,
            UpdateAction::Respond(Reply::ValueTooLarge),
        ),
{
}

/// After a successful write of `value`, a read request is answered with
/// `value` from the cache: whatever event it is called with, the device is
/// not read and the state stays as it is.
pub proof fn lemma_read_after_write_is_cached(
    points: SetPoints,
    value: u16,
    event: DeviceEvent<u16, GetSetPointError>,
)
    requires
        consistent(points),
        value <= MAX_SET_POINT,
    ensures
        read_transition(after_write(points, value), event) == (
            after_write(points, value),
            ReadAction::Respond(Reply::Value(value)),
        ),
{
}

/// A request for the value that the observers saw last is answered at once:
/// the device is not written, nothing is published and the state stays as it
/// is.
pub proof fn lemma_published_value_is_not_written_again(points: SetPoints, value: u16)
    requires
        consistent(points),
        points.published == Some(value),
    ensures
        update_transition(points, value, DeviceEvent::Pending) == (
            points,
            UpdateAction::Respond(Reply::Value(value)),
        ),
{
}

/// After a successful write of `value`, the observers have seen `value`, so a
/// new request for the same value is answered without another write.
pub proof fn lemma_repeated_write_is_skipped(points: SetPoints, value: u16)
    requires
        consistent(points),
        value <= MAX_SET_POINT,
    ensures
        after_write(points, value) == (SetPoints { cached: Some(value), published: Some(value) }),
        update_transition(after_write(points, value), value, DeviceEvent::Pending) == (
            after_write(points, value),
            UpdateAction::Respond(Reply::Value(value)),
        ),
{
}

/// A request for a value within range that the observers did not see last
/// goes to the device. Once the device has taken it, the value is cached,
/// published to the observers and sent back to the caller.
pub proof fn lemma_new_value_is_written_and_published(points: SetPoints, value: u16)
    requires
        consistent(points),
        value <= MAX_SET_POINT,
        points.published != Some(value),
    ensures
        update_transition(points, value, DeviceEvent::Pending) == (
            points,
            UpdateAction::WriteDevice(value),
        ),
        update_transition(points, value, DeviceEvent::Finished(Ok(()))) == (
            SetPoints { cached: Some(value), published: Some(value) },
            UpdateAction::PublishAndRespond(value),
        ),
{
}

/// A write that fails on the device changes nothing: the cache and the
/// published value stay as they are and the observers hear nothing.
pub proof fn lemma_failed_write_changes_nothing(
    points: SetPoints,
    value: u16,
    error: UpdateSetPointError,
)
    ensures
        update_transition(points, value, DeviceEvent::Finished(Err(error))).0 == points,
        update_transition(points, value, DeviceEvent::Finished(Err(error))).1 is Respond,
        update_transition(points, value, DeviceEvent::Finished(Err(error))).1
            != UpdateAction::Respond(Reply::Value(value)),
{
}

/// A read that misses the cache goes to the device, and the value that comes
/// back fills the cache. The observers are not told: only a write publishes.
pub proof fn lemma_cache_miss_reads_device(points: SetPoints, value: u16)
    requires
        consistent(points),
        points.cached is None,
    ensures
        read_transition(points, DeviceEvent::Pending) == (points, ReadAction::ReadDevice),
        read_transition(points, DeviceEvent::Finished(Ok(value))) == (
            SetPoints { cached: Some(value), published: None },
            ReadAction::Respond(Reply::Value(value)),
        ),
{
}

} // verus!
