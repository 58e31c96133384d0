use fan_modbus::fan::{GetSetPointError, UpdateSetPointError};
use fan_modbus::set_point::{
    get_current_set_point, update_set_point, DeviceEvent, ReadAction, Reply, SetPointState,
    UpdateAction,
};

/// Counts what a request asks of the device and of the observers.
struct Traffic {
    reads: usize,
    writes: Vec<u16>,
    published: Vec<Option<u16>>,
}

fn no_traffic() -> Traffic {
    Traffic { reads: 0, writes: Vec::new(), published: Vec::new() }
}

/// Runs a read request to its end against a device that holds `device_value`.
fn read_request(
    state: &mut SetPointState,
    device_value: Result<u16, GetSetPointError>,
    traffic: &mut Traffic,
) -> Reply {
    let mut event = DeviceEvent::Pending;
    loop {
        match get_current_set_point(state, event) {
            ReadAction::Respond(reply) => return reply,
            ReadAction::ReadDevice => {
                traffic.reads += 1;
                event = DeviceEvent::Finished(device_value);
            }
        }
    }
}

/// Runs an update request to its end against a device that answers a write
/// with `device_answer`.
fn update_request(
    state: &mut SetPointState,
    value: u16,
    device_answer: Result<(), UpdateSetPointError>,
    traffic: &mut Traffic,
) -> Reply {
    let mut event = DeviceEvent::Pending;
    loop {
        match update_set_point(state, value, event) {
            UpdateAction::Respond(reply) => return reply,
            UpdateAction::WriteDevice(set_point) => {
                traffic.writes.push(set_point);
                event = DeviceEvent::Finished(device_answer);
            }
            UpdateAction::PublishAndRespond(set_point) => {
                traffic.published.push(Some(set_point));
                return Reply::Value(set_point);
            }
        }
    }
}

#[test]
fn state_starts_empty() {
    let state = SetPointState::new();
    assert_eq!(state.set_point(), None);
    assert_eq!(state.published(), None);
}

#[test]
fn reply_status_codes() {
    assert_eq!(Reply::Value(500).status_code(), 200);
    assert_eq!(Reply::ValueTooLarge.status_code(), 400);
    assert_eq!(Reply::Failed.status_code(), 500);
}

#[test]
fn first_read_goes_to_the_device_and_fills_the_cache() {
    let mut state = SetPointState::new();
    let mut traffic = no_traffic();
    let reply = read_request(&mut state, Ok(1200), &mut traffic);
    assert_eq!(reply, Reply::Value(1200));
    assert_eq!(traffic.reads, 1);
    assert_eq!(state.set_point(), Some(1200));
    assert_eq!(state.published(), None);
}

#[test]
fn second_read_is_served_from_the_cache() {
    let mut state = SetPointState::new();
    let mut traffic = no_traffic();
    read_request(&mut state, Ok(1200), &mut traffic);
    let reply = read_request(&mut state, Ok(9999), &mut traffic);
    assert_eq!(reply, Reply::Value(1200));
    assert_eq!(traffic.reads, 1);
}

#[test]
fn failed_read_leaves_the_cache_empty() {
    let mut state = SetPointState::new();
    let mut traffic = no_traffic();
    let reply = read_request(&mut state, Err(GetSetPointError::SerialPortError), &mut traffic);
    assert_eq!(reply, Reply::Failed);
    assert_eq!(state.set_point(), None);
    let reply = read_request(&mut state, Err(GetSetPointError::PoisonError), &mut traffic);
    assert_eq!(reply, Reply::Failed);
    assert_eq!(traffic.reads, 2);
    assert_eq!(state.set_point(), None);
}

#[test]
fn read_after_write_returns_the_written_value_without_traffic() {
    let mut state = SetPointState::new();
    let mut traffic = no_traffic();
    let reply = update_request(&mut state, 500, Ok(()), &mut traffic);
    assert_eq!(reply, Reply::Value(500));
    assert_eq!(traffic.writes, vec![500]);

    let reply = read_request(&mut state, Ok(7), &mut traffic);
    assert_eq!(reply, Reply::Value(500));
    assert_eq!(traffic.reads, 0);
}

#[test]
fn write_of_a_new_value_reaches_the_device_and_the_observers() {
    let mut state = SetPointState::new();
    let mut traffic = no_traffic();
    let reply = update_request(&mut state, 500, Ok(()), &mut traffic);
    assert_eq!(reply, Reply::Value(500));
    assert_eq!(traffic.writes, vec![500]);
    assert_eq!(traffic.published, vec![Some(500)]);
    assert_eq!(state.set_point(), Some(500));
    assert_eq!(state.published(), Some(500));
}

#[test]
fn write_of_the_published_value_is_skipped() {
    let mut state = SetPointState::new();
    let mut traffic = no_traffic();
    update_request(&mut state, 500, Ok(()), &mut traffic);
    let reply = update_request(&mut state, 500, Ok(()), &mut traffic);
    assert_eq!(reply, Reply::Value(500));
    assert_eq!(traffic.writes, vec![500]);
    assert_eq!(traffic.published, vec![Some(500)]);
}

#[test]
fn write_of_a_different_value_is_not_skipped() {
    let mut state = SetPointState::new();
    let mut traffic = no_traffic();
    update_request(&mut state, 300, Ok(()), &mut traffic);
    let reply = update_request(&mut state, 500, Ok(()), &mut traffic);
    assert_eq!(reply, Reply::Value(500));
    assert_eq!(traffic.writes, vec![300, 500]);
    assert_eq!(traffic.published, vec![Some(300), Some(500)]);
    assert_eq!(state.set_point(), Some(500));
}

#[test]
fn write_of_the_cached_but_unpublished_value_is_not_skipped() {
    let mut state = SetPointState::new();
    let mut traffic = no_traffic();
    read_request(&mut state, Ok(500), &mut traffic);
    let reply = update_request(&mut state, 500, Ok(()), &mut traffic);
    assert_eq!(reply, Reply::Value(500));
    assert_eq!(traffic.writes, vec![500]);
    assert_eq!(traffic.published, vec![Some(500)]);
}

#[test]
fn update_accepts_the_ceiling() {
    let mut state = SetPointState::new();
    let mut traffic = no_traffic();
    let reply = update_request(&mut state, 64_000, Ok(()), &mut traffic);
    assert_eq!(reply, Reply::Value(64_000));
    assert_eq!(traffic.writes, vec![64_000]);
}

#[test]
fn update_rejects_above_the_ceiling_without_traffic() {
    let mut state = SetPointState::new();
    let mut traffic = no_traffic();
    let reply = update_request(&mut state, 64_001, Ok(()), &mut traffic);
    assert_eq!(reply, Reply::ValueTooLarge);
    assert_eq!(reply.status_code(), 400);
    assert!(traffic.writes.is_empty());
    assert!(traffic.published.is_empty());
    assert_eq!(state.set_point(), None);
}

#[test]
fn update_above_the_ceiling_is_refused_whatever_the_device_did() {
    let mut state = SetPointState::new();
    for value in [64_001u16, 65_000, u16::MAX] {
        assert_eq!(
            update_set_point(&mut state, value, DeviceEvent::Pending),
            UpdateAction::Respond(Reply::ValueTooLarge)
        );
        assert_eq!(
            update_set_point(&mut state, value, DeviceEvent::Finished(Ok(()))),
            UpdateAction::Respond(Reply::ValueTooLarge)
        );
        assert_eq!(state.set_point(), None);
        assert_eq!(state.published(), None);
    }
}

#[test]
fn failed_write_changes_nothing() {
    let mut state = SetPointState::new();
    let mut traffic = no_traffic();
    update_request(&mut state, 300, Ok(()), &mut traffic);

    let reply =
        update_request(&mut state, 500, Err(UpdateSetPointError::SerialPortError), &mut traffic);
    assert_eq!(reply, Reply::Failed);
    assert_eq!(reply.status_code(), 500);
    let reply =
        update_request(&mut state, 500, Err(UpdateSetPointError::PoisonError), &mut traffic);
    assert_eq!(reply, Reply::Failed);
    let reply =
        update_request(&mut state, 500, Err(UpdateSetPointError::ValueTooLarge), &mut traffic);
    assert_eq!(reply, Reply::ValueTooLarge);

    assert_eq!(traffic.writes, vec![300, 500, 500, 500]);
    assert_eq!(traffic.published, vec![Some(300)]);
    assert_eq!(state.set_point(), Some(300));
    assert_eq!(state.published(), Some(300));
}

#[test]
fn late_read_result_does_not_replace_a_written_value() {
    let mut state = SetPointState::new();
    assert_eq!(get_current_set_point(&mut state, DeviceEvent::Pending), ReadAction::ReadDevice);
    let mut traffic = no_traffic();
    update_request(&mut state, 500, Ok(()), &mut traffic);
    let action = get_current_set_point(&mut state, DeviceEvent::Finished(Ok(123)));
    assert_eq!(action, ReadAction::Respond(Reply::Value(500)));
    assert_eq!(state.set_point(), Some(500));
}
