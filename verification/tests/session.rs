use audio_tap::device::Device;
use audio_tap::error::Error;
use audio_tap::platform::{Host, StreamAction};

fn two_devices() -> Vec<Device> {
    vec![
        Device::new("speakers".to_string(), 10),
        Device::new("microphone".to_string(), 20),
    ]
}

#[test]
fn listen_with_no_devices_errors() {
    let mut host: Host<Vec<u32>> = Host::new(Vec::new());
    assert_eq!(host.listen(), Err(Error::NoDefaultDeviceFound));
}

#[test]
fn listen_defaults_to_the_first_device() {
    let mut host: Host<Vec<u32>> = Host::new(two_devices());
    assert_eq!(host.current_device_index(), None);
    let target = host.listen().unwrap();
    assert_eq!(target, 0);
    host.stream_started(target, true);
    assert_eq!(host.current_device_index(), Some(0));
    assert_eq!(host.current_device().unwrap().name(), "speakers");
}

#[test]
fn pending_change_while_idle_is_applied_by_listen() {
    let mut host: Host<Vec<u32>> = Host::new(two_devices());
    let d1 = Device::new("microphone".to_string(), 20);
    assert_eq!(host.change_device(&d1), Ok(StreamAction::Keep));
    assert_eq!(host.current_device_index(), None);
    let target = host.listen().unwrap();
    assert_eq!(target, 1);
    host.stream_started(target, true);
    assert_eq!(host.current_device_index(), Some(1));
}

#[test]
fn change_device_unknown_id_errors() {
    let mut host: Host<Vec<u32>> = Host::new(two_devices());
    let stranger = Device::new("stranger".to_string(), 99);
    match host.change_device(&stranger) {
        Err(Error::DeviceNotFound(name)) => assert_eq!(name, "stranger"),
        other => panic!("expected DeviceNotFound, got {:?}", other),
    }
    assert_eq!(host.current_device_index(), None);
}

#[test]
fn change_device_by_index_out_of_range_errors() {
    let mut host: Host<Vec<u32>> = Host::new(two_devices());
    assert_eq!(
        host.change_device_by_index(5),
        Err(Error::InvalidDeviceIndex(5))
    );
}

#[test]
fn change_device_by_index_records_pending() {
    let mut host: Host<Vec<u32>> = Host::new(two_devices());
    assert_eq!(host.change_device_by_index(1), Ok(StreamAction::Keep));
    assert_eq!(host.listen().unwrap(), 1);
}

#[test]
fn device_switch_keeps_consumers() {
    let mut host: Host<Vec<u32>> = Host::new(two_devices());
    assert!(host.register("tap".to_string(), Vec::new()).is_ok());

    let target = host.listen().unwrap();
    host.stream_started(target, true);
    host.dispatch(&vec![1, 1]);
    assert_eq!(host.poll(&"tap".to_string()), Some(vec![1, 1]));

    let d1 = Device::new("microphone".to_string(), 20);
    assert_eq!(host.change_device(&d1), Ok(StreamAction::Rebuild(1)));
    host.stream_started(1, true);
    assert_eq!(host.current_device_index(), Some(1));

    // The consumer is still registered, with no re-registration, and keeps
    // receiving frames from the new device's stream.
    assert_eq!(host.poll(&"tap".to_string()), Some(vec![1, 1]));
    host.dispatch(&vec![2, 3]);
    assert_eq!(host.poll(&"tap".to_string()), Some(vec![2, 3]));
}

#[test]
fn failed_switch_leaves_previous_device_listening() {
    let mut host: Host<Vec<u32>> = Host::new(two_devices());
    let target = host.listen().unwrap();
    host.stream_started(target, true);
    assert_eq!(host.current_device_index(), Some(0));

    let d1 = Device::new("microphone".to_string(), 20);
    assert_eq!(host.change_device(&d1), Ok(StreamAction::Rebuild(1)));
    host.stream_started(1, false);
    assert_eq!(host.current_device_index(), Some(0));
}

#[test]
fn refresh_follows_the_selected_device_by_id() {
    let mut host: Host<Vec<u32>> = Host::new(two_devices());
    host.stream_started(1, true);
    assert_eq!(host.current_device_index(), Some(1));
    host.refresh(vec![Device::new("microphone".to_string(), 20)]);
    assert_eq!(host.current_device_index(), Some(0));
    assert_eq!(host.current_device().unwrap().index(), 20);
}

#[test]
fn refresh_falls_back_to_first_when_device_vanished() {
    let mut host: Host<Vec<u32>> = Host::new(two_devices());
    host.stream_started(1, true);
    host.refresh(vec![Device::new("speakers".to_string(), 10)]);
    assert_eq!(host.current_device_index(), Some(0));
    assert_eq!(host.current_device().unwrap().index(), 10);
}

#[test]
fn refresh_to_empty_clears_the_selection() {
    let mut host: Host<Vec<u32>> = Host::new(two_devices());
    host.stream_started(0, true);
    host.refresh(Vec::new());
    assert_eq!(host.current_device_index(), None);
}

#[test]
fn slots_stay_valid_after_stop() {
    let mut host: Host<Vec<u32>> = Host::new(two_devices());
    assert!(host.register("tap".to_string(), Vec::new()).is_ok());
    host.stream_started(0, true);
    host.dispatch(&vec![4, 4]);
    host.stop();
    assert_eq!(host.poll(&"tap".to_string()), Some(vec![4, 4]));
}

#[test]
fn default_device_is_the_first() {
    let host: Host<Vec<u32>> = Host::new(two_devices());
    assert_eq!(host.default_device().unwrap().name(), "speakers");
    let empty: Host<Vec<u32>> = Host::new(Vec::new());
    assert!(matches!(
        empty.default_device(),
        Err(Error::NoDefaultDeviceFound)
    ));
}

#[test]
fn create_listener_shares_one_slot() {
    let mut host: Host<Vec<u32>> = Host::new(two_devices());
    let first = host.create_listener("view".to_string(), Vec::new());
    assert_eq!(first, Vec::<u32>::new());
    host.dispatch(&vec![6]);
    let second = host.create_listener("view".to_string(), Vec::new());
    assert_eq!(second, vec![6]);
}
