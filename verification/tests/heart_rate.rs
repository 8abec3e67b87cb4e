use hroscmidi::device::DiscoveredPeripheral;
use hroscmidi::heart_rate::decode_frame;
use hroscmidi::heart_rate::forward_frames;
use hroscmidi::heart_rate::select_heart_rate_characteristic;
use hroscmidi::heart_rate::HEART_RATE_MEASUREMENT_UUID;
use hroscmidi::registry::ConnectionRegistry;
use hroscmidi::registry::LinkOutcome;
use hroscmidi::registry::ScanOutcome;

#[test]
fn decode_reads_second_byte() {
    assert_eq!(decode_frame(&vec![0x00, 72]), 72);
    assert_eq!(decode_frame(&vec![0x00, 0]), 0);
    assert_eq!(decode_frame(&vec![0x00, 255]), 255);
    assert_eq!(decode_frame(&vec![0x16, 60, 10]), 60);
}

#[test]
fn forwarding_emits_one_sample_per_frame_in_order() {
    let frames = vec![
        vec![0x00, 61],
        vec![0x00, 62],
        vec![0x00, 64],
        vec![0x00, 63],
        vec![0x00, 63],
    ];
    let emissions = forward_frames(&frames);
    assert_eq!(emissions, vec![61, 62, 64, 63, 63]);
}

#[test]
fn forwarding_no_frames_emits_nothing() {
    let frames: Vec<Vec<u8>> = Vec::new();
    assert!(forward_frames(&frames).is_empty());
}

#[test]
fn characteristic_selection_finds_the_well_known_identifier() {
    let battery_level: u128 = 0x00002a19_0000_1000_8000_00805f9b34fb;
    let body_sensor_location: u128 = 0x00002a38_0000_1000_8000_00805f9b34fb;

    let uuids = vec![battery_level, HEART_RATE_MEASUREMENT_UUID, body_sensor_location];
    assert_eq!(select_heart_rate_characteristic(&uuids), Some(1));

    let uuids = vec![HEART_RATE_MEASUREMENT_UUID, HEART_RATE_MEASUREMENT_UUID];
    assert_eq!(select_heart_rate_characteristic(&uuids), Some(0));

    let uuids = vec![battery_level, body_sensor_location];
    assert_eq!(select_heart_rate_characteristic(&uuids), None);

    let uuids: Vec<u128> = Vec::new();
    assert_eq!(select_heart_rate_characteristic(&uuids), None);
}

#[test]
fn connect_decode_disconnect_scenario() {
    let mut registry = ConnectionRegistry::new();
    let outcome = ScanOutcome::Discovered(vec![DiscoveredPeripheral {
        id: "AA:BB".to_string(),
        name: Some("ChestStrap1".to_string()),
    }]);
    let listing = registry.apply_scan_outcome(outcome).unwrap();
    assert_eq!(listing, vec![("AA:BB".to_string(), "ChestStrap1".to_string())]);

    let handle = registry.lookup_device(&"AA:BB".to_string()).unwrap();
    let connected = registry.apply_connect_outcome(handle, &LinkOutcome::Subscribed).is_ok();
    assert!(connected);
    assert_eq!(registry.active_connection.as_ref().unwrap().id, "AA:BB");

    let frame = vec![0x00, 72];
    let heart_rate = decode_frame(&frame) as f32;
    assert_eq!(heart_rate, 72.0);

    registry.finish_disconnect();
    assert!(registry.active_connection.is_none());
}
