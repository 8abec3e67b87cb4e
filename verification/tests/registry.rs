use hroscmidi::device::BridgeError;
use hroscmidi::device::DiscoveredPeripheral;
use hroscmidi::registry::ConnectionRegistry;
use hroscmidi::registry::LinkOutcome;
use hroscmidi::registry::ScanOutcome;

fn discovered(id: &str, name: Option<&str>) -> DiscoveredPeripheral {
    DiscoveredPeripheral { id: id.to_string(), name: name.map(|n| n.to_string()) }
}

fn scanned_registry() -> ConnectionRegistry {
    let mut registry = ConnectionRegistry::new();
    let outcome = ScanOutcome::Discovered(vec![
        discovered("AA:BB", Some("ChestStrap1")),
        discovered("CC:DD", Some("ArmBand2")),
    ]);
    registry.apply_scan_outcome(outcome).unwrap();
    registry
}

#[test]
fn scan_keeps_only_named_devices() {
    let mut registry = ConnectionRegistry::new();
    let outcome = ScanOutcome::Discovered(vec![
        discovered("AA:BB", Some("ChestStrap1")),
        discovered("EE:FF", None),
        discovered("00:11", Some("")),
        discovered("CC:DD", Some("ArmBand2")),
    ]);
    let listing = registry.apply_scan_outcome(outcome).unwrap();
    assert_eq!(
        listing,
        vec![
            ("AA:BB".to_string(), "ChestStrap1".to_string()),
            ("CC:DD".to_string(), "ArmBand2".to_string()),
        ]
    );
    assert_eq!(registry.known_devices.len(), 2);
    assert_eq!(registry.known_devices[0].id, "AA:BB");
    assert_eq!(registry.known_devices[1].id, "CC:DD");
    assert!(registry.active_connection.is_none());
}

#[test]
fn scan_replaces_previous_listing() {
    let mut registry = scanned_registry();
    let outcome = ScanOutcome::Discovered(vec![discovered("11:22", Some("NewStrap"))]);
    let listing = registry.apply_scan_outcome(outcome).unwrap();
    assert_eq!(listing, vec![("11:22".to_string(), "NewStrap".to_string())]);
    assert_eq!(registry.known_devices.len(), 1);
    assert_eq!(registry.known_devices[0].id, "11:22");
}

#[test]
fn scan_failures_leave_registry_untouched() {
    let mut registry = scanned_registry();
    let connected = registry.lookup_device(&"AA:BB".to_string()).unwrap();
    registry.apply_connect_outcome(connected, &LinkOutcome::Subscribed).unwrap();

    let err = registry.apply_scan_outcome(ScanOutcome::NoAdapter).unwrap_err();
    assert_eq!(err, BridgeError::AdapterUnavailable);
    assert_eq!(registry.known_devices.len(), 2);
    assert_eq!(registry.active_connection.as_ref().unwrap().id, "AA:BB");

    let err = registry.apply_scan_outcome(ScanOutcome::DiscoveryFailed).unwrap_err();
    assert_eq!(err, BridgeError::TransportError);
    assert_eq!(registry.known_devices.len(), 2);
    assert_eq!(registry.active_connection.as_ref().unwrap().id, "AA:BB");
}

#[test]
fn connect_unknown_id_on_empty_listing_fails() {
    let registry = ConnectionRegistry::new();
    let err = registry.lookup_device(&"ZZ:ZZ".to_string()).unwrap_err();
    assert_eq!(err, BridgeError::DeviceNotFound);
    assert!(registry.active_connection.is_none());
}

#[test]
fn connect_unknown_id_never_mutates_active_connection() {
    let mut registry = scanned_registry();
    let connected = registry.lookup_device(&"AA:BB".to_string()).unwrap();
    registry.apply_connect_outcome(connected, &LinkOutcome::Subscribed).unwrap();

    let err = registry.lookup_device(&"ZZ:ZZ".to_string()).unwrap_err();
    assert_eq!(err, BridgeError::DeviceNotFound);
    assert_eq!(registry.active_connection.as_ref().unwrap().id, "AA:BB");
}

#[test]
fn lookup_finds_known_device() {
    let registry = scanned_registry();
    let handle = registry.lookup_device(&"CC:DD".to_string()).unwrap();
    assert_eq!(handle.id, "CC:DD");
    assert_eq!(handle.name, "ArmBand2");
}

#[test]
fn connect_failures_publish_nothing() {
    let mut registry = scanned_registry();

    let handle = registry.lookup_device(&"AA:BB".to_string()).unwrap();
    let err = registry.apply_connect_outcome(handle, &LinkOutcome::LinkFailed).unwrap_err();
    assert_eq!(err, BridgeError::LinkError);
    assert!(registry.active_connection.is_none());

    let handle = registry.lookup_device(&"AA:BB".to_string()).unwrap();
    let err = registry
        .apply_connect_outcome(handle, &LinkOutcome::NoHeartRateCharacteristic)
        .unwrap_err();
    assert_eq!(err, BridgeError::CharacteristicNotFound);
    assert!(registry.active_connection.is_none());

    let handle = registry.lookup_device(&"AA:BB".to_string()).unwrap();
    let err = registry.apply_connect_outcome(handle, &LinkOutcome::SubscribeFailed).unwrap_err();
    assert_eq!(err, BridgeError::SubscribeError);
    assert!(registry.active_connection.is_none());
}

#[test]
fn successful_connect_publishes_and_scan_does_not_disturb_it() {
    let mut registry = scanned_registry();
    let handle = registry.lookup_device(&"AA:BB".to_string()).unwrap();
    registry.apply_connect_outcome(handle, &LinkOutcome::Subscribed).unwrap();
    assert_eq!(registry.active_connection.as_ref().unwrap().id, "AA:BB");

    let outcome = ScanOutcome::Discovered(vec![discovered("11:22", Some("NewStrap"))]);
    registry.apply_scan_outcome(outcome).unwrap();
    assert_eq!(registry.active_connection.as_ref().unwrap().id, "AA:BB");
}

#[test]
fn disconnect_is_idempotent() {
    let mut registry = scanned_registry();
    let handle = registry.lookup_device(&"AA:BB".to_string()).unwrap();
    registry.apply_connect_outcome(handle, &LinkOutcome::Subscribed).unwrap();

    registry.finish_disconnect();
    assert!(registry.active_connection.is_none());
    registry.finish_disconnect();
    assert!(registry.active_connection.is_none());

    let mut fresh = ConnectionRegistry::new();
    fresh.finish_disconnect();
    assert!(fresh.active_connection.is_none());
}

#[test]
fn stream_end_clears_only_its_own_connection() {
    let mut registry = scanned_registry();
    let handle = registry.lookup_device(&"AA:BB".to_string()).unwrap();
    registry.apply_connect_outcome(handle, &LinkOutcome::Subscribed).unwrap();

    registry.clear_if_active(&"CC:DD".to_string());
    assert_eq!(registry.active_connection.as_ref().unwrap().id, "AA:BB");

    registry.clear_if_active(&"AA:BB".to_string());
    assert!(registry.active_connection.is_none());

    registry.clear_if_active(&"AA:BB".to_string());
    assert!(registry.active_connection.is_none());
}

#[test]
fn error_messages_name_the_failing_step() {
    assert_eq!(BridgeError::AdapterUnavailable.message(), "No Bluetooth adapter found");
    assert_eq!(BridgeError::TransportError.message(), "Bluetooth discovery failed");
    assert_eq!(BridgeError::DeviceNotFound.message(), "Device not found");
    assert_eq!(BridgeError::LinkError.message(), "Failed to connect to device");
    assert_eq!(
        BridgeError::CharacteristicNotFound.message(),
        "Heart Rate Measurement characteristic not found"
    );
    assert_eq!(BridgeError::SubscribeError.message(), "Failed to subscribe to notifications");
}
