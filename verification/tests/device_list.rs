use meshchat::config::Config;
use meshchat::device_list::DeviceListEvent::{
    AliasInput, BLEMeshRadioFound, BLERadioLost, CriticalError, Error, Scanning, StartEditingAlias,
};
use meshchat::battery::{charge_fill, ChargeBand};
use meshchat::device::ConnectionState;
use meshchat::device_list::{device_name_or_alias, row_action, DeviceInfo, DeviceList, RadioType, RowAction};
use meshchat::effect::{Effect, NotificationKind};

#[test]
fn device_list_test_default() {
    let view = DeviceList::default();
    assert!(view.devices().is_empty());
    assert!(view.alias().is_empty());
    assert!(view.editing_alias().is_none());
}

#[test]
fn test_ble_radio_found() {
    let mut view = DeviceList::default();
    assert!(view.devices().is_empty());

    let _ = view.update(BLEMeshRadioFound("AA:BB:CC:DD:EE:FF".to_string(), RadioType::Unknown));

    assert_eq!(view.devices().len(), 1);
    assert!(view.devices().contains_key("AA:BB:CC:DD:EE:FF"));
}

#[test]
fn test_ble_radio_found_duplicate() {
    let mut view = DeviceList::default();

    let _ = view.update(BLEMeshRadioFound("AA:BB:CC:DD:EE:FF".to_string(), RadioType::Unknown));
    let _ = view.update(BLEMeshRadioFound("AA:BB:CC:DD:EE:FF".to_string(), RadioType::Unknown));

    assert_eq!(view.devices().len(), 1);
}

#[test]
fn test_ble_radio_found_multiple() {
    let mut view = DeviceList::default();

    let _ = view.update(BLEMeshRadioFound("AA:BB:CC:DD:EE:FF".to_string(), RadioType::Unknown));
    let _ = view.update(BLEMeshRadioFound("11:22:33:44:55:66".to_string(), RadioType::Unknown));

    assert_eq!(view.devices().len(), 2);
}

#[test]
fn test_ble_radio_lost() {
    let mut view = DeviceList::default();

    let _ = view.update(BLEMeshRadioFound("AA:BB:CC:DD:EE:FF".to_string(), RadioType::Unknown));
    assert_eq!(view.devices().len(), 1);

    let _ = view.update(BLERadioLost("AA:BB:CC:DD:EE:FF".to_string()));
    assert!(view.devices().is_empty());
}

#[test]
fn test_ble_radio_lost_nonexistent() {
    let mut view = DeviceList::default();
    let _ = view.update(BLERadioLost("AA:BB:CC:DD:EE:FF".to_string()));
    assert!(view.devices().is_empty());
}

#[test]
fn device_list_test_alias_input() {
    let mut view = DeviceList::default();
    assert!(view.alias().is_empty());

    let _ = view.update(AliasInput("My Radio".to_string()));
    assert_eq!(view.alias(), "My Radio");
}

#[test]
fn device_list_test_start_editing_alias() {
    let mut view = DeviceList::default();
    let _ = view.update(AliasInput("existing".to_string()));

    let _ = view.update(StartEditingAlias("AA:BB:CC:DD:EE:FF".to_string()));

    assert_eq!(view.editing_alias(), Some(&"AA:BB:CC:DD:EE:FF".to_string()));
    assert!(view.alias().is_empty());
}

#[test]
fn device_list_test_stop_editing_alias() {
    let mut view = DeviceList::default();
    let _ = view.update(StartEditingAlias("AA:BB:CC:DD:EE:FF".to_string()));
    let _ = view.update(AliasInput("My Radio".to_string()));

    view.stop_editing_alias();

    assert!(view.editing_alias().is_none());
    assert!(view.alias().is_empty());
}

#[test]
fn test_device_name_or_alias_no_alias() {
    let view = DeviceList::default();
    let config = Config::default();

    let name = view.device_name_or_alias("AA:BB:CC:DD:EE:FF", &config);
    assert_eq!(name, "AA:BB:CC:DD:EE:FF");
}

#[test]
fn test_device_name_or_alias_with_alias() {
    let view = DeviceList::default();
    let mut config = Config::default();
    config.device_aliases.insert("AA:BB:CC:DD:EE:FF".to_string(), "My Radio".to_string());

    let name = view.device_name_or_alias("AA:BB:CC:DD:EE:FF", &config);
    assert_eq!(name, "My Radio");
}

#[test]
fn test_device_name_or_alias_different_device() {
    let view = DeviceList::default();
    let mut config = Config::default();
    config.device_aliases.insert("AA:BB:CC:DD:EE:FF".to_string(), "My Radio".to_string());

    let name = view.device_name_or_alias("11:22:33:44:55:66", &config);
    assert_eq!(name, "11:22:33:44:55:66");
}

#[test]
fn test_error_returns_task() {
    let mut view = DeviceList::default();
    let effects = view.update(Error("Test error".to_string()));
    assert_eq!(effects.len(), 1);
    assert!(matches!(&effects[0],
        Effect::Notify(NotificationKind::Error, s, d, None) if s == "Discovery Error" && d == "Test error"));
}

#[test]
fn test_workflow_find_alias_lose() {
    let mut view = DeviceList::default();
    let mut config = Config::default();

    let _ = view.update(BLEMeshRadioFound("AA:BB:CC:DD:EE:FF".to_string(), RadioType::Unknown));
    assert_eq!(view.devices().len(), 1);

    let _ = view.update(StartEditingAlias("AA:BB:CC:DD:EE:FF".to_string()));
    assert!(view.editing_alias().is_some());

    let _ = view.update(AliasInput("My Radio".to_string()));
    assert_eq!(view.alias(), "My Radio");

    config.device_aliases.insert("AA:BB:CC:DD:EE:FF".to_string(), "My Radio".to_string());
    view.stop_editing_alias();

    assert_eq!(view.device_name_or_alias("AA:BB:CC:DD:EE:FF", &config), "My Radio");

    let _ = view.update(BLERadioLost("AA:BB:CC:DD:EE:FF".to_string()));
    assert!(view.devices().is_empty());
}

#[test]
fn test_device_list_event_debug() {
    let event = BLEMeshRadioFound("device1".into(), RadioType::Meshtastic);
    let debug_str = format!("{:?}", event);
    assert!(debug_str.contains("BLEMeshRadioFound"));
    assert!(debug_str.contains("device1"));
}

#[test]
fn test_device_list_event_clone() {
    let event = BLERadioLost("device1".into());
    let cloned = event.clone();
    assert!(matches!(cloned, BLERadioLost(name) if name == "device1"));
}

#[test]
fn test_device_list_event_error_debug() {
    let event = Error("test error".into());
    let debug_str = format!("{:?}", event);
    assert!(debug_str.contains("Error"));
    assert!(debug_str.contains("test error"));
}

#[test]
fn test_device_list_event_start_editing_alias_debug() {
    let event = StartEditingAlias("device1".into());
    let debug_str = format!("{:?}", event);
    assert!(debug_str.contains("StartEditingAlias"));
}

#[test]
fn test_device_list_event_alias_input_debug() {
    let event = AliasInput("my alias".into());
    let debug_str = format!("{:?}", event);
    assert!(debug_str.contains("AliasInput"));
    assert!(debug_str.contains("my alias"));
}

#[test]
fn test_update_alias_input_empty() {
    let mut view = DeviceList::default();
    let _ = view.update(AliasInput("existing".into()));

    let _ = view.update(AliasInput("".into()));
    assert!(view.alias().is_empty());
}

#[test]
fn test_update_alias_input_special_chars() {
    let mut view = DeviceList::default();

    let _ = view.update(AliasInput("My Radio 🔊 #1".into()));
    assert_eq!(view.alias(), "My Radio 🔊 #1");
}

#[test]
fn test_multiple_devices_found_and_lost() {
    let mut view = DeviceList::default();

    let _ = view.update(BLEMeshRadioFound("device1".into(), RadioType::Unknown));
    let _ = view.update(BLEMeshRadioFound("device2".into(), RadioType::Unknown));
    let _ = view.update(BLEMeshRadioFound("device3".into(), RadioType::Unknown));
    assert_eq!(view.devices().len(), 3);

    let _ = view.update(BLERadioLost("device2".into()));
    assert_eq!(view.devices().len(), 2);
    assert!(view.devices().contains_key("device1"));
    assert!(!view.devices().contains_key("device2"));
    assert!(view.devices().contains_key("device3"));

    let _ = view.update(BLERadioLost("device1".into()));
    assert_eq!(view.devices().len(), 1);

    let _ = view.update(BLERadioLost("device3".into()));
    assert!(view.devices().is_empty());
}

#[test]
fn test_start_editing_alias_clears_previous() {
    let mut view = DeviceList::default();

    let _ = view.update(StartEditingAlias("device1".into()));
    let _ = view.update(AliasInput("alias1".into()));
    assert_eq!(view.editing_alias(), Some(&"device1".to_string()));
    assert_eq!(view.alias(), "alias1");

    let _ = view.update(StartEditingAlias("device2".into()));
    assert_eq!(view.editing_alias(), Some(&"device2".to_string()));
    assert!(view.alias().is_empty());
}

#[test]
fn test_device_name_or_alias_empty_string() {
    let view = DeviceList::default();
    let config = Config::default();

    let name = view.device_name_or_alias("", &config);
    assert_eq!(name, "");
}

#[test]
fn test_device_name_or_alias_with_multiple_aliases() {
    let view = DeviceList::default();
    let mut config = Config::default();
    config.device_aliases.insert("device1".into(), "Radio 1".into());
    config.device_aliases.insert("device2".into(), "Radio 2".into());
    config.device_aliases.insert("device3".into(), "Radio 3".into());

    assert_eq!(view.device_name_or_alias("device1", &config), "Radio 1");
    assert_eq!(view.device_name_or_alias("device2", &config), "Radio 2");
    assert_eq!(view.device_name_or_alias("device3", &config), "Radio 3");
    assert_eq!(view.device_name_or_alias("device4", &config), "device4");
}

#[test]
fn test_editing_alias_while_device_lost() {
    let mut view = DeviceList::default();

    let _ = view.update(BLEMeshRadioFound("device1".into(), RadioType::Unknown));

    let _ = view.update(StartEditingAlias("device1".into()));
    let _ = view.update(AliasInput("My Alias".into()));
    assert_eq!(view.editing_alias(), Some(&"device1".to_string()));

    let _ = view.update(BLERadioLost("device1".into()));
    assert!(view.devices().is_empty());

    assert_eq!(view.editing_alias(), Some(&"device1".to_string()));
    assert_eq!(view.alias(), "My Alias");
}

#[test]
fn test_stop_editing_alias_when_not_editing() {
    let mut view = DeviceList::default();
    assert!(view.editing_alias().is_none());

    view.stop_editing_alias();
    assert!(view.editing_alias().is_none());
    assert!(view.alias().is_empty());
}

#[test]
fn test_error_with_empty_message() {
    let mut view = DeviceList::default();
    let effects = view.update(Error("".into()));
    assert_eq!(effects.len(), 1);
}

#[test]
fn test_error_with_long_message() {
    let mut view = DeviceList::default();
    let long_error = "A".repeat(1000);
    let effects = view.update(Error(long_error.clone()));
    assert!(matches!(&effects[0], Effect::Notify(NotificationKind::Error, _, d, None) if *d == long_error));
}

#[test]
fn test_ble_radio_found_with_long_name() {
    let mut view = DeviceList::default();
    let long_name = "B".repeat(100);

    let _ = view.update(BLEMeshRadioFound(long_name.clone(), RadioType::Unknown));
    assert!(view.devices().contains_key(&long_name));
}

#[test]
fn test_device_list_view_default_values() {
    let view = DeviceList::default();
    assert!(view.devices().is_empty());
    assert!(view.alias().is_empty());
    assert!(view.editing_alias().is_none());
}

#[test]
fn test_ble_meshcore_radio_found() {
    let mut view = DeviceList::default();
    assert!(view.devices().is_empty());

    let _ = view.update(BLEMeshRadioFound("AA:BB:CC:DD:EE:FF".to_string(), RadioType::MeshCore));

    assert_eq!(view.devices().len(), 1);
    assert!(view.devices().contains_key("AA:BB:CC:DD:EE:FF"));
    assert_eq!(
        view.devices()
            .get("AA:BB:CC:DD:EE:FF")
            .expect("Device should exist after BLEMeshCoreRadioFound event")
            .radio_type,
        RadioType::MeshCore
    );
}

#[test]
fn test_ble_meshcore_radio_found_duplicate() {
    let mut view = DeviceList::default();

    let _ = view.update(BLEMeshRadioFound("AA:BB:CC:DD:EE:FF".to_string(), RadioType::MeshCore));
    let _ = view.update(BLEMeshRadioFound("AA:BB:CC:DD:EE:FF".to_string(), RadioType::MeshCore));

    assert_eq!(view.devices().len(), 1);
}

#[test]
fn test_radio_type_default() {
    let radio_type = RadioType::default();
    assert_eq!(radio_type, RadioType::Unknown);
}

#[test]
fn test_radio_type_debug() {
    let radio_type = RadioType::Unknown;
    let debug_str = format!("{:?}", radio_type);
    assert!(debug_str.contains("Unknown"));
}

#[test]
fn test_radio_type_clone() {
    let radio_type = RadioType::Unknown;
    let cloned = radio_type;
    assert_eq!(radio_type, cloned);
}

#[test]
fn test_device_info_debug() {
    let device_info = DeviceInfo { original_name: "Test Device".to_string(), radio_type: RadioType::Unknown };
    let debug_str = format!("{:?}", device_info);
    assert!(debug_str.contains("DeviceInfo"));
    assert!(debug_str.contains("Test Device"));
}

#[test]
fn test_device_info_clone() {
    let device_info = DeviceInfo { original_name: "Test Device".to_string(), radio_type: RadioType::Unknown };
    let cloned = device_info.clone();
    assert_eq!(cloned.original_name, "Test Device");
}

#[test]
fn test_device_list_event_ble_radio_lost_clone() {
    let event = BLERadioLost("device1".into());
    let cloned = event.clone();
    assert!(
        matches!(cloned, BLERadioLost(ref name) if name == "device1"),
        "Clone of BLERadioLost should preserve device name, got {:?}",
        cloned
    );
}

#[test]
fn test_device_list_event_error_clone() {
    let event = Error("test error".into());
    let cloned = event.clone();
    assert!(
        matches!(cloned, Error(ref msg) if msg == "test error"),
        "Clone of Error should preserve error message, got {:?}",
        cloned
    );
}

#[test]
fn test_device_list_event_start_editing_alias_clone() {
    let event = StartEditingAlias("device1".into());
    let cloned = event.clone();
    assert!(
        matches!(cloned, StartEditingAlias(ref device) if device == "device1"),
        "Clone of StartEditingAlias should preserve device name, got {:?}",
        cloned
    );
}

#[test]
fn test_device_list_event_alias_input_clone() {
    let event = AliasInput("my alias".into());
    let cloned = event.clone();
    assert!(
        matches!(cloned, AliasInput(ref alias) if alias == "my alias"),
        "Clone of AliasInput should preserve alias value, got {:?}",
        cloned
    );
}

#[test]
fn test_radio_type_meshtastic() {
    let mut view = DeviceList::default();
    let _ = view.update(BLEMeshRadioFound("AA:BB:CC:DD:EE:FF".to_string(), RadioType::Meshtastic));

    let device_info = view
        .devices()
        .get("AA:BB:CC:DD:EE:FF")
        .expect("Device should exist after BLEMeshRadioFound event");
    assert_eq!(device_info.radio_type, RadioType::Meshtastic);
}

#[test]
fn test_alias_unicode() {
    let mut view = DeviceList::default();
    let _ = view.update(AliasInput("📱 My Device 日本語".into()));
    assert_eq!(view.alias(), "📱 My Device 日本語");
}

#[test]
fn test_device_list_empty_after_all_lost() {
    let mut view = DeviceList::default();

    let _ = view.update(BLEMeshRadioFound("device1".into(), RadioType::Unknown));
    let _ = view.update(BLEMeshRadioFound("device2".into(), RadioType::Unknown));
    assert_eq!(view.devices().len(), 2);

    let _ = view.update(BLERadioLost("device1".into()));
    let _ = view.update(BLERadioLost("device2".into()));
    assert!(view.devices().is_empty());
}

#[test]
fn found_device_keeps_first_radio_type() {
    let mut view = DeviceList::default();
    let _ = view.update(BLEMeshRadioFound("dev".into(), RadioType::MeshCore));
    let _ = view.update(BLEMeshRadioFound("dev".into(), RadioType::Meshtastic));
    assert_eq!(view.devices().get("dev").unwrap().radio_type, RadioType::MeshCore);
    assert_eq!(view.devices().get("dev").unwrap().original_name, "dev");
}

#[test]
fn critical_error_and_scanning() {
    let mut view = DeviceList::default();
    let effects = view.update(CriticalError("no adapter".into()));
    assert!(matches!(&effects[0],
        Effect::Notify(NotificationKind::Critical, s, d, None) if s == "Discovery Error" && d == "no adapter"));
    assert!(!view.scanning());
    let effects = view.update(Scanning(true));
    assert!(effects.is_empty());
    assert!(view.scanning());
}

#[test]
fn start_editing_alias_focuses_alias_input() {
    let mut view = DeviceList::default();
    let effects = view.update(StartEditingAlias("d".into()));
    assert_eq!(effects.len(), 1);
    assert!(matches!(effects[0], Effect::FocusAliasInput));
}

#[test]
fn free_device_name_or_alias() {
    let mut config = Config::default();
    config.device_aliases.insert("d".into(), "Alias".into());
    assert_eq!(device_name_or_alias("d", &config), "Alias");
    assert_eq!(device_name_or_alias("e", &config), "e");
}

#[test]
fn device_row_offers_connect_when_disconnected() {
    assert_eq!(row_action(&ConnectionState::Disconnected(None, None), "dev"), RowAction::Connect);
    assert_eq!(
        row_action(&ConnectionState::Disconnected(Some("other".into()), Some("error".into())), "dev"),
        RowAction::Connect
    );
}

#[test]
fn device_row_action_for_this_device_and_others() {
    let connected = ConnectionState::Connected("dev".into(), RadioType::Meshtastic);
    assert_eq!(row_action(&connected, "dev"), RowAction::Disconnect);
    assert_eq!(row_action(&connected, "other"), RowAction::Nothing);
    let connecting = ConnectionState::Connecting("dev".into());
    assert_eq!(row_action(&connecting, "dev"), RowAction::Connecting);
    assert_eq!(row_action(&connecting, "other"), RowAction::Nothing);
    let disconnecting = ConnectionState::Disconnecting("dev".into());
    assert_eq!(row_action(&disconnecting, "dev"), RowAction::Disconnecting);
    assert_eq!(row_action(&disconnecting, "other"), RowAction::Nothing);
}

#[test]
fn battery_fill_bands() {
    assert_eq!(charge_fill(100), (100, ChargeBand::High));
    assert_eq!(charge_fill(51), (51, ChargeBand::High));
    assert_eq!(charge_fill(50), (50, ChargeBand::Medium));
    assert_eq!(charge_fill(21), (21, ChargeBand::Medium));
    assert_eq!(charge_fill(20), (20, ChargeBand::Medium));
    assert_eq!(charge_fill(19), (19, ChargeBand::Low));
    assert_eq!(charge_fill(0), (0, ChargeBand::Low));
    assert_eq!(charge_fill(250), (100, ChargeBand::High));
}
