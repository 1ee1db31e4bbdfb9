use meshchat::config::{Config, HistoryLength, EIGHT_HOURS_IN_SECONDS, ONE_DAY_IN_SECONDS};

fn assert_default(config: Config) {
    assert!(config.ble_device.is_none());
    assert!(config.channel_id.is_none());
    assert!(config.fav_nodes.is_empty());
    assert!(config.aliases.is_empty());
    assert!(config.device_aliases.is_empty());
}

#[test]
fn default_config() {
    let config = Config::default();
    assert_default(config);
}

#[test]
fn test_history_length_is_all() {
    assert!(HistoryLength::All.is_all());
    assert!(!HistoryLength::NumberOfMessages(10).is_all());
    assert!(!HistoryLength::Duration(3600).is_all());
}

#[test]
fn test_history_length_display_all() {
    let display = HistoryLength::All.display_string();
    assert_eq!(display, "Store all messages");
}

#[test]
fn test_history_length_display_messages() {
    let display = HistoryLength::NumberOfMessages(50).display_string();
    assert_eq!(display, "Store last 50 messages");
}

#[test]
fn test_history_length_display_duration() {
    let display = HistoryLength::Duration(3600).display_string();
    assert_eq!(display, "Store all messages in last 1 hours");
}

#[test]
fn test_history_length_display_duration_eight_hours() {
    let display = HistoryLength::Duration(60 * 60 * 8).display_string();
    assert_eq!(display, "Store all messages in last 8 hours");
}

#[test]
fn test_history_length_display_duration_one_day() {
    let display = HistoryLength::Duration(ONE_DAY_IN_SECONDS).display_string();
    assert_eq!(display, "Store all messages in last 24 hours");
}

#[test]
fn test_history_length_all_variants() {
    let all = HistoryLength::all_choices();
    assert_eq!(all.len(), 5);
    assert_eq!(all[0], HistoryLength::All);
    assert_eq!(all[1], HistoryLength::NumberOfMessages(10));
    assert_eq!(all[2], HistoryLength::NumberOfMessages(100));
}

#[test]
fn test_config_default_show_position() {
    let config = Config::default();
    assert!(config.show_position_updates);
}

#[test]
fn test_config_default_auto_update() {
    let config = Config::default();
    assert!(config.auto_update_startup);
}

#[test]
fn history_length_choices_durations() {
    let all = HistoryLength::all_choices();
    assert_eq!(all[3], HistoryLength::Duration(EIGHT_HOURS_IN_SECONDS));
    assert_eq!(all[4], HistoryLength::Duration(ONE_DAY_IN_SECONDS));
    assert_eq!(EIGHT_HOURS_IN_SECONDS, 8 * 3600);
    assert_eq!(ONE_DAY_IN_SECONDS, 24 * 3600);
}

#[test]
fn history_length_display_rounds_hours_down() {
    assert_eq!(HistoryLength::Duration(7199).display_string(), "Store all messages in last 1 hours");
    assert_eq!(HistoryLength::Duration(0).display_string(), "Store all messages in last 0 hours");
}

#[test]
fn config_defaults_all_on() {
    let config = Config::default();
    assert!(config.show_user_updates);
    assert!(config.auto_reconnect);
    assert_eq!(config.history_length, HistoryLength::All);
    assert_eq!(HistoryLength::default(), HistoryLength::All);
}
