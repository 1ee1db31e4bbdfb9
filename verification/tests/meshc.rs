use meshchat::channel_id::ChannelId;
use meshchat::device::SubscriptionEvent::{self, MCMessageReceived, MessageACK, NewChannel, NewNode};
use meshchat::entry::MCMessage;
use meshchat::meshc::{
    advertised_node, channel_from_info, channel_info_event, channel_message_event, contact_message_event,
    discovered_node, message_id_from_expected_ack, neighbour_node, node_id_from_bytes, node_id_from_prefix,
    node_id_from_public_key, node_id_text, node_id_to_destination_bytes, position_from_micro_degrees,
    position_share, self_info_user, split_sender_name, user_share, RadioCache, RadioEvent,
    listed_channel_event,
};
use meshchat::model::{MCPosition, MCUser, TimeStamp};

#[test]
fn roundtrip_prefix_nodeid() {
    let prefix = [0x01, 0x02, 0x03, 0x04, 0x05, 0x06];
    let node_id = node_id_from_prefix(&prefix);
    let destination = node_id_to_destination_bytes(&node_id);
    assert_eq!(prefix[..], destination[0..6], "Failed to roundtrip prefix via node id");
}

#[test]
fn node_id_from_prefix_all_zeros() {
    let prefix = [0x00, 0x00, 0x00, 0x00, 0x00, 0x00];
    let node_id = node_id_from_prefix(&prefix);
    assert_eq!(node_id, 0);
}

#[test]
fn node_id_from_prefix_all_ones() {
    let prefix = [0xFF, 0xFF, 0xFF, 0xFF, 0xFF, 0xFF];
    let node_id = node_id_from_prefix(&prefix);
    assert_eq!(node_id, 0xFFFF_FFFF_FFFF_0000);
}

#[test]
fn node_id_from_prefix_sequential() {
    let prefix = [0x01, 0x02, 0x03, 0x04, 0x05, 0x06];
    let node_id = node_id_from_prefix(&prefix);
    assert_eq!(node_id, 0x0102_0304_0506_0000);
}

#[test]
fn node_id_from_public_key_basic() {
    let mut public_key = [0u8; 32];
    public_key[0..8].copy_from_slice(&[0x01, 0x02, 0x03, 0x04, 0x05, 0x06, 0x07, 0x08]);
    let node_id = node_id_from_public_key(&public_key);
    assert_eq!(node_id, 0x0102_0304_0506_0708);
}

#[test]
fn node_id_from_public_key_all_zeros() {
    let public_key = [0u8; 32];
    let node_id = node_id_from_public_key(&public_key);
    assert_eq!(node_id, 0);
}

#[test]
fn node_id_from_public_key_ignores_trailing_bytes() {
    let mut public_key = [0xAA; 32];
    public_key[0..8].copy_from_slice(&[0x01, 0x02, 0x03, 0x04, 0x05, 0x06, 0x07, 0x08]);
    let node_id = node_id_from_public_key(&public_key);
    assert_eq!(node_id, 0x0102_0304_0506_0708);
}

#[test]
fn node_id_from_public_key_max_value() {
    let mut public_key = [0u8; 32];
    public_key[0..8].copy_from_slice(&[0xFF, 0xFF, 0xFF, 0xFF, 0xFF, 0xFF, 0xFF, 0xFF]);
    let node_id = node_id_from_public_key(&public_key);
    assert_eq!(node_id, u64::MAX);
}

#[test]
fn message_id_from_expected_ack_basic() {
    let expected_ack = [0x01, 0x02, 0x03, 0x04];
    let message_id = message_id_from_expected_ack(expected_ack);
    assert_eq!(message_id, 0x01020304);
}

#[test]
fn message_id_from_expected_ack_all_zeros() {
    let expected_ack = [0x00, 0x00, 0x00, 0x00];
    let message_id = message_id_from_expected_ack(expected_ack);
    assert_eq!(message_id, 0);
}

#[test]
fn message_id_from_expected_ack_max_value() {
    let expected_ack = [0xFF, 0xFF, 0xFF, 0xFF];
    let message_id = message_id_from_expected_ack(expected_ack);
    assert_eq!(message_id, u32::MAX);
}

#[test]
fn channel_message_to_subscription_event() {
    let event = channel_message_event(2, 1234567890, "Hello from channel".to_string());

    let MCMessageReceived(channel_id, _msg_id, _from, msg, timestamp) = event else {
        unreachable!("Expected MCMessageReceived event")
    };

    assert_eq!(channel_id, ChannelId::Channel(2));
    assert_eq!(timestamp, TimeStamp(1234567890));
    assert_eq!(msg.display_string(), "Hello from channel");
}

#[test]
fn channel_message_to_subscription_event_channel_zero() {
    let event = channel_message_event(0, 100, "Channel 0 message".to_string());

    let MCMessageReceived(channel_id, _, _, _, _) = event else {
        unreachable!("Expected MCMessageReceived event")
    };

    assert_eq!(channel_id, ChannelId::Channel(0));
}

#[test]
fn contact_message_to_subscription_event() {
    let event = contact_message_event(&[0xAA, 0xBB, 0xCC, 0xDD, 0xEE, 0xFF], 1234567891, "Direct message".to_string());

    let MCMessageReceived(channel_id, _msg_id, from, msg, timestamp) = event else {
        unreachable!("Expected MCMessageReceived event")
    };

    let expected_node_id = 0xAABB_CCDD_EEFF_0000_u64;
    assert_eq!(channel_id, ChannelId::Node(expected_node_id));
    assert_eq!(from, expected_node_id);
    assert_eq!(timestamp, TimeStamp(1234567891));
    assert_eq!(msg.display_string(), "Direct message");
}

#[test]
fn channel_info_to_subscription_event() {
    let event = channel_info_event(3, "LongFast".to_string());

    let NewChannel(channel) = event else {
        unreachable!("Expected NewChannel event")
    };

    assert_eq!(channel.index, 3);
    assert_eq!(channel.name, "LongFast");
}

#[test]
fn channel_info_to_subscription_event_empty_name() {
    let event = channel_info_event(0, "".to_string());

    let NewChannel(channel) = event else {
        unreachable!("Expected NewChannel event")
    };

    assert_eq!(channel.index, 0);
    assert_eq!(channel.name, "");
}

#[test]
fn channel_info_to_subscription_event_max_index() {
    let event = channel_info_event(255, "HighIndex".to_string());

    let NewChannel(channel) = event else {
        unreachable!("Expected NewChannel event")
    };

    assert_eq!(channel.index, 255);
    assert_eq!(channel.name, "HighIndex");
}

#[test]
fn advertisement_to_node_info() {
    let node_info = advertised_node(&[0x11, 0x22, 0x33, 0x44, 0x55, 0x66], "TestNode", 37_774_900, -122_419_400);

    assert_eq!(node_info.node_id, 0x1122_3344_5566_0000);
    assert!(!node_info.is_ignored);

    let user = node_info.user.expect("Expected user");
    assert_eq!(user.long_name, "TestNode");
    assert_eq!(user.short_name, "TestNode");
    assert_eq!(user.id, node_info.node_id.to_string());

    let position = node_info.position.expect("Expected position");
    assert_eq!(position.latitude_i, 377_749_000);
    assert_eq!(position.longitude_i, -1_224_194_000);
}

#[test]
fn advertisement_to_node_info_zero_position() {
    let node_info = advertised_node(&[0x00, 0x00, 0x00, 0x00, 0x00, 0x01], "ZeroPos", 0, 0);

    let position = node_info.position.expect("Expected position");
    assert_eq!(position.latitude_i, 0);
    assert_eq!(position.longitude_i, 0);
}

#[test]
fn contact_to_node_info() {
    let node_info = advertised_node(&[0xAA, 0xBB, 0xCC, 0xDD, 0xEE, 0xFF], "ContactNode", 51_507_400, -127_800);

    assert_eq!(node_info.node_id, 0xAABB_CCDD_EEFF_0000);
    assert!(!node_info.is_ignored);

    let user = node_info.user.expect("Expected user");
    assert_eq!(user.long_name, "ContactNode");
    assert_eq!(user.short_name, "ContactNode");

    let position = node_info.position.expect("Expected position");
    assert_eq!(position.latitude_i, 515_074_000);
    assert_eq!(position.longitude_i, -1_278_000);
}

#[test]
fn node_id_to_destination_basic() {
    let node_id = 0x0102_0304_0506_0000;
    let bytes = node_id_to_destination_bytes(&node_id);

    assert_eq!(bytes.len(), 8);
    assert_eq!(bytes[0..6], [0x01, 0x02, 0x03, 0x04, 0x05, 0x06]);
}

#[test]
fn node_id_to_destination_extracts_prefix() {
    let node_id = 0xAABB_CCDD_EEFF_0000;
    let bytes = node_id_to_destination_bytes(&node_id);
    assert_eq!(bytes[0..6], [0xAA, 0xBB, 0xCC, 0xDD, 0xEE, 0xFF]);
}

#[test]
fn mod_self_info_to_mcuser() {
    let mut public_key = [0u8; 32];
    public_key[0..8].copy_from_slice(&[0x01, 0x02, 0x03, 0x04, 0x05, 0x06, 0x07, 0x08]);

    let user: MCUser = self_info_user(&public_key, "MyNode");

    assert_eq!(user.long_name, "MyNode");
    assert_eq!(user.short_name, "MyNode");
    assert_eq!(user.id, 0x0102_0304_0506_0708_u64.to_string());
}

#[test]
fn mod_self_info_to_mcuser_empty_name() {
    let public_key = [0u8; 32];
    let user: MCUser = self_info_user(&public_key, "");

    assert_eq!(user.long_name, "");
    assert_eq!(user.short_name, "");
}

#[test]
fn mod_self_info_to_mcuser_unicode_name() {
    let public_key = [0xFF; 32];
    let user: MCUser = self_info_user(&public_key, "日本語ノード");

    assert_eq!(user.long_name, "日本語ノード");
    assert_eq!(user.short_name, "日本語ノード");
}

#[test]
fn self_info_to_mcposition() {
    let position: MCPosition = position_from_micro_degrees(37_774_900, -122_419_400);
    assert_eq!(position.latitude_i, 377_749_000);
    assert_eq!(position.longitude_i, -1_224_194_000);
}

#[test]
fn self_info_to_mcposition_zero() {
    let position: MCPosition = position_from_micro_degrees(0, 0);
    assert_eq!(position.latitude_i, 0);
    assert_eq!(position.longitude_i, 0);
}

#[test]
fn self_info_to_mcposition_negative() {
    let position: MCPosition = position_from_micro_degrees(-33_868_800, 151_209_300);
    assert_eq!(position.latitude_i, -338_688_000);
    assert_eq!(position.longitude_i, 1_512_093_000);
}

#[test]
fn self_info_to_mcposition_extremes() {
    let position: MCPosition = position_from_micro_degrees(89_999_999, 179_999_999);
    assert_eq!(position.latitude_i, 899_999_990);
    assert_eq!(position.longitude_i, 1_799_999_990);
}

#[test]
fn position_from_micro_degrees_holds_at_range_ends() {
    let position = position_from_micro_degrees(i32::MAX, i32::MIN);
    assert_eq!(position.latitude_i, i32::MAX);
    assert_eq!(position.longitude_i, i32::MIN);
}

#[test]
fn node_id_from_bytes_uses_first_eight() {
    let id = node_id_from_bytes(vec![0, 0, 0, 0, 0, 0, 1, 2, 99, 99]);
    assert_eq!(id, 0x0102);
}

#[test]
fn neighbour_and_discovery_nodes() {
    let n = neighbour_node(vec![0, 0, 0, 0, 0, 0, 0, 7]);
    assert_eq!(n.node_id, 7);
    let u = n.user.unwrap();
    assert_eq!(u.long_name, "7");
    assert_eq!(u.short_name, "7");
    assert!(n.position.is_none());

    let d = discovered_node(vec![0, 0, 0, 0, 0, 0, 0, 9, 1], "Finder");
    assert_eq!(d.node_id, 9);
    assert_eq!(d.user.unwrap().long_name, "Finder");
}

#[test]
fn channel_from_info_keeps_name() {
    let c = channel_from_info(7, "Seven".to_string());
    assert_eq!(c.index, 7);
    assert_eq!(c.name, "Seven");
}

#[test]
fn node_id_text_is_decimal() {
    assert_eq!(node_id_text(0), "0");
    assert_eq!(node_id_text(u64::MAX), "18446744073709551615");
}

#[test]
fn split_sender_at_first_separator() {
    assert_eq!(split_sender_name("Bob: hi: there"), Some(("Bob".to_string(), "hi: there".to_string())));
    assert_eq!(split_sender_name("no separator"), None);
    assert_eq!(split_sender_name(": empty name"), Some(("".to_string(), "empty name".to_string())));
    assert_eq!(split_sender_name("Bob:no space"), None);
}

#[test]
fn radio_cache_default() {
    let cache = RadioCache::default();
    assert_eq!(cache.self_id(), 0);
    assert!(!cache.knows_channel(0));
    assert_eq!(cache.contact_id("anyone"), None);
}

#[test]
fn radio_cache_known_channels() {
    let mut cache = RadioCache::default();
    let event = cache.handle_new_channel(3, "Three".to_string());
    assert!(cache.knows_channel(3));
    assert!(!cache.knows_channel(4));
    assert!(matches!(event, NewChannel(c) if c.index == 3 && c.name == "Three"));
}

#[test]
fn radio_cache_self_id() {
    let mut cache = RadioCache::default();
    let mut key = [0u8; 32];
    key[7] = 5;
    let events = cache.handle_self_info(&key, "Me".to_string(), 1_000_000, -2_000_000);
    assert_eq!(cache.self_id(), 5);
    assert_eq!(events.len(), 3);
    assert!(matches!(events[0], SubscriptionEvent::MyNodeNum(5)));
    assert!(matches!(&events[1], SubscriptionEvent::MyUserInfo(u) if u.long_name == "Me" && u.id == "5"));
    assert!(matches!(&events[2], SubscriptionEvent::MyPosition(p) if p.latitude_i == 10_000_000 && p.longitude_i == -20_000_000));
}

#[test]
fn device_info_sets_hardware_model() {
    let mut cache = RadioCache::default();
    let _ = cache.handle_self_info(&[0u8; 32], "Me".to_string(), 0, 0);
    let event = cache.handle_device_info(Some("T-Beam".to_string()));
    assert!(matches!(event, SubscriptionEvent::MyUserInfo(u) if u.hw_model_str == "T-Beam" && u.long_name == "Me"));
    assert_eq!(cache.user().hw_model_str, "T-Beam");
}

#[test]
fn contact_then_channel_message_names_sender() {
    let mut cache = RadioCache::default();
    let event = cache.handle_new_contact(&[0, 0, 0, 0, 0, 1], "Alice".to_string(), 0, 0);
    assert!(matches!(event, NewNode(n) if n.node_id == 0x1_0000));
    assert_eq!(cache.contact_id("Alice"), Some(0x1_0000));

    let e = cache.handle_new_channel_message(1, 42, "Alice: hello", TimeStamp(7));
    assert!(matches!(e, MCMessageReceived(ChannelId::Channel(1), 42, 0x1_0000, MCMessage::NewTextMessage(ref t), TimeStamp(7)) if t == "hello"));

    let e = cache.handle_new_channel_message(1, 43, "Bob: hi", TimeStamp(8));
    assert!(matches!(e, MCMessageReceived(_, 43, 0, MCMessage::NewTextMessage(ref t), _) if t == "hi"));

    let e = cache.handle_new_channel_message(1, 44, "plain", TimeStamp(9));
    assert!(matches!(e, MCMessageReceived(_, 44, 0, MCMessage::NewTextMessage(ref t), _) if t == "plain"));
}

#[test]
fn direct_message_waits_for_ack() {
    let mut cache = RadioCache::default();
    let sent = cache.sent_text(ChannelId::Node(9), "hey".to_string(), [0, 0, 0, 5], TimeStamp(100));
    assert!(matches!(sent, MCMessageReceived(ChannelId::Node(9), 5, 0, MCMessage::NewTextMessage(_), TimeStamp(100))));
    assert_eq!(cache.pending(5), Some(ChannelId::Node(9)));

    let ack = cache.handle_ack([0, 0, 0, 5]);
    assert!(matches!(ack, Some(MessageACK(ChannelId::Node(9), 5))));
    assert_eq!(cache.pending(5), None);
    assert!(cache.handle_ack([0, 0, 0, 5]).is_none());
}

#[test]
fn channel_message_sent_does_not_wait() {
    let mut cache = RadioCache::default();
    let sent = cache.sent_text(ChannelId::Channel(0), "all".to_string(), [0, 0, 0, 5], TimeStamp(100));
    assert!(matches!(sent, MCMessageReceived(ChannelId::Channel(0), 100, 0, _, TimeStamp(100))));
    assert_eq!(cache.pending(5), None);
}

#[test]
fn radio_error_names_device() {
    let cache = RadioCache::default();
    let e = cache.radio_error("boom".to_string());
    assert!(matches!(e, SubscriptionEvent::ConnectionError(ref id, ref s, ref d) if id == "0" && s == "Radio Error" && d == "boom"));
}

#[test]
fn share_texts() {
    let p = MCPosition { latitude_i: 500_000_000, longitude_i: 10_000_000, ..Default::default() };
    assert_eq!(position_share(&p), "My position https://maps.google.com/?q=50.0000000,1.0000000");
    let u = MCUser { long_name: "L".into(), short_name: "S".into(), id: "I".into(), hw_model_str: "H".into(), ..Default::default() };
    assert_eq!(user_share(&u), "My user info: ⓘ from 'L' ('S'), id = 'I', with hardware 'H'");
}

fn self_info_event(name: &str, first: [u8; 8], lat: i32, lon: i32) -> RadioEvent {
    let mut public_key = [0u8; 32];
    public_key[0..8].copy_from_slice(&first);
    RadioEvent::SelfInfo(public_key, name.to_string(), lat, lon)
}

#[test]
fn handle_self_info_sends_events() {
    let mut radio_cache = RadioCache::default();
    let (events, fetch) = radio_cache.handle_radio_event(
        self_info_event("TestNode", [1, 2, 3, 4, 5, 6, 7, 8], 37_774_900, -122_419_400),
        TimeStamp(0),
    );
    assert!(!fetch);
    assert_eq!(radio_cache.self_id(), 0x0102_0304_0506_0708u64);
    assert_eq!(events.len(), 3);
    assert!(matches!(events[0], SubscriptionEvent::MyNodeNum(0x0102_0304_0506_0708u64)));
    match &events[1] {
        SubscriptionEvent::MyUserInfo(user) => assert_eq!(user.long_name, "TestNode"),
        other => panic!("unexpected event {:?}", other),
    }
    match &events[2] {
        SubscriptionEvent::MyPosition(position) => {
            assert_eq!(position.latitude_i, 377_749_000);
            assert_eq!(position.longitude_i, -1_224_194_000);
        }
        other => panic!("unexpected event {:?}", other),
    }
}

#[test]
fn handle_self_info_with_unicode_name() {
    let mut radio_cache = RadioCache::default();
    let (events, _) = radio_cache.handle_radio_event(
        self_info_event("日本語ノード🎉", [0xAA; 8], 35_681_400, 139_767_100),
        TimeStamp(0),
    );
    match &events[1] {
        SubscriptionEvent::MyUserInfo(user) => assert_eq!(user.long_name, "日本語ノード🎉"),
        other => panic!("unexpected event {:?}", other),
    }
}

#[test]
fn handle_battery_info_sends_event() {
    for level in [75u32, 0, 100] {
        let mut radio_cache = RadioCache::default();
        let (events, fetch) = radio_cache.handle_radio_event(RadioEvent::Battery(level), TimeStamp(0));
        assert!(!fetch);
        assert_eq!(events.len(), 1);
        assert!(matches!(events[0], SubscriptionEvent::DeviceBatteryLevel(Some(l)) if l == level));
    }
}

#[test]
fn handle_new_contact_message_uses_local_timestamp() {
    let mut radio_cache = RadioCache::default();
    let prefix = [0xAA, 0xBB, 0xCC, 0xDD, 0xEE, 0xFF];
    let (events, _) = radio_cache.handle_radio_event(
        RadioEvent::ContactMessage(prefix, 1234567890, "Direct message".into()),
        TimeStamp(1_700_000_000),
    );
    assert_eq!(events.len(), 1);
    match &events[0] {
        MCMessageReceived(ChannelId::Node(n), id, from, MCMessage::NewTextMessage(t), ts) => {
            assert_eq!(*n, 0xAABB_CCDD_EEFF_0000u64);
            assert_eq!(*from, 0xAABB_CCDD_EEFF_0000u64);
            assert_eq!(*id, 1234567890);
            assert_eq!(t, "Direct message");
            assert_eq!(*ts, TimeStamp(1_700_000_000));
        }
        other => panic!("unexpected event {:?}", other),
    }
}

#[test]
fn handle_new_channel_message_uses_local_timestamp() {
    let mut radio_cache = RadioCache::default();
    let (events, _) = radio_cache.handle_radio_event(
        RadioEvent::ChannelMessage(0, 1234567890, "Test message".into()),
        TimeStamp(1_700_000_000),
    );
    assert_eq!(events.len(), 1);
    match &events[0] {
        MCMessageReceived(ChannelId::Channel(0), 1234567890, 0, MCMessage::NewTextMessage(t), ts) => {
            assert_eq!(t, "Test message");
            assert_eq!(*ts, TimeStamp(1_700_000_000));
        }
        other => panic!("unexpected event {:?}", other),
    }
}

#[test]
fn messages_waiting_asks_for_a_fetch() {
    let mut radio_cache = RadioCache::default();
    let (events, fetch) = radio_cache.handle_radio_event(RadioEvent::MessagesWaiting, TimeStamp(0));
    assert!(events.is_empty());
    assert!(fetch);
}

#[test]
fn neighbours_become_nodes_named_by_id() {
    let mut radio_cache = RadioCache::default();
    let keys = vec![vec![0, 0, 0, 0, 0, 0, 0, 7, 9], vec![1, 0, 0, 0, 0, 0, 0, 0]];
    let (events, _) = radio_cache.handle_radio_event(RadioEvent::Neighbours(keys), TimeStamp(0));
    assert_eq!(events.len(), 2);
    match (&events[0], &events[1]) {
        (NewNode(a), NewNode(b)) => {
            assert_eq!(a.node_id, 7);
            assert_eq!(a.user.as_ref().map(|u| u.long_name.clone()), Some("7".to_string()));
            assert_eq!(b.node_id, 0x0100_0000_0000_0000u64);
        }
        other => panic!("unexpected events {:?}", other),
    }
}

#[test]
fn ack_of_unknown_message_is_silent() {
    let mut radio_cache = RadioCache::default();
    let (events, _) = radio_cache.handle_radio_event(RadioEvent::Ack([0, 0, 0, 1]), TimeStamp(0));
    assert!(events.is_empty());
}

#[test]
fn ack_of_sent_direct_message_is_reported() {
    let mut radio_cache = RadioCache::default();
    let _ = radio_cache.sent_text(ChannelId::Node(5), "hi".into(), [0, 0, 1, 0], TimeStamp(9));
    let (events, _) = radio_cache.handle_radio_event(RadioEvent::Ack([0, 0, 1, 0]), TimeStamp(0));
    assert!(matches!(events.as_slice(), [MessageACK(ChannelId::Node(5), 256)]));
    assert_eq!(radio_cache.pending(256), None);
}

#[test]
fn unnamed_channels_are_not_listed() {
    assert!(listed_channel_event(3, String::new()).is_none());
    match listed_channel_event(3, "Public".to_string()) {
        Some(NewChannel(c)) => {
            assert_eq!(c.index, 3);
            assert_eq!(c.name, "Public");
        }
        other => panic!("unexpected event {:?}", other),
    }
}

#[test]
fn subscription_self_info_to_mcuser() {
    let mut public_key = [0u8; 32];
    public_key[0..8].copy_from_slice(&[0x01, 0x02, 0x03, 0x04, 0x05, 0x06, 0x07, 0x08]);
    let mut radio_cache = RadioCache::default();
    let _ = radio_cache.handle_self_info(&public_key, "MyNode".to_string(), 0, 0);
    let user: MCUser = radio_cache.user();

    assert_eq!(user.long_name, "MyNode");
    assert_eq!(user.short_name, "MyNode");
    assert_eq!(user.id, 0x0102_0304_0506_0708_u64.to_string());
}

#[test]
fn subscription_self_info_to_mcuser_empty_name() {
    let public_key = [0u8; 32];
    let mut radio_cache = RadioCache::default();
    let _ = radio_cache.handle_self_info(&public_key, "".to_string(), 0, 0);
    let user: MCUser = radio_cache.user();

    assert_eq!(user.long_name, "");
    assert_eq!(user.short_name, "");
}

#[test]
fn subscription_self_info_to_mcuser_unicode_name() {
    let public_key = [0xFF; 32];
    let mut radio_cache = RadioCache::default();
    let _ = radio_cache.handle_self_info(&public_key, "日本語ノード".to_string(), 0, 0);
    let user: MCUser = radio_cache.user();

    assert_eq!(user.long_name, "日本語ノード");
    assert_eq!(user.short_name, "日本語ノード");
}
