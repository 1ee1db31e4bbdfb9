use meshchat::channel_id::ChannelId;
use meshchat::channel_id::ChannelId::Node;
use meshchat::device::SubscriberMessage;
use meshchat::device::SubscriptionEvent::{
    self, ChannelName, DeviceBatteryLevel, MCMessageReceived, MessageACK, MyNodeNum, NewChannel, NewNode,
    NewNodeInfo, NewNodePosition, RadioNotification,
};
use meshchat::entry::MCMessage;
use meshchat::mesht::{
    node_from_report, outgoing_packet, pascal_case, position_from_report, report_from_position, report_from_user, to_destination,
    user_from_report, MeshData, MeshNodeInfo, MeshPacketInfo, MeshPosition, MeshUser, MyRouter, PortKind,
    RadioPacket,
};
use meshchat::model::{MCChannel, MCPosition, MCUser, TimeStamp};
use meshchat::subscription::{DeviceState, Link, LinkAction};
use meshchat::device_list::RadioType;
use meshtastic::Message;

fn router_with(node: u32) -> MyRouter {
    let mut router = MyRouter::new();
    let _ = router.handle_packet_from_radio(RadioPacket::MyInfo(node), TimeStamp(0));
    router
}

fn packet(from: u32, to: u32, channel: u32, id: u32, decoded: Option<MeshData>) -> MeshPacketInfo {
    MeshPacketInfo { from, to, channel, id, decoded }
}

fn data(portnum: i32, payload: Vec<u8>, request_id: u32, reply_id: u32, emoji: u32) -> MeshData {
    MeshData { portnum, payload, request_id, reply_id, emoji }
}

#[test]
fn test_my_router_new() {
    let router = MyRouter::new();
    assert!(router.node_num().is_none());
}

#[test]
fn test_source_node_id_none() {
    let router = MyRouter::new();
    assert_eq!(router.source_node_id(), 0u32);
}

#[test]
fn test_source_node_id_set() {
    let router = router_with(12345);
    assert_eq!(router.source_node_id(), 12345u32);
}

#[test]
fn test_channel_id_broadcast_channel_0() {
    let router = router_with(1000);
    assert_eq!(router.channel_id_from_packet(2000, u32::MAX, 0), ChannelId::Channel(0));
}

#[test]
fn test_channel_id_broadcast_channel_1() {
    let router = router_with(1000);
    assert_eq!(router.channel_id_from_packet(2000, u32::MAX, 1), ChannelId::Channel(1));
}

#[test]
fn test_channel_id_broadcast_channel_5() {
    let router = router_with(1000);
    assert_eq!(router.channel_id_from_packet(2000, u32::MAX, 5), ChannelId::Channel(5));
}

#[test]
fn test_channel_id_dm_from_me() {
    let router = router_with(1000);
    assert_eq!(router.channel_id_from_packet(1000, 2000, 0), Node(2000u64));
}

#[test]
fn test_channel_id_dm_to_me() {
    let router = router_with(1000);
    assert_eq!(router.channel_id_from_packet(2000, 1000, 0), Node(2000u64));
}

#[test]
fn test_channel_id_dm_other_nodes() {
    let router = router_with(1000);
    assert_eq!(router.channel_id_from_packet(2000, 3000, 0), Node(2000u64));
}

#[test]
fn test_channel_id_my_node_unknown() {
    let router = MyRouter::new();
    assert_eq!(router.channel_id_from_packet(2000, 3000, 0), Node(2000u64));
}

#[test]
fn test_device_state_disconnected() {
    let state = DeviceState::Disconnected;
    assert!(matches!(state, DeviceState::Disconnected));
}

#[test]
fn test_handle_my_info_packet() {
    let mut router = MyRouter::new();
    let e = router.handle_packet_from_radio(RadioPacket::MyInfo(12345), TimeStamp(0));
    assert!(matches!(e, Some(MyNodeNum(12345))));
    assert_eq!(router.node_num(), Some(12345));
}

#[test]
fn test_handle_node_info_packet() {
    let mut router = MyRouter::new();
    let user = MeshUser {
        id: "!abc".into(),
        long_name: "Long".into(),
        short_name: "S".into(),
        macaddr: vec![],
        hw_model: 0,
        is_licensed: false,
        role: 0,
        public_key: vec![],
        is_unmessagable: None,
    };
    let node = MeshNodeInfo { num: 42, user: Some(user), position: None, is_ignored: false };
    let e = router.handle_packet_from_radio(RadioPacket::NodeInfo(node), TimeStamp(0));
    let Some(NewNode(n)) = e else { panic!("expected NewNode") };
    assert_eq!(n.node_id, 42);
    let u = n.user.unwrap();
    assert_eq!(u.long_name, "Long");
    assert!(!u.is_unmessagable);
}

#[test]
fn test_handle_channel_packet_enabled() {
    let mut router = MyRouter::new();
    let e = router.handle_packet_from_radio(RadioPacket::Channel(1, 1, Some("Chat".into())), TimeStamp(0));
    assert!(matches!(e, Some(NewChannel(c)) if c.index == 1 && c.name == "Chat"));
    let e = router.handle_packet_from_radio(RadioPacket::Channel(2, 2, None), TimeStamp(0));
    assert!(matches!(e, Some(NewChannel(c)) if c.index == 2 && c.name == "Default"));
}

#[test]
fn test_handle_channel_packet_disabled() {
    let mut router = MyRouter::new();
    let e = router.handle_packet_from_radio(RadioPacket::Channel(1, 0, Some("Off".into())), TimeStamp(0));
    assert!(e.is_none());
}

#[test]
fn test_handle_client_notification_packet() {
    let mut router = MyRouter::new();
    let e = router.handle_packet_from_radio(RadioPacket::ClientNotification("Low battery".into(), 99), TimeStamp(0));
    assert!(matches!(e, Some(RadioNotification(m, TimeStamp(99))) if m == "Low battery"));
}

#[test]
fn test_handle_unknown_payload() {
    let mut router = MyRouter::new();
    assert!(router.handle_packet_from_radio(RadioPacket::Other, TimeStamp(0)).is_none());
    let p = packet(1, 2, 0, 3, Some(data(999, vec![], 0, 0, 0)));
    assert!(router.handle_mesh_packet(&p, TimeStamp(0)).is_none());
}

#[test]
fn test_handle_text_message_new() {
    let router = router_with(1000);
    let p = packet(2000, u32::MAX, 0, 7, Some(data(1, b"Hello".to_vec(), 0, 0, 0)));
    let e = router.handle_mesh_packet(&p, TimeStamp(5));
    assert!(matches!(e, Some(MCMessageReceived(ChannelId::Channel(0), 7, 2000, MCMessage::NewTextMessage(ref t), TimeStamp(5))) if t == "Hello"));
}

#[test]
fn test_handle_text_message_reply() {
    let router = router_with(1000);
    let p = packet(2000, u32::MAX, 0, 8, Some(data(1, b"Sure".to_vec(), 0, 7, 0)));
    let e = router.handle_mesh_packet(&p, TimeStamp(5));
    assert!(matches!(e, Some(MCMessageReceived(_, 8, 2000, MCMessage::TextMessageReply(7, ref t), _)) if t == "Sure"));
}

#[test]
fn test_handle_emoji_reply() {
    let router = router_with(1000);
    let p = packet(2000, u32::MAX, 0, 9, Some(data(1, "👍".as_bytes().to_vec(), 0, 7, 1)));
    let e = router.handle_mesh_packet(&p, TimeStamp(5));
    assert!(matches!(e, Some(MCMessageReceived(_, 9, 2000, MCMessage::EmojiReply(7, ref t), _)) if t == "👍"));
}

#[test]
fn test_handle_ack_broadcast() {
    let router = router_with(1000);
    let p = packet(1000, 1000, 2, 1, Some(data(5, vec![], 77, 0, 0)));
    let e = router.handle_mesh_packet(&p, TimeStamp(5));
    assert!(matches!(e, Some(MessageACK(ChannelId::Channel(2), 77))));
}

#[test]
fn test_handle_ack_dm() {
    let router = router_with(1000);
    let p = packet(2000, 1000, 0, 1, Some(data(5, vec![], 78, 0, 0)));
    let e = router.handle_mesh_packet(&p, TimeStamp(5));
    assert!(matches!(e, Some(MessageACK(ChannelId::Node(2000), 78))));
}

#[test]
fn test_handle_packet_no_payload() {
    let router = router_with(1000);
    let p = packet(2000, 1000, 0, 1, None);
    assert!(router.handle_mesh_packet(&p, TimeStamp(5)).is_none());
}

#[test]
fn invalid_utf8_text_is_dropped() {
    let router = router_with(1000);
    let p = packet(2000, 1000, 0, 1, Some(data(1, vec![0xff, 0xfe], 0, 0, 0)));
    assert!(router.handle_mesh_packet(&p, TimeStamp(5)).is_none());
    let p = packet(2000, 1000, 0, 1, Some(data(11, vec![0xc3], 0, 0, 0)));
    assert!(router.handle_mesh_packet(&p, TimeStamp(5)).is_none());
}

#[test]
fn alert_message_received() {
    let router = router_with(1000);
    let p = packet(2000, 1000, 0, 4, Some(data(11, b"Fire".to_vec(), 0, 0, 0)));
    let e = router.handle_mesh_packet(&p, TimeStamp(5));
    assert!(matches!(e, Some(MCMessageReceived(ChannelId::Node(2000), 4, 2000, MCMessage::AlertMessage(ref t), _)) if t == "Fire"));
}

#[test]
fn test_position_update_uses_local_timestamp() {
    let router = router_with(1000);
    let position = meshtastic::protobufs::Position {
        latitude_i: Some(515_074_000),
        longitude_i: Some(-1_278_000),
        ..Default::default()
    };
    let p = packet(2000, u32::MAX, 0, 5, Some(data(3, position.encode_to_vec(), 0, 0, 0)));
    let e = router.handle_mesh_packet(&p, TimeStamp(1234));
    let Some(NewNodePosition(c, id, from, pos, ts)) = e else { panic!("expected a position") };
    assert_eq!(c, ChannelId::Channel(0));
    assert_eq!(id, 5);
    assert_eq!(from, 2000);
    assert_eq!(pos.latitude_i, 515_074_000);
    assert_eq!(pos.longitude_i, -1_278_000);
    assert_eq!(ts, TimeStamp(1234));
}

#[test]
fn test_node_info_uses_local_timestamp() {
    let router = router_with(1000);
    let user = meshtastic::protobufs::User {
        id: "!000007d0".into(),
        long_name: "Two Thousand".into(),
        short_name: "2K".into(),
        ..Default::default()
    };
    let p = packet(2000, u32::MAX, 0, 6, Some(data(4, user.encode_to_vec(), 0, 0, 0)));
    let e = router.handle_mesh_packet(&p, TimeStamp(4321));
    let Some(NewNodeInfo(_, 6, 2000, u, ts)) = e else { panic!("expected node info") };
    assert_eq!(u.long_name, "Two Thousand");
    assert_eq!(u.short_name, "2K");
    assert_eq!(ts, TimeStamp(4321));
}

#[test]
fn battery_level_only_from_own_node() {
    let router = router_with(1000);
    let telemetry = meshtastic::protobufs::Telemetry {
        time: 0,
        variant: Some(meshtastic::protobufs::telemetry::Variant::DeviceMetrics(
            meshtastic::protobufs::DeviceMetrics { battery_level: Some(88), ..Default::default() },
        )),
    };
    let bytes = telemetry.encode_to_vec();
    let mine = packet(1000, u32::MAX, 0, 1, Some(data(67, bytes.clone(), 0, 0, 0)));
    assert!(matches!(router.handle_mesh_packet(&mine, TimeStamp(0)), Some(DeviceBatteryLevel(Some(88)))));
    let other = packet(2000, u32::MAX, 0, 1, Some(data(67, bytes, 0, 0, 0)));
    assert!(router.handle_mesh_packet(&other, TimeStamp(0)).is_none());
}

#[test]
fn lora_preset_names_primary_channel() {
    let mut router = MyRouter::new();
    let e = router.handle_packet_from_radio(RadioPacket::LoraConfig(true, 0, 0), TimeStamp(0));
    assert!(matches!(e, Some(ChannelName(0, ref n)) if n == "LongFast"));
    assert!(router.handle_packet_from_radio(RadioPacket::LoraConfig(true, 125, 0), TimeStamp(0)).is_none());
    assert!(router.handle_packet_from_radio(RadioPacket::LoraConfig(false, 0, 0), TimeStamp(0)).is_none());
}

#[test]
fn pascal_case_words() {
    assert_eq!(pascal_case("LONG_FAST"), "LongFast");
    assert_eq!(pascal_case("VERY_LONG_SLOW"), "VeryLongSlow");
    assert_eq!(pascal_case(""), "");
    assert_eq!(pascal_case("A__B"), "AB");
    assert_eq!(pascal_case("short"), "Short");
}

#[test]
fn test_to_node_destination() {
    assert_eq!(to_destination(ChannelId::Channel(3)), (None, 3));
    assert_eq!(to_destination(ChannelId::Node(1234)), (Some(1234), 0));
}

#[test]
fn test_position_conversion_from() {
    let report = MeshPosition {
        latitude_i: None,
        longitude_i: Some(5),
        altitude: Some(10),
        time: 1,
        location_source: 0,
        altitude_source: 0,
        timestamp: 77,
        timestamp_millis_adjust: 0,
        altitude_hae: None,
        altitude_geoidal_separation: None,
        pdop: 0,
        hdop: 0,
        vdop: 0,
        gps_accuracy: 0,
        ground_speed: None,
        ground_track: None,
        fix_quality: 0,
        fix_type: 0,
        sats_in_view: 3,
        sensor_id: 0,
        next_update: 0,
        seq_number: 0,
        precision_bits: 0,
    };
    let p = position_from_report(&report);
    assert_eq!(p.latitude_i, 0);
    assert_eq!(p.longitude_i, 5);
    assert_eq!(p.altitude, Some(10));
    assert_eq!(p.timestamp, TimeStamp(77));
    assert_eq!(p.sats_in_view, 3);
}

#[test]
fn test_position_conversion_to() {
    let p = MCPosition { latitude_i: 12, longitude_i: -34, time: 9, ..Default::default() };
    let r = report_from_position(&p);
    assert_eq!(r.latitude_i, Some(12));
    assert_eq!(r.longitude_i, Some(-34));
    assert_eq!(r.time, 9);
    assert_eq!(position_from_report(&r), p);
}

#[test]
fn test_user_conversion_to() {
    let u = MCUser { id: "!1".into(), long_name: "L".into(), short_name: "S".into(), is_unmessagable: true, ..Default::default() };
    let r = report_from_user(&u);
    assert_eq!(r.id, "!1");
    assert_eq!(r.is_unmessagable, Some(true));
    assert!(r.macaddr.is_empty());
}

#[test]
fn test_user_unmessagable_none_defaults_to_false() {
    let r = MeshUser {
        id: "!1".into(),
        long_name: "L".into(),
        short_name: "S".into(),
        macaddr: vec![],
        hw_model: 0,
        is_licensed: true,
        role: 0,
        public_key: vec![1, 2],
        is_unmessagable: None,
    };
    let u = user_from_report(&r);
    assert!(!u.is_unmessagable);
    assert!(u.is_licensed);
    assert_eq!(u.public_key, vec![1, 2]);
    assert_eq!(u.hw_model_str, "UNSET");
    assert_eq!(u.role_str, "CLIENT");
}

#[test]
fn outgoing_text_packet() {
    let p = outgoing_packet(&SubscriberMessage::SendText("hi".into(), ChannelId::Node(5), Some(3))).unwrap();
    assert_eq!(p.payload, b"hi".to_vec());
    assert_eq!(p.port, PortKind::TextMessage);
    assert_eq!(p.destination, Some(5));
    assert_eq!(p.channel, 0);
    assert!(p.want_ack);
    assert_eq!(p.reply_id, Some(3));
    assert_eq!(p.emoji, None);
}

#[test]
fn outgoing_emoji_packet() {
    let p = outgoing_packet(&SubscriberMessage::SendEmojiReply("👍".into(), ChannelId::Channel(1), 8)).unwrap();
    assert_eq!(p.payload, "👍".as_bytes().to_vec());
    assert_eq!(p.destination, None);
    assert_eq!(p.channel, 1);
    assert!(!p.want_ack);
    assert_eq!(p.reply_id, Some(8));
    assert_eq!(p.emoji, Some(8));
    assert!(outgoing_packet(&SubscriberMessage::Disconnect).is_none());
}

#[test]
fn outgoing_position_packet_decodes_back() {
    let pos = MCPosition { latitude_i: 100, longitude_i: 200, ..Default::default() };
    let p = outgoing_packet(&SubscriberMessage::SendPosition(ChannelId::Channel(0), pos)).unwrap();
    assert_eq!(p.port, PortKind::Position);
    let decoded = meshtastic::protobufs::Position::decode(p.payload.as_slice()).unwrap();
    assert_eq!(decoded.latitude_i, Some(100));
    assert_eq!(decoded.longitude_i, Some(200));
}

#[test]
fn link_connects_and_disconnects() {
    let mut link = Link::new(RadioType::Meshtastic);
    assert!(matches!(link.ready_event(), SubscriptionEvent::Ready(RadioType::Meshtastic)));
    let (events, action) = link.on_app_message(SubscriberMessage::Connect("dev".into(), RadioType::Meshtastic));
    assert!(matches!(&events[..], [SubscriptionEvent::ConnectingEvent(d)] if d == "dev"));
    assert!(matches!(action, LinkAction::ConnectTo(ref d) if d == "dev"));
    assert_eq!(link.device_state(), &DeviceState::Connecting("dev".into()));

    let events = link.on_connect_result(Ok(()));
    assert!(matches!(&events[..], [SubscriptionEvent::ConnectedEvent(d, RadioType::Meshtastic)] if d == "dev"));
    assert_eq!(link.device_state(), &DeviceState::Connected("dev".into()));

    let (events, action) = link.on_app_message(SubscriberMessage::SendText("x".into(), ChannelId::Channel(0), None));
    assert!(events.is_empty());
    assert!(matches!(action, LinkAction::Send(SubscriberMessage::SendText(..))));
    let events = link.on_send_result(Err("radio gone".into()));
    assert!(matches!(&events[..], [SubscriptionEvent::SendError(s, d)] if s == "Subscription Error" && d == "radio gone"));

    let (_, action) = link.on_app_message(SubscriberMessage::Disconnect);
    assert!(matches!(action, LinkAction::Disconnect));
    let events = link.on_disconnected();
    assert!(matches!(&events[..], [SubscriptionEvent::DisconnectedEvent(d)] if d == "dev"));
    assert_eq!(link.device_state(), &DeviceState::Disconnected);
}

#[test]
fn link_connect_failure() {
    let mut link = Link::new(RadioType::MeshCore);
    let _ = link.on_app_message(SubscriberMessage::Connect("dev".into(), RadioType::MeshCore));
    let events = link.on_connect_result(Err("timeout".into()));
    assert!(matches!(&events[..], [SubscriptionEvent::ConnectionError(d, s, e)]
        if d == "dev" && s == "Failed to connect to dev" && e == "timeout"));
    assert_eq!(link.device_state(), &DeviceState::Disconnected);
    let (events, action) = link.on_app_message(SubscriberMessage::Disconnect);
    assert!(events.is_empty());
    assert!(matches!(action, LinkAction::Nothing));
}

#[test]
fn link_setup_failure_disconnects() {
    let mut link = Link::new(RadioType::MeshCore);
    let _ = link.on_app_message(SubscriberMessage::Connect("dev".into(), RadioType::MeshCore));
    let _ = link.on_connect_result(Ok(()));
    let (events, action) = link.on_setup_failed("no self info".into());
    assert!(matches!(&events[..], [SubscriptionEvent::ConnectionError(d, s, e)]
        if d == "dev" && s == "Subscription Could not get SelfInfo" && e == "no self info"));
    assert!(matches!(action, LinkAction::Disconnect));
    let events = link.on_disconnected();
    assert!(matches!(&events[..], [SubscriptionEvent::DisconnectedEvent(d)] if d == "dev"));
}

fn empty_report_position() -> MeshPosition {
    MeshPosition {
        latitude_i: None,
        longitude_i: None,
        altitude: None,
        time: 0,
        location_source: 0,
        altitude_source: 0,
        timestamp: 0,
        timestamp_millis_adjust: 0,
        altitude_hae: None,
        altitude_geoidal_separation: None,
        pdop: 0,
        hdop: 0,
        vdop: 0,
        gps_accuracy: 0,
        ground_speed: None,
        ground_track: None,
        fix_quality: 0,
        fix_type: 0,
        sats_in_view: 0,
        sensor_id: 0,
        next_update: 0,
        seq_number: 0,
        precision_bits: 0,
    }
}

fn report_user(id: &str, long_name: &str, short_name: &str) -> MeshUser {
    MeshUser {
        id: id.into(),
        long_name: long_name.into(),
        short_name: short_name.into(),
        macaddr: vec![],
        hw_model: 0,
        is_licensed: false,
        role: 0,
        public_key: vec![],
        is_unmessagable: None,
    }
}

#[test]
fn mod_test_to_channel() {
    assert_eq!(to_destination(ChannelId::Channel(0)), (None, 0));
}

#[test]
fn test_user_conversion_from() {
    let user = MeshUser {
        id: "test_id".to_string(),
        long_name: "Test User".to_string(),
        short_name: "TEST".to_string(),
        macaddr: vec![],
        hw_model: 0,
        is_licensed: true,
        role: 0,
        public_key: vec![1, 2, 3],
        is_unmessagable: Some(false),
    };

    let mc_user: MCUser = user_from_report(&user);

    assert_eq!(mc_user.id, "test_id");
    assert_eq!(mc_user.long_name, "Test User");
    assert_eq!(mc_user.short_name, "TEST");
    assert!(mc_user.is_licensed);
    assert_eq!(mc_user.public_key, vec![1, 2, 3]);
    assert!(!mc_user.is_unmessagable);
}

#[test]
fn test_position_none_coordinates() {
    let position = empty_report_position();
    let mc_position: MCPosition = position_from_report(&position);
    assert_eq!(mc_position.latitude_i, 0);
    assert_eq!(mc_position.longitude_i, 0);
}

#[test]
fn test_channel_conversion_with_name() {
    let mc_channel = MCChannel::from_settings(1, Some("MyChannel".to_string()));
    assert_eq!(mc_channel.index, 1);
    assert_eq!(mc_channel.name, "MyChannel");
}

#[test]
fn test_channel_conversion_empty_name() {
    let mc_channel = MCChannel::from_settings(0, Some("".to_string()));
    assert_eq!(mc_channel.index, 0);
    assert_eq!(mc_channel.name, "Default");
}

#[test]
fn test_channel_conversion_no_settings() {
    let mc_channel = MCChannel::from_settings(2, None);
    assert_eq!(mc_channel.index, 2);
    assert_eq!(mc_channel.name, "Default");
}

#[test]
fn test_node_info_conversion() {
    let node_info = MeshNodeInfo {
        num: 12345,
        user: Some(report_user("test", "Test Node", "TN")),
        position: None,
        is_ignored: false,
    };

    let mc_node_info = node_from_report(&node_info);

    assert_eq!(mc_node_info.node_id, 12345u64);
    assert!(mc_node_info.user.is_some());
    assert_eq!(mc_node_info.user.as_ref().expect("Could not get user").long_name, "Test Node");
    assert!(mc_node_info.position.is_none());
    assert!(!mc_node_info.is_ignored);
}

#[test]
fn test_node_info_with_position() {
    let mut position = empty_report_position();
    position.latitude_i = Some(510000000);
    position.longitude_i = Some(-1000000);

    let node_info = MeshNodeInfo { num: 99999, user: None, position: Some(position), is_ignored: true };

    let mc_node_info = node_from_report(&node_info);

    assert_eq!(mc_node_info.node_id, 99999u64);
    assert!(mc_node_info.user.is_none());
    let p = mc_node_info.position.expect("Could not get position");
    assert_eq!(p.latitude_i, 510000000);
    assert_eq!(p.longitude_i, -1000000);
    assert!(mc_node_info.is_ignored);
}

#[test]
fn test_packet_router_handle_packet_from_radio() {
    let mut router = MyRouter::new();
    let event = router.handle_packet_from_radio(RadioPacket::MyInfo(99999), TimeStamp(0));
    assert_eq!(router.node_num(), Some(99999));
    assert!(matches!(event, Some(MyNodeNum(99999))));
}

#[test]
fn test_packet_router_handle_mesh_packet() {
    let router = router_with(1000);
    let p = packet(2000, u32::MAX, 0, 123, Some(data(1, b"Test".to_vec(), 0, 0, 0)));
    let event = router.handle_mesh_packet(&p, TimeStamp(1));
    assert!(matches!(event, Some(MCMessageReceived(_, _, _, _, _))));
}

#[test]
fn device_role_names_follow_the_protocol_table() {
    let mut r = report_user("!1", "L", "S");
    r.role = 12;
    assert_eq!(user_from_report(&r).role_str, "CLIENT_BASE");
    r.role = 4;
    assert_eq!(user_from_report(&r).role_str, "REPEATER");
    r.role = 99;
    assert_eq!(user_from_report(&r).role_str, "CLIENT");
}

#[test]
fn modem_preset_names_follow_the_protocol_table() {
    let mut router = router_with(1000);
    let e = router.handle_packet_from_radio(RadioPacket::LoraConfig(true, 0, 3), TimeStamp(0));
    assert!(matches!(e, Some(ChannelName(0, ref n)) if n == "MediumSlow"));
    let e = router.handle_packet_from_radio(RadioPacket::LoraConfig(true, 0, 42), TimeStamp(0));
    assert!(matches!(e, Some(ChannelName(0, ref n)) if n == "LongFast"));
}
