//! Meshtastic radios: what their packets say, in the app's terms, and the packets the app sends.
//! Decoding and encoding protocol buffers is left to the `meshtastic` crate; which conversation a
//! packet belongs to, and what it means for the app, is decided here.
use crate::channel_id::{ChannelId, MessageId, NodeId};
use crate::channel_view::update_entry;
use crate::device::{processed, DeviceModel, SubscriberMessage, SubscriptionEvent};
use crate::effect::Effect;
use crate::entry::EntryView;
use crate::entry::MCMessage;
use crate::model::{channel_shown_name, opt_user_view, MCChannel, MCNodeInfo, MCPosition, MCUser, MCUserView, NodeView, TimeStamp};
use crate::text::push_str;
use meshtastic::Message as _;
use meshtastic::protobufs::PortNum;
use vstd::prelude::*;
use vstd::utf8::{decode_utf8, encode_utf8, valid_utf8};

verus! {

/// The kinds of Meshtastic application port that the app tells apart.
#[derive(Debug, Clone, Copy, PartialEq, Eq, Structural)]
pub enum PortKind {
    /// Routing, which carries acknowledgements.
    Routing,
    Alert,
    TextMessage,
    Position,
    Telemetry,
    NeighborInfo,
    NodeInfo,
    /// Any other port, or a number that names no port.
    Other,
}

/// The kind of the application port with number `portnum`, by the numbers that Meshtastic's
/// protocol assigns (text 1, position 3, node information 4, routing 5, alert 11, telemetry 67,
/// neighbour information 71).
pub open spec fn port_kind_of(portnum: i32) -> PortKind {
    if portnum == 1 {
        PortKind::TextMessage
    } else if portnum == 3 {
        PortKind::Position
    } else if portnum == 4 {
        PortKind::NodeInfo
    } else if portnum == 5 {
        PortKind::Routing
    } else if portnum == 11 {
        PortKind::Alert
    } else if portnum == 67 {
        PortKind::Telemetry
    } else if portnum == 71 {
        PortKind::NeighborInfo
    } else {
        PortKind::Other
    }
}

/// The kind of an application port number (`PortNum::try_from`): the ports the app handles are
/// told apart, every other number is `Other`.
#[verifier::external_body]
fn port_kind(portnum: i32) -> (k: PortKind)
    ensures
        k == port_kind_of(portnum),
{
    match PortNum::try_from(portnum) {
        Ok(PortNum::TextMessageApp) => PortKind::TextMessage,
        Ok(PortNum::PositionApp) => PortKind::Position,
        Ok(PortNum::NodeinfoApp) => PortKind::NodeInfo,
        Ok(PortNum::RoutingApp) => PortKind::Routing,
        Ok(PortNum::AlertApp) => PortKind::Alert,
        Ok(PortNum::TelemetryApp) => PortKind::Telemetry,
        Ok(PortNum::NeighborinfoApp) => PortKind::NeighborInfo,
        _ => PortKind::Other,
    }
}

/// Whether a channel role number is the disabled role (`channel::Role::try_from`, whose
/// `Disabled` role is number 0).
#[verifier::external_body]
fn channel_role_disabled(role: i32) -> (b: bool)
    ensures
        b == (role == 0),
{
    meshtastic::protobufs::channel::Role::try_from(role) == Ok(meshtastic::protobufs::channel::Role::Disabled)
}

/// The name of the hardware model with this number, as Meshtastic's protocol names it.
pub uninterp spec fn hardware_model_name_of(hw_model: i32) -> Seq<char>;

/// The name of the device role with this number, as Meshtastic's protocol names it; a number
/// that names no role reads as the default role, the first one.
pub open spec fn device_role_name_of(role: i32) -> Seq<char> {
    if role == 1 { "CLIENT_MUTE"@ }
    else if role == 2 { "ROUTER"@ }
    else if role == 3 { "ROUTER_CLIENT"@ }
    else if role == 4 { "REPEATER"@ }
    else if role == 5 { "TRACKER"@ }
    else if role == 6 { "SENSOR"@ }
    else if role == 7 { "TAK"@ }
    else if role == 8 { "CLIENT_HIDDEN"@ }
    else if role == 9 { "LOST_AND_FOUND"@ }
    else if role == 10 { "TAK_TRACKER"@ }
    else if role == 11 { "ROUTER_LATE"@ }
    else if role == 12 { "CLIENT_BASE"@ }
    else { "CLIENT"@ }
}

/// The name of the LoRa modem preset with this number, as Meshtastic's protocol names it; a
/// number that names no preset reads as the default preset, the first one.
pub open spec fn modem_preset_name_of(preset: i32) -> Seq<char> {
    if preset == 1 { "LONG_SLOW"@ }
    else if preset == 2 { "VERY_LONG_SLOW"@ }
    else if preset == 3 { "MEDIUM_SLOW"@ }
    else if preset == 4 { "MEDIUM_FAST"@ }
    else if preset == 5 { "SHORT_SLOW"@ }
    else if preset == 6 { "SHORT_FAST"@ }
    else if preset == 7 { "LONG_MODERATE"@ }
    else if preset == 8 { "SHORT_TURBO"@ }
    else if preset == 9 { "LONG_TURBO"@ }
    else { "LONG_FAST"@ }
}

/// The name of a user's hardware model (`User::hw_model` then `HardwareModel::as_str_name`).
#[verifier::external_body]
fn hardware_model_name(hw_model: i32) -> (s: String)
    ensures
        s@ == hardware_model_name_of(hw_model),
{
    let user = meshtastic::protobufs::User { hw_model, ..Default::default() };
    user.hw_model().as_str_name().to_string()
}

/// The name of a user's device role (`User::role`, which reads a number that names no role as
/// the first role, then `Role::as_str_name`), as the table [device_role_name_of] gives it.
#[verifier::external_body]
fn device_role_name(role: i32) -> (s: String)
    ensures
        s@ == device_role_name_of(role),
{
    let user = meshtastic::protobufs::User { role, ..Default::default() };
    user.role().as_str_name().to_string()
}

/// The name of a LoRa modem preset (`LoRaConfig::modem_preset`, which reads a number that names
/// no preset as the first preset, then `ModemPreset::as_str_name`), as the table
/// [modem_preset_name_of] gives it.
#[verifier::external_body]
fn modem_preset_name(preset: i32) -> (s: String)
    ensures
        s@ == modem_preset_name_of(preset),
{
    let lora = meshtastic::protobufs::config::LoRaConfig { modem_preset: preset, ..Default::default() };
    lora.modem_preset().as_str_name().to_string()
}

/// The text that UTF-8 bytes spell, when they are valid UTF-8 (`String::from_utf8`).
#[verifier::external_body]
fn text_from_utf8(bytes: &[u8]) -> (r: Option<String>)
    ensures
        r is Some == valid_utf8(bytes@),
        r matches Some(s) ==> s@ == decode_utf8(bytes@),
{
    String::from_utf8(bytes.to_vec()).ok()
}

/// The UTF-8 bytes of a text.
fn utf8_bytes(text: &str) -> (bytes: Vec<u8>)
    ensures
        bytes@ == encode_utf8(text@),
{
    vstd::slice::slice_to_vec(text.as_bytes())
}

/// A Meshtastic position report, field by field.
#[derive(Debug, Clone, Copy, PartialEq, Structural)]
pub struct MeshPosition {
    pub latitude_i: Option<i32>,
    pub longitude_i: Option<i32>,
    pub altitude: Option<i32>,
    pub time: u32,
    pub location_source: i32,
    pub altitude_source: i32,
    pub timestamp: u32,
    pub timestamp_millis_adjust: i32,
    pub altitude_hae: Option<i32>,
    pub altitude_geoidal_separation: Option<i32>,
    pub pdop: u32,
    pub hdop: u32,
    pub vdop: u32,
    pub gps_accuracy: u32,
    pub ground_speed: Option<u32>,
    pub ground_track: Option<u32>,
    pub fix_quality: u32,
    pub fix_type: u32,
    pub sats_in_view: u32,
    pub sensor_id: u32,
    pub next_update: u32,
    pub seq_number: u32,
    pub precision_bits: u32,
}

/// A Meshtastic user report, field by field.
#[derive(Debug)]
pub struct MeshUser {
    pub id: String,
    pub long_name: String,
    pub short_name: String,
    pub macaddr: Vec<u8>,
    pub hw_model: i32,
    pub is_licensed: bool,
    pub role: i32,
    pub public_key: Vec<u8>,
    pub is_unmessagable: Option<bool>,
}

/// The contents of a [MeshUser] as values.
pub struct MeshUserView {
    pub id: Seq<char>,
    pub long_name: Seq<char>,
    pub short_name: Seq<char>,
    pub macaddr: Seq<u8>,
    pub hw_model: i32,
    pub is_licensed: bool,
    pub role: i32,
    pub public_key: Seq<u8>,
    pub is_unmessagable: Option<bool>,
}

impl View for MeshUser {
    type V = MeshUserView;

    open spec fn view(&self) -> MeshUserView {
        MeshUserView {
            id: self.id@,
            long_name: self.long_name@,
            short_name: self.short_name@,
            macaddr: self.macaddr@,
            hw_model: self.hw_model,
            is_licensed: self.is_licensed,
            role: self.role,
            public_key: self.public_key@,
            is_unmessagable: self.is_unmessagable,
        }
    }
}

/// What a Meshtastic telemetry report says, as far as the app reads it.
#[derive(Debug, Clone, Copy, PartialEq, Eq, Structural)]
pub enum TelemetryReport {
    /// Device metrics, with the battery level when reported.
    DeviceMetrics(Option<u32>),
    /// Any other kind of telemetry.
    Other,
}

/// The position report that protocol-buffer bytes encode, if they encode one.
pub uninterp spec fn decoded_position(bytes: Seq<u8>) -> Option<MeshPosition>;

/// The user report that protocol-buffer bytes encode, if they encode one.
pub uninterp spec fn decoded_user(bytes: Seq<u8>) -> Option<MeshUserView>;

/// The telemetry report that protocol-buffer bytes encode, if they encode one.
pub uninterp spec fn decoded_telemetry(bytes: Seq<u8>) -> Option<TelemetryReport>;

/// The protocol-buffer bytes of a position report.
pub uninterp spec fn encoded_position(p: MeshPosition) -> Seq<u8>;

/// The protocol-buffer bytes of a user report.
pub uninterp spec fn encoded_user(u: MeshUserView) -> Seq<u8>;

/// Decode a position report (`Position::decode`).
#[verifier::external_body]
fn decode_position(bytes: &[u8]) -> (r: Option<MeshPosition>)
    ensures
        r == decoded_position(bytes@),
{
    match meshtastic::protobufs::Position::decode(bytes) {
        Ok(p) => Some(MeshPosition {
            latitude_i: p.latitude_i, longitude_i: p.longitude_i, altitude: p.altitude, time: p.time,
            location_source: p.location_source, altitude_source: p.altitude_source, timestamp: p.timestamp, timestamp_millis_adjust: p.timestamp_millis_adjust,
            altitude_hae: p.altitude_hae, altitude_geoidal_separation: p.altitude_geoidal_separation, pdop: p.pdop, hdop: p.hdop,
            vdop: p.vdop, gps_accuracy: p.gps_accuracy, ground_speed: p.ground_speed, ground_track: p.ground_track,
            fix_quality: p.fix_quality, fix_type: p.fix_type, sats_in_view: p.sats_in_view, sensor_id: p.sensor_id,
            next_update: p.next_update, seq_number: p.seq_number, precision_bits: p.precision_bits,
        }),
        Err(_) => None,
    }
}

/// Decode a user report (`User::decode`).
#[verifier::external_body]
#[allow(deprecated)]
fn decode_user(bytes: &[u8]) -> (r: Option<MeshUser>)
    ensures
        match r {
            Some(u) => decoded_user(bytes@) == Some(u@),
            None => decoded_user(bytes@) is None,
        },
{
    match meshtastic::protobufs::User::decode(bytes) {
        Ok(u) => Some(MeshUser {
            id: u.id,
            long_name: u.long_name,
            short_name: u.short_name,
            macaddr: u.macaddr,
            hw_model: u.hw_model,
            is_licensed: u.is_licensed,
            role: u.role,
            public_key: u.public_key,
            is_unmessagable: u.is_unmessagable,
        }),
        Err(_) => None,
    }
}

/// Decode a telemetry report (`Telemetry::decode`).
#[verifier::external_body]
fn decode_telemetry(bytes: &[u8]) -> (r: Option<TelemetryReport>)
    ensures
        r == decoded_telemetry(bytes@),
{
    match meshtastic::protobufs::Telemetry::decode(bytes) {
        Ok(t) => match t.variant {
            Some(meshtastic::protobufs::telemetry::Variant::DeviceMetrics(m)) => {
                Some(TelemetryReport::DeviceMetrics(m.battery_level))
            },
            _ => Some(TelemetryReport::Other),
        },
        Err(_) => None,
    }
}

/// Encode a position report (`Position::encode_to_vec`).
#[verifier::external_body]
fn encode_position(p: &MeshPosition) -> (bytes: Vec<u8>)
    ensures
        bytes@ == encoded_position(*p),
{
    meshtastic::protobufs::Position {
        latitude_i: p.latitude_i, longitude_i: p.longitude_i, altitude: p.altitude, time: p.time,
        location_source: p.location_source, altitude_source: p.altitude_source, timestamp: p.timestamp, timestamp_millis_adjust: p.timestamp_millis_adjust,
        altitude_hae: p.altitude_hae, altitude_geoidal_separation: p.altitude_geoidal_separation, pdop: p.pdop, hdop: p.hdop,
        vdop: p.vdop, gps_accuracy: p.gps_accuracy, ground_speed: p.ground_speed, ground_track: p.ground_track,
        fix_quality: p.fix_quality, fix_type: p.fix_type, sats_in_view: p.sats_in_view, sensor_id: p.sensor_id,
        next_update: p.next_update, seq_number: p.seq_number, precision_bits: p.precision_bits,
    }.encode_to_vec()
}

/// Encode a user report (`User::encode_to_vec`).
#[verifier::external_body]
#[allow(deprecated)]
fn encode_user(u: MeshUser) -> (bytes: Vec<u8>)
    ensures
        bytes@ == encoded_user(u@),
{
    meshtastic::protobufs::User {
        id: u.id,
        long_name: u.long_name,
        short_name: u.short_name,
        macaddr: u.macaddr,
        hw_model: u.hw_model,
        is_licensed: u.is_licensed,
        role: u.role,
        public_key: u.public_key,
        is_unmessagable: u.is_unmessagable,
    }.encode_to_vec()
}

/// The value of an optional field, or `d` when absent.
pub open spec fn or_else<T>(o: Option<T>, d: T) -> T {
    match o {
        Some(v) => v,
        None => d,
    }
}

/// The app's position for a Meshtastic position report: a missing latitude or longitude is zero.
pub open spec fn position_of_report(p: MeshPosition) -> MCPosition {
    MCPosition {
        latitude_i: or_else(p.latitude_i, 0i32),
        longitude_i: or_else(p.longitude_i, 0i32),
        altitude: p.altitude,
        time: p.time,
        location_source: p.location_source,
        altitude_source: p.altitude_source,
        timestamp: TimeStamp(p.timestamp),
        timestamp_millis_adjust: p.timestamp_millis_adjust,
        altitude_hae: p.altitude_hae,
        altitude_geoidal_separation: p.altitude_geoidal_separation,
        pdop: p.pdop,
        hdop: p.hdop,
        vdop: p.vdop,
        gps_accuracy: p.gps_accuracy,
        ground_speed: p.ground_speed,
        ground_track: p.ground_track,
        fix_quality: p.fix_quality,
        fix_type: p.fix_type,
        sats_in_view: p.sats_in_view,
        sensor_id: p.sensor_id,
        next_update: p.next_update,
        seq_number: p.seq_number,
        precision_bits: p.precision_bits,
    }
}

/// The Meshtastic position report for one of the app's positions.
pub open spec fn report_of_position(p: MCPosition) -> MeshPosition {
    MeshPosition {
        latitude_i: Some(p.latitude_i),
        longitude_i: Some(p.longitude_i),
        altitude: p.altitude,
        time: p.time,
        location_source: p.location_source,
        altitude_source: p.altitude_source,
        timestamp: p.timestamp.0,
        timestamp_millis_adjust: p.timestamp_millis_adjust,
        altitude_hae: p.altitude_hae,
        altitude_geoidal_separation: p.altitude_geoidal_separation,
        pdop: p.pdop,
        hdop: p.hdop,
        vdop: p.vdop,
        gps_accuracy: p.gps_accuracy,
        ground_speed: p.ground_speed,
        ground_track: p.ground_track,
        fix_quality: p.fix_quality,
        fix_type: p.fix_type,
        sats_in_view: p.sats_in_view,
        sensor_id: p.sensor_id,
        next_update: p.next_update,
        seq_number: p.seq_number,
        precision_bits: p.precision_bits,
    }
}

/// The app's position for a Meshtastic position report.
pub fn position_from_report(p: &MeshPosition) -> (r: MCPosition)
    ensures
        r == position_of_report(*p),
{
    MCPosition {
        latitude_i: match p.latitude_i { Some(v) => v, None => 0 },
        longitude_i: match p.longitude_i { Some(v) => v, None => 0 },
        altitude: p.altitude,
        time: p.time,
        location_source: p.location_source,
        altitude_source: p.altitude_source,
        timestamp: TimeStamp(p.timestamp),
        timestamp_millis_adjust: p.timestamp_millis_adjust,
        altitude_hae: p.altitude_hae,
        altitude_geoidal_separation: p.altitude_geoidal_separation,
        pdop: p.pdop,
        hdop: p.hdop,
        vdop: p.vdop,
        gps_accuracy: p.gps_accuracy,
        ground_speed: p.ground_speed,
        ground_track: p.ground_track,
        fix_quality: p.fix_quality,
        fix_type: p.fix_type,
        sats_in_view: p.sats_in_view,
        sensor_id: p.sensor_id,
        next_update: p.next_update,
        seq_number: p.seq_number,
        precision_bits: p.precision_bits,
    }
}

/// The Meshtastic position report for one of the app's positions.
pub fn report_from_position(p: &MCPosition) -> (r: MeshPosition)
    ensures
        r == report_of_position(*p),
{
    MeshPosition {
        latitude_i: Some(p.latitude_i),
        longitude_i: Some(p.longitude_i),
        altitude: p.altitude,
        time: p.time,
        location_source: p.location_source,
        altitude_source: p.altitude_source,
        timestamp: p.timestamp.0,
        timestamp_millis_adjust: p.timestamp_millis_adjust,
        altitude_hae: p.altitude_hae,
        altitude_geoidal_separation: p.altitude_geoidal_separation,
        pdop: p.pdop,
        hdop: p.hdop,
        vdop: p.vdop,
        gps_accuracy: p.gps_accuracy,
        ground_speed: p.ground_speed,
        ground_track: p.ground_track,
        fix_quality: p.fix_quality,
        fix_type: p.fix_type,
        sats_in_view: p.sats_in_view,
        sensor_id: p.sensor_id,
        next_update: p.next_update,
        seq_number: p.seq_number,
        precision_bits: p.precision_bits,
    }
}

/// The app's user for a Meshtastic user report: the hardware model and role are also named, and
/// a user that does not say whether it can be messaged can be.
pub open spec fn user_of_report(u: MeshUserView) -> MCUserView {
    MCUserView {
        id: u.id,
        long_name: u.long_name,
        short_name: u.short_name,
        hw_model_str: hardware_model_name_of(u.hw_model),
        hw_model: u.hw_model,
        is_licensed: u.is_licensed,
        role_str: device_role_name_of(u.role),
        role: u.role,
        public_key: u.public_key,
        is_unmessagable: or_else(u.is_unmessagable, false),
    }
}

/// The Meshtastic user report for one of the app's users (with no MAC address).
pub open spec fn report_of_user(u: MCUserView) -> MeshUserView {
    MeshUserView {
        id: u.id,
        long_name: u.long_name,
        short_name: u.short_name,
        macaddr: Seq::empty(),
        hw_model: u.hw_model,
        is_licensed: u.is_licensed,
        role: u.role,
        public_key: u.public_key,
        is_unmessagable: Some(u.is_unmessagable),
    }
}

/// A user sent as a Meshtastic user report and read back is the same user: the same id, long
/// name, short name, hardware and role numbers, licence, public key and messaging flag (the
/// hardware and role names are read again from their numbers).
pub proof fn lemma_user_report_round_trip(u: MCUserView)
    ensures
        user_of_report(report_of_user(u)).id == u.id,
        user_of_report(report_of_user(u)).long_name == u.long_name,
        user_of_report(report_of_user(u)).short_name == u.short_name,
        user_of_report(report_of_user(u)).hw_model == u.hw_model,
        user_of_report(report_of_user(u)).is_licensed == u.is_licensed,
        user_of_report(report_of_user(u)).role == u.role,
        user_of_report(report_of_user(u)).public_key == u.public_key,
        user_of_report(report_of_user(u)).is_unmessagable == u.is_unmessagable,
        report_of_user(u).macaddr.len() == 0,
{
}

/// A Meshtastic user report with no MAC address and its messaging flag set, read as the app's
/// user and sent again, is the same report.
pub proof fn lemma_report_user_round_trip(r: MeshUserView)
    requires
        r.macaddr.len() == 0,
        r.is_unmessagable is Some,
    ensures
        report_of_user(user_of_report(r)) == r,
{
    assert(report_of_user(user_of_report(r)).macaddr =~= r.macaddr);
}

/// The app's user for a Meshtastic user report.
pub fn user_from_report(u: &MeshUser) -> (r: MCUser)
    ensures
        r@ == user_of_report(u@),
{
    MCUser {
        id: u.id.clone(),
        long_name: u.long_name.clone(),
        short_name: u.short_name.clone(),
        hw_model_str: hardware_model_name(u.hw_model),
        hw_model: u.hw_model,
        is_licensed: u.is_licensed,
        role_str: device_role_name(u.role),
        role: u.role,
        public_key: crate::model::copy_bytes(&u.public_key),
        is_unmessagable: match u.is_unmessagable { Some(b) => b, None => false },
    }
}

/// The Meshtastic user report for one of the app's users.
pub fn report_from_user(u: &MCUser) -> (r: MeshUser)
    ensures
        r@ == report_of_user(u@),
{
    MeshUser {
        id: u.id.clone(),
        long_name: u.long_name.clone(),
        short_name: u.short_name.clone(),
        macaddr: Vec::new(),
        hw_model: u.hw_model,
        is_licensed: u.is_licensed,
        role: u.role,
        public_key: crate::model::copy_bytes(&u.public_key),
        is_unmessagable: Some(u.is_unmessagable),
    }
}

/// A node as a Meshtastic radio describes it, field by field.
#[derive(Debug)]
pub struct MeshNodeInfo {
    pub num: u32,
    pub user: Option<MeshUser>,
    pub position: Option<MeshPosition>,
    pub is_ignored: bool,
}

/// The app's node for a Meshtastic node description.
pub open spec fn node_of_report(n: MeshNodeInfo) -> NodeView {
    NodeView {
        node_id: n.num as NodeId,
        user: match n.user {
            Some(u) => Some(user_of_report(u@)),
            None => None,
        },
        position: match n.position {
            Some(p) => Some(position_of_report(p)),
            None => None,
        },
        is_ignored: n.is_ignored,
    }
}

/// The app's node for a Meshtastic node description.
pub fn node_from_report(n: &MeshNodeInfo) -> (r: MCNodeInfo)
    ensures
        r@ == node_of_report(*n),
{
    MCNodeInfo {
        node_id: n.num as NodeId,
        user: match &n.user {
            Some(u) => Some(user_from_report(u)),
            None => None,
        },
        position: match &n.position {
            Some(p) => Some(position_from_report(p)),
            None => None,
        },
        is_ignored: n.is_ignored,
    }
}

/// The payload of a decoded mesh packet, field by field.
#[derive(Debug)]
pub struct MeshData {
    pub portnum: i32,
    pub payload: Vec<u8>,
    pub request_id: u32,
    pub reply_id: u32,
    pub emoji: u32,
}

/// A mesh packet, as far as the app reads it: its sending and receiving nodes, channel, id and
/// decoded payload (if it could be decoded).
#[derive(Debug)]
pub struct MeshPacketInfo {
    pub from: u32,
    pub to: u32,
    pub channel: u32,
    pub id: u32,
    pub decoded: Option<MeshData>,
}

/// A packet from the connected radio, as far as the app reads it.
#[derive(Debug)]
pub enum RadioPacket {
    /// A packet from the mesh.
    Packet(MeshPacketInfo),
    /// The radio's own node number.
    MyInfo(u32),
    /// A node the radio knows.
    NodeInfo(MeshNodeInfo),
    /// A channel of the radio: its index, role number and name in its settings (when it has
    /// settings).
    Channel(i32, i32, Option<String>),
    /// A notification for the user, with its time.
    ClientNotification(String, u32),
    /// The radio's LoRa configuration: whether it uses a preset, its bandwidth and preset number.
    LoraConfig(bool, u32, i32),
    /// Anything else.
    Other,
}

/// The node number Meshtastic uses for every node of the mesh: a packet to it is a broadcast.
pub const BROADCAST_ADDRESS: u32 = 0xffff_ffffu32;

/// The conversation a packet belongs to: a broadcast belongs to its channel; a direct message
/// belongs to the other node's conversation, which is the receiver's when the device sent it.
pub open spec fn conversation_of(my_node_num: Option<u32>, from: u32, to: u32, channel: u32) -> ChannelId {
    if to == BROADCAST_ADDRESS {
        ChannelId::Channel(channel as i32)
    } else if Some(from) == my_node_num {
        ChannelId::Node(to as NodeId)
    } else {
        ChannelId::Node(from as NodeId)
    }
}

/// The conversation an acknowledgement belongs to: a packet whose sender is its receiver
/// acknowledges a broadcast on its channel; any other, a direct message with its sender.
pub open spec fn ack_conversation(from: u32, to: u32, channel: u32) -> ChannelId {
    if from == to {
        ChannelId::Channel(channel as i32)
    } else {
        ChannelId::Node(from as NodeId)
    }
}

/// The message a text packet carries: a new text, or a reply to an earlier message, an emoji
/// reply when it has an emoji.
pub open spec fn text_message_of(reply_id: u32, emoji: u32, text: String) -> MCMessage {
    if reply_id == 0 {
        MCMessage::NewTextMessage(text)
    } else if emoji == 0 {
        MCMessage::TextMessageReply(reply_id as MessageId, text)
    } else {
        MCMessage::EmojiReply(reply_id as MessageId, text)
    }
}

/// What a mesh packet means for the app, at time `now`, for a device whose own node number is
/// `my_node_num` (when known).
pub open spec fn mesh_packet_event(my_node_num: Option<u32>, p: MeshPacketInfo, now: TimeStamp, e: Option<SubscriptionEvent>) -> bool {
    match p.decoded {
        None => e is None,
        Some(d) => {
            let c = conversation_of(my_node_num, p.from, p.to, p.channel);
            match port_kind_of(d.portnum) {
                PortKind::Routing => e == Some(SubscriptionEvent::MessageACK(ack_conversation(p.from, p.to, p.channel), d.request_id as MessageId)),
                PortKind::Alert => if valid_utf8(d.payload@) {
                    e matches Some(SubscriptionEvent::MCMessageReceived(cc, id, from, MCMessage::AlertMessage(t), ts))
                        && cc == c && id == p.id && from == p.from as NodeId && t@ == decode_utf8(d.payload@) && ts == now
                } else {
                    e is None
                },
                PortKind::TextMessage => if valid_utf8(d.payload@) {
                    e matches Some(SubscriptionEvent::MCMessageReceived(cc, id, from, m, ts))
                        && cc == c && id == p.id && from == p.from as NodeId && ts == now
                        && exists|t: String| t@ == decode_utf8(d.payload@) && m == text_message_of(d.reply_id, d.emoji, t)
                } else {
                    e is None
                },
                PortKind::Position => match decoded_position(d.payload@) {
                    Some(pos) => e == Some(SubscriptionEvent::NewNodePosition(c, p.id, p.from as NodeId, position_of_report(pos), now)),
                    None => e is None,
                },
                PortKind::Telemetry => match decoded_telemetry(d.payload@) {
                    Some(TelemetryReport::DeviceMetrics(level)) => if Some(p.from) == my_node_num {
                        e == Some(SubscriptionEvent::DeviceBatteryLevel(level))
                    } else {
                        e is None
                    },
                    _ => e is None,
                },
                PortKind::NodeInfo => match decoded_user(d.payload@) {
                    Some(u) => e matches Some(SubscriptionEvent::NewNodeInfo(cc, id, from, uu, ts))
                        && cc == c && id == p.id && from == p.from as NodeId && uu@ == user_of_report(u) && ts == now,
                    None => e is None,
                },
                _ => e is None,
            }
        },
    }
}

/// Decides what the packets of a Meshtastic radio mean for the app; it remembers the radio's own
/// node number once reported.
#[derive(Debug)]
pub struct MyRouter {
    my_node_num: Option<u32>,
}

impl MyRouter {
    /// A router that does not know its radio's node number yet.
    pub fn new() -> (r: Self)
        ensures
            r.my_node_num() is None,
    {
        MyRouter { my_node_num: None }
    }

    /// The radio's own node number, once reported.
    pub closed spec fn my_node_num(&self) -> Option<u32> {
        self.my_node_num
    }

    /// The radio's own node number, once reported.
    pub fn node_num(&self) -> (r: Option<u32>)
        ensures
            r == self.my_node_num(),
    {
        self.my_node_num
    }

    /// The node the packets this app sends come from: the radio's node, or 0 while not known.
    pub fn source_node_id(&self) -> (r: u32)
        ensures
            r == or_else(self.my_node_num(), 0u32),
    {
        match self.my_node_num {
            Some(n) => n,
            None => 0,
        }
    }

    /// The conversation a packet (by its sender, receiver and channel) belongs to.
    pub fn channel_id_from_packet(&self, from: u32, to: u32, channel: u32) -> (c: ChannelId)
        ensures
            c == conversation_of(self.my_node_num(), from, to, channel),
    {
        if to == BROADCAST_ADDRESS {
            ChannelId::Channel(channel as i32)
        } else if Some(from) == self.my_node_num {
            ChannelId::Node(to as NodeId)
        } else {
            ChannelId::Node(from as NodeId)
        }
    }

    /// What a mesh packet means for the app at time `now`, if anything.
    pub fn handle_mesh_packet(&self, mesh_packet: &MeshPacketInfo, now: TimeStamp) -> (e: Option<SubscriptionEvent>)
        ensures
            mesh_packet_event(self.my_node_num(), *mesh_packet, now, e),
    {
        let data = match &mesh_packet.decoded {
            Some(d) => d,
            None => {
                return None;
            },
        };
        let channel_id = self.channel_id_from_packet(mesh_packet.from, mesh_packet.to, mesh_packet.channel);
        let from = mesh_packet.from as NodeId;
        match port_kind(data.portnum) {
            PortKind::Routing => {
                let ack_channel = if mesh_packet.from == mesh_packet.to {
                    ChannelId::Channel(mesh_packet.channel as i32)
                } else {
                    ChannelId::Node(from)
                };
                Some(SubscriptionEvent::MessageACK(ack_channel, data.request_id))
            },
            PortKind::Alert => match text_from_utf8(data.payload.as_slice()) {
                Some(message) => Some(SubscriptionEvent::MCMessageReceived(channel_id, mesh_packet.id, from,
                    MCMessage::AlertMessage(message), now)),
                None => None,
            },
            PortKind::TextMessage => match text_from_utf8(data.payload.as_slice()) {
                Some(message) => {
                    let ghost t = message;
                    let m = if data.reply_id == 0 {
                        MCMessage::NewTextMessage(message)
                    } else if data.emoji == 0 {
                        MCMessage::TextMessageReply(data.reply_id, message)
                    } else {
                        MCMessage::EmojiReply(data.reply_id, message)
                    };
                    assert(m == text_message_of(data.reply_id, data.emoji, t));
                    Some(SubscriptionEvent::MCMessageReceived(channel_id, mesh_packet.id, from, m, now))
                },
                None => None,
            },
            PortKind::Position => match decode_position(data.payload.as_slice()) {
                Some(position) => Some(SubscriptionEvent::NewNodePosition(channel_id, mesh_packet.id, from,
                    position_from_report(&position), now)),
                None => None,
            },
            PortKind::Telemetry => match decode_telemetry(data.payload.as_slice()) {
                Some(TelemetryReport::DeviceMetrics(level)) => {
                    if Some(mesh_packet.from) == self.my_node_num {
                        Some(SubscriptionEvent::DeviceBatteryLevel(level))
                    } else {
                        None
                    }
                },
                _ => None,
            },
            PortKind::NodeInfo => match decode_user(data.payload.as_slice()) {
                Some(user) => Some(SubscriptionEvent::NewNodeInfo(channel_id, mesh_packet.id, from,
                    user_from_report(&user), now)),
                None => None,
            },
            _ => None,
        }
    }

    /// What a packet from the radio means for the app at time `now`, if anything; the radio's own
    /// node number is remembered when reported.
    pub fn handle_packet_from_radio(&mut self, packet: RadioPacket, now: TimeStamp) -> (e: Option<SubscriptionEvent>)
        ensures
            match packet {
                RadioPacket::MyInfo(n) => final(self).my_node_num() == Some(n),
                _ => final(self).my_node_num() == old(self).my_node_num(),
            },
            match packet {
                RadioPacket::Packet(p) => mesh_packet_event(old(self).my_node_num(), p, now, e),
                RadioPacket::MyInfo(n) => e == Some(SubscriptionEvent::MyNodeNum(n as NodeId)),
                RadioPacket::NodeInfo(n) => e matches Some(SubscriptionEvent::NewNode(x)) && x@ == node_of_report(n),
                RadioPacket::Channel(index, role, name) => if role == 0 {
                    e is None
                } else {
                    e matches Some(SubscriptionEvent::NewChannel(c)) && c.index == index
                        && c.name@ == channel_shown_name(match name {
                            Some(n) => Some(n@),
                            None => None,
                        })
                },
                RadioPacket::ClientNotification(m, t) => e == Some(SubscriptionEvent::RadioNotification(m, TimeStamp(t))),
                RadioPacket::LoraConfig(use_preset, bandwidth, preset) => if use_preset && bandwidth == 0 {
                    e matches Some(SubscriptionEvent::ChannelName(n, name)) && n == 0
                        && name@ == pascal_case_of(modem_preset_name_of(preset))
                } else {
                    e is None
                },
                RadioPacket::Other => e is None,
            },
    {
        match packet {
            RadioPacket::Packet(mesh_packet) => self.handle_mesh_packet(&mesh_packet, now),
            RadioPacket::MyInfo(my_node_num) => {
                self.my_node_num = Some(my_node_num);
                Some(SubscriptionEvent::MyNodeNum(my_node_num as NodeId))
            },
            RadioPacket::NodeInfo(node_info) => Some(SubscriptionEvent::NewNode(node_from_report(&node_info))),
            RadioPacket::Channel(index, role, name) => {
                if channel_role_disabled(role) {
                    None
                } else {
                    Some(SubscriptionEvent::NewChannel(MCChannel::from_settings(index, name)))
                }
            },
            RadioPacket::ClientNotification(message, time) => {
                Some(SubscriptionEvent::RadioNotification(message, TimeStamp(time)))
            },
            RadioPacket::LoraConfig(use_preset, bandwidth, preset) => {
                if use_preset && bandwidth == 0 {
                    let name = modem_preset_name(preset);
                    Some(SubscriptionEvent::ChannelName(0, pascal_case(name.as_str())))
                } else {
                    None
                }
            },
            RadioPacket::Other => None,
        }
    }
}

/// A character in ASCII lower case (other characters stay as they are).
pub open spec fn ascii_lower(c: char) -> char {
    if 'A' <= c <= 'Z' { ((c as u32) + 32) as char } else { c }
}

/// The upper-case form of a character outside ASCII (`char::to_uppercase`), which may be
/// several characters.
pub uninterp spec fn upper_case_of(c: char) -> Seq<char>;

/// The upper-case form of a character: for an ASCII character the single character that ASCII
/// upper case gives (a lower-case letter becomes its capital, any other stays); for others the
/// Unicode mapping.
pub open spec fn upper_case_text(c: char) -> Seq<char> {
    if (c as u32) < 128 { seq![ascii_upper(c)] } else { upper_case_of(c) }
}

/// A character in ASCII upper case (other characters stay as they are).
pub open spec fn ascii_upper(c: char) -> char {
    if 'a' <= c <= 'z' { ((c as u32) - 32) as char } else { c }
}

/// The upper-case form of a character (`char::to_uppercase`, collected): for an ASCII character
/// the single character that ASCII upper case gives (a lower-case letter becomes its capital,
/// any other stays); for others, the Unicode mapping, named by [upper_case_of].
#[verifier::external_body]
fn to_upper_case(c: char) -> (s: String)
    ensures
        (c as u32) < 128 ==> s@ == seq![ascii_upper(c)],
        (c as u32) >= 128 ==> s@ == upper_case_of(c),
{
    c.to_uppercase().collect()
}

/// A word with its first character in upper case and the rest in ASCII lower case.
pub open spec fn capitalized(w: Seq<char>) -> Seq<char> {
    if w.len() == 0 {
        Seq::empty()
    } else {
        upper_case_text(w[0]) + w.skip(1).map_values(|c: char| ascii_lower(c))
    }
}

/// The words of `s` between the underscores, each capitalized, joined without separators: the
/// text from position `i` on, with `word` the part of the current word already read.
pub open spec fn pascal_from(s: Seq<char>, i: int, word: Seq<char>) -> Seq<char>
    decreases s.len() - i,
{
    if i >= s.len() {
        capitalized(word)
    } else if s[i] == '_' {
        capitalized(word) + pascal_from(s, i + 1, Seq::empty())
    } else {
        pascal_from(s, i + 1, word.push(s[i]))
    }
}

/// Snake case in Pascal case: "LONG_FAST" becomes "LongFast".
pub open spec fn pascal_case_of(s: Seq<char>) -> Seq<char> {
    pascal_from(s, 0, Seq::empty())
}

/// Append a capitalized word to `out`.
fn push_capitalized(out: &mut String, word: &Vec<char>)
    ensures
        final(out)@ == old(out)@ + capitalized(word@),
{
    if word.len() == 0 {
        return;
    }
    let up = to_upper_case(word[0]);
    push_str(out, up.as_str());
    let mut i: usize = 1;
    while i < word.len()
        invariant
            1 <= i <= word@.len(),
            out@ == old(out)@ + upper_case_text(word@[0]) + word@.subrange(1, i as int).map_values(|c: char| ascii_lower(c)),
        decreases word@.len() - i,
    {
        let c = word[i];
        let l = if 'A' <= c && c <= 'Z' { ((c as u8) + 32) as char } else { c };
        crate::text::push_char(out, l);
        proof {
            assert(word@.subrange(1, i + 1).map_values(|c: char| ascii_lower(c)) =~= word@.subrange(1, i as int).map_values(|c: char| ascii_lower(c)).push(ascii_lower(c)));
        }
        i = i + 1;
    }
    assert(word@.subrange(1, word@.len() as int) =~= word@.skip(1));
}

/// Convert snake case to Pascal case: "LONG_FAST" becomes "LongFast".
pub fn pascal_case(s: &str) -> (r: String)
    ensures
        r@ == pascal_case_of(s@),
{
    let n = s.unicode_len();
    let mut out = String::new();
    let mut word: Vec<char> = Vec::new();
    let mut i: usize = 0;
    while i < n
        invariant
            n == s@.len(),
            i <= n,
            out@ + pascal_from(s@, i as int, word@) == pascal_case_of(s@),
        decreases n - i,
    {
        let c = s.get_char(i);
        if c == '_' {
            push_capitalized(&mut out, &word);
            word = Vec::new();
            proof {
                assert(word@ =~= Seq::<char>::empty());
            }
        } else {
            word.push(c);
        }
        i = i + 1;
    }
    push_capitalized(&mut out, &word);
    out
}

/// A packet for the app to send through the radio: its payload, application port, destination
/// (a node, or every node when `None`), channel, whether an acknowledgement is wanted, and the
/// message it replies to and emoji marker, when it has them.
#[derive(Debug)]
pub struct OutgoingPacket {
    pub payload: Vec<u8>,
    pub port: PortKind,
    pub destination: Option<u32>,
    pub channel: u32,
    pub want_ack: bool,
    pub reply_id: Option<u32>,
    pub emoji: Option<u32>,
}

/// Where a conversation's messages go: a channel's to every node on that channel; a node's to
/// that node on the primary channel.
pub open spec fn destination_of(c: ChannelId) -> (Option<u32>, u32) {
    match c {
        ChannelId::Channel(n) => (None, n as u32),
        ChannelId::Node(id) => (Some(id as u32), 0),
    }
}

/// Where a conversation's messages go.
pub fn to_destination(channel_id: ChannelId) -> (r: (Option<u32>, u32))
    ensures
        r == destination_of(channel_id),
{
    match channel_id {
        ChannelId::Channel(n) => (None, n as u32),
        ChannelId::Node(id) => (Some(id as u32), 0),
    }
}

/// The packet that carries a message from the app to a conversation: a text (wanting an
/// acknowledgement, perhaps replying), an emoji reply (marking the message it replies to as
/// emoji, wanting no acknowledgement), a position or the device's user (each wanting an
/// acknowledgement). Other messages carry no packet.
pub open spec fn packet_for(m: SubscriberMessage, p: OutgoingPacket) -> bool {
    match m {
        SubscriberMessage::SendText(text, c, reply_to) => {
            &&& p.payload@ == encode_utf8(text@)
            &&& p.port == PortKind::TextMessage
            &&& (p.destination, p.channel) == destination_of(c)
            &&& p.want_ack
            &&& p.reply_id == reply_to
            &&& p.emoji is None
        },
        SubscriberMessage::SendEmojiReply(emoji, c, reply_to) => {
            &&& p.payload@ == encode_utf8(emoji@)
            &&& p.port == PortKind::TextMessage
            &&& (p.destination, p.channel) == destination_of(c)
            &&& !p.want_ack
            &&& p.reply_id == Some(reply_to)
            &&& p.emoji == Some(reply_to)
        },
        SubscriberMessage::SendPosition(c, pos) => {
            &&& p.payload@ == encoded_position(report_of_position(pos))
            &&& p.port == PortKind::Position
            &&& (p.destination, p.channel) == destination_of(c)
            &&& p.want_ack
            &&& p.reply_id is None
            &&& p.emoji is None
        },
        SubscriberMessage::SendSelfInfo(c, u) => {
            &&& p.payload@ == encoded_user(report_of_user(u@))
            &&& p.port == PortKind::NodeInfo
            &&& (p.destination, p.channel) == destination_of(c)
            &&& p.want_ack
            &&& p.reply_id is None
            &&& p.emoji is None
        },
        _ => false,
    }
}

/// The packet that carries a message from the app, if the message is one that the radio sends.
pub fn outgoing_packet(message: &SubscriberMessage) -> (r: Option<OutgoingPacket>)
    ensures
        match r {
            Some(p) => packet_for(*message, p),
            None => !(message is SendText || message is SendEmojiReply || message is SendPosition || message is SendSelfInfo),
        },
{
    match message {
        SubscriberMessage::SendText(text, channel_id, reply_to) => {
            let (destination, channel) = to_destination(*channel_id);
            Some(OutgoingPacket {
                payload: utf8_bytes(text.as_str()),
                port: PortKind::TextMessage,
                destination,
                channel,
                want_ack: true,
                reply_id: *reply_to,
                emoji: None,
            })
        },
        SubscriberMessage::SendEmojiReply(emoji, channel_id, reply_to) => {
            let (destination, channel) = to_destination(*channel_id);
            Some(OutgoingPacket {
                payload: utf8_bytes(emoji.as_str()),
                port: PortKind::TextMessage,
                destination,
                channel,
                want_ack: false,
                reply_id: Some(*reply_to),
                emoji: Some(*reply_to),
            })
        },
        SubscriberMessage::SendPosition(channel_id, position) => {
            let (destination, channel) = to_destination(*channel_id);
            let report = report_from_position(position);
            Some(OutgoingPacket {
                payload: encode_position(&report),
                port: PortKind::Position,
                destination,
                channel,
                want_ack: true,
                reply_id: None,
                emoji: None,
            })
        },
        SubscriberMessage::SendSelfInfo(channel_id, user) => {
            let (destination, channel) = to_destination(*channel_id);
            let report = report_from_user(user);
            Some(OutgoingPacket {
                payload: encode_user(report),
                port: PortKind::NodeInfo,
                destination,
                channel,
                want_ack: true,
                reply_id: None,
                emoji: None,
            })
        },
        _ => None,
    }
}

/// An acknowledgement from the mesh marks the message it answers as acknowledged in its
/// conversation (a broadcast's channel, or the direct conversation with the acknowledging node),
/// and changes nothing else.
pub proof fn lemma_ack_packet_marks_message(
    my_node_num: Option<u32>,
    p: MeshPacketInfo,
    now: TimeStamp,
    e: Option<SubscriptionEvent>,
    d: DeviceModel,
    t: u64,
    n: DeviceModel,
    effects: Seq<Effect>,
)
    requires
        p.decoded is Some,
        port_kind_of(p.decoded->0.portnum) == PortKind::Routing,
        mesh_packet_event(my_node_num, p, now, e),
        e is Some,
        processed(d, e->0, t, n, effects),
    ensures
        effects.len() == 0,
        n == (DeviceModel {
            channel_views: if d.channel_views.contains_key(ack_conversation(p.from, p.to, p.channel)) {
                d.channel_views.insert(ack_conversation(p.from, p.to, p.channel), crate::channel_view::ChannelViewModel {
                    entries: update_entry(d.channel_views[ack_conversation(p.from, p.to, p.channel)].entries,
                        p.decoded->0.request_id as MessageId, |x: EntryView| EntryView { acked: true, ..x }),
                    ..d.channel_views[ack_conversation(p.from, p.to, p.channel)]
                })
            } else {
                d.channel_views
            },
            ..d
        }),
{
}

} // verus!


