//! MeshCore radios: node ids made of key prefixes and public keys, message ids made of
//! acknowledgement tags, and the app's picture of what a MeshCore radio reports.
use crate::channel_id::{ChannelId, MessageId, NodeId};
use crate::device::SubscriptionEvent;
use crate::entry::{message_text, MCMessage};
use crate::model::{
    copy_bytes, location_url, location_url_text, named_user, position_at, user_text, MCChannel, MCNodeInfo,
    MCPosition, MCUser, NodeView, TimeStamp,
};
use crate::strmap::StrMap;
use crate::text::{decimal_digits, push_decimal, push_str};
use std::collections::{HashMap, HashSet};
use vstd::prelude::*;

verus! {

broadcast use vstd::std_specs::hash::group_hash_axioms;

/// The number that a sequence of bytes spells in big-endian order.
pub open spec fn be_value(s: Seq<u8>) -> nat
    decreases s.len(),
{
    if s.len() == 0 {
        0
    } else {
        (be_value(s.drop_last()) * 256 + s.last()) as nat
    }
}

/// 256 to the power `k`.
pub open spec fn pow256(k: nat) -> nat
    decreases k,
{
    if k == 0 { 1 } else { 256 * pow256((k - 1) as nat) }
}

proof fn lemma_be_value_bound(s: Seq<u8>)
    ensures
        be_value(s) < pow256(s.len()),
    decreases s.len(),
{
    if s.len() > 0 {
        lemma_be_value_bound(s.drop_last());
        let v = be_value(s.drop_last());
        let p = pow256(s.drop_last().len());
        let b = s.last() as int;
        assert(v * 256 + b < p * 256) by (nonlinear_arith)
            requires
                v < p,
                0 <= b < 256,
        ;
    }
}

proof fn lemma_pow256_8()
    ensures
        pow256(8) == 0x1_0000_0000_0000_0000,
        pow256(4) == 0x1_0000_0000,
{
    reveal_with_fuel(pow256, 9);
}

/// The number spelled by the first `n` bytes, in big-endian order.
fn be_prefix_value(bytes: &[u8], n: usize) -> (r: u64)
    requires
        n <= 8,
        n <= bytes@.len(),
    ensures
        r == be_value(bytes@.take(n as int)),
{
    let mut v: u64 = 0;
    let mut i: usize = 0;
    proof {
        assert(bytes@.take(0) =~= Seq::<u8>::empty());
    }
    while i < n
        invariant
            n <= 8,
            n <= bytes@.len(),
            i <= n,
            v == be_value(bytes@.take(i as int)),
        decreases n - i,
    {
        proof {
            lemma_be_value_bound(bytes@.take(i as int));
            lemma_pow256_8();
            lemma_pow256_le(i as nat, 7);
            assert(bytes@.take(i + 1).drop_last() =~= bytes@.take(i as int));
            let b = bytes@[i as int] as int;
            let p = pow256(i as nat);
            assert(v * 256 + b < 0x1_0000_0000_0000_0000) by (nonlinear_arith)
                requires
                    v < p,
                    p <= pow256(7),
                    pow256(8) == 256 * pow256(7),
                    pow256(8) == 0x1_0000_0000_0000_0000,
                    0 <= b < 256,
            ;
        }
        v = v * 256 + bytes[i] as u64;
        i = i + 1;
    }
    v
}

proof fn lemma_pow256_le(i: nat, j: nat)
    requires
        i <= j,
    ensures
        pow256(i) <= pow256(j),
    decreases j,
{
    if i < j {
        lemma_pow256_le(i, (j - 1) as nat);
    }
}

/// The node id of a MeshCore node with the six-byte key prefix `prefix`: the prefix followed by
/// two zero bytes, read as a big-endian number.
pub fn node_id_from_prefix(prefix: &[u8; 6]) -> (node_id: NodeId)
    ensures
        node_id == be_value(prefix@ + seq![0u8, 0u8]),
{
    let bytes = prefix.as_slice();
    let v = be_prefix_value(bytes, 6);
    proof {
        assert(bytes@.take(6) =~= prefix@);
        lemma_be_value_bound(prefix@);
        lemma_pow256_6();
        let s = prefix@ + seq![0u8, 0u8];
        assert(s.drop_last() =~= prefix@ + seq![0u8]);
        assert((prefix@ + seq![0u8]).drop_last() =~= prefix@);
        assert(be_value(prefix@ + seq![0u8]) == be_value(prefix@) * 256);
        assert(be_value(s) == be_value(prefix@ + seq![0u8]) * 256);
    }
    v * 65536
}

proof fn lemma_pow256_6()
    ensures
        pow256(6) == 0x1_0000_0000_0000,
{
    reveal_with_fuel(pow256, 7);
}

/// The node id of a MeshCore node with public key `public_key`: its first eight bytes, read as a
/// big-endian number.
pub fn node_id_from_public_key(public_key: &[u8; 32]) -> (node_id: NodeId)
    ensures
        node_id == be_value(public_key@.take(8)),
{
    be_prefix_value(public_key.as_slice(), 8)
}

/// The node id of a MeshCore node whose public key starts with `public_key`: its first eight
/// bytes, read as a big-endian number.
pub fn node_id_from_bytes(public_key: Vec<u8>) -> (node_id: NodeId)
    requires
        public_key@.len() >= 8,
    ensures
        node_id == be_value(public_key@.take(8)),
{
    be_prefix_value(public_key.as_slice(), 8)
}

/// The message id of the message that an acknowledgement tag answers: the tag read as a
/// big-endian number.
pub fn message_id_from_expected_ack(expected_ack: [u8; 4]) -> (message_id: MessageId)
    ensures
        message_id == be_value(expected_ack@),
{
    let v = be_prefix_value(expected_ack.as_slice(), 4);
    proof {
        assert(expected_ack@.take(4) =~= expected_ack@);
        lemma_be_value_bound(expected_ack@);
        lemma_pow256_8();
    }
    v as u32
}

/// A byte followed by more bytes: the byte counts 256 to the power of the number of bytes after
/// it.
proof fn lemma_be_value_prepend(b: u8, t: Seq<u8>)
    ensures
        be_value(seq![b] + t) == b * pow256(t.len()) + be_value(t),
    decreases t.len(),
{
    if t.len() == 0 {
        assert(seq![b] + t =~= seq![b]);
        assert(seq![b].drop_last() =~= Seq::<u8>::empty());
        assert(seq![b].last() == b);
        assert(be_value(seq![b].drop_last()) == 0);
        assert(be_value(seq![b]) == b);
        assert(pow256(0) == 1);
    } else {
        lemma_be_value_prepend(b, t.drop_last());
        assert((seq![b] + t).drop_last() =~= seq![b] + t.drop_last());
        assert((seq![b] + t).last() == t.last());
        assert(pow256(t.len()) == 256 * pow256(t.drop_last().len()));
        let p = pow256(t.drop_last().len());
        let v = be_value(t.drop_last());
        let bi = b as int;
        let l = t.last() as int;
        assert((bi * p + v) * 256 + l == bi * (256 * p) + (v * 256 + l)) by (nonlinear_arith);
    }
}

/// The big-endian bytes of a number: eight bytes that spell it, the last byte first filled.
fn u64_to_be_bytes(n: u64) -> (bytes: [u8; 8])
    ensures
        be_value(bytes@) == n,
{
    let mut bytes = [0u8; 8];
    let mut m: u64 = n;
    let mut i: usize = 8;
    proof {
        assert(bytes@.subrange(8, 8) =~= Seq::<u8>::empty());
        assert(be_value(Seq::<u8>::empty()) == 0);
        assert(pow256(0) == 1);
        assert(pow256((8 - i) as nat) == 1);
    }
    while i > 0
        invariant
            i <= 8,
            bytes@.len() == 8,
            n == m * pow256((8 - i) as nat) + be_value(bytes@.subrange(i as int, 8)),
        decreases i,
    {
        let b = (m % 256) as u8;
        let m2 = m / 256;
        let ghost old_bytes = bytes@;
        proof {
            let s = bytes@.subrange(i as int, 8);
            lemma_be_value_prepend(b, s);
            let p = pow256((8 - i) as nat);
            assert(pow256((8 - i + 1) as nat) == 256 * p);
            let mi = m as int;
            let m2i = m2 as int;
            let bi = b as int;
            assert(mi == m2i * 256 + bi);
            assert(mi * p == m2i * (256 * p) + bi * p) by (nonlinear_arith)
                requires
                    mi == m2i * 256 + bi,
            ;
        }
        bytes[i - 1] = b;
        proof {
            assert(bytes@.subrange(i - 1, 8) =~= seq![b] + old_bytes.subrange(i as int, 8));
        }
        i = i - 1;
        m = m2;
    }
    proof {
        lemma_pow256_8();
        assert(bytes@.subrange(0, 8) =~= bytes@);
        let p8 = pow256((8 - i) as nat);
        assert(p8 == pow256(8));
        assert(n == m * p8 + be_value(bytes@));
        if m > 0 {
            assert(m * p8 >= p8) by (nonlinear_arith)
                requires
                    m > 0,
                    p8 > 0,
            ;
        }
    }
    bytes
}

/// The big-endian bytes of a node id, which address the node as a destination.
pub fn node_id_to_destination_bytes(node_id: &NodeId) -> (bytes: [u8; 8])
    ensures
        be_value(bytes@) == *node_id,
{
    u64_to_be_bytes(*node_id)
}

/// The decimal text of a node id.
pub fn node_id_text(node_id: NodeId) -> (s: String)
    ensures
        s@ == decimal_digits(node_id as nat),
{
    let mut s = String::new();
    push_decimal(&mut s, node_id);
    s
}

/// A MeshCore coordinate, in millionths of a degree, in the app's units of 1e-7 degrees (held at
/// the nearest end of the range of `i32` where it does not fit).
pub open spec fn micro_to_e7(v: i32) -> i32 {
    if v * 10 > i32::MAX { i32::MAX } else if v * 10 < i32::MIN { i32::MIN } else { (v * 10) as i32 }
}

/// The position at a MeshCore latitude and longitude, in millionths of a degree.
pub fn position_from_micro_degrees(lat: i32, lon: i32) -> (p: MCPosition)
    ensures
        p == position_at(micro_to_e7(lat), micro_to_e7(lon)),
{
    MCPosition::at(times_ten(lat), times_ten(lon))
}

/// A coordinate times ten, held at the nearest end of the range of `i32` where it does not fit.
fn times_ten(v: i32) -> (r: i32)
    ensures
        r == micro_to_e7(v),
{
    if v > i32::MAX / 10 {
        i32::MAX
    } else if v < i32::MIN / 10 {
        i32::MIN
    } else {
        v * 10
    }
}

/// The device's own user as a MeshCore radio reports it: its id is the node id of its public key,
/// both its names are the radio's name.
pub fn self_info_user(public_key: &[u8; 32], name: &str) -> (u: MCUser)
    ensures
        u@ == named_user(decimal_digits(be_value(public_key@.take(8))), name@, name@, Seq::empty()),
{
    let id = node_id_text(node_id_from_public_key(public_key));
    MCUser::named(id, String::from_str(name), String::from_str(name), String::new())
}

/// A node known by its id and name, and perhaps its position.
pub open spec fn named_node(node_id: NodeId, name: Seq<char>, position: Option<MCPosition>) -> NodeView {
    NodeView {
        node_id,
        user: Some(named_user(decimal_digits(node_id as nat), name, name, Seq::empty())),
        position,
        is_ignored: false,
    }
}

/// A node known by its id and name, and perhaps its position.
fn named_node_info(node_id: NodeId, name: &str, position: Option<MCPosition>) -> (n: MCNodeInfo)
    ensures
        n@ == named_node(node_id, name@, position),
{
    let user = MCUser::named(node_id_text(node_id), String::from_str(name), String::from_str(name), String::new());
    MCNodeInfo { node_id, user: Some(user), position, is_ignored: false }
}

/// The node that a MeshCore advertisement (or contact) describes: its key prefix, name and
/// position in millionths of a degree.
pub fn advertised_node(prefix: &[u8; 6], name: &str, lat: i32, lon: i32) -> (n: MCNodeInfo)
    ensures
        n@ == named_node(be_value(prefix@ + seq![0u8, 0u8]) as NodeId, name@,
            Some(position_at(micro_to_e7(lat), micro_to_e7(lon)))),
{
    let node_id = node_id_from_prefix(prefix);
    named_node_info(node_id, name, Some(position_from_micro_degrees(lat, lon)))
}

/// The node that a MeshCore neighbour entry describes: known only by its public key, it is named
/// by its node id.
pub fn neighbour_node(pubkey: Vec<u8>) -> (n: MCNodeInfo)
    requires
        pubkey@.len() >= 8,
    ensures
        n@ == named_node(be_value(pubkey@.take(8)) as NodeId, decimal_digits(be_value(pubkey@.take(8))), None),
{
    let node_id = node_id_from_bytes(pubkey);
    let name = node_id_text(node_id);
    named_node_info(node_id, name.as_str(), None)
}

/// The node that a MeshCore discovery response describes: its public key and name.
pub fn discovered_node(pubkey: Vec<u8>, name: &str) -> (n: MCNodeInfo)
    requires
        pubkey@.len() >= 8,
    ensures
        n@ == named_node(be_value(pubkey@.take(8)) as NodeId, name@, None),
{
    let node_id = node_id_from_bytes(pubkey);
    named_node_info(node_id, name, None)
}

/// The channel that MeshCore channel information describes.
pub fn channel_from_info(channel_idx: u8, name: String) -> (c: MCChannel)
    ensures
        c.index == channel_idx as i32,
        c.name == name,
{
    MCChannel { index: channel_idx as i32, name }
}

/// The event for a message received on a MeshCore channel: the sender is not known, and the
/// sender's time stamp serves as both message id and time.
pub fn channel_message_event(channel_idx: u8, sender_timestamp: u32, text: String) -> (e: SubscriptionEvent)
    ensures
        e == SubscriptionEvent::MCMessageReceived(ChannelId::Channel(channel_idx as i32), sender_timestamp, 0,
            MCMessage::NewTextMessage(text), TimeStamp(sender_timestamp)),
{
    SubscriptionEvent::MCMessageReceived(
        ChannelId::Channel(channel_idx as i32),
        sender_timestamp,
        0,
        MCMessage::NewTextMessage(text),
        TimeStamp(sender_timestamp),
    )
}

/// The event for a direct message received from a MeshCore contact, known by its key prefix:
/// the sender's time stamp serves as both message id and time.
pub fn contact_message_event(sender_prefix: &[u8; 6], sender_timestamp: u32, text: String) -> (e: SubscriptionEvent)
    ensures
        e == SubscriptionEvent::MCMessageReceived(
            ChannelId::Node(be_value(sender_prefix@ + seq![0u8, 0u8]) as NodeId),
            sender_timestamp,
            be_value(sender_prefix@ + seq![0u8, 0u8]) as NodeId,
            MCMessage::NewTextMessage(text),
            TimeStamp(sender_timestamp),
        ),
{
    let sender_id = node_id_from_prefix(sender_prefix);
    SubscriptionEvent::MCMessageReceived(
        ChannelId::Node(sender_id),
        sender_timestamp,
        sender_id,
        MCMessage::NewTextMessage(text),
        TimeStamp(sender_timestamp),
    )
}

/// The event for MeshCore channel information: a new channel.
pub fn channel_info_event(channel_idx: u8, name: String) -> (e: SubscriptionEvent)
    ensures
        e matches SubscriptionEvent::NewChannel(c) && c.index == channel_idx as i32 && c.name == name,
{
    SubscriptionEvent::NewChannel(channel_from_info(channel_idx, name))
}

/// The event for a channel listed by the radio when the app asks for its channels: a new channel,
/// unless the channel has no name (an unused slot).
pub fn listed_channel_event(channel_idx: u8, name: String) -> (e: Option<SubscriptionEvent>)
    ensures
        match e {
            Some(ev) => name@.len() > 0 && (ev matches SubscriptionEvent::NewChannel(c)
                && c.index == channel_idx as i32 && c.name == name),
            None => name@.len() == 0,
        },
{
    if name.unicode_len() == 0 {
        None
    } else {
        Some(channel_info_event(channel_idx, name))
    }
}

/// Where the first ": " of `s` starts at or after `i`, or -1 when there is none.
pub open spec fn separator_at(s: Seq<char>, i: int) -> int
    decreases s.len() - i,
{
    if i < 0 || i + 1 >= s.len() {
        -1
    } else if s[i] == ':' && s[i + 1] == ' ' {
        i
    } else {
        separator_at(s, i + 1)
    }
}

/// A channel message's text split at its first ": " into the sender's name and the text proper.
pub open spec fn split_sender(s: Seq<char>) -> Option<(Seq<char>, Seq<char>)> {
    let i = separator_at(s, 0);
    if i < 0 { None } else { Some((s.take(i), s.skip(i + 2))) }
}

/// Split a channel message's text at its first ": " into the sender's name and the text proper.
pub fn split_sender_name(text: &str) -> (r: Option<(String, String)>)
    ensures
        match r {
            Some((name, body)) => split_sender(text@) == Some((name@, body@)),
            None => split_sender(text@) is None,
        },
{
    let n = text.unicode_len();
    let mut i: usize = 0;
    while n > 1 && i < n - 1
        invariant
            n == text@.len(),
            i <= n,
            separator_at(text@, i as int) == separator_at(text@, 0),
            0 <= i,
        decreases n - i,
    {
        if text.get_char(i) == ':' && text.get_char(i + 1) == ' ' {
            let name = text.substring_char(0, i);
            let body = text.substring_char(i + 2, n);
            proof {
                assert(name@ =~= text@.take(i as int));
                assert(body@ =~= text@.skip(i + 2));
            }
            return Some((String::from_str(name), String::from_str(body)));
        }
        i = i + 1;
    }
    None
}

/// An event that a MeshCore radio reports, holding the values the app reads from it.
#[derive(Debug)]
pub enum RadioEvent {
    /// The neighbours of a node, by public key.
    Neighbours(Vec<Vec<u8>>),
    /// A contact (new, or the next one listed): key prefix, name, latitude and longitude in
    /// millionths of a degree.
    Contact([u8; 6], String, i32, i32),
    /// The radio's own information: public key, name, latitude and longitude.
    SelfInfo([u8; 32], String, i32, i32),
    /// The radio's device information: its model, if reported.
    DeviceInfo(Option<String>),
    /// The radio's battery level.
    Battery(u32),
    /// A channel of the radio: its index and name.
    ChannelInfo(u8, String),
    /// An advertisement heard: key prefix, name, latitude and longitude.
    Advertisement([u8; 6], String, i32, i32),
    /// Messages wait on the radio to be fetched.
    MessagesWaiting,
    /// Nodes found by a discovery: public key and name of each.
    Discovered(Vec<(Vec<u8>, String)>),
    /// An answer to an advertisement: public key and node name.
    AdvertResponse([u8; 32], String),
    /// A direct message from a contact: key prefix, the sender's time stamp and the text.
    ContactMessage([u8; 6], u32, String),
    /// A message on a channel: channel index, the sender's time stamp and the text.
    ChannelMessage(u8, u32, String),
    /// An acknowledgement, by its tag.
    Ack([u8; 4]),
    /// An error the radio reported.
    Error(String),
    /// Anything the app does not act on.
    Ignored,
}

/// The radio event can be handled: every public key it lists holds at least the eight bytes
/// that make a node id.
pub open spec fn radio_event_ok(ev: RadioEvent) -> bool {
    match ev {
        RadioEvent::Neighbours(keys) => forall|i: int| 0 <= i < keys@.len() ==> (#[trigger] keys@[i])@.len() >= 8,
        RadioEvent::Discovered(found) => forall|i: int| 0 <= i < found@.len() ==> (#[trigger] found@[i]).0@.len() >= 8,
        _ => true,
    }
}

/// The node id of a public key or longer key prefix: its first eight bytes, big-endian.
pub open spec fn key_node_id(key: Seq<u8>) -> NodeId {
    be_value(key.take(8)) as NodeId
}

/// The node id of a six-byte key prefix.
pub open spec fn prefix_node_id(prefix: Seq<u8>) -> NodeId {
    be_value(prefix + seq![0u8, 0u8]) as NodeId
}

/// The events for the app are exactly one new node per key listed, named by its node id.
pub open spec fn neighbours_reported(keys: Seq<Vec<u8>>, events: Seq<SubscriptionEvent>) -> bool {
    &&& events.len() == keys.len()
    &&& forall|i: int| 0 <= i < keys.len() ==> ((#[trigger] events[i]) matches SubscriptionEvent::NewNode(n)
        && n@ == named_node(key_node_id(keys[i]@), decimal_digits(key_node_id(keys[i]@) as nat), None))
}

/// The events for the app are exactly one new node per discovery, with its name.
pub open spec fn discoveries_reported(found: Seq<(Vec<u8>, String)>, events: Seq<SubscriptionEvent>) -> bool {
    &&& events.len() == found.len()
    &&& forall|i: int| 0 <= i < found.len() ==> ((#[trigger] events[i]) matches SubscriptionEvent::NewNode(n)
        && n@ == named_node(key_node_id(found[i].0@), found[i].1@, None))
}

/// The radio cache after a MeshCore event at time `now`, the events for the app, and whether the
/// messages waiting on the radio are to be fetched.
pub open spec fn radio_event_handled(c: RadioCacheModel, ev: RadioEvent, now: TimeStamp, n: RadioCacheModel, events: Seq<SubscriptionEvent>, fetch: bool) -> bool {
    &&& fetch == (ev is MessagesWaiting)
    &&& match ev {
        RadioEvent::Neighbours(keys) => n == c && neighbours_reported(keys@, events),
        RadioEvent::Contact(prefix, name, lat, lon) | RadioEvent::Advertisement(prefix, name, lat, lon) => {
            &&& n == c
            &&& events.len() == 1
            &&& events[0] matches SubscriptionEvent::NewNode(x) && x@ == named_node(prefix_node_id(prefix@), name@,
                Some(position_at(micro_to_e7(lat), micro_to_e7(lon))))
        },
        RadioEvent::SelfInfo(key, name, lat, lon) => {
            &&& n == (RadioCacheModel { self_id: key_node_id(key@), self_name: name@, ..c })
            &&& events.len() == 3
            &&& events[0] == SubscriptionEvent::MyNodeNum(n.self_id)
            &&& events[1] matches SubscriptionEvent::MyUserInfo(u) && u@ == cache_user(n)
            &&& events[2] == SubscriptionEvent::MyPosition(position_at(micro_to_e7(lat), micro_to_e7(lon)))
        },
        RadioEvent::DeviceInfo(model) => {
            &&& n == (RadioCacheModel {
                model: match model {
                    Some(m) => Some(m@),
                    None => None,
                },
                ..c
            })
            &&& events.len() == 1
            &&& events[0] matches SubscriptionEvent::MyUserInfo(u) && u@ == cache_user(n)
        },
        RadioEvent::Battery(level) => n == c && events == seq![SubscriptionEvent::DeviceBatteryLevel(Some(level))],
        RadioEvent::ChannelInfo(idx, name) => {
            &&& n == (RadioCacheModel { known_channels: c.known_channels.insert(idx), ..c })
            &&& events.len() == 1
            &&& events[0] matches SubscriptionEvent::NewChannel(ch) && ch.index == idx as i32 && ch.name == name
        },
        RadioEvent::Discovered(found) => n == c && discoveries_reported(found@, events),
        RadioEvent::AdvertResponse(key, name) => {
            &&& n == c
            &&& events.len() == 1
            &&& events[0] matches SubscriptionEvent::NewNode(x) && x@ == named_node(key_node_id(key@), name@, None)
        },
        RadioEvent::ContactMessage(prefix, ts, text) => {
            &&& n == c
            &&& events == seq![SubscriptionEvent::MCMessageReceived(ChannelId::Node(prefix_node_id(prefix@)), ts,
                prefix_node_id(prefix@), MCMessage::NewTextMessage(text), now)]
        },
        RadioEvent::ChannelMessage(idx, ts, text) => {
            &&& n == c
            &&& events.len() == 1
            &&& events[0] matches SubscriptionEvent::MCMessageReceived(ch, id, from, m, t)
                && ch == ChannelId::Channel(idx as i32) && id == ts && t == now && m is NewTextMessage
                && match split_sender(text@) {
                    Some((name, body)) => m->NewTextMessage_0@ == body
                        && from == (if c.known_contacts.contains_key(name) { c.known_contacts[name] } else { 0 }),
                    None => m->NewTextMessage_0@ == text@ && from == 0,
                }
        },
        RadioEvent::Ack(tag) => {
            let id = be_value(tag@) as MessageId;
            &&& n == (RadioCacheModel { pending_ack: c.pending_ack.remove(id), ..c })
            &&& events == if c.pending_ack.contains_key(id) {
                seq![SubscriptionEvent::MessageACK(c.pending_ack[id], id)]
            } else {
                Seq::empty()
            }
        },
        RadioEvent::Error(message) => {
            &&& n == c
            &&& events.len() == 1
            &&& events[0] matches SubscriptionEvent::ConnectionError(id, summary, detail)
                && id@ == decimal_digits(c.self_id as nat) && summary@ == "Radio Error"@ && detail == message
        },
        RadioEvent::MessagesWaiting | RadioEvent::Ignored => n == c && events.len() == 0,
    }
}

/// One new node per neighbour listed, named by its node id.
fn neighbour_events(keys: &Vec<Vec<u8>>) -> (events: Vec<SubscriptionEvent>)
    requires
        forall|i: int| 0 <= i < keys@.len() ==> (#[trigger] keys@[i])@.len() >= 8,
    ensures
        neighbours_reported(keys@, events@),
{
    let mut events: Vec<SubscriptionEvent> = Vec::new();
    let mut i: usize = 0;
    while i < keys.len()
        invariant
            i <= keys@.len(),
            forall|j: int| 0 <= j < keys@.len() ==> (#[trigger] keys@[j])@.len() >= 8,
            neighbours_reported(keys@.take(i as int), events@),
        decreases keys.len() - i,
    {
        let node = neighbour_node(copy_bytes(&keys[i]));
        proof {
            lemma_be_value_bound(keys@[i as int]@.take(8));
            lemma_pow256_8();
        }
        events.push(SubscriptionEvent::NewNode(node));
        i = i + 1;
        assert(keys@.take(i as int).drop_last() =~= keys@.take(i - 1));
    }
    assert(keys@.take(i as int) =~= keys@);
    events
}

/// One new node per discovery, with its name.
fn discovery_events(found: &Vec<(Vec<u8>, String)>) -> (events: Vec<SubscriptionEvent>)
    requires
        forall|i: int| 0 <= i < found@.len() ==> (#[trigger] found@[i]).0@.len() >= 8,
    ensures
        discoveries_reported(found@, events@),
{
    let mut events: Vec<SubscriptionEvent> = Vec::new();
    let mut i: usize = 0;
    while i < found.len()
        invariant
            i <= found@.len(),
            forall|j: int| 0 <= j < found@.len() ==> (#[trigger] found@[j]).0@.len() >= 8,
            discoveries_reported(found@.take(i as int), events@),
        decreases found.len() - i,
    {
        let (key, name) = &found[i];
        let node = discovered_node(copy_bytes(key), name.as_str());
        events.push(SubscriptionEvent::NewNode(node));
        i = i + 1;
        assert(found@.take(i as int).drop_last() =~= found@.take(i - 1));
    }
    assert(found@.take(i as int) =~= found@);
    events
}

/// What the app remembers of a connected MeshCore radio: its own node id, name and hardware
/// model, the channels it reported, its contacts by name, and the direct messages sent that
/// wait for an acknowledgement, with their conversations.
#[derive(Debug)]
pub struct RadioCache {
    self_id: NodeId,
    self_name: String,
    model: Option<String>,
    known_channels: HashSet<u8>,
    known_contacts: StrMap<NodeId>,
    pending_ack: HashMap<MessageId, ChannelId>,
}

/// The contents of a [RadioCache] as values.
pub struct RadioCacheModel {
    pub self_id: NodeId,
    pub self_name: Seq<char>,
    pub model: Option<Seq<char>>,
    pub known_channels: Set<u8>,
    pub known_contacts: Map<Seq<char>, NodeId>,
    pub pending_ack: Map<MessageId, ChannelId>,
}

impl View for RadioCache {
    type V = RadioCacheModel;

    closed spec fn view(&self) -> RadioCacheModel {
        RadioCacheModel {
            self_id: self.self_id,
            self_name: self.self_name@,
            model: match self.model {
                Some(m) => Some(m@),
                None => None,
            },
            known_channels: self.known_channels@,
            known_contacts: self.known_contacts@,
            pending_ack: self.pending_ack@,
        }
    }
}

/// The device's own user as the radio cache describes it.
pub open spec fn cache_user(c: RadioCacheModel) -> crate::model::MCUserView {
    named_user(decimal_digits(c.self_id as nat), c.self_name, c.self_name, match c.model {
        Some(m) => m,
        None => Seq::empty(),
    })
}

/// The text sent to share a position: "My position " and the position's map link.
pub open spec fn position_share_text(p: MCPosition) -> Seq<char> {
    "My position "@ + location_url_text(p)
}

/// The text sent to share the device's user: "My user info: " and the user's description.
pub open spec fn user_share_text(u: MCUser) -> Seq<char> {
    "My user info: "@ + user_text(u)
}

/// The text MeshCore sends to share a position.
pub fn position_share(position: &MCPosition) -> (s: String)
    ensures
        s@ == position_share_text(*position),
{
    let mut s = String::new();
    push_str(&mut s, "My position ");
    let url = location_url(position);
    push_str(&mut s, url.as_str());
    s
}

/// The text MeshCore sends to share the device's user.
pub fn user_share(user: &MCUser) -> (s: String)
    ensures
        s@ == user_share_text(*user),
{
    let mut s = String::new();
    push_str(&mut s, "My user info: ");
    let d = user.display_string();
    push_str(&mut s, d.as_str());
    s
}

impl Default for RadioCache {
    /// Nothing known yet: node id zero, no name, model, channels, contacts or pending messages.
    fn default() -> (c: Self)
        ensures
            c.wf(),
            c@ == (RadioCacheModel {
                self_id: 0,
                self_name: Seq::empty(),
                model: None,
                known_channels: Set::empty(),
                known_contacts: Map::empty(),
                pending_ack: Map::empty(),
            }),
    {
        RadioCache {
            self_id: 0,
            self_name: String::new(),
            model: None,
            known_channels: HashSet::new(),
            known_contacts: StrMap::new(),
            pending_ack: HashMap::new(),
        }
    }
}

impl RadioCache {
    /// Well-formed: no contact name is held twice.
    pub closed spec fn wf(&self) -> bool {
        self.known_contacts.wf()
    }

    /// The device's own node id.
    pub fn self_id(&self) -> (r: NodeId)
        ensures
            r == self@.self_id,
    {
        self.self_id
    }

    /// Whether the radio reported the channel with this index.
    pub fn knows_channel(&self, channel_idx: u8) -> (b: bool)
        ensures
            b == self@.known_channels.contains(channel_idx),
    {
        self.known_channels.contains(&channel_idx)
    }

    /// The node id of the contact with this name, if known.
    pub fn contact_id(&self, name: &str) -> (r: Option<NodeId>)
        requires
            self.wf(),
        ensures
            r == (if self@.known_contacts.contains_key(name@) { Some(self@.known_contacts[name@]) } else { None }),
    {
        match self.known_contacts.get(name) {
            Some(id) => Some(*id),
            None => None,
        }
    }

    /// The conversation of a sent message that waits for an acknowledgement, if any.
    pub fn pending(&self, message_id: MessageId) -> (r: Option<ChannelId>)
        ensures
            r == (if self@.pending_ack.contains_key(message_id) { Some(self@.pending_ack[message_id]) } else { None }),
    {
        match self.pending_ack.get(&message_id) {
            Some(c) => Some(*c),
            None => None,
        }
    }

    /// The device's own user: its id is its node id, both its names are the radio's name, and
    /// its hardware is the model the radio reported (or nothing).
    pub fn user(&self) -> (u: MCUser)
        ensures
            u@ == cache_user(self@),
    {
        let model = match &self.model {
            Some(m) => m.clone(),
            None => String::new(),
        };
        MCUser::named(node_id_text(self.self_id), self.self_name.clone(), self.self_name.clone(), model)
    }

    /// Take the radio's own information (its public key, name and position in millionths of a
    /// degree), returning the events for the app: its node number, user and position.
    pub fn handle_self_info(&mut self, public_key: &[u8; 32], name: String, adv_lat: i32, adv_lon: i32) -> (events: Vec<SubscriptionEvent>)
        requires
            old(self).wf(),
        ensures
            final(self).wf(),
            final(self)@ == (RadioCacheModel { self_id: be_value(public_key@.take(8)) as NodeId, self_name: name@, ..old(self)@ }),
            events@.len() == 3,
            events@[0] == SubscriptionEvent::MyNodeNum(final(self)@.self_id),
            events@[1] matches SubscriptionEvent::MyUserInfo(u) && u@ == cache_user(final(self)@),
            events@[2] == SubscriptionEvent::MyPosition(position_at(micro_to_e7(adv_lat), micro_to_e7(adv_lon))),
    {
        self.self_id = node_id_from_public_key(public_key);
        self.self_name = name;
        let mut events: Vec<SubscriptionEvent> = Vec::new();
        events.push(SubscriptionEvent::MyNodeNum(self.self_id));
        events.push(SubscriptionEvent::MyUserInfo(self.user()));
        events.push(SubscriptionEvent::MyPosition(position_from_micro_degrees(adv_lat, adv_lon)));
        events
    }

    /// Take the radio's device information (its model, if reported), returning the event for the
    /// app: its user, now with the model.
    pub fn handle_device_info(&mut self, model: Option<String>) -> (event: SubscriptionEvent)
        requires
            old(self).wf(),
        ensures
            final(self).wf(),
            final(self)@ == (RadioCacheModel {
                model: match model {
                    Some(m) => Some(m@),
                    None => None,
                },
                ..old(self)@
            }),
            event matches SubscriptionEvent::MyUserInfo(u) && u@ == cache_user(final(self)@),
    {
        self.model = model;
        SubscriptionEvent::MyUserInfo(self.user())
    }

    /// Take a contact (its key prefix, name and position in millionths of a degree): remember its
    /// node id by name and return the event for the app: a new node.
    pub fn handle_new_contact(&mut self, prefix: &[u8; 6], adv_name: String, adv_lat: i32, adv_lon: i32) -> (event: SubscriptionEvent)
        requires
            old(self).wf(),
        ensures
            final(self).wf(),
            final(self)@ == (RadioCacheModel {
                known_contacts: old(self)@.known_contacts.insert(adv_name@, be_value(prefix@ + seq![0u8, 0u8]) as NodeId),
                ..old(self)@
            }),
            event matches SubscriptionEvent::NewNode(n) && n@ == named_node(be_value(prefix@ + seq![0u8, 0u8]) as NodeId,
                adv_name@, Some(position_at(micro_to_e7(adv_lat), micro_to_e7(adv_lon)))),
    {
        let node_id = node_id_from_prefix(prefix);
        let node = advertised_node(prefix, adv_name.as_str(), adv_lat, adv_lon);
        self.known_contacts.insert(adv_name, node_id);
        SubscriptionEvent::NewNode(node)
    }

    /// Take a channel's information: remember its index and return the event for the app: a new
    /// channel.
    pub fn handle_new_channel(&mut self, channel_idx: u8, name: String) -> (event: SubscriptionEvent)
        requires
            old(self).wf(),
        ensures
            final(self).wf(),
            final(self)@ == (RadioCacheModel { known_channels: old(self)@.known_channels.insert(channel_idx), ..old(self)@ }),
            event matches SubscriptionEvent::NewChannel(c) && c.index == channel_idx as i32 && c.name == name,
    {
        let _ = self.known_channels.insert(channel_idx);
        channel_info_event(channel_idx, name)
    }

    /// The event for a message received on a channel at time `now`: a text "name: body" comes
    /// from the contact of that name (node 0 when unknown) and says `body`; any other text comes
    /// from node 0. The sender's time stamp serves as message id.
    pub fn handle_new_channel_message(&self, channel_idx: u8, sender_timestamp: u32, text: &str, now: TimeStamp) -> (event: SubscriptionEvent)
        requires
            self.wf(),
        ensures
            event matches SubscriptionEvent::MCMessageReceived(c, id, from, m, t) && c == ChannelId::Channel(channel_idx as i32)
                && id == sender_timestamp && t == now
                && m is NewTextMessage
                && match split_sender(text@) {
                    Some((name, body)) => m->NewTextMessage_0@ == body
                        && from == (if self@.known_contacts.contains_key(name) { self@.known_contacts[name] } else { 0 }),
                    None => m->NewTextMessage_0@ == text@ && from == 0,
                },
    {
        let (node_id, body) = match split_sender_name(text) {
            Some((name, body)) => {
                let id = match self.contact_id(name.as_str()) {
                    Some(id) => id,
                    None => 0,
                };
                (id, body)
            },
            None => (0, String::from_str(text)),
        };
        SubscriptionEvent::MCMessageReceived(
            ChannelId::Channel(channel_idx as i32),
            sender_timestamp,
            node_id,
            MCMessage::NewTextMessage(body),
            now,
        )
    }

    /// Take an acknowledgement tag: the message it answers no longer waits, and when it was
    /// waiting the app hears that it was acknowledged in its conversation.
    pub fn handle_ack(&mut self, tag: [u8; 4]) -> (event: Option<SubscriptionEvent>)
        requires
            old(self).wf(),
        ensures
            final(self).wf(),
            final(self)@ == (RadioCacheModel { pending_ack: old(self)@.pending_ack.remove(be_value(tag@) as MessageId), ..old(self)@ }),
            event == (if old(self)@.pending_ack.contains_key(be_value(tag@) as MessageId) {
                Some(SubscriptionEvent::MessageACK(old(self)@.pending_ack[be_value(tag@) as MessageId], be_value(tag@) as MessageId))
            } else {
                None
            }),
    {
        let message_id = message_id_from_expected_ack(tag);
        match self.pending_ack.remove(&message_id) {
            Some(channel_id) => Some(SubscriptionEvent::MessageACK(channel_id, message_id)),
            None => None,
        }
    }

    /// The event that reflects a text this device sent back into its conversation at time `now`.
    /// A text to a channel gets the time as message id; a direct message gets the id made of the
    /// acknowledgement tag the radio expects, and waits for that acknowledgement.
    pub fn sent_text(&mut self, channel_id: ChannelId, text: String, expected_ack: [u8; 4], now: TimeStamp) -> (event: SubscriptionEvent)
        requires
            old(self).wf(),
        ensures
            final(self).wf(),
            match channel_id {
                ChannelId::Channel(_) => {
                    &&& final(self)@ == old(self)@
                    &&& event == SubscriptionEvent::MCMessageReceived(channel_id, now.0, old(self)@.self_id,
                        MCMessage::NewTextMessage(text), now)
                },
                ChannelId::Node(_) => {
                    &&& final(self)@ == (RadioCacheModel {
                        pending_ack: old(self)@.pending_ack.insert(be_value(expected_ack@) as MessageId, channel_id),
                        ..old(self)@
                    })
                    &&& event == SubscriptionEvent::MCMessageReceived(channel_id, be_value(expected_ack@) as MessageId,
                        old(self)@.self_id, MCMessage::NewTextMessage(text), now)
                },
            },
    {
        match channel_id {
            ChannelId::Channel(_) => {
                SubscriptionEvent::MCMessageReceived(channel_id, now.0, self.self_id, MCMessage::NewTextMessage(text), now)
            },
            ChannelId::Node(_) => {
                let message_id = message_id_from_expected_ack(expected_ack);
                let _ = self.pending_ack.insert(message_id, channel_id);
                SubscriptionEvent::MCMessageReceived(channel_id, message_id, self.self_id, MCMessage::NewTextMessage(text), now)
            },
        }
    }

    /// Handle an event that the MeshCore radio reported at time `now`: update what is known of
    /// the radio, and return the events for the app and whether to fetch the messages waiting
    /// on the radio.
    pub fn handle_radio_event(&mut self, event: RadioEvent, now: TimeStamp) -> (r: (Vec<SubscriptionEvent>, bool))
        requires
            old(self).wf(),
            radio_event_ok(event),
        ensures
            final(self).wf(),
            radio_event_handled(old(self)@, event, now, final(self)@, r.0@, r.1),
    {
        let mut events: Vec<SubscriptionEvent> = Vec::new();
        let mut fetch = false;
        match event {
            RadioEvent::Neighbours(keys) => {
                events = neighbour_events(&keys);
            },
            RadioEvent::Contact(prefix, name, lat, lon) => {
                events.push(SubscriptionEvent::NewNode(advertised_node(&prefix, name.as_str(), lat, lon)));
            },
            RadioEvent::Advertisement(prefix, name, lat, lon) => {
                events.push(SubscriptionEvent::NewNode(advertised_node(&prefix, name.as_str(), lat, lon)));
            },
            RadioEvent::SelfInfo(key, name, lat, lon) => {
                events = self.handle_self_info(&key, name, lat, lon);
            },
            RadioEvent::DeviceInfo(model) => {
                events.push(self.handle_device_info(model));
            },
            RadioEvent::Battery(level) => {
                events.push(SubscriptionEvent::DeviceBatteryLevel(Some(level)));
            },
            RadioEvent::ChannelInfo(idx, name) => {
                events.push(self.handle_new_channel(idx, name));
            },
            RadioEvent::MessagesWaiting => {
                fetch = true;
            },
            RadioEvent::Discovered(found) => {
                events = discovery_events(&found);
            },
            RadioEvent::AdvertResponse(key, name) => {
                let node_id = node_id_from_public_key(&key);
                events.push(SubscriptionEvent::NewNode(named_node_info(node_id, name.as_str(), None)));
            },
            RadioEvent::ContactMessage(prefix, ts, text) => {
                let sender = node_id_from_prefix(&prefix);
                events.push(SubscriptionEvent::MCMessageReceived(ChannelId::Node(sender), ts, sender,
                    MCMessage::NewTextMessage(text), now));
            },
            RadioEvent::ChannelMessage(idx, ts, text) => {
                events.push(self.handle_new_channel_message(idx, ts, text.as_str(), now));
            },
            RadioEvent::Ack(tag) => {
                if let Some(e) = self.handle_ack(tag) {
                    events.push(e);
                }
            },
            RadioEvent::Error(message) => {
                events.push(self.radio_error(message));
            },
            RadioEvent::Ignored => {},
        }
        proof {
            if event is Battery || event is ContactMessage || event is Ack {
                assert(events@ =~= match event {
                    RadioEvent::Battery(level) => seq![SubscriptionEvent::DeviceBatteryLevel(Some(level))],
                    RadioEvent::ContactMessage(prefix, ts, text) => seq![SubscriptionEvent::MCMessageReceived(
                        ChannelId::Node(prefix_node_id(prefix@)), ts, prefix_node_id(prefix@), MCMessage::NewTextMessage(text), now)],
                    _ => events@,
                });
            }
        }
        (events, fetch)
    }

    /// The event for an error the radio reported: a connection error of this device, named by
    /// its node id.
    pub fn radio_error(&self, message: String) -> (event: SubscriptionEvent)
        ensures
            event matches SubscriptionEvent::ConnectionError(id, summary, detail) && id@ == decimal_digits(self@.self_id as nat)
                && summary@ == "Radio Error"@ && detail == message,
    {
        SubscriptionEvent::ConnectionError(node_id_text(self.self_id), String::from_str("Radio Error"), message)
    }
}

/// Two byte sequences of one length that spell the same number are equal.
proof fn lemma_be_value_injective(a: Seq<u8>, b: Seq<u8>)
    requires
        a.len() == b.len(),
        be_value(a) == be_value(b),
    ensures
        a == b,
    decreases a.len(),
{
    if a.len() > 0 {
        let x = be_value(a.drop_last()) as int;
        let y = be_value(b.drop_last()) as int;
        let p = a.last() as int;
        let q = b.last() as int;
        assert(x == y && p == q) by (nonlinear_arith)
            requires
                x * 256 + p == y * 256 + q,
                0 <= p < 256,
                0 <= q < 256,
                x >= 0,
                y >= 0,
        {
            if x < y {
                assert(x * 256 + 256 <= y * 256);
            } else if y < x {
                assert(y * 256 + 256 <= x * 256);
            }
        }
        lemma_be_value_injective(a.drop_last(), b.drop_last());
        assert(a =~= a.drop_last().push(a.last()));
        assert(b =~= b.drop_last().push(b.last()));
    } else {
        assert(a =~= b);
    }
}

/// A key prefix comes back from its node id: the destination bytes of the node id made of a
/// six-byte prefix start with that prefix.
pub proof fn lemma_prefix_roundtrip(prefix: Seq<u8>, destination: Seq<u8>)
    requires
        prefix.len() == 6,
        destination.len() == 8,
        be_value(destination) == be_value(prefix + seq![0u8, 0u8]),
    ensures
        destination.take(6) == prefix,
{
    lemma_be_value_injective(destination, prefix + seq![0u8, 0u8]);
    assert(destination.take(6) =~= prefix);
}

/// A direct message sent waits for its acknowledgement; the acknowledgement with the tag the
/// radio expects reports the message acknowledged in its conversation, and ends the wait.
pub proof fn lemma_direct_message_acknowledged(
    c: RadioCacheModel,
    sent: RadioCacheModel,
    tag: [u8; 4],
    node: NodeId,
    now: TimeStamp,
    n: RadioCacheModel,
    events: Seq<SubscriptionEvent>,
    fetch: bool,
)
    requires
        sent == (RadioCacheModel {
            pending_ack: c.pending_ack.insert(be_value(tag@) as MessageId, ChannelId::Node(node)),
            ..c
        }),
        radio_event_handled(sent, RadioEvent::Ack(tag), now, n, events, fetch),
    ensures
        events == seq![SubscriptionEvent::MessageACK(ChannelId::Node(node), be_value(tag@) as MessageId)],
        n == (RadioCacheModel { pending_ack: c.pending_ack.remove(be_value(tag@) as MessageId), ..c }),
        !fetch,
{
    let id = be_value(tag@) as MessageId;
    assert(sent.pending_ack.remove(id) =~= c.pending_ack.remove(id));
}

/// Where the search for ": " from `i` stops: at a ": " with none before it from `i` on, or
/// nowhere when there is none from `i` on.
proof fn lemma_separator_at(s: Seq<char>, i: int)
    requires
        0 <= i,
    ensures
        separator_at(s, i) == -1 || (i <= separator_at(s, i) && separator_at(s, i) + 1 < s.len()
            && s[separator_at(s, i)] == ':' && s[separator_at(s, i) + 1] == ' '),
        forall|j: int| i <= j && (separator_at(s, i) == -1 || j < separator_at(s, i)) && j + 1 < s.len()
            ==> !(s[j] == ':' && #[trigger] s[j + 1] == ' '),
    decreases s.len() - i,
{
    if i + 1 < s.len() && !(s[i] == ':' && s[i + 1] == ' ') {
        lemma_separator_at(s, i + 1);
    }
}

/// A channel message's text split into a sender's name and a body is the name, ": " and the
/// body, and the name holds no ": "; a text that is not split holds no ": " at all.
pub proof fn lemma_split_sender_parts(s: Seq<char>)
    ensures
        match split_sender(s) {
            Some((name, body)) => s == name + ": "@ + body
                && forall|j: int| 0 <= j && j + 1 < name.len() ==> !(name[j] == ':' && #[trigger] name[j + 1] == ' '),
            None => forall|j: int| 0 <= j && j + 1 < s.len() ==> !(s[j] == ':' && #[trigger] s[j + 1] == ' '),
        },
{
    lemma_separator_at(s, 0);
    let i = separator_at(s, 0);
    if i >= 0 {
        let name = s.take(i);
        let body = s.skip(i + 2);
        assert(": "@ == seq![':', ' ']) by {
            reveal_strlit(": ");
        }
        assert(s =~= name + ": "@ + body);
        assert forall|j: int| 0 <= j && j + 1 < name.len() implies !(name[j] == ':' && #[trigger] name[j + 1] == ' ') by {
            assert(name[j] == s[j] && name[j + 1] == s[j + 1]);
        }
    }
}

} // verus!
