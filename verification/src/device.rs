//! The connected device: its connection state, channels, nodes and conversations, and the
//! decisions taken on the user's requests and on the events its radio subscription reports.
use crate::channel_id::{ChannelId, MessageId, NodeId};
use crate::channel_view::{
    lemma_received_message_kept, empty_conversation, message_added, unread_in, update_entry, view_updated, ChannelView,
    ChannelViewMessage, ChannelViewModel,
};
use crate::battery::BatteryState;
use crate::config::{Config, HistoryLength};
use crate::device_list::{opt_text, RadioType};
use crate::effect::{AfterSend, Effect, NotificationKind};
use crate::entry::{message_text, ChannelViewEntry, EntryView, MCMessage};
use crate::idmap::IdMap;
use crate::meshchat;
use crate::model::{
    clone_opt_user, opt_user_view, MCChannel, MCNodeInfo, MCPosition, MCUser, MCUserView, NodeView,
    TimeStamp,
};
use crate::text::{push_str, push_char, seq_contains_run, str_contains};
use vstd::std_specs::iter::IteratorSpec;
use std::collections::HashMap;
use vstd::prelude::*;

verus! {

broadcast use vstd::std_specs::hash::group_hash_axioms;

/// The state of the connection to a device.
#[derive(Debug, Clone, PartialEq)]
pub enum ConnectionState {
    /// Not connected: the device last disconnected from and the error that ended the
    /// connection, if any.
    Disconnected(Option<String>, Option<String>),
    /// Connecting to a device.
    Connecting(String),
    /// Connected to a device with a radio of the given type.
    Connected(String, RadioType),
    /// Disconnecting from a device.
    Disconnecting(String),
}

impl Default for ConnectionState {
    fn default() -> (s: Self)
        ensures
            s == ConnectionState::Disconnected(None, None),
    {
        ConnectionState::Disconnected(None, None)
    }
}

/// An event that a radio's subscription reports to the app.
#[derive(Debug, Clone)]
pub enum SubscriptionEvent {
    /// The subscription for a radio of this type is ready to take messages.
    Ready(RadioType),
    ConnectedEvent(String, RadioType),
    ConnectingEvent(String),
    DisconnectingEvent(String),
    DisconnectedEvent(String),
    /// A connection failed: the device, a summary and the detail.
    ConnectionError(String, String, String),
    /// Sending failed: a summary and the detail.
    SendError(String, String),
    /// The subscription was asked for something before it was ready.
    NotReady,
    MyNodeNum(NodeId),
    MyUserInfo(MCUser),
    MyPosition(MCPosition),
    NewChannel(MCChannel),
    NewNode(MCNodeInfo),
    /// A notification from the radio: its text and time.
    RadioNotification(String, TimeStamp),
    /// A message received: conversation, message id, sending node, contents and time.
    MCMessageReceived(ChannelId, MessageId, NodeId, MCMessage, TimeStamp),
    /// A message sent earlier was acknowledged: its conversation and id.
    MessageACK(ChannelId, MessageId),
    /// A node sent its user: conversation, message id, node, user and time.
    NewNodeInfo(ChannelId, MessageId, NodeId, MCUser, TimeStamp),
    /// A node sent its position: conversation, message id, node, position and time.
    NewNodePosition(ChannelId, MessageId, NodeId, MCPosition, TimeStamp),
    DeviceBatteryLevel(Option<u32>),
    /// A channel's name: its number and name.
    ChannelName(i32, String),
}

/// A message from the app to a radio's subscription.
#[derive(Debug, Clone)]
pub enum SubscriberMessage {
    Connect(String, RadioType),
    Disconnect,
    /// A text to a conversation, possibly as a reply to a message.
    SendText(String, ChannelId, Option<MessageId>),
    /// An emoji reply: the emoji, the conversation and the message replied to.
    SendEmojiReply(String, ChannelId, MessageId),
    SendPosition(ChannelId, MCPosition),
    SendSelfInfo(ChannelId, MCUser),
}

/// A message to the device from the user interface, or an event from a subscription.
#[derive(Debug, Clone)]
pub enum DeviceViewMessage {
    /// Connect to a device with a radio of a type, then show a conversation.
    ConnectRequest(String, RadioType, Option<ChannelId>),
    /// Disconnect; the flag asks to exit the app once disconnected.
    DisconnectRequest(bool),
    SubscriptionMessage(SubscriptionEvent),
    ShowChannel(Option<ChannelId>),
    ChannelMsg(ChannelId, ChannelViewMessage),
    SendTextMessage(String, ChannelId, Option<MessageId>),
    SendEmojiReplyMessage(MessageId, String, ChannelId),
    SendPositionMessage(ChannelId),
    SendSelfInfoMessage(ChannelId),
    SearchInput(String),
    StartEditingAlias(NodeId),
    AliasInput(String),
    StartForwardingMessage(ChannelViewEntry),
    ForwardMessage(ChannelId),
    StopForwardingMessage,
    ClearFilter,
}

/// The connected device.
#[derive(Debug)]
pub struct Device {
    connection_state: ConnectionState,
    meshtastic_ready: bool,
    meshcore_ready: bool,
    my_node_id: Option<NodeId>,
    my_position: Option<MCPosition>,
    my_user: Option<MCUser>,
    viewing_channel: Option<ChannelId>,
    /// The conversations, by id.
    pub channel_views: IdMap<ChannelView>,
    channels: Vec<MCChannel>,
    /// Every node known to the connected radio.
    nodes: HashMap<NodeId, MCNodeInfo>,
    filter: String,
    exit_pending: bool,
    battery_level: Option<u32>,
    editing_alias: Option<NodeId>,
    alias: String,
    pub forwarding_message: Option<ChannelViewEntry>,
    history_length: HistoryLength,
    show_position_updates: bool,
    show_user_updates: bool,
}

/// The contents of a [Device] as values.
pub struct DeviceModel {
    pub connection_state: ConnectionState,
    pub meshtastic_ready: bool,
    pub meshcore_ready: bool,
    pub my_node_id: Option<NodeId>,
    pub my_position: Option<MCPosition>,
    pub my_user: Option<MCUserView>,
    pub viewing_channel: Option<ChannelId>,
    pub channel_views: Map<ChannelId, ChannelViewModel>,
    /// The channels: index and name.
    pub channels: Seq<(i32, Seq<char>)>,
    pub nodes: Map<NodeId, NodeView>,
    pub filter: Seq<char>,
    pub exit_pending: bool,
    pub battery_level: Option<u32>,
    pub editing_alias: Option<NodeId>,
    pub alias: Seq<char>,
    pub forwarding_message: Option<EntryView>,
    pub history_length: HistoryLength,
    pub show_position_updates: bool,
    pub show_user_updates: bool,
}

/// The optional entry as a value.
pub open spec fn opt_entry_view(e: Option<ChannelViewEntry>) -> Option<EntryView> {
    match e {
        Some(e) => Some(e@),
        None => None,
    }
}

impl View for Device {
    type V = DeviceModel;

    closed spec fn view(&self) -> DeviceModel {
        DeviceModel {
            connection_state: self.connection_state,
            meshtastic_ready: self.meshtastic_ready,
            meshcore_ready: self.meshcore_ready,
            my_node_id: self.my_node_id,
            my_position: self.my_position,
            my_user: opt_user_view(self.my_user),
            viewing_channel: self.viewing_channel,
            channel_views: self.channel_views@.map_values(|v: ChannelView| v@),
            channels: self.channels@.map_values(|c: MCChannel| (c.index, c.name@)),
            nodes: self.nodes@.map_values(|n: MCNodeInfo| n@),
            filter: self.filter@,
            exit_pending: self.exit_pending,
            battery_level: self.battery_level,
            editing_alias: self.editing_alias,
            alias: self.alias@,
            forwarding_message: opt_entry_view(self.forwarding_message),
            history_length: self.history_length,
            show_position_updates: self.show_position_updates,
            show_user_updates: self.show_user_updates,
        }
    }
}

/// The radio that a message goes to: the connected device's, or for a connect request the
/// radio it asks for.
pub open spec fn radio_for(d: DeviceModel, connect_radio: Option<RadioType>) -> Option<RadioType> {
    match d.connection_state {
        ConnectionState::Connected(_, rt) => Some(rt),
        _ => connect_radio,
    }
}

/// The subscription for radios of this type has said it is ready.
pub open spec fn radio_ready(d: DeviceModel, rt: RadioType) -> bool {
    match rt {
        RadioType::Meshtastic => d.meshtastic_ready,
        RadioType::MeshCore => d.meshcore_ready,
        RadioType::Unknown => false,
    }
}

/// The effects of handing a message to a subscription: exactly one, either the hand-over to the
/// radio found by [radio_for] (with a message and follow-up satisfying `ok`) when its
/// subscription is ready, or a report that it is not ready.
pub open spec fn sends(effects: Seq<Effect>, d: DeviceModel, connect_radio: Option<RadioType>, ok: spec_fn(SubscriberMessage, AfterSend) -> bool) -> bool {
    let radio = radio_for(d, connect_radio);
    &&& effects.len() == 1
    &&& if radio is Some && radio_ready(d, radio->0) {
        effects[0] matches Effect::SendToRadio(r, m, a) && r == radio->0 && ok(m, a)
    } else {
        effects[0] is ReportNotReady
    }
}

/// The text sent when forwarding a message: who sent it and what it said.
pub open spec fn forward_text(sender_short_name: Seq<char>, m: MCMessage) -> Seq<char> {
    "FWD from '"@ + sender_short_name + "': "@ + message_text(m) + "\n"@
}

/// The short name shown for a node: its user's short name, or "????" when unknown.
pub open spec fn short_name_of(nodes: Map<NodeId, NodeView>, from: NodeId) -> Seq<char> {
    if nodes.contains_key(from) && nodes[from].user is Some {
        nodes[from].user->0.short_name
    } else {
        "????"@
    }
}

/// The long name shown for a node: its user's long name, or a note that it is unknown.
pub open spec fn long_name_of(nodes: Map<NodeId, NodeView>, from: NodeId) -> Seq<char> {
    if nodes.contains_key(from) && nodes[from].user is Some {
        nodes[from].user->0.long_name
    } else {
        "Node information not available"@
    }
}

/// The short name to show for the node that sent a message.
pub fn short_name(nodes: &HashMap<NodeId, MCNodeInfo>, from: NodeId) -> (s: String)
    ensures
        s@ == short_name_of(nodes@.map_values(|n: MCNodeInfo| n@), from),
{
    match nodes.get(&from) {
        Some(n) => match &n.user {
            Some(u) => u.short_name.clone(),
            None => String::from_str("????"),
        },
        None => String::from_str("????"),
    }
}

/// The long name to show for the node that sent a message.
pub fn long_name(nodes: &HashMap<NodeId, MCNodeInfo>, from: NodeId) -> (s: String)
    ensures
        s@ == long_name_of(nodes@.map_values(|n: MCNodeInfo| n@), from),
{
    match nodes.get(&from) {
        Some(n) => match &n.user {
            Some(u) => u.long_name.clone(),
            None => String::from_str("Node information not available"),
        },
        None => String::from_str("Node information not available"),
    }
}


/// The total of the unread counts of the conversations listed.
pub open spec fn total_unread(views: Seq<(ChannelId, ChannelViewModel)>, show_position_updates: bool, show_user_updates: bool) -> nat
    decreases views.len(),
{
    if views.len() == 0 {
        0
    } else {
        total_unread(views.drop_last(), show_position_updates, show_user_updates) + unread_in(
            views.last().1.entries,
            show_position_updates,
            show_user_updates,
        )
    }
}

impl Default for Device {
    /// A device that is not connected and knows nothing yet, keeping all history and showing
    /// neither position nor user updates.
    fn default() -> (d: Self)
        ensures
            d.wf(),
            d@.connection_state == ConnectionState::Disconnected(None, None),
            !d@.meshtastic_ready && !d@.meshcore_ready,
            d@.my_node_id is None && d@.my_position is None && d@.my_user is None,
            d@.viewing_channel is None,
            d@.channel_views == Map::<ChannelId, ChannelViewModel>::empty(),
            d@.channels == Seq::<(i32, Seq<char>)>::empty(),
            d@.nodes == Map::<NodeId, NodeView>::empty(),
            d@.filter == Seq::<char>::empty(),
            !d@.exit_pending,
            d@.battery_level is None,
            d@.editing_alias is None,
            d@.alias == Seq::<char>::empty(),
            d@.forwarding_message is None,
            d@.history_length == HistoryLength::All,
            !d@.show_position_updates && !d@.show_user_updates,
    {
        let d = Device {
            connection_state: ConnectionState::Disconnected(None, None),
            meshtastic_ready: false,
            meshcore_ready: false,
            my_node_id: None,
            my_position: None,
            my_user: None,
            viewing_channel: None,
            channel_views: IdMap::new(),
            channels: Vec::new(),
            nodes: HashMap::new(),
            filter: String::new(),
            exit_pending: false,
            battery_level: None,
            editing_alias: None,
            alias: String::new(),
            forwarding_message: None,
            history_length: HistoryLength::All,
            show_position_updates: false,
            show_user_updates: false,
        };
        assert(d@.channel_views =~= Map::<ChannelId, ChannelViewModel>::empty());
        assert(d@.channels =~= Seq::<(i32, Seq<char>)>::empty());
        assert(d@.nodes =~= Map::<NodeId, NodeView>::empty());
        d
    }
}

impl Device {
    /// Well-formed: each conversation is listed once and is well-formed.
    pub closed spec fn wf(&self) -> bool {
        &&& self.channel_views.wf()
        &&& forall|k: ChannelId| #[trigger] self.channel_views@.contains_key(k) ==> self.channel_views@[k].wf()
    }

    /// The conversations as a list of (id, conversation) pairs, in the order they are kept.
    pub closed spec fn conversation_list(&self) -> Seq<(ChannelId, ChannelViewModel)> {
        self.channel_views.pairs().map_values(|p: (ChannelId, ChannelView)| (p.0, p.1@))
    }

    /// The list of conversations holds each conversation of the device once.
    pub proof fn lemma_conversation_list(&self)
        requires
            self.wf(),
        ensures
            self.conversation_list().len() == self@.channel_views.len(),
            forall|i: int| 0 <= i < self.conversation_list().len() ==> #[trigger] self@.channel_views.contains_key(self.conversation_list()[i].0)
                && self@.channel_views[self.conversation_list()[i].0] == self.conversation_list()[i].1,
            forall|i: int, j: int| 0 <= i < self.conversation_list().len() && 0 <= j < self.conversation_list().len() && i != j
                ==> self.conversation_list()[i].0 != self.conversation_list()[j].0,
            forall|k: ChannelId| #[trigger] self@.channel_views.contains_key(k) ==> exists|i: int| 0 <= i < self.conversation_list().len() && self.conversation_list()[i].0 == k,
    {
        self.channel_views.lemma_view();
        let l = self.conversation_list();
        let p = self.channel_views.pairs();
        assert(self@.channel_views.dom() =~= self.channel_views@.dom());
        assert forall|i: int| 0 <= i < l.len() implies #[trigger] self@.channel_views.contains_key(l[i].0) && self@.channel_views[l[i].0] == l[i].1 by {
            assert(self.channel_views@.contains_key(p[i].0));
        }
        assert forall|k: ChannelId| #[trigger] self@.channel_views.contains_key(k) implies exists|i: int| 0 <= i < l.len() && l[i].0 == k by {
            assert(self.channel_views@.contains_key(k));
            let i = choose|i: int| 0 <= i < p.len() && p[i].0 == k;
            assert(l[i].0 == k);
        }
    }

    /// The connection state.
    pub fn connection_state(&self) -> (r: &ConnectionState)
        ensures
            *r == self@.connection_state,
    {
        &self.connection_state
    }

    /// The search filter typed so far.
    pub fn filter(&self) -> (r: &str)
        ensures
            r@ == self@.filter,
    {
        self.filter.as_str()
    }

    /// The alias typed so far.
    pub fn alias(&self) -> (r: &str)
        ensures
            r@ == self@.alias,
    {
        self.alias.as_str()
    }

    /// The node whose alias is being edited, if any.
    pub fn editing_alias(&self) -> (r: Option<NodeId>)
        ensures
            r == self@.editing_alias,
    {
        self.editing_alias
    }

    /// The node number of the connected radio, once known.
    pub fn my_node_id(&self) -> (r: Option<NodeId>)
        ensures
            r == self@.my_node_id,
    {
        self.my_node_id
    }

    /// The connected radio's own user, once known.
    pub fn my_user(&self) -> (r: &Option<MCUser>)
        ensures
            opt_user_view(*r) == self@.my_user,
    {
        &self.my_user
    }

    /// The connected radio's own position, once known.
    pub fn my_position(&self) -> (r: Option<MCPosition>)
        ensures
            r == self@.my_position,
    {
        self.my_position
    }

    /// The conversation being viewed, if any.
    pub fn viewing_channel(&self) -> (r: Option<ChannelId>)
        ensures
            r == self@.viewing_channel,
    {
        self.viewing_channel
    }

    /// The channels of the connected radio.
    pub fn channels(&self) -> (r: &Vec<MCChannel>)
        ensures
            r@.map_values(|c: MCChannel| (c.index, c.name@)) == self@.channels,
    {
        &self.channels
    }

    /// The nodes known to the connected radio.
    pub fn nodes(&self) -> (r: &HashMap<NodeId, MCNodeInfo>)
        ensures
            r@.map_values(|n: MCNodeInfo| n@) == self@.nodes,
    {
        &self.nodes
    }

    /// The connected radio's battery level, if known.
    pub fn battery_level(&self) -> (r: Option<u32>)
        ensures
            r == self@.battery_level,
    {
        self.battery_level
    }

    /// Whether the app exits once disconnected.
    pub fn exit_pending(&self) -> (r: bool)
        ensures
            r == self@.exit_pending,
    {
        self.exit_pending
    }

    /// Whether position updates are shown in conversations.
    pub fn show_position_updates(&self) -> (r: bool)
        ensures
            r == self@.show_position_updates,
    {
        self.show_position_updates
    }

    /// Whether user updates are shown in conversations.
    pub fn show_user_updates(&self) -> (r: bool)
        ensures
            r == self@.show_user_updates,
    {
        self.show_user_updates
    }

    /// How much history each conversation keeps.
    pub fn history_length(&self) -> (r: HistoryLength)
        ensures
            r == self@.history_length,
    {
        self.history_length
    }

    /// Set how much history each conversation keeps.
    pub fn set_history_length(&mut self, history_length: HistoryLength)
        ensures
            final(self)@ == (DeviceModel { history_length, ..old(self)@ }),
            final(self).wf() == old(self).wf(),
    {
        self.history_length = history_length;
    }

    /// Set whether position updates are shown in conversations.
    pub fn set_show_position_updates(&mut self, show_position_updates: bool)
        ensures
            final(self)@ == (DeviceModel { show_position_updates, ..old(self)@ }),
            final(self).wf() == old(self).wf(),
    {
        self.show_position_updates = show_position_updates;
    }

    /// Set whether user updates are shown in conversations.
    pub fn set_show_user_updates(&mut self, show_user_updates: bool)
        ensures
            final(self)@ == (DeviceModel { show_user_updates, ..old(self)@ }),
            final(self).wf() == old(self).wf(),
    {
        self.show_user_updates = show_user_updates;
    }

    /// Start editing a node's alias: the alias typed so far is cleared.
    fn start_editing_alias(&mut self, node_id: NodeId)
        ensures
            final(self)@ == (DeviceModel { editing_alias: Some(node_id), alias: Seq::empty(), ..old(self)@ }),
            final(self).wf() == old(self).wf(),
    {
        self.editing_alias = Some(node_id);
        self.alias = String::new();
    }

    /// Stop editing a node's alias: nothing is being edited and the alias typed is cleared.
    pub fn stop_editing_alias(&mut self)
        ensures
            final(self)@ == (DeviceModel { editing_alias: None, alias: Seq::empty(), ..old(self)@ }),
            final(self).wf() == old(self).wf(),
    {
        self.editing_alias = None;
        self.alias = String::new();
    }

    /// Leave every interactive mode: alias editing, forwarding, and the reply being prepared in
    /// the conversation viewed.
    pub fn cancel_interactive(&mut self)
        requires
            old(self).wf(),
        ensures
            final(self).wf(),
            final(self)@ == (DeviceModel {
                editing_alias: None,
                alias: Seq::empty(),
                forwarding_message: None,
                channel_views: match old(self)@.viewing_channel {
                    Some(c) => if old(self)@.channel_views.contains_key(c) {
                        old(self)@.channel_views.insert(c, ChannelViewModel { preparing_reply: None, ..old(self)@.channel_views[c] })
                    } else {
                        old(self)@.channel_views
                    },
                    None => old(self)@.channel_views,
                },
                ..old(self)@
            }),
    {
        self.stop_editing_alias();
        self.forwarding_message = None;
        if let Some(viewing) = self.viewing_channel {
            let ghost before = self.channel_views@;
            if let Some(mut cv) = self.channel_views.remove(&viewing) {
                cv.cancel_interactive();
                let ghost cvv = cv;
                self.channel_views.insert(viewing, cv);
                assert(self.channel_views@ =~= before.insert(viewing, cvv));
                assert(self@.channel_views =~= old(self)@.channel_views.insert(viewing, cvv@));
            } else {
                assert(!old(self)@.channel_views.contains_key(viewing));
                assert(self@.channel_views =~= old(self)@.channel_views);
            }
        }
    }

    /// The number of unread messages across all conversations (not counting the kinds of
    /// message not being shown), or `usize::MAX` if it does not fit.
    pub fn unread_count(&self, show_position_updates: bool, show_user_updates: bool) -> (n: usize)
        requires
            self.wf(),
        ensures
            n as int == if total_unread(self.conversation_list(), show_position_updates, show_user_updates) > usize::MAX {
                usize::MAX as int
            } else {
                total_unread(self.conversation_list(), show_position_updates, show_user_updates) as int
            },
    {
        let len = self.channel_views.len();
        let mut total: usize = 0;
        let mut i: usize = 0;
        proof {
            self.channel_views.lemma_view();
            assert forall|j: int| 0 <= j < len implies (#[trigger] self.channel_views.pairs()[j]).1.wf() by {
                assert(self.channel_views@.contains_key(self.channel_views.pairs()[j].0));
            }
        }
        while i < len
            invariant
                self.wf(),
                len == self.channel_views.pairs().len(),
                len == self.conversation_list().len(),
                i <= len,
                forall|j: int| 0 <= j < len ==> (#[trigger] self.channel_views.pairs()[j]).1.wf(),
                total as int == if total_unread(self.conversation_list().subrange(0, i as int), show_position_updates, show_user_updates) > usize::MAX {
                    usize::MAX as int
                } else {
                    total_unread(self.conversation_list().subrange(0, i as int), show_position_updates, show_user_updates) as int
                },
            decreases len - i,
        {
            let cv = self.channel_views.value_at(i);
            let n = cv.unread_count(show_position_updates, show_user_updates);
            assert(self.conversation_list().subrange(0, i + 1).drop_last() =~= self.conversation_list().subrange(0, i as int));
            total = total.saturating_add(n);
            i = i + 1;
        }
        assert(self.conversation_list().subrange(0, len as int) =~= self.conversation_list());
        total
    }
}


/// The entry made of a message received.
pub open spec fn received_entry(id: MessageId, from: NodeId, message: MCMessage, ts: TimeStamp) -> EntryView {
    EntryView {
        from,
        message_id: id,
        rx_time: ts.0,
        message,
        seen: false,
        acked: false,
        emojis: Map::empty(),
    }
}

/// The device after an entry arrived for conversation `c`: when the device has that
/// conversation, the entry is added to it (see [message_added]) and the view scrolls to the end
/// when the entry is the device's own; otherwise nothing changes.
pub open spec fn conversation_got(d: DeviceModel, c: ChannelId, e: EntryView, now: u64, n: DeviceModel, effects: Seq<Effect>) -> bool {
    if d.channel_views.contains_key(c) {
        &&& n.channel_views.contains_key(c)
        &&& message_added(d.channel_views[c], n.channel_views[c], e, d.history_length, now)
        &&& n == (DeviceModel { channel_views: d.channel_views.insert(c, n.channel_views[c]), ..d })
        &&& effects == (if e.from == d.channel_views[c].my_node_num {
            seq![Effect::ScrollToEnd]
        } else {
            Seq::<Effect>::empty()
        })
    } else {
        &&& n == d
        &&& effects.len() == 0
    }
}

/// The device after a node was reported: a node marked ignored, or one reported before the
/// device's own node number is known, changes nothing; otherwise the node is recorded (replacing
/// what was known of it), its conversation starts afresh, and when it is the device's own node its
/// position and user become the device's own.
pub open spec fn node_added(d: DeviceModel, x: NodeView, n: DeviceModel) -> bool {
    if !x.is_ignored && d.my_node_id is Some {
        let my = d.my_node_id->0;
        n == (DeviceModel {
            my_position: if x.node_id == my { x.position } else { d.my_position },
            my_user: if x.node_id == my { x.user } else { d.my_user },
            nodes: d.nodes.insert(x.node_id, x),
            channel_views: d.channel_views.insert(
                ChannelId::Node(x.node_id),
                empty_conversation(ChannelId::Node(x.node_id), my),
            ),
            ..d
        })
    } else {
        n == d
    }
}

/// The device after a channel was reported: once the device's own node number is known, the
/// channel is added last and an empty conversation for it (by its position) starts.
pub open spec fn channel_added(d: DeviceModel, c: (i32, Seq<char>), n: DeviceModel) -> bool {
    if d.my_node_id is Some {
        n == (DeviceModel {
            channels: d.channels.push(c),
            channel_views: d.channel_views.insert(
                ChannelId::Channel(d.channels.len() as i32),
                empty_conversation(ChannelId::Channel(d.channels.len() as i32), d.my_node_id->0),
            ),
            ..d
        })
    } else {
        n == d
    }
}

/// The device after a known node reported its user (an unknown node changes nothing).
pub open spec fn node_user_updated(d: DeviceModel, from: NodeId, u: MCUserView) -> DeviceModel {
    if d.nodes.contains_key(from) {
        DeviceModel { nodes: d.nodes.insert(from, NodeView { user: Some(u), ..d.nodes[from] }), ..d }
    } else {
        d
    }
}

/// The device after a known node reported its position (an unknown node changes nothing); the
/// device's own position follows its own node's.
pub open spec fn node_position_updated(d: DeviceModel, from: NodeId, p: MCPosition) -> DeviceModel {
    if d.nodes.contains_key(from) {
        DeviceModel {
            nodes: d.nodes.insert(from, NodeView { position: Some(p), ..d.nodes[from] }),
            my_position: if d.my_node_id == Some(from) { Some(p) } else { d.my_position },
            ..d
        }
    } else {
        d
    }
}

/// The device after the conversation shown changed to `c`: when it differs from the one shown,
/// it is recorded and, when connected, the focus moves to the search box (no conversation) or the
/// message box, and the device and conversation are recorded in the configuration.
pub open spec fn channel_changed(d: DeviceModel, c: Option<ChannelId>, n: DeviceModel, effects: Seq<Effect>) -> bool {
    if d.viewing_channel != c {
        &&& n == (DeviceModel { viewing_channel: c, ..d })
        &&& match d.connection_state {
            ConnectionState::Connected(ble, rt) => effects == seq![
                if c is None { Effect::FocusChannelSearch } else { Effect::FocusMessageInput },
                Effect::DeviceAndChannelChanged(Some((ble, rt)), c),
            ],
            _ => effects.len() == 0,
        }
    } else {
        &&& n == d
        &&& effects.len() == 0
    }
}

/// The device after a subscription event, and the work it asks of the app.
pub open spec fn processed(d: DeviceModel, ev: SubscriptionEvent, now: u64, n: DeviceModel, effects: Seq<Effect>) -> bool {
    match ev {
        SubscriptionEvent::Ready(rt) => {
            &&& effects.len() == 0
            &&& n == match rt {
                RadioType::Meshtastic => DeviceModel { meshtastic_ready: true, ..d },
                RadioType::MeshCore => DeviceModel { meshcore_ready: true, ..d },
                RadioType::Unknown => d,
            }
        },
        SubscriptionEvent::ConnectedEvent(ble, rt) => {
            &&& n == (DeviceModel { connection_state: ConnectionState::Connected(ble, rt), ..d })
            &&& effects == match d.viewing_channel {
                None => seq![Effect::DeviceAndChannelChanged(Some((ble, rt)), None)],
                Some(c) => seq![Effect::ShowChannel(Some(c))],
            }
        },
        SubscriptionEvent::ConnectingEvent(m) => {
            &&& n == (DeviceModel { connection_state: ConnectionState::Connecting(m), ..d })
            &&& effects.len() == 0
        },
        SubscriptionEvent::DisconnectingEvent(m) => {
            &&& n == (DeviceModel { connection_state: ConnectionState::Disconnecting(m), ..d })
            &&& effects.len() == 0
        },
        SubscriptionEvent::DisconnectedEvent(id) => if d.exit_pending {
            &&& n == d
            &&& effects == seq![Effect::ExitProcess]
        } else {
            &&& n == (DeviceModel {
                connection_state: ConnectionState::Disconnected(Some(id), None),
                channel_views: Map::empty(),
                nodes: Map::empty(),
                channels: Seq::empty(),
                my_node_id: None,
                viewing_channel: None,
                ..d
            })
            &&& effects == seq![Effect::Navigate(meshchat::View::DeviceListView)]
        },
        SubscriptionEvent::ConnectionError(id, summary, detail) => {
            &&& n == (DeviceModel { connection_state: ConnectionState::Disconnected(Some(id), Some(summary)), ..d })
            &&& effects == seq![
                Effect::Navigate(meshchat::View::DeviceListView),
                Effect::Notify(NotificationKind::Error, summary, detail, None),
            ]
        },
        SubscriptionEvent::SendError(summary, detail) => {
            &&& n == d
            &&& effects == seq![
                Effect::Navigate(meshchat::View::DeviceListView),
                Effect::Notify(NotificationKind::Error, summary, detail, None),
            ]
        },
        SubscriptionEvent::NotReady => {
            &&& n == d
            &&& effects.len() == 2
            &&& effects[0] == Effect::Navigate(meshchat::View::DeviceListView)
            &&& effects[1] matches Effect::Notify(NotificationKind::Error, a, b, None)
                && a@ == "Subscription not ready"@
                && b@ == "An attempt was made to communicate to radio prior to the subscription being Ready"@
        },
        SubscriptionEvent::MyNodeNum(x) => {
            &&& n == (DeviceModel { my_node_id: Some(x), ..d })
            &&& effects.len() == 0
        },
        SubscriptionEvent::MyUserInfo(u) => {
            &&& n == (DeviceModel { my_user: Some(u@), ..d })
            &&& effects.len() == 0
        },
        SubscriptionEvent::MyPosition(p) => {
            &&& n == (DeviceModel { my_position: Some(p), ..d })
            &&& effects.len() == 0
        },
        SubscriptionEvent::NewChannel(c) => {
            &&& channel_added(d, (c.index, c.name@), n)
            &&& effects.len() == 0
        },
        SubscriptionEvent::NewNode(x) => {
            &&& node_added(d, x@, n)
            &&& effects.len() == 0
        },
        SubscriptionEvent::RadioNotification(m, ts) => {
            &&& n == d
            &&& effects.len() == 1
            &&& effects[0] matches Effect::Notify(NotificationKind::Info, a, b, Some(t))
                && a@ == "Radio Notification"@ && b == m && t == ts
        },
        SubscriptionEvent::MCMessageReceived(c, id, from, m, ts) =>
            conversation_got(d, c, received_entry(id, from, m, ts), now, n, effects),
        SubscriptionEvent::MessageACK(c, id) => {
            &&& effects.len() == 0
            &&& n == (DeviceModel {
                channel_views: if d.channel_views.contains_key(c) {
                    d.channel_views.insert(c, ChannelViewModel {
                        entries: update_entry(d.channel_views[c].entries, id, |e: EntryView| EntryView { acked: true, ..e }),
                        ..d.channel_views[c]
                    })
                } else {
                    d.channel_views
                },
                ..d
            })
        },
        SubscriptionEvent::NewNodeInfo(c, id, from, u, ts) => {
            let d1 = node_user_updated(d, from, u@);
            if d.show_user_updates {
                conversation_got(d1, c, received_entry(id, from, MCMessage::UserMessage(u), ts), now, n, effects)
            } else {
                &&& n == d1
                &&& effects.len() == 0
            }
        },
        SubscriptionEvent::NewNodePosition(c, id, from, p, ts) => {
            let d1 = node_position_updated(d, from, p);
            if d.show_position_updates {
                conversation_got(d1, c, received_entry(id, from, MCMessage::PositionMessage(p), ts), now, n, effects)
            } else {
                &&& n == d1
                &&& effects.len() == 0
            }
        },
        SubscriptionEvent::DeviceBatteryLevel(level) => {
            &&& n == (DeviceModel { battery_level: level, ..d })
            &&& effects.len() == 0
        },
        SubscriptionEvent::ChannelName(num, name) => {
            &&& n == (DeviceModel {
                channels: if 0 <= num < d.channels.len() {
                    d.channels.update(num as int, (d.channels[num as int].0, name@))
                } else {
                    d.channels
                },
                ..d
            })
            &&& effects.len() == 0
        },
    }
}

/// The device after a message from the user interface or a subscription, and the work it asks
/// of the app.
pub open spec fn updated(d: DeviceModel, msg: DeviceViewMessage, now: u64, n: DeviceModel, effects: Seq<Effect>) -> bool {
    match msg {
        DeviceViewMessage::ConnectRequest(ble, rt, c) => {
            &&& n == d
            &&& sends(effects, d, Some(rt), |m: SubscriberMessage, a: AfterSend|
                m == SubscriberMessage::Connect(ble, rt) && a == AfterSend::Navigate(meshchat::View::DeviceView(c)))
        },
        DeviceViewMessage::DisconnectRequest(exit) => {
            &&& n == (DeviceModel { exit_pending: exit, ..d })
            &&& sends(effects, n, None, |m: SubscriberMessage, a: AfterSend|
                m is Disconnect && a == AfterSend::Navigate(meshchat::View::DeviceListView))
        },
        DeviceViewMessage::ForwardMessage(c) => match d.forwarding_message {
            Some(e) => {
                &&& n == (DeviceModel { forwarding_message: None, ..d })
                &&& sends(effects, n, None, |m: SubscriberMessage, a: AfterSend|
                    (m matches SubscriberMessage::SendText(t, cc, r)
                        && t@ == forward_text(short_name_of(d.nodes, e.from), e.message) && cc == c && r is None)
                    && a == AfterSend::ShowChannel(c))
            },
            None => {
                &&& n == d
                &&& effects.len() == 0
            },
        },
        DeviceViewMessage::SendEmojiReplyMessage(r, emoji, c) => {
            &&& n == d
            &&& sends(effects, d, None, |m: SubscriberMessage, a: AfterSend|
                m == SubscriberMessage::SendEmojiReply(emoji, c, r) && a == AfterSend::Nothing)
        },
        DeviceViewMessage::SendTextMessage(t, c, r) => {
            &&& n == d
            &&& sends(effects, d, None, |m: SubscriberMessage, a: AfterSend|
                m == SubscriberMessage::SendText(t, c, r) && a == AfterSend::Nothing)
        },
        DeviceViewMessage::SendPositionMessage(c) => {
            &&& n == d
            &&& match d.my_position {
                Some(p) => sends(effects, d, None, |m: SubscriberMessage, a: AfterSend|
                    m == SubscriberMessage::SendPosition(c, p) && a == AfterSend::Nothing),
                None => effects.len() == 0,
            }
        },
        DeviceViewMessage::SendSelfInfoMessage(c) => {
            &&& n == d
            &&& match d.my_user {
                Some(u) => sends(effects, d, None, |m: SubscriberMessage, a: AfterSend|
                    (m matches SubscriberMessage::SendSelfInfo(cc, uu) && cc == c && uu@ == u) && a == AfterSend::Nothing),
                None => effects.len() == 0,
            }
        },
        DeviceViewMessage::ShowChannel(c) => channel_changed(d, c, n, effects),
        DeviceViewMessage::SubscriptionMessage(ev) => processed(d, ev, now, n, effects),
        DeviceViewMessage::ChannelMsg(c, m) => if d.channel_views.contains_key(c) {
            &&& n.channel_views.contains_key(c)
            &&& view_updated(d.channel_views[c], m, n.channel_views[c], effects)
            &&& n == (DeviceModel { channel_views: d.channel_views.insert(c, n.channel_views[c]), ..d })
        } else {
            &&& n == d
            &&& effects.len() == 0
        },
        DeviceViewMessage::SearchInput(f) => {
            &&& n == (DeviceModel { filter: f@, ..d })
            &&& effects.len() == 0
        },
        DeviceViewMessage::StartEditingAlias(x) => {
            &&& n == (DeviceModel { editing_alias: Some(x), alias: Seq::empty(), ..d })
            &&& effects.len() == 0
        },
        DeviceViewMessage::AliasInput(a) => {
            &&& n == (DeviceModel { alias: a@, ..d })
            &&& effects.len() == 0
        },
        DeviceViewMessage::StartForwardingMessage(e) => {
            &&& n == (DeviceModel { forwarding_message: Some(e@), ..d })
            &&& effects.len() == 0
        },
        DeviceViewMessage::StopForwardingMessage => {
            &&& n == (DeviceModel { forwarding_message: None, ..d })
            &&& effects.len() == 0
        },
        DeviceViewMessage::ClearFilter => {
            &&& n == (DeviceModel { filter: Seq::empty(), ..d })
            &&& effects.len() == 0
        },
    }
}


/// The radio asked for by a connect request, if the message is one.
pub open spec fn connect_radio(m: SubscriberMessage) -> Option<RadioType> {
    match m {
        SubscriberMessage::Connect(_, rt) => Some(rt),
        _ => None,
    }
}

impl Device {
    /// Hand a message to the subscription of the connected radio (or, for a connect request,
    /// of the radio it asks for), to be followed by `after` once sent; when there is no such
    /// radio or its subscription is not ready, report that instead.
    fn subscriber_send(&self, subscriber_message: SubscriberMessage, after: AfterSend) -> (effects: Vec<Effect>)
        ensures
            sends(effects@, self@, connect_radio(subscriber_message), |m: SubscriberMessage, a: AfterSend| m == subscriber_message && a == after),
            ({
                let radio = radio_for(self@, connect_radio(subscriber_message));
                radio is None || !radio_ready(self@, radio->0)
            }) ==> effects@ == seq![Effect::ReportNotReady],
    {
        let radio = match &self.connection_state {
            ConnectionState::Connected(_, rt) => Some(*rt),
            _ => match &subscriber_message {
                SubscriberMessage::Connect(_, rt) => Some(*rt),
                _ => None,
            },
        };
        let mut effects: Vec<Effect> = Vec::new();
        match radio {
            Some(rt) => {
                let ready = match rt {
                    RadioType::Meshtastic => self.meshtastic_ready,
                    RadioType::MeshCore => self.meshcore_ready,
                    RadioType::Unknown => false,
                };
                if ready {
                    effects.push(Effect::SendToRadio(rt, subscriber_message, after));
                } else {
                    effects.push(Effect::ReportNotReady);
                }
            },
            None => {
                effects.push(Effect::ReportNotReady);
            },
        }
        proof {
            let radio = radio_for(self@, connect_radio(subscriber_message));
            if radio is None || !radio_ready(self@, radio->0) {
                assert(effects@ =~= seq![Effect::ReportNotReady]);
            }
        }
        effects
    }

    /// Record the conversation shown, and when connected, move the focus and record the device
    /// and conversation in the configuration.
    fn channel_change(&mut self, channel_id: Option<ChannelId>) -> (effects: Vec<Effect>)
        ensures
            channel_changed(old(self)@, channel_id, final(self)@, effects@),
            final(self).wf() == old(self).wf(),
    {
        let mut effects: Vec<Effect> = Vec::new();
        if self.viewing_channel != channel_id {
            self.viewing_channel = channel_id;
            match &self.connection_state {
                ConnectionState::Connected(ble_device, radio_type) => {
                    let focus = match channel_id {
                        None => Effect::FocusChannelSearch,
                        Some(_) => Effect::FocusMessageInput,
                    };
                    effects.push(focus);
                    effects.push(Effect::DeviceAndChannelChanged(Some((ble_device.clone(), *radio_type)), channel_id));
                    assert(effects@ =~= seq![
                        if channel_id is None { Effect::FocusChannelSearch } else { Effect::FocusMessageInput },
                        Effect::DeviceAndChannelChanged(Some((*ble_device, *radio_type)), channel_id),
                    ]);
                },
                _ => {},
            }
        }
        effects
    }

    /// Add an entry that arrived for a conversation, if the device has that conversation.
    fn receive(&mut self, channel_id: ChannelId, entry: ChannelViewEntry, now: u64) -> (effects: Vec<Effect>)
        requires
            old(self).wf(),
            entry.wf(),
        ensures
            final(self).wf(),
            conversation_got(old(self)@, channel_id, entry@, now, final(self)@, effects@),
    {
        let mut effects: Vec<Effect> = Vec::new();
        let ghost before = self.channel_views@;
        let ghost ev = entry@;
        match self.channel_views.remove(&channel_id) {
            Some(mut cv) => {
                proof { assert(before.contains_key(channel_id)); }
                let mine = cv.new_message(entry, &self.history_length, now);
                let ghost cvv = cv;
                self.channel_views.insert(channel_id, cv);
                proof {
                    assert(self.channel_views@ =~= before.insert(channel_id, cvv));
                    assert(self@.channel_views =~= old(self)@.channel_views.insert(channel_id, cvv@));
                }
                if mine {
                    effects.push(Effect::ScrollToEnd);
                }
                proof {
                    if mine {
                        assert(effects@ =~= seq![Effect::ScrollToEnd]);
                    } else {
                        assert(effects@ =~= Seq::<Effect>::empty());
                    }
                }
            },
            None => {
                proof { assert(self@.channel_views =~= old(self)@.channel_views); }
            },
        }
        effects
    }

    /// Mark a message of a conversation as acknowledged, if the device has that conversation.
    fn ack_message(&mut self, channel_id: ChannelId, message_id: MessageId)
        requires
            old(self).wf(),
        ensures
            final(self).wf(),
            final(self)@ == (DeviceModel {
                channel_views: if old(self)@.channel_views.contains_key(channel_id) {
                    old(self)@.channel_views.insert(channel_id, ChannelViewModel {
                        entries: update_entry(old(self)@.channel_views[channel_id].entries, message_id, |e: EntryView| EntryView { acked: true, ..e }),
                        ..old(self)@.channel_views[channel_id]
                    })
                } else {
                    old(self)@.channel_views
                },
                ..old(self)@
            }),
    {
        let ghost before = self.channel_views@;
        match self.channel_views.remove(&channel_id) {
            Some(mut cv) => {
                proof { assert(before.contains_key(channel_id)); }
                cv.ack(message_id);
                let ghost cvv = cv;
                self.channel_views.insert(channel_id, cv);
                proof {
                    assert(self.channel_views@ =~= before.insert(channel_id, cvv));
                    assert(self@.channel_views =~= old(self)@.channel_views.insert(channel_id, cvv@));
                }
            },
            None => {
                proof { assert(self@.channel_views =~= old(self)@.channel_views); }
            },
        }
    }

    /// Record a node reported by the radio, unless it is marked ignored or the device's own node
    /// number is not known yet; its conversation starts afresh.
    fn add_node(&mut self, node_info: MCNodeInfo)
        requires
            old(self).wf(),
        ensures
            final(self).wf(),
            node_added(old(self)@, node_info@, final(self)@),
    {
        if node_info.is_ignored {
            return;
        }
        match self.my_node_id {
            Some(my_node_num) => {
                let ghost x = node_info@;
                if node_info.node_id == my_node_num {
                    self.my_position = node_info.position;
                    self.my_user = clone_opt_user(&node_info.user);
                }
                let node_id = node_info.node_id;
                let channel_id = ChannelId::Node(node_id);
                self.nodes.insert(node_id, node_info);
                let cv = ChannelView::new(channel_id, my_node_num);
                let ghost cvv = cv;
                let ghost before = self.channel_views@;
                self.channel_views.insert(channel_id, cv);
                proof {
                    assert(self@.nodes =~= old(self)@.nodes.insert(node_id, x));
                    assert(self@.channel_views =~= old(self)@.channel_views.insert(channel_id, cvv@));
                    assert forall|k: ChannelId| #[trigger] self.channel_views@.contains_key(k) implies self.channel_views@[k].wf() by {
                        if k != channel_id {
                            assert(before.contains_key(k));
                        }
                    }
                }
            },
            None => {},
        }
    }

    /// Add a channel reported by the radio, once the device's own node number is known, with an
    /// empty conversation for it.
    pub fn add_channel(&mut self, channel: MCChannel)
        requires
            old(self).wf(),
        ensures
            final(self).wf(),
            channel_added(old(self)@, (channel.index, channel.name@), final(self)@),
    {
        match self.my_node_id {
            Some(my_node_num) => {
                let ghost c = channel;
                let index = self.channels.len() as i32;
                self.channels.push(channel);
                let channel_id = ChannelId::Channel(index);
                let cv = ChannelView::new(channel_id, my_node_num);
                let ghost cvv = cv;
                let ghost before = self.channel_views@;
                self.channel_views.insert(channel_id, cv);
                proof {
                    assert(self@.channels =~= old(self)@.channels.push((c.index, c.name@)));
                    assert(self@.channel_views =~= old(self)@.channel_views.insert(channel_id, cvv@));
                    assert forall|k: ChannelId| #[trigger] self.channel_views@.contains_key(k) implies self.channel_views@[k].wf() by {
                        if k != channel_id {
                            assert(before.contains_key(k));
                        }
                    }
                }
            },
            None => {},
        }
    }

    /// Rename the channel with the given number, if there is one.
    pub fn set_channel_name(&mut self, channel_number: i32, name: String)
        ensures
            final(self).wf() == old(self).wf(),
            final(self)@ == (DeviceModel {
                channels: if 0 <= channel_number < old(self)@.channels.len() {
                    old(self)@.channels.update(channel_number as int, (old(self)@.channels[channel_number as int].0, name@))
                } else {
                    old(self)@.channels
                },
                ..old(self)@
            }),
    {
        if 0 <= channel_number && (channel_number as usize) < self.channels.len() {
            let i = channel_number as usize;
            let index = self.channels[i].index;
            let ghost nm = name@;
            self.channels.set(i, MCChannel { index, name });
            proof {
                assert(self@.channels =~= old(self)@.channels.update(i as int, (old(self)@.channels[i as int].0, nm)));
            }
        }
    }

    /// Update a known node's position; the device's own position follows its own node's.
    fn update_node_position(&mut self, from: NodeId, position: MCPosition)
        ensures
            final(self).wf() == old(self).wf(),
            final(self)@ == node_position_updated(old(self)@, from, position),
    {
        match self.nodes.remove(&from) {
            Some(mut node) => {
                node.position = Some(position);
                let ghost nv = node@;
                self.nodes.insert(from, node);
                if self.my_node_id == Some(from) {
                    self.my_position = Some(position);
                }
                proof {
                    assert(self@.nodes =~= old(self)@.nodes.insert(from, nv));
                }
            },
            None => {
                proof { assert(self@.nodes =~= old(self)@.nodes); }
            },
        }
    }

    /// Update a known node's user.
    fn update_node_user(&mut self, from: NodeId, user: &MCUser)
        ensures
            final(self).wf() == old(self).wf(),
            final(self)@ == node_user_updated(old(self)@, from, user@),
    {
        match self.nodes.remove(&from) {
            Some(mut node) => {
                node.user = Some(user.clone());
                let ghost nv = node@;
                self.nodes.insert(from, node);
                proof {
                    assert(self@.nodes =~= old(self)@.nodes.insert(from, nv));
                }
            },
            None => {
                proof { assert(self@.nodes =~= old(self)@.nodes); }
            },
        }
    }
}


impl Device {
    /// Process an event reported by a radio's subscription at time `now` (seconds since the
    /// epoch), returning the work it asks of the app.
    pub fn process_subscription_event(&mut self, subscription_event: SubscriptionEvent, now: u64) -> (effects: Vec<Effect>)
        requires
            old(self).wf(),
        ensures
            final(self).wf(),
            processed(old(self)@, subscription_event, now, final(self)@, effects@),
    {
        let mut effects: Vec<Effect> = Vec::new();
        match subscription_event {
            SubscriptionEvent::Ready(radio_type) => {
                match radio_type {
                    RadioType::Meshtastic => { self.meshtastic_ready = true; },
                    RadioType::MeshCore => { self.meshcore_ready = true; },
                    RadioType::Unknown => {},
                }
            },
            SubscriptionEvent::ConnectingEvent(mac_address) => {
                self.connection_state = ConnectionState::Connecting(mac_address);
            },
            SubscriptionEvent::ConnectedEvent(ble_device, radio_type) => {
                self.connection_state = ConnectionState::Connected(ble_device.clone(), radio_type);
                match self.viewing_channel {
                    None => {
                        effects.push(Effect::DeviceAndChannelChanged(Some((ble_device, radio_type)), None));
                    },
                    Some(channel_id) => {
                        effects.push(Effect::ShowChannel(Some(channel_id)));
                    },
                }
            },
            SubscriptionEvent::DisconnectingEvent(mac_address) => {
                self.connection_state = ConnectionState::Disconnecting(mac_address);
            },
            SubscriptionEvent::DisconnectedEvent(id) => {
                if self.exit_pending {
                    effects.push(Effect::ExitProcess);
                } else {
                    self.connection_state = ConnectionState::Disconnected(Some(id), None);
                    self.channel_views.clear();
                    self.nodes = HashMap::new();
                    self.channels = Vec::new();
                    self.my_node_id = None;
                    self.viewing_channel = None;
                    effects.push(Effect::Navigate(meshchat::View::DeviceListView));
                    proof {
                        assert(self@.channel_views =~= Map::<ChannelId, ChannelViewModel>::empty());
                        assert(self@.nodes =~= Map::<NodeId, NodeView>::empty());
                        assert(self@.channels =~= Seq::<(i32, Seq<char>)>::empty());
                    }
                }
            },
            SubscriptionEvent::ConnectionError(id, summary, detail) => {
                self.connection_state = ConnectionState::Disconnected(Some(id), Some(summary.clone()));
                effects.push(Effect::Navigate(meshchat::View::DeviceListView));
                effects.push(Effect::Notify(NotificationKind::Error, summary, detail, None));
            },
            SubscriptionEvent::SendError(summary, detail) => {
                effects.push(Effect::Navigate(meshchat::View::DeviceListView));
                effects.push(Effect::Notify(NotificationKind::Error, summary, detail, None));
            },
            SubscriptionEvent::NotReady => {
                effects.push(Effect::Navigate(meshchat::View::DeviceListView));
                effects.push(Effect::Notify(
                    NotificationKind::Error,
                    String::from_str("Subscription not ready"),
                    String::from_str("An attempt was made to communicate to radio prior to the subscription being Ready"),
                    None,
                ));
            },
            SubscriptionEvent::MyNodeNum(my_node_num) => {
                self.my_node_id = Some(my_node_num);
            },
            SubscriptionEvent::MyUserInfo(my_user_info) => {
                self.my_user = Some(my_user_info);
            },
            SubscriptionEvent::MyPosition(my_position) => {
                self.my_position = Some(my_position);
            },
            SubscriptionEvent::NewChannel(channel) => {
                self.add_channel(channel);
            },
            SubscriptionEvent::NewNode(node_info) => {
                self.add_node(node_info);
            },
            SubscriptionEvent::RadioNotification(message, timestamp) => {
                effects.push(Effect::Notify(
                    NotificationKind::Info,
                    String::from_str("Radio Notification"),
                    message,
                    Some(timestamp),
                ));
            },
            SubscriptionEvent::MCMessageReceived(channel_id, id, from, mc_message, timestamp) => {
                let entry = ChannelViewEntry::new(id, from, mc_message, timestamp.0);
                effects = self.receive(channel_id, entry, now);
            },
            SubscriptionEvent::MessageACK(channel_id, message_id) => {
                self.ack_message(channel_id, message_id);
            },
            SubscriptionEvent::NewNodeInfo(channel_id, id, from, mc_user, timestamp) => {
                self.update_node_user(from, &mc_user);
                if self.show_user_updates {
                    let entry = ChannelViewEntry::new(id, from, MCMessage::UserMessage(mc_user), timestamp.0);
                    effects = self.receive(channel_id, entry, now);
                }
            },
            SubscriptionEvent::NewNodePosition(channel_id, id, from, position, timestamp) => {
                self.update_node_position(from, position);
                if self.show_position_updates {
                    let entry = ChannelViewEntry::new(id, from, MCMessage::PositionMessage(position), timestamp.0);
                    effects = self.receive(channel_id, entry, now);
                }
            },
            SubscriptionEvent::DeviceBatteryLevel(level) => {
                self.battery_level = level;
            },
            SubscriptionEvent::ChannelName(channel_number, name) => {
                self.set_channel_name(channel_number, name);
            },
        }
        proof {
            if effects@.len() == 1 {
                assert(effects@ =~= seq![effects@[0]]);
            } else if effects@.len() == 2 {
                assert(effects@ =~= seq![effects@[0], effects@[1]]);
            }
        }
        effects
    }
}


impl Device {
    /// Apply a message from the user interface or a subscription at time `now` (seconds since
    /// the epoch), returning the work it asks of the app.
    pub fn update(&mut self, device_view_message: DeviceViewMessage, now: u64) -> (effects: Vec<Effect>)
        requires
            old(self).wf(),
        ensures
            final(self).wf(),
            updated(old(self)@, device_view_message, now, final(self)@, effects@),
    {
        match device_view_message {
            DeviceViewMessage::ConnectRequest(ble_device, radio_type, channel_id) => {
                self.subscriber_send(
                    SubscriberMessage::Connect(ble_device, radio_type),
                    AfterSend::Navigate(meshchat::View::DeviceView(channel_id)),
                )
            },
            DeviceViewMessage::DisconnectRequest(exit) => {
                self.exit_pending = exit;
                self.subscriber_send(SubscriberMessage::Disconnect, AfterSend::Navigate(meshchat::View::DeviceListView))
            },
            DeviceViewMessage::ForwardMessage(channel_id) => {
                match self.forwarding_message.take() {
                    Some(entry) => {
                        let mut text = String::new();
                        push_str(&mut text, "FWD from '");
                        let name = short_name(&self.nodes, entry.from());
                        push_str(&mut text, name.as_str());
                        push_str(&mut text, "': ");
                        let body = entry.message().display_string();
                        push_str(&mut text, body.as_str());
                        push_str(&mut text, "\n");
                        proof {
                            assert(text@ =~= forward_text(short_name_of(old(self)@.nodes, entry@.from), entry@.message));
                        }
                        self.subscriber_send(
                            SubscriberMessage::SendText(text, channel_id, None),
                            AfterSend::ShowChannel(channel_id),
                        )
                    },
                    None => Vec::new(),
                }
            },
            DeviceViewMessage::SendEmojiReplyMessage(reply_to_id, emoji, channel_id) => {
                self.subscriber_send(SubscriberMessage::SendEmojiReply(emoji, channel_id, reply_to_id), AfterSend::Nothing)
            },
            DeviceViewMessage::SendTextMessage(message, channel_id, reply_to_id) => {
                self.subscriber_send(SubscriberMessage::SendText(message, channel_id, reply_to_id), AfterSend::Nothing)
            },
            DeviceViewMessage::SendPositionMessage(channel_id) => {
                match self.my_position {
                    Some(position) => self.subscriber_send(SubscriberMessage::SendPosition(channel_id, position), AfterSend::Nothing),
                    None => Vec::new(),
                }
            },
            DeviceViewMessage::SendSelfInfoMessage(channel_id) => {
                match &self.my_user {
                    Some(user) => self.subscriber_send(SubscriberMessage::SendSelfInfo(channel_id, user.clone()), AfterSend::Nothing),
                    None => Vec::new(),
                }
            },
            DeviceViewMessage::ShowChannel(channel_id) => self.channel_change(channel_id),
            DeviceViewMessage::SubscriptionMessage(subscription_event) => {
                self.process_subscription_event(subscription_event, now)
            },
            DeviceViewMessage::ChannelMsg(channel_id, msg) => {
                let ghost before = self.channel_views@;
                match self.channel_views.remove(&channel_id) {
                    Some(mut cv) => {
                        proof { assert(before.contains_key(channel_id)); }
                        let effects = cv.update(msg);
                        let ghost cvv = cv;
                        self.channel_views.insert(channel_id, cv);
                        proof {
                            assert(self.channel_views@ =~= before.insert(channel_id, cvv));
                            assert(self@.channel_views =~= old(self)@.channel_views.insert(channel_id, cvv@));
                            assert forall|k: ChannelId| #[trigger] self.channel_views@.contains_key(k) implies self.channel_views@[k].wf() by {
                                if k != channel_id {
                                    assert(before.contains_key(k));
                                }
                            }
                        }
                        effects
                    },
                    None => {
                        proof { assert(self@.channel_views =~= old(self)@.channel_views); }
                        Vec::new()
                    },
                }
            },
            DeviceViewMessage::SearchInput(filter) => {
                self.filter = filter;
                Vec::new()
            },
            DeviceViewMessage::AliasInput(alias) => {
                self.alias = alias;
                Vec::new()
            },
            DeviceViewMessage::StartEditingAlias(node_id) => {
                self.start_editing_alias(node_id);
                Vec::new()
            },
            DeviceViewMessage::StartForwardingMessage(channel_view_entry) => {
                self.forwarding_message = Some(channel_view_entry);
                Vec::new()
            },
            DeviceViewMessage::StopForwardingMessage => {
                self.forwarding_message = None;
                Vec::new()
            },
            DeviceViewMessage::ClearFilter => {
                self.filter = String::new();
                Vec::new()
            },
        }
    }
}


/// The battery indicator for a reported battery level: a level up to 100 is the charge in
/// percent; a higher level means the device is charging; no level, not known. With it, the text of
/// its tooltip.
pub open spec fn battery_shown(level: Option<u32>) -> (BatteryState, Seq<char>) {
    match level {
        Some(l) => if l <= 100 {
            (BatteryState::Charged(l), "Battery "@ + crate::text::decimal_digits(l as nat) + "%"@)
        } else {
            (BatteryState::Charging, "Charging"@)
        },
        None => (BatteryState::Unknown, "Battery Level Unknown"@),
    }
}

/// The name shown for a known node: its alias in the configuration, else its user's long name;
/// nothing for a node that is not known, or known without a user and an alias.
pub open spec fn aliased_long_name_of(d: DeviceModel, aliases: Map<NodeId, Seq<char>>, node_id: NodeId) -> Option<Seq<char>> {
    if !d.nodes.contains_key(node_id) {
        None
    } else if aliases.contains_key(node_id) {
        Some(aliases[node_id])
    } else {
        match d.nodes[node_id].user {
            Some(u) => Some(u.long_name),
            None => None,
        }
    }
}

impl Device {
    /// The battery indicator and its tooltip text for the connected radio.
    pub fn battery_display(&self) -> (r: (BatteryState, String))
        ensures
            (r.0, r.1@) == battery_shown(self@.battery_level),
    {
        match self.battery_level {
            Some(level) => {
                if level <= 100 {
                    let mut text = String::new();
                    push_str(&mut text, "Battery ");
                    crate::text::push_decimal(&mut text, level as u64);
                    push_str(&mut text, "%");
                    (BatteryState::Charged(level), text)
                } else {
                    (BatteryState::Charging, String::from_str("Charging"))
                }
            },
            None => (BatteryState::Unknown, String::from_str("Battery Level Unknown")),
        }
    }

    /// The name shown for a node: its alias, else its user's long name (nothing until the node is
    /// known).
    pub fn aliased_long_name(&self, config: &Config, node_id: NodeId) -> (r: Option<String>)
        ensures
            match r {
                Some(s) => aliased_long_name_of(self@, config@.aliases, node_id) == Some(s@),
                None => aliased_long_name_of(self@, config@.aliases, node_id) is None,
            },
    {
        match self.nodes.get(&node_id) {
            None => None,
            Some(node) => match config.aliases.get(&node_id) {
                Some(alias) => Some(alias.clone()),
                None => match &node.user {
                    Some(u) => Some(u.long_name.clone()),
                    None => None,
                },
            },
        }
    }
}
/// One step of listing the members of a sequence without duplicates that satisfy `pred`: the
/// list stays free of duplicates and holds exactly the members seen so far that satisfy `pred`.
proof fn lemma_listing_step(s: Seq<NodeId>, k: int, before: Seq<NodeId>, after: Seq<NodeId>, keep: bool, pred: spec_fn(NodeId) -> bool)
    requires
        s.no_duplicates(),
        0 <= k < s.len(),
        before.no_duplicates(),
        forall|y: NodeId| #[trigger] before.contains(y) <==> (s.take(k).contains(y) && pred(y)),
        keep == pred(s[k]),
        after == if keep { before.push(s[k]) } else { before },
    ensures
        after.no_duplicates(),
        forall|y: NodeId| #[trigger] after.contains(y) <==> (s.take(k + 1).contains(y) && pred(y)),
{
    let id = s[k];
    let t0 = s.take(k);
    let t1 = s.take(k + 1);
    assert(t1 =~= t0.push(id));
    assert(!t0.contains(id)) by {
        if t0.contains(id) {
            let j = choose|j: int| 0 <= j < t0.len() && #[trigger] t0[j] == id;
            assert(s[j] == s[k]);
        }
    }
    assert(t1[k] == id);
    assert(!before.contains(id));
    if keep {
        assert(after[after.len() - 1] == id);
        assert forall|i: int, j: int| 0 <= i < after.len() && 0 <= j < after.len() && i != j implies after[i] != after[j] by {
            if j == after.len() - 1 {
                assert(before[i] == after[i]);
                assert(before.contains(before[i]));
            } else if i == after.len() - 1 {
                assert(before[j] == after[j]);
                assert(before.contains(before[j]));
            } else {
                assert(before[i] == after[i] && before[j] == after[j]);
            }
        }
    }
    assert forall|y: NodeId| #[trigger] after.contains(y) <==> (t1.contains(y) && pred(y)) by {
        if y != id {
            if t1.contains(y) {
                let j = choose|j: int| 0 <= j < t1.len() && #[trigger] t1[j] == y;
                assert(t0[j] == y);
            }
            if t0.contains(y) {
                let j = choose|j: int| 0 <= j < t0.len() && #[trigger] t0[j] == y;
                assert(t1[j] == y);
            }
            if after.contains(y) {
                let j = choose|j: int| 0 <= j < after.len() && #[trigger] after[j] == y;
                assert(before[j] == y);
            }
            if before.contains(y) {
                let j = choose|j: int| 0 <= j < before.len() && #[trigger] before[j] == y;
                assert(after[j] == y);
            }
        }
    }
}

/// The name a channel is listed under: a Wi-Fi sign, two spaces and the channel's name.
pub open spec fn listed_channel_name(name: Seq<char>) -> Seq<char> {
    "🛜  "@ + name
}

/// The channels listed: the position and listed name of each channel whose listed name holds
/// the filter, in the order of the channels.
pub open spec fn channels_listed(channels: Seq<(i32, Seq<char>)>, filter: Seq<char>) -> Seq<(int, Seq<char>)>
    decreases channels.len(),
{
    if channels.len() == 0 {
        Seq::empty()
    } else {
        let rest = channels_listed(channels.drop_last(), filter);
        let name = listed_channel_name(channels.last().1);
        if seq_contains_run(name, filter) {
            rest.push((channels.len() - 1, name))
        } else {
            rest
        }
    }
}

/// A node is listed when it is not the device's own node and it is shown under a name (its
/// alias, or its user's long name) that holds the filter.
pub open spec fn node_listed(d: DeviceModel, aliases: Map<NodeId, Seq<char>>, id: NodeId) -> bool {
    &&& d.my_node_id != Some(id)
    &&& match aliased_long_name_of(d, aliases, id) {
        Some(name) => seq_contains_run(name, d.filter),
        None => false,
    }
}

/// The row of a listed channel: its unread count (of the kinds of message shown) when the
/// device has a conversation for the channel at that position, and no row otherwise.
pub open spec fn channel_row(d: DeviceModel, position: int) -> Option<nat> {
    let c = ChannelId::Channel(position as i32);
    if d.channel_views.contains_key(c) {
        Some(unread_in(d.channel_views[c].entries, d.show_position_updates, d.show_user_updates))
    } else {
        None
    }
}

impl Device {
    /// The channels to list, by position, each under its listed name: those whose listed name
    /// holds the filter (every name holds the empty filter). Each comes with its row: the unread
    /// count of its conversation, or `None` when there is none and the channel gets no row (the
    /// section is shown when the list is not empty).
    pub fn channel_list(&self) -> (r: Vec<(usize, String, Option<usize>)>)
        requires
            self.wf(),
        ensures
            r@.map_values(|p: (usize, String, Option<usize>)| (p.0 as int, p.1@)) == channels_listed(self@.channels, self@.filter),
            forall|k: int| 0 <= k < r@.len() ==> match #[trigger] r@[k].2 {
                Some(n) => channel_row(self@, r@[k].0 as int) == Some(n as nat),
                None => channel_row(self@, r@[k].0 as int) is None,
            },
    {
        let mut r: Vec<(usize, String, Option<usize>)> = Vec::new();
        let mut i: usize = 0;
        while i < self.channels.len()
            invariant
                self.wf(),
                i <= self.channels@.len(),
                r@.map_values(|p: (usize, String, Option<usize>)| (p.0 as int, p.1@)) == channels_listed(self@.channels.take(i as int), self@.filter),
                forall|k: int| 0 <= k < r@.len() ==> match #[trigger] r@[k].2 {
                    Some(n) => channel_row(self@, r@[k].0 as int) == Some(n as nat),
                    None => channel_row(self@, r@[k].0 as int) is None,
                },
            decreases self.channels.len() - i,
        {
            let mut name = String::new();
            push_str(&mut name, "🛜  ");
            push_str(&mut name, self.channels[i].name.as_str());
            let ghost before = r@;
            if str_contains(name.as_str(), self.filter.as_str()) {
                let c = ChannelId::Channel(i as i32);
                let row = match self.channel_views.get(&c) {
                    Some(v) => Some(v.unread_count(self.show_position_updates, self.show_user_updates)),
                    None => None,
                };
                r.push((i, name, row));
                assert(r@.map_values(|p: (usize, String, Option<usize>)| (p.0 as int, p.1@))
                    =~= before.map_values(|p: (usize, String, Option<usize>)| (p.0 as int, p.1@)).push((i as int, listed_channel_name(self@.channels[i as int].1))));
            }
            assert(self@.channels.take(i + 1).drop_last() =~= self@.channels.take(i as int));
            i = i + 1;
        }
        assert(self@.channels.take(i as int) =~= self@.channels);
        r
    }

    /// The favourite nodes to list, each once and in no particular order: the favourites that
    /// are listed (see [node_listed]).
    pub fn favourite_nodes(&self, config: &Config) -> (ids: Vec<NodeId>)
        ensures
            ids@.no_duplicates(),
            ids@.to_set() == config@.fav_nodes.filter(|id: NodeId| node_listed(self@, config@.aliases, id)),
    {
        let mut ids: Vec<NodeId> = Vec::new();
        for x in it: config.fav_nodes.iter()
            invariant
                it.seq() == vstd::std_specs::hash::spec_hash_keys_iter(&config.fav_nodes).remaining(),
                ids@.no_duplicates(),
                forall|y: NodeId| #[trigger] ids@.contains(y) <==> (it.seq().unref().take(it.index()).contains(y)
                    && node_listed(self@, config@.aliases, y)),
        {
            let id = *x;
            let k = Ghost(it.index());
            let keep = self.listed(config, id);
            let ghost before = ids@;
            if keep {
                ids.push(id);
            }
            proof {
                lemma_listing_step(it.seq().unref(), k@, before, ids@, keep, |y: NodeId| node_listed(self@, config@.aliases, y));
            }
        }
        proof {
            let s = vstd::std_specs::hash::spec_hash_keys_iter(&config.fav_nodes).remaining().unref();
            assert(s.take(s.len() as int) =~= s);
            assert(ids@.to_set() =~= config@.fav_nodes.filter(|id: NodeId| node_listed(self@, config@.aliases, id)));
        }
        ids
    }

    /// The other nodes to list, each once and in no particular order: the known nodes that are
    /// not favourites and are listed (see [node_listed]).
    pub fn nodes_list(&self, config: &Config) -> (ids: Vec<NodeId>)
        ensures
            ids@.no_duplicates(),
            ids@.to_set() == self@.nodes.dom().filter(|id: NodeId| !config@.fav_nodes.contains(id) && node_listed(self@, config@.aliases, id)),
    {
        let mut ids: Vec<NodeId> = Vec::new();
        for x in it: self.nodes.keys()
            invariant
                it.seq() == vstd::std_specs::hash::spec_keys_iter(&self.nodes).remaining(),
                ids@.no_duplicates(),
                forall|y: NodeId| #[trigger] ids@.contains(y) <==> (it.seq().unref().take(it.index()).contains(y)
                    && !config@.fav_nodes.contains(y) && node_listed(self@, config@.aliases, y)),
        {
            let id = *x;
            let k = Ghost(it.index());
            let keep = !config.fav_nodes.contains(&id) && self.listed(config, id);
            let ghost before = ids@;
            if keep {
                ids.push(id);
            }
            proof {
                lemma_listing_step(it.seq().unref(), k@, before, ids@, keep,
                    |y: NodeId| !config@.fav_nodes.contains(y) && node_listed(self@, config@.aliases, y));
            }
        }
        proof {
            let s = vstd::std_specs::hash::spec_keys_iter(&self.nodes).remaining().unref();
            assert(s.take(s.len() as int) =~= s);
            assert(self@.nodes.dom() =~= self.nodes@.dom());
            assert(ids@.to_set() =~= self@.nodes.dom().filter(|id: NodeId| !config@.fav_nodes.contains(id) && node_listed(self@, config@.aliases, id)));
        }
        ids
    }

    /// Whether a node is listed (see [node_listed]).
    fn listed(&self, config: &Config, id: NodeId) -> (b: bool)
        ensures
            b == node_listed(self@, config@.aliases, id),
    {
        match self.aliased_long_name(config, id) {
            Some(name) => str_contains(name.as_str(), self.filter.as_str()) && self.my_node_id != Some(id),
            None => false,
        }
    }
}

/// A message received in a conversation the device has is shown there, while the whole history
/// is kept: the conversation then holds the message as received, unseen and not acknowledged
/// (emoji replies excepted, which go to the message they answer).
pub proof fn lemma_received_message_shown(d: DeviceModel, c: ChannelId, id: MessageId, from: NodeId, m: MCMessage, ts: TimeStamp, now: u64, n: DeviceModel, effects: Seq<Effect>)
    requires
        d.channel_views.contains_key(c),
        d.history_length == HistoryLength::All,
        !(m is EmojiReply),
        processed(d, SubscriptionEvent::MCMessageReceived(c, id, from, m, ts), now, n, effects),
    ensures
        n.channel_views.contains_key(c),
        n.channel_views[c].entries.contains(received_entry(id, from, m, ts)),
{
    lemma_received_message_kept(d.channel_views[c], n.channel_views[c], received_entry(id, from, m, ts), now);
}

/// A node reported once the device knows its own node number, and not marked ignored, is
/// recorded as reported (with a user or without) and gets a conversation of its own; when it is
/// the device's own node, its position and user become the device's. Any other report changes
/// nothing. Either way no work is asked of the app.
pub proof fn lemma_new_node_recorded(d: DeviceModel, x: MCNodeInfo, now: u64, n: DeviceModel, effects: Seq<Effect>)
    requires
        updated(d, DeviceViewMessage::SubscriptionMessage(SubscriptionEvent::NewNode(x)), now, n, effects),
    ensures
        effects.len() == 0,
        !x@.is_ignored && d.my_node_id is Some ==> {
            &&& n.nodes == d.nodes.insert(x@.node_id, x@)
            &&& n.nodes[x@.node_id] == x@
            &&& n.channel_views.contains_key(ChannelId::Node(x@.node_id))
            &&& d.my_node_id == Some(x@.node_id) ==> n.my_user == x@.user && n.my_position == x@.position
            &&& d.my_node_id != Some(x@.node_id) ==> n.my_user == d.my_user && n.my_position == d.my_position
        },
        x@.is_ignored || d.my_node_id is None ==> n == d,
{
}

/// The radio a request to send goes to: for a connect request the connected radio or else the
/// one asked for; for any other request the connected radio.
pub open spec fn radio_of_request(d: DeviceModel, msg: DeviceViewMessage) -> Option<RadioType> {
    match msg {
        DeviceViewMessage::ConnectRequest(_, rt, _) => radio_for(d, Some(rt)),
        _ => radio_for(d, None),
    }
}

/// A request to connect, or to send a text or an emoji reply, that no ready subscription can
/// take (there is no radio to send it to, or that radio's subscription has not said it is ready)
/// changes nothing, hands nothing to a radio, and only reports that the subscription is not
/// ready.
pub proof fn lemma_not_ready_sends_nothing(d: DeviceModel, msg: DeviceViewMessage, now: u64, n: DeviceModel, effects: Seq<Effect>)
    requires
        msg is ConnectRequest || msg is SendTextMessage || msg is SendEmojiReplyMessage,
        radio_of_request(d, msg) is None || !radio_ready(d, radio_of_request(d, msg)->0),
        updated(d, msg, now, n, effects),
    ensures
        n == d,
        effects == seq![Effect::ReportNotReady],
{
    assert(effects =~= seq![Effect::ReportNotReady]);
}

} // verus!
