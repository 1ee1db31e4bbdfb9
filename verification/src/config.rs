//! The app's settings: the device and conversation last used, favourite nodes, aliases, how much
//! history to keep and which updates to show.
use crate::channel_id::{ChannelId, NodeId};
use crate::device_list::RadioType;
use crate::strmap::StrMap;
use crate::text::{decimal_digits, push_decimal, push_str};
use std::collections::{HashMap, HashSet};
use vstd::prelude::*;

verus! {

/// How much of each conversation's history to keep.
#[derive(Debug, Clone, Copy, PartialEq, Eq, Structural)]
pub enum HistoryLength {
    /// Keep every message.
    All,
    /// Keep the last so many messages.
    NumberOfMessages(usize),
    /// Keep the messages of the last so many seconds.
    Duration(u64),
}

/// Seconds in eight hours.
pub const EIGHT_HOURS_IN_SECONDS: u64 = 28800;

/// Seconds in a day.
pub const ONE_DAY_IN_SECONDS: u64 = 86400;

/// The text shown for a history length setting.
pub open spec fn history_length_text(h: HistoryLength) -> Seq<char> {
    match h {
        HistoryLength::All => "Store all messages"@,
        HistoryLength::NumberOfMessages(n) => "Store last "@ + decimal_digits(n as nat) + " messages"@,
        HistoryLength::Duration(secs) => "Store all messages in last "@ + decimal_digits(
            (secs / 3600) as nat,
        ) + " hours"@,
    }
}

impl HistoryLength {
    /// The choices offered in the settings, in the order they are offered.
    pub fn all_choices() -> (r: [HistoryLength; 5])
        ensures
            r@ == seq![
                HistoryLength::All,
                HistoryLength::NumberOfMessages(10),
                HistoryLength::NumberOfMessages(100),
                HistoryLength::Duration(EIGHT_HOURS_IN_SECONDS),
                HistoryLength::Duration(ONE_DAY_IN_SECONDS),
            ],
    {
        let r = [
            HistoryLength::All,
            HistoryLength::NumberOfMessages(10),
            HistoryLength::NumberOfMessages(100),
            HistoryLength::Duration(EIGHT_HOURS_IN_SECONDS),
            HistoryLength::Duration(ONE_DAY_IN_SECONDS),
        ];
        assert(r@ =~= seq![
            HistoryLength::All,
            HistoryLength::NumberOfMessages(10),
            HistoryLength::NumberOfMessages(100),
            HistoryLength::Duration(EIGHT_HOURS_IN_SECONDS),
            HistoryLength::Duration(ONE_DAY_IN_SECONDS),
        ]);
        r
    }

    /// True when every message is kept.
    pub fn is_all(&self) -> (b: bool)
        ensures
            b == (*self is All),
    {
        matches!(self, HistoryLength::All)
    }

    /// Render the setting as it is shown.
    pub fn display_string(&self) -> (s: String)
        ensures
            s@ == history_length_text(*self),
    {
        let mut s = String::new();
        match self {
            HistoryLength::All => push_str(&mut s, "Store all messages"),
            HistoryLength::NumberOfMessages(n) => {
                push_str(&mut s, "Store last ");
                push_decimal(&mut s, *n as u64);
                push_str(&mut s, " messages");
            },
            HistoryLength::Duration(secs) => {
                push_str(&mut s, "Store all messages in last ");
                push_decimal(&mut s, *secs / 3600);
                push_str(&mut s, " hours");
            },
        }
        s
    }
}

impl Default for HistoryLength {
    fn default() -> (h: Self)
        ensures
            h == HistoryLength::All,
    {
        HistoryLength::All
    }
}


/// The app's settings.
#[derive(Debug)]
pub struct Config {
    /// The device last connected to, with its radio type.
    pub ble_device: Option<(String, RadioType)>,
    /// The conversation last shown.
    pub channel_id: Option<ChannelId>,
    /// The user's favourite nodes.
    pub fav_nodes: HashSet<NodeId>,
    /// Aliases given to nodes.
    pub aliases: HashMap<NodeId, String>,
    /// Aliases given to devices, by device name.
    pub device_aliases: StrMap<String>,
    /// How much history to keep in each conversation.
    pub history_length: HistoryLength,
    /// Whether position updates are shown in conversations (or only update the node's position).
    pub show_position_updates: bool,
    /// Whether user updates are shown in conversations (or only update the node's user).
    pub show_user_updates: bool,
    /// Whether to reconnect to the last device at start-up.
    pub auto_reconnect: bool,
    /// Whether to check for a newer release at start-up.
    pub auto_update_startup: bool,
}

/// The contents of a [Config] as values.
pub struct ConfigModel {
    pub ble_device: Option<(Seq<char>, RadioType)>,
    pub channel_id: Option<ChannelId>,
    pub fav_nodes: Set<NodeId>,
    pub aliases: Map<NodeId, Seq<char>>,
    pub device_aliases: Map<Seq<char>, Seq<char>>,
    pub history_length: HistoryLength,
    pub show_position_updates: bool,
    pub show_user_updates: bool,
    pub auto_reconnect: bool,
    pub auto_update_startup: bool,
}

impl View for Config {
    type V = ConfigModel;

    open spec fn view(&self) -> ConfigModel {
        ConfigModel {
            ble_device: match self.ble_device {
                Some((d, r)) => Some((d@, r)),
                None => None,
            },
            channel_id: self.channel_id,
            fav_nodes: self.fav_nodes@,
            aliases: self.aliases@.map_values(|a: String| a@),
            device_aliases: self.device_aliases@.map_values(|a: String| a@),
            history_length: self.history_length,
            show_position_updates: self.show_position_updates,
            show_user_updates: self.show_user_updates,
            auto_reconnect: self.auto_reconnect,
            auto_update_startup: self.auto_update_startup,
        }
    }
}

/// When the show-position-updates setting is missing, position updates are shown.
pub fn default_show_position() -> (b: bool)
    ensures
        b,
{
    true
}

/// When the show-user-updates setting is missing, user updates are shown.
pub fn default_show_user() -> (b: bool)
    ensures
        b,
{
    true
}

/// When the auto-update setting is missing, the app checks for updates at start-up.
pub fn default_auto_update_startup() -> (b: bool)
    ensures
        b,
{
    true
}

/// When the auto-reconnect setting is missing, the app reconnects at start-up.
pub fn default_auto_reconnect() -> (b: bool)
    ensures
        b,
{
    true
}

impl Config {
    /// Well-formed: no device alias is given twice.
    pub open spec fn wf(&self) -> bool {
        self.device_aliases.wf()
    }
}

/// The settings a fresh start has: no device or conversation remembered, no favourites or
/// aliases, all history kept, and every setting with a missing value on (as reading an empty
/// settings file gives).
pub open spec fn is_default_config(c: ConfigModel) -> bool {
    &&& c.ble_device is None
    &&& c.channel_id is None
    &&& c.fav_nodes == Set::<NodeId>::empty()
    &&& c.aliases == Map::<NodeId, Seq<char>>::empty()
    &&& c.device_aliases == Map::<Seq<char>, Seq<char>>::empty()
    &&& c.history_length == HistoryLength::All
    &&& c.show_position_updates
    &&& c.show_user_updates
    &&& c.auto_reconnect
    &&& c.auto_update_startup
}

impl Default for Config {
    /// The default settings (see [is_default_config]).
    fn default() -> (c: Self)
        ensures
            c.wf(),
            is_default_config(c@),
    {
        let c = Config {
            ble_device: None,
            channel_id: None,
            fav_nodes: HashSet::new(),
            aliases: HashMap::new(),
            device_aliases: StrMap::new(),
            history_length: HistoryLength::All,
            show_position_updates: default_show_position(),
            show_user_updates: default_show_user(),
            auto_reconnect: default_auto_reconnect(),
            auto_update_startup: default_auto_update_startup(),
        };
        assert(c@.aliases =~= Map::<NodeId, Seq<char>>::empty());
        assert(c@.device_aliases =~= Map::<Seq<char>, Seq<char>>::empty());
        c
    }
}

} // verus!
