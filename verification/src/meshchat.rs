//! The app as a whole: which view is shown, the settings, the device list, the connected device,
//! and the dialogs open.
use crate::channel_id::{ChannelId, NodeId};
use crate::config::{is_default_config, Config, ConfigModel, HistoryLength};
use crate::device::{
    aliased_long_name_of, radio_ready, SubscriberMessage, channel_changed, total_unread, updated, ConnectionState, Device, DeviceModel, DeviceViewMessage,
};
use crate::device_list::{list_updated, DeviceList, DeviceListEvent, DeviceListModel, RadioType};
use crate::effect::{just, AfterSend, Effect, NotificationKind};
use crate::model::{location_url, location_url_text, MCPosition, MCUser, MCUserView, TimeStamp};
use crate::text::{decimal_digits, push_decimal, push_str};
use std::collections::{HashMap, HashSet};
use vstd::prelude::*;
use vstd::view::View as _;

verus! {

broadcast use vstd::std_specs::hash::group_hash_axioms;

/// The main views of the app.
#[derive(Debug, Clone, Copy, PartialEq, Eq, Structural)]
pub enum View {
    /// The list of discovered devices.
    DeviceListView,
    /// The connected device, showing a conversation or (when `None`) its list of conversations.
    DeviceView(Option<ChannelId>),
}

impl Default for View {
    fn default() -> (v: Self)
        ensures
            v == View::DeviceListView,
    {
        View::DeviceListView
    }
}


/// The messages the app responds to: from the user interface, from the device list and the
/// device, and the app's own requests.
#[derive(Debug)]
pub enum Message {
    Navigation(View),
    DeviceListViewEvent(DeviceListEvent),
    DeviceViewEvent(DeviceViewMessage),
    Exit,
    ConfigLoaded(Config),
    DeviceAndChannelConfigChange(Option<(String, RadioType)>, Option<ChannelId>),
    ShowLocation(MCPosition),
    ShowUserInfo(MCUser),
    CloseShowUser,
    OpenUrl(String),
    /// A notification: summary, detail and time.
    AppNotification(String, String, TimeStamp),
    /// An error: summary, detail and time.
    AppError(String, String, TimeStamp),
    /// A critical error: summary, detail and time.
    CriticalAppError(String, String, TimeStamp),
    RemoveNotification(usize),
    ToggleNodeFavourite(NodeId),
    CopyToClipBoard(String),
    AddNodeAlias(NodeId, String),
    RemoveNodeAlias(NodeId),
    /// Give a device (by its name) an alias.
    AddDeviceAlias(String, String),
    RemoveDeviceAlias(String),
    /// The Tab key was pressed; the flag tells whether Shift was held.
    TabPressed(bool),
    /// The Escape key was pressed.
    EscapePressed,
    /// The window was asked to close.
    CloseRequested,
    OpenSettingsDialog,
    CloseSettingsDialog,
    ToggleShowPositionUpdates,
    ToggleShowUserUpdates,
    ToggleAutoReconnect,
    ToggleAutoUpdate,
    HistoryLengthSelected(HistoryLength),
    /// Nothing to do.
    Nothing,
}

/// The app: its settings, the view shown, the device list, the connected device and the dialogs
/// open.
#[derive(Debug)]
pub struct MeshChat {
    config: Config,
    current_view: View,
    device_list: DeviceList,
    device: Device,
    showing_settings: bool,
    show_user: Option<MCUser>,
}

/// The contents of a [MeshChat] as values.
pub struct MeshChatModel {
    pub config: ConfigModel,
    pub current_view: View,
    pub device_list: DeviceListModel,
    pub device: DeviceModel,
    pub showing_settings: bool,
    pub show_user: Option<MCUserView>,
}

impl vstd::view::View for MeshChat {
    type V = MeshChatModel;

    closed spec fn view(&self) -> MeshChatModel {
        MeshChatModel {
            config: self.config@,
            current_view: self.current_view,
            device_list: self.device_list@,
            device: self.device@,
            showing_settings: self.showing_settings,
            show_user: match self.show_user {
                Some(u) => Some(u@),
                None => None,
            },
        }
    }
}

/// The window title: the app's name and version, and the number of unread messages when there
/// are any.
pub open spec fn title_text(version: Seq<char>, unread: nat) -> Seq<char> {
    if unread > 0 {
        "MeshChat "@ + version + " ("@ + decimal_digits(unread) + " unread)"@
    } else {
        "MeshChat "@ + version
    }
}

/// The app after its settings changed to `c`: the device takes the history length and the
/// display settings.
pub open spec fn with_settings(a: MeshChatModel, c: ConfigModel) -> MeshChatModel {
    MeshChatModel {
        config: c,
        device: DeviceModel {
            history_length: c.history_length,
            show_position_updates: c.show_position_updates,
            show_user_updates: c.show_user_updates,
            ..a.device
        },
        ..a
    }
}

/// The app after its settings changed to `c`, and a save of the settings as the only work.
pub open spec fn config_saved(a: MeshChatModel, c: ConfigModel, n: MeshChatModel, effects: Seq<Effect>) -> bool {
    &&& n == (MeshChatModel { config: c, ..a })
    &&& effects == seq![Effect::SaveConfig]
}

/// The app after a message, and the work it asks of the app around it.
#[verifier::opaque]
pub open spec fn app_updated(a: MeshChatModel, msg: Message, now: u64, n: MeshChatModel, effects: Seq<Effect>) -> bool {
    match msg {
        Message::Navigation(view) => match view {
            View::DeviceListView => {
                &&& n == (MeshChatModel { current_view: view, ..a })
                &&& effects.len() == 0
            },
            View::DeviceView(c) => {
                &&& n == (MeshChatModel { current_view: view, device: n.device, ..a })
                &&& channel_changed(a.device, c, n.device, effects)
            },
        },
        Message::DeviceListViewEvent(ev) => {
            &&& n == (MeshChatModel { device_list: n.device_list, ..a })
            &&& list_updated(a.device_list, ev, n.device_list, effects)
        },
        Message::DeviceViewEvent(m) => {
            &&& n == (MeshChatModel { device: n.device, ..a })
            &&& updated(a.device, m, now, n.device, effects)
        },
        Message::Exit => {
            &&& n == a
            &&& effects == seq![Effect::CloseWindow]
        },
        Message::ConfigLoaded(c) => {
            let s = with_settings(a, c@);
            let check = if c.auto_update_startup { seq![Effect::CheckForUpdate] } else { Seq::<Effect>::empty() };
            &&& n == s
            &&& match c.ble_device {
                Some((ble, rt)) => if c.auto_reconnect {
                    &&& effects.len() == check.len() + 1
                    &&& effects.subrange(0, check.len() as int) == check
                    &&& updated(s.device, DeviceViewMessage::ConnectRequest(ble, rt, c.channel_id), now, s.device,
                        effects.subrange(check.len() as int, effects.len() as int))
                } else {
                    effects == check
                },
                None => effects == check,
            }
        },
        Message::DeviceAndChannelConfigChange(ble, c) => config_saved(a, ConfigModel {
            ble_device: match ble {
                Some((d, r)) => Some((d@, r)),
                None => None,
            },
            channel_id: c,
            ..a.config
        }, n, effects),
        Message::ShowLocation(p) => {
            &&& n == a
            &&& effects.len() == 1
            &&& effects[0] matches Effect::OpenUrl(u) && u@ == location_url_text(p)
        },
        Message::ShowUserInfo(u) => {
            &&& n == (MeshChatModel { show_user: Some(u@), ..a })
            &&& effects.len() == 0
        },
        Message::CloseShowUser => {
            &&& n == (MeshChatModel { show_user: None, ..a })
            &&& effects.len() == 0
        },
        Message::OpenUrl(u) => {
            &&& n == a
            &&& effects == seq![Effect::OpenUrl(u)]
        },
        Message::AppNotification(s, d, t) => {
            &&& n == a
            &&& effects == seq![Effect::Notify(NotificationKind::Info, s, d, Some(t))]
        },
        Message::AppError(s, d, t) => {
            &&& n == a
            &&& effects == seq![Effect::Notify(NotificationKind::Error, s, d, Some(t))]
        },
        Message::CriticalAppError(s, d, t) => {
            &&& n == a
            &&& effects == seq![Effect::Notify(NotificationKind::Critical, s, d, Some(t))]
        },
        Message::RemoveNotification(id) => {
            &&& n == a
            &&& effects == seq![Effect::RemoveNotification(id)]
        },
        Message::ToggleNodeFavourite(x) => config_saved(a, ConfigModel {
            fav_nodes: if a.config.fav_nodes.contains(x) {
                a.config.fav_nodes.remove(x)
            } else {
                a.config.fav_nodes.insert(x)
            },
            ..a.config
        }, n, effects),
        Message::CopyToClipBoard(t) => {
            &&& n == a
            &&& effects == seq![Effect::CopyToClipboard(t)]
        },
        Message::AddNodeAlias(x, alias) => {
            let a1 = MeshChatModel {
                device: DeviceModel { editing_alias: None, alias: Seq::empty(), ..a.device },
                ..a
            };
            if alias@.len() > 0 {
                config_saved(a1, ConfigModel { aliases: a.config.aliases.insert(x, alias@), ..a.config }, n, effects)
            } else {
                &&& n == a1
                &&& effects.len() == 0
            }
        },
        Message::RemoveNodeAlias(x) => config_saved(a, ConfigModel { aliases: a.config.aliases.remove(x), ..a.config }, n, effects),
        Message::AddDeviceAlias(dev, alias) => {
            let a1 = MeshChatModel {
                device_list: DeviceListModel { editing_alias: None, alias: Seq::empty(), ..a.device_list },
                ..a
            };
            if alias@.len() > 0 {
                config_saved(a1, ConfigModel { device_aliases: a.config.device_aliases.insert(dev@, alias@), ..a.config }, n, effects)
            } else {
                &&& n == a1
                &&& effects.len() == 0
            }
        },
        Message::RemoveDeviceAlias(dev) => config_saved(a, ConfigModel { device_aliases: a.config.device_aliases.remove(dev@), ..a.config }, n, effects),
        Message::TabPressed(shift) => {
            &&& n == a
            &&& effects == seq![if shift { Effect::FocusPrevious } else { Effect::FocusNext }]
        },
        Message::EscapePressed => {
            &&& n == (MeshChatModel {
                showing_settings: false,
                show_user: None,
                device: DeviceModel {
                    editing_alias: None,
                    alias: Seq::empty(),
                    forwarding_message: None,
                    channel_views: match a.device.viewing_channel {
                        Some(c) => if a.device.channel_views.contains_key(c) {
                            a.device.channel_views.insert(c, crate::channel_view::ChannelViewModel { preparing_reply: None, ..a.device.channel_views[c] })
                        } else {
                            a.device.channel_views
                        },
                        None => a.device.channel_views,
                    },
                    ..a.device
                },
                device_list: DeviceListModel { editing_alias: None, alias: Seq::empty(), ..a.device_list },
                ..a
            })
            &&& effects.len() == 0
        },
        Message::CloseRequested => match a.device.connection_state {
            ConnectionState::Connected(_, _) => {
                &&& n == (MeshChatModel { device: n.device, ..a })
                &&& updated(a.device, DeviceViewMessage::DisconnectRequest(true), now, n.device, effects)
            },
            _ => {
                &&& n == a
                &&& effects == seq![Effect::CloseWindow]
            },
        },
        Message::OpenSettingsDialog => {
            &&& n == (MeshChatModel { showing_settings: true, ..a })
            &&& effects.len() == 0
        },
        Message::CloseSettingsDialog => {
            &&& n == (MeshChatModel { showing_settings: false, ..a })
            &&& effects.len() == 0
        },
        Message::ToggleShowPositionUpdates => {
            &&& n == (MeshChatModel {
                config: ConfigModel { show_position_updates: !a.config.show_position_updates, ..a.config },
                device: DeviceModel { show_position_updates: !a.config.show_position_updates, ..a.device },
                ..a
            })
            &&& effects == seq![Effect::SaveConfig]
        },
        Message::ToggleShowUserUpdates => {
            &&& n == (MeshChatModel {
                config: ConfigModel { show_user_updates: !a.config.show_user_updates, ..a.config },
                device: DeviceModel { show_user_updates: !a.config.show_user_updates, ..a.device },
                ..a
            })
            &&& effects == seq![Effect::SaveConfig]
        },
        Message::ToggleAutoReconnect => config_saved(a, ConfigModel { auto_reconnect: !a.config.auto_reconnect, ..a.config }, n, effects),
        Message::ToggleAutoUpdate => config_saved(a, ConfigModel { auto_update_startup: !a.config.auto_update_startup, ..a.config }, n, effects),
        Message::HistoryLengthSelected(l) => config_saved(a, ConfigModel { history_length: l, ..a.config }, n, effects),
        Message::Nothing => {
            &&& n == a
            &&& effects.len() == 0
        },
    }
}


/// Only navigation, device events, a loaded configuration and a close request depend on the time.
proof fn lemma_app_updated_now(a: MeshChatModel, msg: Message, now: u64)
    ensures
        !(msg is Navigation || msg is DeviceViewEvent || msg is ConfigLoaded || msg is CloseRequested) ==>
            forall|n: MeshChatModel, e: Seq<Effect>| app_updated(a, msg, 0, n, e) ==> #[trigger] app_updated(a, msg, now, n, e),
{
    reveal(app_updated);
}

/// A count of unread messages as the app holds it: the count, or the largest `usize` when it
/// does not fit.
pub open spec fn saturated(n: nat) -> nat {
    if n > usize::MAX { usize::MAX as nat } else { n }
}

/// The messages the library can take: a loaded configuration must be well-formed.
pub open spec fn message_wf(m: Message) -> bool {
    match m {
        Message::ConfigLoaded(c) => c.wf(),
        _ => true,
    }
}

impl Default for MeshChat {
    /// The app at start-up: default settings, the device list shown, no device connected and no
    /// dialog open.
    fn default() -> (m: Self)
        ensures
            m.wf(),
            m@.current_view == View::DeviceListView,
            !m@.showing_settings,
            m@.show_user is None,
            is_default_config(m@.config),
            m@.device.connection_state == ConnectionState::Disconnected(None, None),
            m@.device_list.devices == Map::<Seq<char>, (Seq<char>, RadioType)>::empty(),
    {
        MeshChat {
            config: Config::default(),
            current_view: View::DeviceListView,
            device_list: DeviceList::default(),
            device: Device::default(),
            showing_settings: false,
            show_user: None,
        }
    }
}

impl MeshChat {
    /// Well-formed: the settings, the device list and the device are.
    pub closed spec fn wf(&self) -> bool {
        &&& self.config.wf()
        &&& self.device_list.wf()
        &&& self.device.wf()
    }

    /// The unread messages over all conversations of the device, counting the kinds of message
    /// that the settings show.
    pub closed spec fn unread_total(&self) -> nat {
        total_unread(self.device.conversation_list(), self.config.show_position_updates, self.config.show_user_updates)
    }

    /// The settings.
    pub fn config(&self) -> (r: &Config)
        ensures
            r@ == self@.config,
            self.wf() ==> r.wf(),
    {
        &self.config
    }

    /// The view shown.
    pub fn current_view(&self) -> (r: View)
        ensures
            r == self@.current_view,
    {
        self.current_view
    }

    /// The list of devices found.
    pub fn device_list(&self) -> (r: &DeviceList)
        ensures
            r@ == self@.device_list,
            self.wf() ==> r.wf(),
    {
        &self.device_list
    }

    /// The connected device; the unread count of the title is the one it gives for the app's
    /// display settings.
    pub fn device(&self) -> (r: &Device)
        ensures
            r@ == self@.device,
            self.wf() ==> r.wf(),
            self.unread_total() == total_unread(r.conversation_list(), self@.config.show_position_updates, self@.config.show_user_updates),
    {
        &self.device
    }

    /// Whether the settings dialog is open.
    pub fn showing_settings(&self) -> (r: bool)
        ensures
            r == self@.showing_settings,
    {
        self.showing_settings
    }

    /// The user whose details are shown, if any.
    pub fn show_user(&self) -> (r: &Option<MCUser>)
        ensures
            match *r {
                Some(u) => self@.show_user == Some(u@),
                None => self@.show_user is None,
            },
    {
        &self.show_user
    }

    /// The window title for app version `version`: "MeshChat" and the version, then the number
    /// of unread messages in brackets when there are any.
    pub fn title(&self, version: &str) -> (s: String)
        requires
            self.wf(),
        ensures
            s@ == title_text(version@, saturated(self.unread_total())),
    {
        let unread_count = self.device.unread_count(self.config.show_position_updates, self.config.show_user_updates);
        let mut s = String::new();
        push_str(&mut s, "MeshChat ");
        push_str(&mut s, version);
        if unread_count > 0 {
            push_str(&mut s, " (");
            push_decimal(&mut s, unread_count as u64);
            push_str(&mut s, " unread)");
        }
        s
    }

    /// The map link that shows a position.
    pub fn location_url(position: &MCPosition) -> (s: String)
        ensures
            s@ == location_url_text(*position),
    {
        location_url(position)
    }

    /// Leave every interactive mode: dialogs close, alias editing and forwarding stop, and the
    /// reply being prepared is dropped.
    pub fn escape_pressed(&mut self)
        requires
            old(self).wf(),
        ensures
            final(self).wf(),
            app_updated(old(self)@, Message::EscapePressed, 0, final(self)@, Seq::empty()),
    {
        reveal(app_updated);
        self.showing_settings = false;
        self.show_user = None;
        self.device.cancel_interactive();
        self.device_list.stop_editing_alias();
    }

    /// Navigate to a view; showing the device view shows its conversation.
    fn navigate(&mut self, view: View, now: u64) -> (effects: Vec<Effect>)
        requires
            old(self).wf(),
        ensures
            final(self).wf(),
            app_updated(old(self)@, Message::Navigation(view), now, final(self)@, effects@),
    {
        reveal(app_updated);
        self.current_view = view;
        match view {
            View::DeviceListView => Vec::new(),
            View::DeviceView(channel_id) => self.device.update(DeviceViewMessage::ShowChannel(channel_id), now),
        }
    }

    /// Take a loaded configuration: the device takes its history length and display settings,
    /// then a check for updates and a reconnection to the last device follow as it asks.
    fn config_loaded(&mut self, config: Config, now: u64) -> (effects: Vec<Effect>)
        requires
            old(self).wf(),
            config.wf(),
        ensures
            final(self).wf(),
            app_updated(old(self)@, Message::ConfigLoaded(config), now, final(self)@, effects@),
    {
        reveal(app_updated);
        let ghost c = config;
        self.device.set_history_length(config.history_length);
        self.device.set_show_position_updates(config.show_position_updates);
        self.device.set_show_user_updates(config.show_user_updates);
        self.config = config;
        let mut effects: Vec<Effect> = Vec::new();
        if self.config.auto_update_startup {
            effects.push(Effect::CheckForUpdate);
        }
        let ghost check = effects@;
        let ghost s = self@;
        match &self.config.ble_device {
            Some((ble, rt)) => {
                if self.config.auto_reconnect {
                    let msg = DeviceViewMessage::ConnectRequest(ble.clone(), *rt, self.config.channel_id);
                    let mut more = self.device.update(msg, now);
                    let ghost m = more@;
                    effects.append(&mut more);
                    assert(effects@.subrange(0, check.len() as int) =~= check);
                    assert(effects@.subrange(check.len() as int, effects@.len() as int) =~= m);
                }
            },
            None => {},
        }
        effects
    }

    /// Work that changes nothing in the app: closing the window, opening links, notifications,
    /// the clipboard and the keyboard focus.
    fn effects_only(&mut self, message: Message) -> (effects: Vec<Effect>)
        requires
            old(self).wf(),
            message is Exit || message is ShowLocation || message is OpenUrl || message is AppNotification
                || message is AppError || message is CriticalAppError || message is RemoveNotification
                || message is CopyToClipBoard || message is TabPressed || message is Nothing,
        ensures
            final(self).wf(),
            app_updated(old(self)@, message, 0, final(self)@, effects@),
    {
        reveal(app_updated);
        match message {
            Message::Exit => just(Effect::CloseWindow),
            Message::ShowLocation(position) => just(Effect::OpenUrl(location_url(&position))),
            Message::OpenUrl(url) => just(Effect::OpenUrl(url)),
            Message::AppNotification(summary, detail, timestamp) => {
                just(Effect::Notify(NotificationKind::Info, summary, detail, Some(timestamp)))
            },
            Message::AppError(summary, detail, timestamp) => {
                just(Effect::Notify(NotificationKind::Error, summary, detail, Some(timestamp)))
            },
            Message::CriticalAppError(summary, detail, timestamp) => {
                just(Effect::Notify(NotificationKind::Critical, summary, detail, Some(timestamp)))
            },
            Message::RemoveNotification(id) => just(Effect::RemoveNotification(id)),
            Message::CopyToClipBoard(string) => just(Effect::CopyToClipboard(string)),
            Message::TabPressed(shift) => {
                if shift {
                    just(Effect::FocusPrevious)
                } else {
                    just(Effect::FocusNext)
                }
            },
            _ => Vec::new(),
        }
    }

    /// Open and close the dialogs.
    fn dialogs(&mut self, message: Message) -> (effects: Vec<Effect>)
        requires
            old(self).wf(),
            message is ShowUserInfo || message is CloseShowUser || message is OpenSettingsDialog
                || message is CloseSettingsDialog || message is EscapePressed,
        ensures
            final(self).wf(),
            app_updated(old(self)@, message, 0, final(self)@, effects@),
    {
        reveal(app_updated);
        match message {
            Message::ShowUserInfo(user) => {
                self.show_user = Some(user);
            },
            Message::CloseShowUser => {
                self.show_user = None;
            },
            Message::OpenSettingsDialog => {
                self.showing_settings = true;
            },
            Message::CloseSettingsDialog => {
                self.showing_settings = false;
            },
            _ => {
                self.escape_pressed();
            },
        }
        Vec::new()
    }

    /// Change the favourite nodes and the aliases of nodes and devices, then save the settings.
    fn aliases_changed(&mut self, message: Message) -> (effects: Vec<Effect>)
        requires
            old(self).wf(),
            message is ToggleNodeFavourite || message is AddNodeAlias || message is RemoveNodeAlias
                || message is AddDeviceAlias || message is RemoveDeviceAlias,
        ensures
            final(self).wf(),
            app_updated(old(self)@, message, 0, final(self)@, effects@),
    {
        reveal(app_updated);
        match message {
            Message::ToggleNodeFavourite(node_id) => {
                let ghost before = self.config.fav_nodes@;
                let removed = self.config.fav_nodes.remove(&node_id);
                assert(removed == before.contains(node_id));
                if !removed {
                    let _ = self.config.fav_nodes.insert(node_id);
                }
                assert(self@.config.fav_nodes == (if before.contains(node_id) { before.remove(node_id) } else { before.insert(node_id) }));
                just(Effect::SaveConfig)
            },
            Message::AddNodeAlias(node_id, alias) => {
                self.device.stop_editing_alias();
                if alias.as_str().unicode_len() > 0 {
                    let ghost al = alias@;
                    let _ = self.config.aliases.insert(node_id, alias);
                    assert(self@.config.aliases =~= old(self)@.config.aliases.insert(node_id, al));
                    just(Effect::SaveConfig)
                } else {
                    Vec::new()
                }
            },
            Message::RemoveNodeAlias(node_id) => {
                let _ = self.config.aliases.remove(&node_id);
                assert(self@.config.aliases =~= old(self)@.config.aliases.remove(node_id));
                just(Effect::SaveConfig)
            },
            Message::AddDeviceAlias(ble_device, alias) => {
                self.device_list.stop_editing_alias();
                if alias.as_str().unicode_len() > 0 {
                    let ghost al = alias@;
                    let ghost dv = ble_device@;
                    let _ = self.config.device_aliases.insert(ble_device, alias);
                    assert(self@.config.device_aliases =~= old(self)@.config.device_aliases.insert(dv, al));
                    just(Effect::SaveConfig)
                } else {
                    Vec::new()
                }
            },
            Message::RemoveDeviceAlias(ble_device) => {
                let _ = self.config.device_aliases.remove(ble_device.as_str());
                assert(self@.config.device_aliases =~= old(self)@.config.device_aliases.remove(ble_device@));
                just(Effect::SaveConfig)
            },
            _ => Vec::new(),
        }
    }

    /// Change a setting, then save the settings.
    fn setting_changed(&mut self, message: Message) -> (effects: Vec<Effect>)
        requires
            old(self).wf(),
            message is DeviceAndChannelConfigChange || message is ToggleShowPositionUpdates
                || message is ToggleShowUserUpdates || message is ToggleAutoReconnect
                || message is ToggleAutoUpdate || message is HistoryLengthSelected,
        ensures
            final(self).wf(),
            app_updated(old(self)@, message, 0, final(self)@, effects@),
    {
        reveal(app_updated);
        match message {
            Message::DeviceAndChannelConfigChange(ble_device, channel) => {
                self.config.ble_device = ble_device;
                self.config.channel_id = channel;
            },
            Message::ToggleShowPositionUpdates => {
                self.config.show_position_updates = !self.config.show_position_updates;
                self.device.set_show_position_updates(self.config.show_position_updates);
            },
            Message::ToggleShowUserUpdates => {
                self.config.show_user_updates = !self.config.show_user_updates;
                self.device.set_show_user_updates(self.config.show_user_updates);
            },
            Message::ToggleAutoReconnect => {
                self.config.auto_reconnect = !self.config.auto_reconnect;
            },
            Message::ToggleAutoUpdate => {
                self.config.auto_update_startup = !self.config.auto_update_startup;
            },
            Message::HistoryLengthSelected(length) => {
                self.config.history_length = length;
            },
            _ => {},
        }
        just(Effect::SaveConfig)
    }

    /// Ask the device to disconnect (and exit once disconnected) when connected; otherwise close
    /// the window.
    fn close_requested(&mut self, now: u64) -> (effects: Vec<Effect>)
        requires
            old(self).wf(),
        ensures
            final(self).wf(),
            app_updated(old(self)@, Message::CloseRequested, now, final(self)@, effects@),
    {
        reveal(app_updated);
        let connected = match self.device.connection_state() {
            ConnectionState::Connected(_, _) => true,
            _ => false,
        };
        if connected {
            self.device.update(DeviceViewMessage::DisconnectRequest(true), now)
        } else {
            just(Effect::CloseWindow)
        }
    }

    /// Apply a message at time `now` (seconds since the epoch), returning the work it asks of the
    /// app around the library.
    pub fn update(&mut self, message: Message, now: u64) -> (effects: Vec<Effect>)
        requires
            old(self).wf(),
            message_wf(message),
        ensures
            final(self).wf(),
            app_updated(old(self)@, message, now, final(self)@, effects@),
    {
        proof { lemma_app_updated_now(old(self)@, message, now); }
        match message {
            Message::Navigation(view) => self.navigate(view, now),
            Message::DeviceListViewEvent(device_list_event) => {
                let effects = self.device_list.update(device_list_event);
                proof { reveal(app_updated); }
                effects
            },
            Message::DeviceViewEvent(device_event) => {
                let effects = self.device.update(device_event, now);
                proof { reveal(app_updated); }
                effects
            },
            Message::ConfigLoaded(config) => self.config_loaded(config, now),
            Message::CloseRequested => self.close_requested(now),
            Message::Exit | Message::ShowLocation(_) | Message::OpenUrl(_) | Message::AppNotification(..)
            | Message::AppError(..) | Message::CriticalAppError(..) | Message::RemoveNotification(_)
            | Message::CopyToClipBoard(_) | Message::TabPressed(_) | Message::Nothing => {
                self.effects_only(message)
            },
            Message::ShowUserInfo(_) | Message::CloseShowUser | Message::OpenSettingsDialog
            | Message::CloseSettingsDialog | Message::EscapePressed => self.dialogs(message),
            Message::ToggleNodeFavourite(_) | Message::AddNodeAlias(..) | Message::RemoveNodeAlias(_)
            | Message::AddDeviceAlias(..) | Message::RemoveDeviceAlias(_) => self.aliases_changed(message),
            Message::DeviceAndChannelConfigChange(..) | Message::ToggleShowPositionUpdates
            | Message::ToggleShowUserUpdates | Message::ToggleAutoReconnect | Message::ToggleAutoUpdate
            | Message::HistoryLengthSelected(_) => self.setting_changed(message),
        }
    }
}

/// Marking a node as a favourite and then unmarking it (or the other way round) leaves the app as
/// it was; each toggle flips whether the node is a favourite and saves the configuration.
pub proof fn lemma_favourite_toggle_twice(a: MeshChatModel, x: NodeId, t1: u64, b: MeshChatModel, e1: Seq<Effect>, t2: u64, c: MeshChatModel, e2: Seq<Effect>)
    requires
        app_updated(a, Message::ToggleNodeFavourite(x), t1, b, e1),
        app_updated(b, Message::ToggleNodeFavourite(x), t2, c, e2),
    ensures
        b.config.fav_nodes.contains(x) != a.config.fav_nodes.contains(x),
        c == a,
        e1 == seq![Effect::SaveConfig],
        e2 == seq![Effect::SaveConfig],
{
    reveal(app_updated);
    if a.config.fav_nodes.contains(x) {
        assert(a.config.fav_nodes.remove(x).insert(x) =~= a.config.fav_nodes);
    } else {
        assert(a.config.fav_nodes.insert(x).remove(x) =~= a.config.fav_nodes);
    }
    assert(c.config == a.config);
}

/// An alias given to a node is the name the app shows for it while it is known, and removing
/// the alias leaves the aliases as they were without it; both changes are saved.
pub proof fn lemma_node_alias_shown_then_removed(a: MeshChatModel, x: NodeId, alias: String, t1: u64, b: MeshChatModel, e1: Seq<Effect>, t2: u64, c: MeshChatModel, e2: Seq<Effect>)
    requires
        alias@.len() > 0,
        app_updated(a, Message::AddNodeAlias(x, alias), t1, b, e1),
        app_updated(b, Message::RemoveNodeAlias(x), t2, c, e2),
    ensures
        b.config.aliases.contains_key(x) && b.config.aliases[x] == alias@,
        b.device.nodes.contains_key(x) ==> aliased_long_name_of(b.device, b.config.aliases, x) == Some(alias@),
        c.config.aliases == a.config.aliases.remove(x),
        !a.config.aliases.contains_key(x) ==> c.config == a.config,
        e1 == seq![Effect::SaveConfig],
        e2 == seq![Effect::SaveConfig],
{
    reveal(app_updated);
    assert(a.config.aliases.insert(x, alias@).remove(x) =~= a.config.aliases.remove(x));
    if !a.config.aliases.contains_key(x) {
        assert(a.config.aliases.remove(x) =~= a.config.aliases);
    }
}

/// The device and conversation in use are remembered and reconnected to at the next start:
/// after a change of the device (and conversation) in use, the configuration holds them and is
/// saved; that configuration, loaded at start-up with reconnection on, asks the subscription for
/// the device's radio type (once it is ready, and while no device is connected) to connect to
/// that device and then show that conversation.
pub proof fn lemma_reconnects_to_saved_device(
    a: MeshChatModel,
    device: String,
    rt: RadioType,
    channel: Option<ChannelId>,
    t1: u64,
    b: MeshChatModel,
    saved: Seq<Effect>,
    config: Config,
    start: MeshChatModel,
    t2: u64,
    n: MeshChatModel,
    effects: Seq<Effect>,
)
    requires
        app_updated(a, Message::DeviceAndChannelConfigChange(Some((device, rt)), channel), t1, b, saved),
        config@ == b.config,
        b.config.auto_reconnect,
        !(start.device.connection_state is Connected),
        radio_ready(start.device, rt),
        app_updated(start, Message::ConfigLoaded(config), t2, n, effects),
    ensures
        saved == seq![Effect::SaveConfig],
        b.config.ble_device == Some((device@, rt)),
        b.config.channel_id == channel,
        effects.len() > 0,
        effects.last() matches Effect::SendToRadio(r, m, after)
            && r == rt
            && (m matches SubscriberMessage::Connect(d, t) && d@ == device@ && t == rt)
            && after == AfterSend::Navigate(View::DeviceView(channel)),
{
    reveal(app_updated);
    let s = with_settings(start, config@);
    let check = if config.auto_update_startup { seq![Effect::CheckForUpdate] } else { Seq::<Effect>::empty() };
    match config.ble_device {
        Some((ble, r)) => {
            assert(ble@ == device@ && r == rt);
            let tail = effects.subrange(check.len() as int, effects.len() as int);
            assert(tail.len() == 1);
            assert(effects.last() == tail[0]);
        },
        None => {
            assert(false);
        },
    }
}

/// An alias given to a device (by its name) is the name the app shows for it, and removing the
/// alias leaves the device aliases as they were without it; both changes are saved.
pub proof fn lemma_device_alias_shown_then_removed(a: MeshChatModel, dev: String, alias: String, t1: u64, b: MeshChatModel, e1: Seq<Effect>, t2: u64, c: MeshChatModel, e2: Seq<Effect>)
    requires
        alias@.len() > 0,
        app_updated(a, Message::AddDeviceAlias(dev, alias), t1, b, e1),
        app_updated(b, Message::RemoveDeviceAlias(dev), t2, c, e2),
    ensures
        b.config.device_aliases.contains_key(dev@) && b.config.device_aliases[dev@] == alias@,
        c.config.device_aliases == a.config.device_aliases.remove(dev@),
        !a.config.device_aliases.contains_key(dev@) ==> c.config == a.config,
        e1 == seq![Effect::SaveConfig],
        e2 == seq![Effect::SaveConfig],
{
    reveal(app_updated);
    assert(a.config.device_aliases.insert(dev@, alias@).remove(dev@) =~= a.config.device_aliases.remove(dev@));
    if !a.config.device_aliases.contains_key(dev@) {
        assert(a.config.device_aliases.remove(dev@) =~= a.config.device_aliases);
    }
}

} // verus!

