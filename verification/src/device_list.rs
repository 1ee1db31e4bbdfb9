//! The radios found by discovery, and the alias being typed for one of them.
use crate::config::Config;
use crate::device::ConnectionState;
use crate::text::str_equal;
use crate::effect::{Effect, NotificationKind};
use crate::strmap::StrMap;
use vstd::prelude::*;

verus! {

/// The kind of radio firmware detected.
#[derive(Debug, Clone, Copy, PartialEq, Eq, Structural)]
pub enum RadioType {
    /// No known mesh firmware.
    Unknown,
    Meshtastic,
    MeshCore,
}

impl Default for RadioType {
    fn default() -> (r: Self)
        ensures
            r == RadioType::Unknown,
    {
        RadioType::Unknown
    }
}

/// A message to the device list, from discovery or from the user interface.
#[derive(Debug, Clone)]
pub enum DeviceListEvent {
    /// A radio was found: its name and type.
    BLEMeshRadioFound(String, RadioType),
    /// A radio is no longer seen.
    BLERadioLost(String),
    /// Discovery cannot go on.
    CriticalError(String),
    /// Discovery met an error.
    Error(String),
    /// The user starts giving a device an alias.
    StartEditingAlias(String),
    /// The alias typed so far.
    AliasInput(String),
    /// Discovery started or stopped scanning.
    Scanning(bool),
}

/// What is known of a discovered device.
#[derive(Debug, Clone, PartialEq)]
pub struct DeviceInfo {
    pub original_name: String,
    pub radio_type: RadioType,
}

/// The contents of a [DeviceInfo] as values.
pub open spec fn device_info_view(d: DeviceInfo) -> (Seq<char>, RadioType) {
    (d.original_name@, d.radio_type)
}

/// The devices found so far, and the alias being edited.
#[derive(Debug)]
pub struct DeviceList {
    device_list: StrMap<DeviceInfo>,
    alias: String,
    editing_alias: Option<String>,
    scanning: bool,
}

/// The contents of a [DeviceList] as values.
pub struct DeviceListModel {
    /// For each device found, by its address: its original name and radio type.
    pub devices: Map<Seq<char>, (Seq<char>, RadioType)>,
    pub alias: Seq<char>,
    pub editing_alias: Option<Seq<char>>,
    pub scanning: bool,
}

impl View for DeviceList {
    type V = DeviceListModel;

    closed spec fn view(&self) -> DeviceListModel {
        DeviceListModel {
            devices: self.device_list@.map_values(|d: DeviceInfo| device_info_view(d)),
            alias: self.alias@,
            editing_alias: match self.editing_alias {
                Some(s) => Some(s@),
                None => None,
            },
            scanning: self.scanning,
        }
    }
}

/// The text as a value, for an optional text.
pub open spec fn opt_text(s: Option<String>) -> Option<Seq<char>> {
    match s {
        Some(t) => Some(t@),
        None => None,
    }
}

impl Default for DeviceList {
    fn default() -> (d: Self)
        ensures
            d.wf(),
            d@.devices == Map::<Seq<char>, (Seq<char>, RadioType)>::empty(),
            d@.alias == Seq::<char>::empty(),
            d@.editing_alias is None,
            !d@.scanning,
    {
        let d = DeviceList {
            device_list: StrMap::new(),
            alias: String::new(),
            editing_alias: None,
            scanning: false,
        };
        assert(d@.devices =~= Map::<Seq<char>, (Seq<char>, RadioType)>::empty());
        d
    }
}

/// The device list after an event, and the work it asks of the app. A device found twice keeps
/// what was first recorded of it; errors become notifications; starting to edit an alias clears
/// the alias and focuses its input box.
pub open spec fn list_updated(d: DeviceListModel, ev: DeviceListEvent, n: DeviceListModel, effects: Seq<Effect>) -> bool {
    match ev {
        DeviceListEvent::BLEMeshRadioFound(device, radio_type) => {
            &&& n == (DeviceListModel {
                devices: if d.devices.contains_key(device@) {
                    d.devices
                } else {
                    d.devices.insert(device@, (device@, radio_type))
                },
                ..d
            })
            &&& effects.len() == 0
        },
        DeviceListEvent::BLERadioLost(device) => {
            &&& n == (DeviceListModel { devices: d.devices.remove(device@), ..d })
            &&& effects.len() == 0
        },
        DeviceListEvent::Error(e) => {
            &&& n == d
            &&& effects.len() == 1
            &&& effects[0] matches Effect::Notify(NotificationKind::Error, s, d, None)
                && s@ == "Discovery Error"@ && d@ == e@
        },
        DeviceListEvent::CriticalError(e) => {
            &&& n == d
            &&& effects.len() == 1
            &&& effects[0] matches Effect::Notify(NotificationKind::Critical, s, d, None)
                && s@ == "Discovery Error"@ && d@ == e@
        },
        DeviceListEvent::StartEditingAlias(device) => {
            &&& n == (DeviceListModel {
                editing_alias: Some(device@),
                alias: Seq::empty(),
                ..d
            })
            &&& effects == seq![Effect::FocusAliasInput]
        },
        DeviceListEvent::AliasInput(alias) => {
            &&& n == (DeviceListModel { alias: alias@, ..d })
            &&& effects.len() == 0
        },
        DeviceListEvent::Scanning(scanning) => {
            &&& n == (DeviceListModel { scanning: scanning, ..d })
            &&& effects.len() == 0
        },
    }
}

impl DeviceList {
    /// Well-formed: no device is listed twice.
    pub closed spec fn wf(&self) -> bool {
        self.device_list.wf()
    }

    /// The devices found, by address.
    pub fn devices(&self) -> (r: &StrMap<DeviceInfo>)
        ensures
            r@.map_values(|d: DeviceInfo| device_info_view(d)) == self@.devices,
            r.wf() == self.wf(),
    {
        &self.device_list
    }

    /// The alias typed so far.
    pub fn alias(&self) -> (r: &str)
        ensures
            r@ == self@.alias,
    {
        self.alias.as_str()
    }

    /// The device whose alias is being edited, if any.
    pub fn editing_alias(&self) -> (r: Option<&String>)
        ensures
            match r {
                Some(s) => self@.editing_alias == Some(s@),
                None => self@.editing_alias is None,
            },
    {
        self.editing_alias.as_ref()
    }

    /// True while discovery is scanning.
    pub fn scanning(&self) -> (r: bool)
        ensures
            r == self@.scanning,
    {
        self.scanning
    }

    /// Apply an event. A device found twice keeps what was first recorded of it; errors become
    /// notifications; starting to edit an alias clears the alias and focuses its input box.
    pub fn update(&mut self, device_list_event: DeviceListEvent) -> (effects: Vec<Effect>)
        requires
            old(self).wf(),
        ensures
            final(self).wf(),
            list_updated(old(self)@, device_list_event, final(self)@, effects@),
    {
        let mut effects: Vec<Effect> = Vec::new();
        match device_list_event {
            DeviceListEvent::BLEMeshRadioFound(device, radio_type) => {
                if !self.device_list.contains_key(device.as_str()) {
                    let info = DeviceInfo { original_name: device.clone(), radio_type };
                    self.device_list.insert(device, info);
                    assert(self@.devices =~= old(self)@.devices.insert(device@, (device@, radio_type)));
                }
            },
            DeviceListEvent::BLERadioLost(device) => {
                let _ = self.device_list.remove(device.as_str());
                assert(self@.devices =~= old(self)@.devices.remove(device@));
            },
            DeviceListEvent::Error(e) => {
                effects.push(Effect::Notify(NotificationKind::Error, String::from_str("Discovery Error"), e, None));
            },
            DeviceListEvent::CriticalError(e) => {
                effects.push(Effect::Notify(NotificationKind::Critical, String::from_str("Discovery Error"), e, None));
            },
            DeviceListEvent::StartEditingAlias(device) => {
                self.start_editing_alias(device);
                effects.push(Effect::FocusAliasInput);
            },
            DeviceListEvent::AliasInput(alias) => {
                self.alias = alias;
            },
            DeviceListEvent::Scanning(scanning) => {
                self.scanning = scanning;
            },
        }
        assert(effects@ =~= effects@);
        effects
    }

    /// Start editing the alias of a device: the alias typed so far is cleared.
    fn start_editing_alias(&mut self, ble_device: String)
        ensures
            final(self)@ == (DeviceListModel {
                editing_alias: Some(ble_device@),
                alias: Seq::empty(),
                ..old(self)@
            }),
            final(self).wf() == old(self).wf(),
    {
        self.editing_alias = Some(ble_device);
        self.alias = String::new();
    }

    /// Stop editing an alias: nothing is being edited, and the alias typed so far is cleared.
    pub fn stop_editing_alias(&mut self)
        ensures
            final(self)@ == (DeviceListModel {
                editing_alias: None,
                alias: Seq::empty(),
                ..old(self)@
            }),
            final(self).wf() == old(self).wf(),
    {
        self.editing_alias = None;
        self.alias = String::new();
    }

    /// The name to show for a device: its alias in the configuration, if it has one, else the
    /// device's own name.
    pub fn device_name_or_alias(&self, ble_device: &str, config: &Config) -> (name: String)
        requires
            config.wf(),
        ensures
            name@ == (if config@.device_aliases.contains_key(ble_device@) {
                config@.device_aliases[ble_device@]
            } else {
                ble_device@
            }),
    {
        device_name_or_alias(ble_device, config)
    }
}

/// The name to show for a device: its alias in the configuration, if it has one, else the
/// device's own name.
pub fn device_name_or_alias(ble_device: &str, config: &Config) -> (name: String)
    requires
        config.wf(),
    ensures
        name@ == (if config@.device_aliases.contains_key(ble_device@) {
            config@.device_aliases[ble_device@]
        } else {
            ble_device@
        }),
{
    match config.device_aliases.get(ble_device) {
        Some(alias) => alias.clone(),
        None => String::from_str(ble_device),
    }
}

/// A radio that is found is listed under its address with its name and type, and once lost it
/// is listed no more; a radio that was not listed before leaves the list as it was.
pub proof fn lemma_found_then_lost(d: DeviceListModel, device: String, radio_type: RadioType, d1: DeviceListModel, e1: Seq<Effect>, d2: DeviceListModel, e2: Seq<Effect>)
    requires
        list_updated(d, DeviceListEvent::BLEMeshRadioFound(device, radio_type), d1, e1),
        list_updated(d1, DeviceListEvent::BLERadioLost(device), d2, e2),
    ensures
        d1.devices.contains_key(device@),
        !d.devices.contains_key(device@) ==> d1.devices[device@] == (device@, radio_type),
        !d2.devices.contains_key(device@),
        !d.devices.contains_key(device@) ==> d2 == d,
        e1.len() == 0 && e2.len() == 0,
{
    if !d.devices.contains_key(device@) {
        assert(d.devices.insert(device@, (device@, radio_type)).remove(device@) =~= d.devices);
    }
}

/// What a device's row in the list offers for its connection.
#[derive(Debug, Clone, Copy, PartialEq, Eq, Structural)]
pub enum RowAction {
    /// A button to connect to the device.
    Connect,
    /// A button to disconnect from the device.
    Disconnect,
    /// A note that the app is connecting to the device.
    Connecting,
    /// A note that the app is disconnecting from the device.
    Disconnecting,
    /// Nothing: the app is busy with another device.
    Nothing,
}

/// What the row of the device named `device` offers: when not connected, to connect; when
/// connected, connecting or disconnecting, the matching button or note on that device's row
/// and nothing on the others.
pub open spec fn row_action_of(state: ConnectionState, device: Seq<char>) -> RowAction {
    match state {
        ConnectionState::Disconnected(_, _) => RowAction::Connect,
        ConnectionState::Connected(d, _) => if d@ == device { RowAction::Disconnect } else { RowAction::Nothing },
        ConnectionState::Connecting(d) => if d@ == device { RowAction::Connecting } else { RowAction::Nothing },
        ConnectionState::Disconnecting(d) => if d@ == device { RowAction::Disconnecting } else { RowAction::Nothing },
    }
}

/// What the row of the device named `device` offers for the connection state `state`.
pub fn row_action(state: &ConnectionState, device: &str) -> (r: RowAction)
    ensures
        r == row_action_of(*state, device@),
{
    match state {
        ConnectionState::Disconnected(_, _) => RowAction::Connect,
        ConnectionState::Connected(d, _) => if str_equal(d.as_str(), device) { RowAction::Disconnect } else { RowAction::Nothing },
        ConnectionState::Connecting(d) => if str_equal(d.as_str(), device) { RowAction::Connecting } else { RowAction::Nothing },
        ConnectionState::Disconnecting(d) => if str_equal(d.as_str(), device) { RowAction::Disconnecting } else { RowAction::Nothing },
    }
}

} // verus!
