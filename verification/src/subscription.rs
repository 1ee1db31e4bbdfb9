//! The decisions of a radio's subscription: the link to a device goes from disconnected to
//! connected and back on the app's requests and on what connecting, sending and disconnecting
//! did; each step tells the app what happened and what to do next. The work itself (Bluetooth,
//! the radio's protocol) is the app's.
use crate::device::{SubscriberMessage, SubscriptionEvent};
use crate::device_list::RadioType;
use crate::text::push_str;
use vstd::prelude::*;

verus! {

/// The state of the link to a device.
#[derive(Debug, Clone, PartialEq, Eq)]
pub enum DeviceState {
    /// No device connected.
    Disconnected,
    /// Connecting to the device with this name.
    Connecting(String),
    /// Connected to the device with this name.
    Connected(String),
    /// Disconnecting from the device with this name.
    Disconnecting(String),
}

/// The work a step asks of the app.
#[derive(Debug)]
pub enum LinkAction {
    /// Nothing.
    Nothing,
    /// Connect to the device with this name, then report with [Link::on_connect_result].
    ConnectTo(String),
    /// Send this message through the radio, then report with [Link::on_send_result].
    Send(SubscriberMessage),
    /// Disconnect from the device, then report with [Link::on_disconnected].
    Disconnect,
}

/// The link between the app and a radio of one type.
#[derive(Debug)]
pub struct Link {
    state: DeviceState,
    radio_type: RadioType,
}

/// The summary of a failed connection to a device.
pub open spec fn failed_to_connect_text(ble_device: Seq<char>) -> Seq<char> {
    "Failed to connect to "@ + ble_device
}

impl Link {
    /// The state of the link.
    pub closed spec fn state(&self) -> DeviceState {
        self.state
    }

    /// The type of radio the link is for.
    pub closed spec fn radio(&self) -> RadioType {
        self.radio_type
    }

    /// A link for radios of this type, not connected.
    pub fn new(radio_type: RadioType) -> (l: Self)
        ensures
            l.state() == DeviceState::Disconnected,
            l.radio() == radio_type,
    {
        Link { state: DeviceState::Disconnected, radio_type }
    }

    /// The state of the link.
    pub fn device_state(&self) -> (s: &DeviceState)
        ensures
            *s == self.state(),
    {
        &self.state
    }

    /// The event that tells the app the subscription is ready to take its messages.
    pub fn ready_event(&self) -> (e: SubscriptionEvent)
        ensures
            e == SubscriptionEvent::Ready(self.radio()),
    {
        SubscriptionEvent::Ready(self.radio_type)
    }

    /// A message from the app. While disconnected, a request to connect starts connecting and
    /// anything else is dropped; while connected, a request to disconnect starts disconnecting,
    /// a message to send is handed to the radio and a request to connect is dropped.
    pub fn on_app_message(&mut self, message: SubscriberMessage) -> (r: (Vec<SubscriptionEvent>, LinkAction))
        requires
            old(self).state() is Disconnected || old(self).state() is Connected,
        ensures
            final(self).radio() == old(self).radio(),
            match old(self).state() {
                DeviceState::Disconnected => match message {
                    SubscriberMessage::Connect(ble, _) => {
                        &&& final(self).state() == DeviceState::Connecting(ble)
                        &&& r.0@ == seq![SubscriptionEvent::ConnectingEvent(ble)]
                        &&& r.1 == LinkAction::ConnectTo(ble)
                    },
                    _ => {
                        &&& final(self).state() == old(self).state()
                        &&& r.0@.len() == 0
                        &&& r.1 is Nothing
                    },
                },
                DeviceState::Connected(ble) => match message {
                    SubscriberMessage::Disconnect => {
                        &&& final(self).state() == DeviceState::Disconnecting(ble)
                        &&& r.0@.len() == 0
                        &&& r.1 is Disconnect
                    },
                    SubscriberMessage::Connect(_, _) => {
                        &&& final(self).state() == old(self).state()
                        &&& r.0@.len() == 0
                        &&& r.1 is Nothing
                    },
                    _ => {
                        &&& final(self).state() == old(self).state()
                        &&& r.0@.len() == 0
                        &&& r.1 == LinkAction::Send(message)
                    },
                },
                _ => false,
            },
    {
        let mut events: Vec<SubscriptionEvent> = Vec::new();
        let ghost state = self.state;
        match &self.state {
            DeviceState::Disconnected => match message {
                SubscriberMessage::Connect(ble_device, _) => {
                    self.state = DeviceState::Connecting(ble_device.clone());
                    events.push(SubscriptionEvent::ConnectingEvent(ble_device.clone()));
                    assert(events@ =~= seq![SubscriptionEvent::ConnectingEvent(ble_device)]);
                    (events, LinkAction::ConnectTo(ble_device))
                },
                _ => (events, LinkAction::Nothing),
            },
            DeviceState::Connected(ble_device) => match message {
                SubscriberMessage::Disconnect => {
                    self.state = DeviceState::Disconnecting(ble_device.clone());
                    (events, LinkAction::Disconnect)
                },
                SubscriberMessage::Connect(_, _) => (events, LinkAction::Nothing),
                _ => (events, LinkAction::Send(message)),
            },
            _ => (events, LinkAction::Nothing),
        }
    }

    /// What connecting did: on success the link is connected; on failure it is disconnected and
    /// the app hears why.
    pub fn on_connect_result(&mut self, result: Result<(), String>) -> (events: Vec<SubscriptionEvent>)
        requires
            old(self).state() is Connecting,
        ensures
            final(self).radio() == old(self).radio(),
            match old(self).state() {
                DeviceState::Connecting(ble) => match result {
                    Ok(()) => {
                        &&& final(self).state() == DeviceState::Connected(ble)
                        &&& events@ == seq![SubscriptionEvent::ConnectedEvent(ble, old(self).radio())]
                    },
                    Err(e) => {
                        &&& final(self).state() == DeviceState::Disconnected
                        &&& events@.len() == 1
                        &&& events@[0] matches SubscriptionEvent::ConnectionError(d, summary, detail)
                            && d == ble && summary@ == failed_to_connect_text(ble@) && detail == e
                    },
                },
                _ => false,
            },
    {
        let mut events: Vec<SubscriptionEvent> = Vec::new();
        let ble_device = match &self.state {
            DeviceState::Connecting(b) => b.clone(),
            _ => String::new(),
        };
        match result {
            Ok(()) => {
                self.state = DeviceState::Connected(ble_device.clone());
                events.push(SubscriptionEvent::ConnectedEvent(ble_device, self.radio_type));
            },
            Err(e) => {
                self.state = DeviceState::Disconnected;
                let mut summary = String::new();
                push_str(&mut summary, "Failed to connect to ");
                push_str(&mut summary, ble_device.as_str());
                events.push(SubscriptionEvent::ConnectionError(ble_device, summary, e));
            },
        }
        events
    }

    /// Setting up a connected MeshCore radio failed: the app hears why, and the link starts
    /// disconnecting.
    pub fn on_setup_failed(&mut self, error: String) -> (r: (Vec<SubscriptionEvent>, LinkAction))
        requires
            old(self).state() is Connected,
        ensures
            final(self).radio() == old(self).radio(),
            match old(self).state() {
                DeviceState::Connected(ble) => {
                    &&& final(self).state() == DeviceState::Disconnecting(ble)
                    &&& r.0@.len() == 1
                    &&& r.0@[0] matches SubscriptionEvent::ConnectionError(d, summary, detail)
                        && d == ble && summary@ == "Subscription Could not get SelfInfo"@ && detail == error
                    &&& r.1 is Disconnect
                },
                _ => false,
            },
    {
        let mut events: Vec<SubscriptionEvent> = Vec::new();
        let ble_device = match &self.state {
            DeviceState::Connected(b) => b.clone(),
            _ => String::new(),
        };
        self.state = DeviceState::Disconnecting(ble_device.clone());
        events.push(SubscriptionEvent::ConnectionError(ble_device, String::from_str("Subscription Could not get SelfInfo"), error));
        (events, LinkAction::Disconnect)
    }

    /// What sending did: a failure is reported to the app.
    pub fn on_send_result(&self, result: Result<(), String>) -> (events: Vec<SubscriptionEvent>)
        ensures
            match result {
                Ok(()) => events@.len() == 0,
                Err(e) => {
                    &&& events@.len() == 1
                    &&& events@[0] matches SubscriptionEvent::SendError(summary, detail)
                        && summary@ == "Subscription Error"@ && detail == e
                },
            },
    {
        let mut events: Vec<SubscriptionEvent> = Vec::new();
        match result {
            Ok(()) => {},
            Err(e) => {
                events.push(SubscriptionEvent::SendError(String::from_str("Subscription Error"), e));
            },
        }
        events
    }

    /// The device was disconnected (on request, or because the radio went away): the link is
    /// disconnected and the app hears it.
    pub fn on_disconnected(&mut self) -> (events: Vec<SubscriptionEvent>)
        requires
            old(self).state() is Connected || old(self).state() is Disconnecting,
        ensures
            final(self).radio() == old(self).radio(),
            final(self).state() == DeviceState::Disconnected,
            match old(self).state() {
                DeviceState::Connected(ble) => events@ == seq![SubscriptionEvent::DisconnectedEvent(ble)],
                DeviceState::Disconnecting(ble) => events@ == seq![SubscriptionEvent::DisconnectedEvent(ble)],
                _ => false,
            },
    {
        let mut events: Vec<SubscriptionEvent> = Vec::new();
        let ble_device = match &self.state {
            DeviceState::Connected(b) => b.clone(),
            DeviceState::Disconnecting(b) => b.clone(),
            _ => String::new(),
        };
        self.state = DeviceState::Disconnected;
        events.push(SubscriptionEvent::DisconnectedEvent(ble_device));
        events
    }
}

} // verus!
