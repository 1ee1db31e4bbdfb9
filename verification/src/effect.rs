//! The work that the app around the library performs after an update: sending to a radio,
//! navigating, focusing inputs, saving the configuration, showing notifications.
use crate::channel_id::{ChannelId, MessageId};
use crate::device::SubscriberMessage;
use crate::device_list::RadioType;
use crate::meshchat;
use crate::model::TimeStamp;
use vstd::prelude::*;

verus! {

/// What the app does once a message has been handed to a radio's subscription.
#[derive(Debug)]
pub enum AfterSend {
    /// Nothing more.
    Nothing,
    /// Navigate to a view.
    Navigate(meshchat::View),
    /// Show a conversation.
    ShowChannel(ChannelId),
}

/// The kind of a notification shown to the user.
#[derive(Debug, Clone, Copy, PartialEq, Eq, Structural)]
pub enum NotificationKind {
    Info,
    Error,
    Critical,
}

/// One piece of work for the app, in the order the library lists them.
#[derive(Debug)]
pub enum Effect {
    /// Hand a message to the subscription of a radio of the given type, then do `AfterSend`.
    SendToRadio(RadioType, SubscriberMessage, AfterSend),
    /// The subscription for the radio is not ready: report that back as a subscription event.
    ReportNotReady,
    /// Navigate to a view.
    Navigate(meshchat::View),
    /// Show a conversation, or the device's list of conversations when `None`.
    ShowChannel(Option<ChannelId>),
    /// Put the keyboard focus on the conversation search box.
    FocusChannelSearch,
    /// Put the keyboard focus on the message input box.
    FocusMessageInput,
    /// Put the keyboard focus on the device alias input box.
    FocusAliasInput,
    /// Move the keyboard focus to the next input.
    FocusNext,
    /// Move the keyboard focus to the previous input.
    FocusPrevious,
    /// Record the device and conversation in use in the configuration.
    DeviceAndChannelChanged(Option<(String, RadioType)>, Option<ChannelId>),
    /// Show a notification: its kind, summary and detail, and its time when known (the app uses
    /// the current time otherwise).
    Notify(NotificationKind, String, String, Option<TimeStamp>),
    /// Remove the notification with this id.
    RemoveNotification(usize),
    /// Scroll the conversation to its last entry.
    ScrollToEnd,
    /// Send a text to a conversation, possibly as a reply.
    SendText(String, ChannelId, Option<MessageId>),
    /// Send an emoji reply to a message of a conversation.
    SendEmojiReply(MessageId, String, ChannelId),
    /// End the process.
    ExitProcess,
    /// Close the app's window.
    CloseWindow,
    /// Save the configuration.
    SaveConfig,
    /// Open a URL in the browser.
    OpenUrl(String),
    /// Put a text on the clipboard.
    CopyToClipboard(String),
    /// Check for a newer release of the app.
    CheckForUpdate,
}

/// A list of work holding one item.
pub fn just(effect: Effect) -> (effects: Vec<Effect>)
    ensures
        effects@ == seq![effect],
{
    let mut effects: Vec<Effect> = Vec::new();
    effects.push(effect);
    assert(effects@ =~= seq![effect]);
    effects
}

} // verus!
