use meshchat::channel_id::ChannelId;
use meshchat::channel_view::ChannelViewMessage::{
    self, CancelPrepareReply, ClearMessage, MessageInput, MessageSeen, PrepareReply, SendMessage,
};
use meshchat::channel_view::{day_heading, ChannelView, DayHeading};
use meshchat::config::HistoryLength;
use meshchat::effect::Effect;
use meshchat::entry::ChannelViewEntry;
use meshchat::entry::MCMessage::{self, EmojiReply, NewTextMessage};
use meshchat::model::{MCPosition, MCUser, TimeStamp};
use std::time::{SystemTime, UNIX_EPOCH};

fn now_secs() -> u32 {
    SystemTime::now().duration_since(UNIX_EPOCH).expect("Could not get time").as_secs() as u32
}

#[test]
fn message_ordering_test() {
    let mut channel_view = ChannelView::new(ChannelId::Channel(0), 0);
    assert!(channel_view.is_empty(), "Initial entries list should be empty");

    let now = now_secs();
    let oldest_message = ChannelViewEntry::new(1, 1, NewTextMessage("Hello 1".to_string()), now);
    let middle_message = ChannelViewEntry::new(2, 1000, NewTextMessage("Hello 2".to_string()), now + 1);
    let newest_message = ChannelViewEntry::new(3, 500, NewTextMessage("Hello 3".to_string()), now + 2);

    let _ = channel_view.new_message(newest_message.clone(), &HistoryLength::All, now as u64);
    let _ = channel_view.new_message(middle_message.clone(), &HistoryLength::All, now as u64);
    let _ = channel_view.new_message(oldest_message.clone(), &HistoryLength::All, now as u64);
    assert_eq!(channel_view.len(), 3, "There should be 3 messages in the list");
    assert_eq!(channel_view.unread_count(true, true), 3, "The unread count should be 3");

    assert_eq!(channel_view.entry_ids(), vec![1, 2, 3], "Entries should be in time order");
}

#[test]
fn test_initial_unread_count() {
    let channel_view = ChannelView::new(ChannelId::Channel(0), 0);
    assert_eq!(channel_view.unread_count(true, true), 0);
}

#[test]
fn test_unread_count() {
    let mut channel_view = ChannelView::new(ChannelId::Channel(0), 0);
    let message = ChannelViewEntry::new(
        1,
        1,
        NewTextMessage("Hello 1".to_string()),
        SystemTime::now()
            .duration_since(UNIX_EPOCH)
            .expect("system time should be after UNIX_EPOCH")
            .as_secs() as u32,
    );
    let _ = channel_view.new_message(message.clone(), &HistoryLength::All, now_secs() as u64);
    assert_eq!(channel_view.unread_count(true, true), 1);
}

#[test]
fn test_replying_valid_entry() {
    let mut channel_view = ChannelView::new(ChannelId::Channel(0), 0);
    let message = ChannelViewEntry::new(
        1,
        1,
        NewTextMessage("Hello 1".to_string()),
        SystemTime::now()
            .duration_since(UNIX_EPOCH)
            .expect("system time should be after UNIX_EPOCH")
            .as_secs() as u32,
    );
    let _ = channel_view.new_message(message, &HistoryLength::All, now_secs() as u64);

    // Use the actual message ID (1), not an index
    let _ = channel_view.update(PrepareReply(1));

    assert_eq!(channel_view.preparing_reply(), Some(1));
}

#[test]
fn test_replying_invalid_entry() {
    let mut channel_view = ChannelView::new(ChannelId::Channel(0), 0);
    let message = ChannelViewEntry::new(
        1,
        1,
        NewTextMessage("Hello 1".to_string()),
        SystemTime::now()
            .duration_since(UNIX_EPOCH)
            .expect("system time should be after UNIX_EPOCH")
            .as_secs() as u32,
    );
    let _ = channel_view.new_message(message, &HistoryLength::All, now_secs() as u64);

    // Use a non-existent message ID (999) - should not set preparing_reply
    let _ = channel_view.update(PrepareReply(999));

    assert!(channel_view.preparing_reply().is_none());
}

#[test]
fn test_cancel_prepare_reply() {
    let mut channel_view = ChannelView::new(ChannelId::Channel(0), 0);
    let message = ChannelViewEntry::new(1, 1, NewTextMessage("test".into()), now_secs());
    let _ = channel_view.new_message(message, &HistoryLength::All, now_secs() as u64);
    let _ = channel_view.update(PrepareReply(1)); // Use actual message ID
    assert!(channel_view.preparing_reply().is_some());

    let _ = channel_view.update(CancelPrepareReply);
    assert!(channel_view.preparing_reply().is_none());
}

#[test]
fn channel_view_test_cancel_interactive() {
    let mut channel_view = ChannelView::new(ChannelId::Channel(0), 0);
    let message = ChannelViewEntry::new(1, 1, NewTextMessage("test".into()), now_secs());
    let _ = channel_view.new_message(message, &HistoryLength::All, now_secs() as u64);
    let _ = channel_view.update(PrepareReply(1)); // Use actual message ID
    assert!(channel_view.preparing_reply().is_some());

    channel_view.cancel_interactive();
    assert!(channel_view.preparing_reply().is_none());
}

#[test]
fn test_message_input() {
    let mut channel_view = ChannelView::new(ChannelId::Channel(0), 0);
    assert!(channel_view.message().is_empty());

    let _ = channel_view.update(MessageInput("Hello".into()));
    assert_eq!(channel_view.message(), "Hello");
}

#[test]
fn test_message_input_max_length() {
    let mut channel_view = ChannelView::new(ChannelId::Channel(0), 0);

    // Message longer than 200 chars should be rejected
    let long_message = "a".repeat(250);
    let _ = channel_view.update(MessageInput(long_message));
    assert!(channel_view.message().is_empty());

    // Message of 199 chars should be accepted
    let valid_message = "b".repeat(199);
    let _ = channel_view.update(MessageInput(valid_message.clone()));
    assert_eq!(channel_view.message(), valid_message);
}

#[test]
fn test_clear_message() {
    let mut channel_view = ChannelView::new(ChannelId::Channel(0), 0);
    let _ = channel_view.update(MessageInput("Hello".into()));
    assert!(!channel_view.message().is_empty());

    let _ = channel_view.update(ClearMessage);
    assert!(channel_view.message().is_empty());
}

#[test]
fn test_send_message_empty() {
    let mut channel_view = ChannelView::new(ChannelId::Channel(0), 0);
    // Empty message should not trigger a send task
    let _ = channel_view.update(SendMessage(None));
    // No crash, message still empty
    assert!(channel_view.message().is_empty());
}

#[test]
fn test_send_message_clears_text() {
    let mut channel_view = ChannelView::new(ChannelId::Channel(0), 0);
    let _ = channel_view.update(MessageInput("Hello world".into()));
    assert!(!channel_view.message().is_empty());

    let _ = channel_view.update(SendMessage(None));
    assert!(channel_view.message().is_empty());
}

#[test]
fn test_send_message_clears_preparing_reply() {
    let mut channel_view = ChannelView::new(ChannelId::Channel(0), 0);
    let message = ChannelViewEntry::new(1, 1, NewTextMessage("test".into()), now_secs());
    let _ = channel_view.new_message(message, &HistoryLength::All, now_secs() as u64);
    let _ = channel_view.update(PrepareReply(1)); // Use actual message ID
    let _ = channel_view.update(MessageInput("Reply text".into()));

    let _ = channel_view.update(SendMessage(Some(1)));
    assert!(channel_view.preparing_reply().is_none());
}

#[test]
fn test_ack_message() {
    let mut channel_view = ChannelView::new(ChannelId::Channel(0), 0);
    let message = ChannelViewEntry::new(42, 1, NewTextMessage("test".into()), now_secs());
    let _ = channel_view.new_message(message, &HistoryLength::All, now_secs() as u64);

    assert!(
        !channel_view
            .get(42)
            .expect("entry 42 should exist")
            .acked()
    );

    channel_view.ack(42);
    assert!(
        channel_view
            .get(42)
            .expect("entry 42 should exist after ack")
            .acked()
    );
}

#[test]
fn test_ack_nonexistent_message() {
    let mut channel_view = ChannelView::new(ChannelId::Channel(0), 0);
    // Should not panic
    channel_view.ack(999);
}

#[test]
fn test_message_seen() {
    let mut channel_view = ChannelView::new(ChannelId::Channel(0), 0);
    let message = ChannelViewEntry::new(42, 1, NewTextMessage("test".into()), now_secs());
    let _ = channel_view.new_message(message, &HistoryLength::All, now_secs() as u64);

    assert!(
        !channel_view
            .get(42)
            .expect("entry 42 should exist")
            .seen()
    );
    assert_eq!(channel_view.unread_count(true, true), 1);

    let _ = channel_view.update(MessageSeen(42));
    assert!(
        channel_view
            .get(42)
            .expect("entry 42 should exist after marking seen")
            .seen()
    );
    assert_eq!(channel_view.unread_count(true, true), 0);
}

#[test]
fn test_trim_history_by_number() {
    let mut channel_view = ChannelView::new(ChannelId::Channel(0), 0);

    // Add 5 messages
    for i in 0..5 {
        let message = ChannelViewEntry::new(i, 1, NewTextMessage(format!("msg {}", i)), i);
        let _ = channel_view.new_message(message, &HistoryLength::All, now_secs() as u64);
    }
    assert_eq!(channel_view.len(), 5);

    // Adding the 6th message with a limit of 3 should trim to 3
    let message = ChannelViewEntry::new(5, 1, NewTextMessage("msg 5".into()), 5);
    let _ = channel_view.new_message(message, &HistoryLength::NumberOfMessages(3), now_secs() as u64);
    assert_eq!(channel_view.len(), 3);

    // The oldest messages should have been removed
    assert!(!channel_view.contains(0));
    assert!(!channel_view.contains(1));
    assert!(!channel_view.contains(2));
    assert!(channel_view.contains(3));
    assert!(channel_view.contains(4));
    assert!(channel_view.contains(5));
}

#[test]
fn test_trim_history_by_duration() {
    let mut channel_view = ChannelView::new(ChannelId::Channel(0), 0);
    let now = now_secs();

    // Add an old message (2 hours ago)
    let old_time = now - 7200;
    let old_message = ChannelViewEntry::new(1, 1, NewTextMessage("old".into()), old_time);
    let _ = channel_view.new_message(old_message, &HistoryLength::All, now_secs() as u64);

    // Add a recent message (now)
    let new_message = ChannelViewEntry::new(2, 1, NewTextMessage("new".into()), now);
    // Trim history to 1 hour (3600 seconds)
    let _ = channel_view.new_message(new_message, &HistoryLength::Duration(3600), now as u64);

    // Old message should be trimmed
    assert_eq!(channel_view.len(), 1);
    assert!(channel_view.contains(2));
}

#[test]
fn test_emoji_reply_adds_to_existing_message() {
    let mut channel_view = ChannelView::new(ChannelId::Channel(0), 0);

    // Add the original message
    let original = ChannelViewEntry::new(1, 100, NewTextMessage("Hello".into()), now_secs());
    let _ = channel_view.new_message(original, &HistoryLength::All, now_secs() as u64);
    assert_eq!(channel_view.len(), 1);

    // Add emoji reply to message 1
    let emoji_reply = ChannelViewEntry::new(2, 200, EmojiReply(1, "👍".into()), now_secs());
    let _ = channel_view.new_message(emoji_reply, &HistoryLength::All, now_secs() as u64);

    // Should still only have 1 entry (the original)
    assert_eq!(channel_view.len(), 1);
    // But the original should now have the emoji
    let original_entry = channel_view
        .get(1)
        .expect("original entry should exist after emoji reply");
    assert!(original_entry.emojis().contains_key("👍"));
}

#[test]
fn test_new_default() {
    let channel_view = ChannelView::default();
    assert_eq!(channel_view.channel_id(), ChannelId::default());
    assert!(channel_view.message().is_empty());
    assert!(channel_view.is_empty());
    assert!(channel_view.preparing_reply().is_none());
}

#[test]
fn test_my_message_scrolls() {
    let mut channel_view = ChannelView::new(ChannelId::Channel(0), 100);

    // Message from me (node 100)
    let my_message = ChannelViewEntry::new(1, 100, NewTextMessage("my msg".into()), now_secs());
    let task = channel_view.new_message(my_message, &HistoryLength::All, now_secs() as u64);

    assert_eq!(channel_view.len(), 1);
    assert!(task, "the device's own message scrolls to the end");
}

#[test]
fn test_others_message_no_scroll() {
    let mut channel_view = ChannelView::new(ChannelId::Channel(0), 100);

    // Message from someone else (node 200)
    let other_message =
        ChannelViewEntry::new(1, 200, NewTextMessage("other msg".into()), now_secs());
    let task = channel_view.new_message(other_message, &HistoryLength::All, now_secs() as u64);
    assert!(!task);

    assert_eq!(channel_view.len(), 1);
}

#[test]
fn test_channel_view_debug() {
    let channel_view = ChannelView::new(ChannelId::Channel(0), 100);
    let debug_str = format!("{:?}", channel_view);
    assert!(debug_str.contains("ChannelView"));
}

#[test]
fn test_channel_view_message_debug() {
    let msg = MessageInput("test".into());
    let debug_str = format!("{:?}", msg);
    assert!(debug_str.contains("MessageInput"));
}

#[test]
fn test_channel_view_message_clone() {
    let msg = PrepareReply(42);
    let cloned = msg.clone();
    assert!(matches!(cloned, PrepareReply(id) if id == 42));
}

#[test]
fn test_message_unseen() {
    let mut channel_view = ChannelView::new(ChannelId::Channel(0), 0);
    let message = ChannelViewEntry::new(42, 1, NewTextMessage("test".into()), now_secs());
    let _ = channel_view.new_message(message, &HistoryLength::All, now_secs() as u64);

    // Mark seen first
    let _ = channel_view.update(MessageSeen(42));
    assert!(
        channel_view
            .get(42)
            .expect("Entry with id 42 should exist after adding message")
            .seen()
    );

    // MessageUnseen should not change anything (currently a no-op)
    let _ = channel_view.update(ChannelViewMessage::MessageUnseen(42));
    // Still seen (MessageUnseen is a no-op)
    assert!(
        channel_view
            .get(42)
            .expect("Entry with id 42 should still exist after MessageUnseen")
            .seen()
    );
}

#[test]
fn test_pick_channel() {
    let mut channel_view = ChannelView::new(ChannelId::Channel(0), 0);
    let _task = channel_view.update(ChannelViewMessage::PickChannel(Some(
        ChannelId::Channel(1),
    )));
    // Should return a task, not panic
}

#[test]
fn test_pick_channel_none() {
    let mut channel_view = ChannelView::new(ChannelId::Channel(0), 0);
    let _task = channel_view.update(ChannelViewMessage::PickChannel(None));
    // Should return a task, not panic
}

#[test]
fn test_reply_with_emoji() {
    let mut channel_view = ChannelView::new(ChannelId::Channel(0), 0);
    let _task = channel_view.update(ChannelViewMessage::ReplyWithEmoji(
        42,
        "👍".into(),
        ChannelId::Channel(0),
    ));
    // Should return a task, not panic
}

#[test]
fn test_share_meshchat() {
    let mut channel_view = ChannelView::new(ChannelId::Channel(0), 0);
    assert!(channel_view.message().is_empty());

    let _task = channel_view.update(ChannelViewMessage::ShareMeshChat);
    assert!(channel_view.message().contains("MeshChat"));
    assert!(channel_view.message().contains("github.com"));
}

#[test]
fn test_unread_count_with_position_hidden() {
    let mut channel_view = ChannelView::new(ChannelId::Channel(0), 0);

    // Add a text message
    let text_msg = ChannelViewEntry::new(1, 1, NewTextMessage("test".into()), now_secs());
    let _ = channel_view.new_message(text_msg, &HistoryLength::All, now_secs() as u64);

    // Add a position message
    let pos_msg = ChannelViewEntry::new(
        2,
        1,
        MCMessage::PositionMessage(MCPosition {
            latitude_i: 0,
            longitude_i: 0,
            altitude: None,
            time: 0,
            location_source: 0,
            altitude_source: 0,
            timestamp: TimeStamp(0),
            timestamp_millis_adjust: 0,
            altitude_hae: None,
            altitude_geoidal_separation: None,
            pdop: 0,
            hdop: 0,
            vdop: 0,
            gps_accuracy: 0,
            ground_speed: None,
            ground_track: None,
            fix_quality: 0,
            fix_type: 0,
            sats_in_view: 0,
            sensor_id: 0,
            next_update: 0,
            seq_number: 0,
            precision_bits: 0,
        }),
        now_secs(),
    );
    let _ = channel_view.new_message(pos_msg, &HistoryLength::All, now_secs() as u64);

    // With position updates shown, should be 2 unread
    assert_eq!(channel_view.unread_count(true, true), 2);

    // With position updates hidden, should be 1 unread
    assert_eq!(channel_view.unread_count(false, true), 1);
}

#[test]
fn test_unread_count_with_user_hidden() {
    let mut channel_view = ChannelView::new(ChannelId::Channel(0), 0);

    // Add a text message
    let text_msg = ChannelViewEntry::new(1, 1, NewTextMessage("test".into()), now_secs());
    let _ = channel_view.new_message(text_msg, &HistoryLength::All, now_secs() as u64);

    // Add a user message
    let user_msg = ChannelViewEntry::new(
        2,
        1,
        MCMessage::UserMessage(MCUser {
            id: "test".into(),
            long_name: "Test".into(),
            short_name: "T".into(),
            hw_model_str: "".into(),
            hw_model: 0,
            is_licensed: false,
            role_str: "".into(),
            role: 0,
            public_key: vec![],
            is_unmessagable: false,
        }),
        now_secs(),
    );
    let _ = channel_view.new_message(user_msg, &HistoryLength::All, now_secs() as u64);

    // With user updates shown, should be 2 unread
    assert_eq!(channel_view.unread_count(true, true), 2);

    // With user updates hidden, should be 1 unread
    assert_eq!(channel_view.unread_count(true, false), 1);
}

#[test]
fn test_emoji_reply_to_nonexistent_message() {
    let mut channel_view = ChannelView::new(ChannelId::Channel(0), 0);

    // Try to add emoji reply to message that doesn't exist
    let emoji_reply = ChannelViewEntry::new(2, 200, EmojiReply(999, "👍".into()), now_secs());
    let _ = channel_view.new_message(emoji_reply, &HistoryLength::All, now_secs() as u64);

    // Should still have 0 entries (emoji reply doesn't create new entry)
    assert_eq!(channel_view.len(), 0);
}

#[test]
fn test_message_seen_nonexistent() {
    let mut channel_view = ChannelView::new(ChannelId::Channel(0), 0);
    // Should not panic when marking nonexistent message as seen
    let _ = channel_view.update(MessageSeen(999));
}

#[test]
fn test_trim_history_all() {
    let mut channel_view = ChannelView::new(ChannelId::Channel(0), 0);

    // Add many messages
    for i in 0..10 {
        let message = ChannelViewEntry::new(i, 1, NewTextMessage(format!("msg {}", i)), i);
        let _ = channel_view.new_message(message, &HistoryLength::All, now_secs() as u64);
    }

    // All messages should be kept
    assert_eq!(channel_view.len(), 10);
}

#[test]
fn test_multiple_emoji_replies() {
    let mut channel_view = ChannelView::new(ChannelId::Channel(0), 0);

    // Add the original message
    let original = ChannelViewEntry::new(1, 100, NewTextMessage("Hello".into()), now_secs());
    let _ = channel_view.new_message(original, &HistoryLength::All, now_secs() as u64);

    // Add multiple emoji replies
    let emoji1 = ChannelViewEntry::new(2, 200, EmojiReply(1, "👍".into()), now_secs());
    let _ = channel_view.new_message(emoji1, &HistoryLength::All, now_secs() as u64);

    let emoji2 = ChannelViewEntry::new(3, 300, EmojiReply(1, "❤️".into()), now_secs());
    let _ = channel_view.new_message(emoji2, &HistoryLength::All, now_secs() as u64);

    let emoji3 = ChannelViewEntry::new(4, 200, EmojiReply(1, "👍".into()), now_secs());
    let _ = channel_view.new_message(emoji3, &HistoryLength::All, now_secs() as u64);

    // Should still only have 1 entry
    assert_eq!(channel_view.len(), 1);

    // Original should have multiple emojis
    let original_entry = channel_view
        .get(1)
        .expect("Original message with id 1 should exist after adding emoji replies");
    assert!(original_entry.emojis().contains_key("👍"));
    assert!(original_entry.emojis().contains_key("❤️"));
}

#[test]
fn test_text_message_reply() {
    let mut channel_view = ChannelView::new(ChannelId::Channel(0), 0);

    // Add the original message
    let original = ChannelViewEntry::new(1, 100, NewTextMessage("Hello".into()), now_secs());
    let _ = channel_view.new_message(original, &HistoryLength::All, now_secs() as u64);

    // Add a text reply
    let reply = ChannelViewEntry::new(
        2,
        200,
        MCMessage::TextMessageReply(1, "Hi there!".into()),
        now_secs(),
    );
    let _ = channel_view.new_message(reply, &HistoryLength::All, now_secs() as u64);

    // Should have 2 entries
    assert_eq!(channel_view.len(), 2);
}

#[test]
fn test_alert_message() {
    let mut channel_view = ChannelView::new(ChannelId::Channel(0), 0);

    let alert = ChannelViewEntry::new(
        1,
        100,
        MCMessage::AlertMessage("Emergency!".into()),
        now_secs(),
    );
    let _ = channel_view.new_message(alert, &HistoryLength::All, now_secs() as u64);

    assert_eq!(channel_view.len(), 1);
}


#[test]
fn send_message_asks_app_to_send() {
    let mut channel_view = ChannelView::new(ChannelId::Channel(3), 0);
    let _ = channel_view.update(MessageInput("Hi".into()));
    let effects = channel_view.update(SendMessage(Some(7)));
    assert!(matches!(&effects[..], [Effect::SendText(t, ChannelId::Channel(3), Some(7))] if t == "Hi"));
    let effects = channel_view.update(SendMessage(None));
    assert!(effects.is_empty());
}

#[test]
fn share_meshchat_focuses_input() {
    let mut channel_view = ChannelView::new(ChannelId::Channel(0), 0);
    let effects = channel_view.update(ChannelViewMessage::ShareMeshChat);
    assert!(matches!(&effects[..], [Effect::FocusMessageInput]));
}

#[test]
fn message_input_limit_counts_bytes() {
    let mut channel_view = ChannelView::new(ChannelId::Channel(0), 0);
    // 66 three-byte characters are 198 bytes: kept.
    let ok = "日".repeat(66);
    let _ = channel_view.update(MessageInput(ok.clone()));
    assert_eq!(channel_view.message(), ok);
    // 67 of them are 201 bytes: refused.
    let _ = channel_view.update(MessageInput("日".repeat(67)));
    assert_eq!(channel_view.message(), ok);
}

#[test]
fn reply_quote_truncates_long_text() {
    let mut channel_view = ChannelView::new(ChannelId::Channel(0), 0);
    let m = ChannelViewEntry::new(1, 1, NewTextMessage("Hello there, how are you today?".into()), 10);
    let _ = channel_view.new_message(m, &HistoryLength::All, 10);
    let m = ChannelViewEntry::new(2, 1, NewTextMessage("Short".into()), 11);
    let _ = channel_view.new_message(m, &HistoryLength::All, 11);
    assert_eq!(channel_view.reply_quote(1), Some("Re: Hello there, how ...".to_string()));
    assert_eq!(channel_view.reply_quote(2), Some("Re: Short".to_string()));
    assert_eq!(channel_view.reply_quote(3), None);
}

#[test]
fn same_message_id_replaces_entry() {
    let mut channel_view = ChannelView::new(ChannelId::Channel(0), 0);
    let _ = channel_view.new_message(ChannelViewEntry::new(1, 1, NewTextMessage("a".into()), 10), &HistoryLength::All, 10);
    let _ = channel_view.new_message(ChannelViewEntry::new(1, 1, NewTextMessage("b".into()), 5), &HistoryLength::All, 10);
    assert_eq!(channel_view.len(), 1);
    assert_eq!(channel_view.get(1).unwrap().time(), 5);
}

#[test]
fn trim_by_duration_keeps_entries_on_the_boundary() {
    let mut channel_view = ChannelView::new(ChannelId::Channel(0), 0);
    let _ = channel_view.new_message(ChannelViewEntry::new(1, 1, NewTextMessage("a".into()), 100), &HistoryLength::All, 0);
    let _ = channel_view.new_message(ChannelViewEntry::new(2, 1, NewTextMessage("b".into()), 200), &HistoryLength::Duration(100), 200);
    // 100 + 100 is not before 200: the first entry stays.
    assert_eq!(channel_view.entry_ids(), vec![1, 2]);
    channel_view.trim_history(&HistoryLength::Duration(100), 201);
    assert_eq!(channel_view.entry_ids(), vec![2]);
}

#[test]
fn day_heading_today() {
    assert_eq!(day_heading((2025, 10), 2025, 5, (2025, 10), 2025, 5), DayHeading::Today);
}

#[test]
fn day_heading_past_day_same_week() {
    assert_eq!(day_heading((2025, 10), 2025, 3, (2025, 10), 2025, 5), DayHeading::Weekday);
}

#[test]
fn day_heading_past_week() {
    assert_eq!(day_heading((2025, 8), 2025, 20, (2025, 10), 2025, 5), DayHeading::WeekdayAndDate);
}

#[test]
fn day_heading_past_year() {
    assert_eq!(day_heading((2024, 50), 2024, 12, (2025, 10), 2025, 5), DayHeading::WeekdayDateAndYear);
    // A late-December day in the first ISO week of the next year is in the current week.
    assert_eq!(day_heading((2026, 1), 2025, 30, (2026, 1), 2026, 1), DayHeading::Weekday);
}
