//! A conversation: the messages to and from a channel or a node, kept in the order they were
//! sent or received, with the text being typed and the reply being prepared.
use crate::channel_id::{ChannelId, MessageId, NodeId};
use crate::config::HistoryLength;
use crate::effect::Effect;
use crate::text::byte_len;
use crate::entry::{quote_of, quote_text, ChannelViewEntry, EntryView, MCMessage};
use crate::ring::{
    keys_unique, ring_get_index, ring_insert_sorted_by_value, ring_len, ring_new, ring_pairs,
    ring_pop_front, sorted_by_value, without_key,
};
use ringmap::RingMap;
use std::collections::HashMap;
use vstd::prelude::*;

verus! {

broadcast use vstd::std_specs::hash::group_hash_axioms;

/// The text put in the message box when the user chooses to share the app.
pub const SHARE_TEXT: &'static str = "I am using the MeshChat app. Its available for macOS/Windows/Linux from: https://github.com/andrewdavidmackenzie/meshchat/releases/latest ";

/// No two entries have the same message id.
pub open spec fn ids_unique(s: Seq<EntryView>) -> bool {
    forall|i: int, j: int| 0 <= i < s.len() && 0 <= j < s.len() && i != j ==> s[i].message_id != s[j].message_id
}

/// The entries are in the order of their times.
pub open spec fn times_sorted(s: Seq<EntryView>) -> bool {
    forall|i: int, j: int| 0 <= i <= j < s.len() ==> s[i].rx_time <= s[j].rx_time
}

/// The entries without the one whose message id is `id`, if there is one.
pub open spec fn without_id(s: Seq<EntryView>, id: MessageId) -> Seq<EntryView> {
    if exists|j: int| 0 <= j < s.len() && s[j].message_id == id {
        s.remove(choose|j: int| 0 <= j < s.len() && s[j].message_id == id)
    } else {
        s
    }
}

/// The entry whose message id is `id`, if there is one.
pub open spec fn entry_with_id(s: Seq<EntryView>, id: MessageId) -> Option<EntryView> {
    if exists|j: int| 0 <= j < s.len() && s[j].message_id == id {
        Some(s[choose|j: int| 0 <= j < s.len() && s[j].message_id == id])
    } else {
        None
    }
}

/// The entries with `f` applied to the one whose message id is `id`.
pub open spec fn update_entry(s: Seq<EntryView>, id: MessageId, f: spec_fn(EntryView) -> EntryView) -> Seq<EntryView> {
    s.map_values(|e: EntryView| if e.message_id == id { f(e) } else { e })
}

/// How many entries at the front are older than `secs` seconds before `now`.
pub open spec fn stale_count(s: Seq<EntryView>, secs: u64, now: u64) -> nat
    decreases s.len(),
{
    if s.len() > 0 && (s[0].rx_time as int) + (secs as int) < (now as int) {
        1 + stale_count(s.drop_first(), secs, now)
    } else {
        0
    }
}

proof fn lemma_stale_count_le(s: Seq<EntryView>, secs: u64, now: u64)
    ensures
        stale_count(s, secs, now) <= s.len(),
    decreases s.len(),
{
    if s.len() > 0 {
        lemma_stale_count_le(s.drop_first(), secs, now);
    }
}

/// The entries kept under a history length setting, at time `now`: all of them; the last
/// `n`; or those not older than the duration.
pub open spec fn trimmed(s: Seq<EntryView>, history_length: HistoryLength, now: u64) -> Seq<EntryView> {
    match history_length {
        HistoryLength::All => s,
        HistoryLength::NumberOfMessages(n) => if s.len() > n {
            s.subrange(s.len() - n, s.len() as int)
        } else {
            s
        },
        HistoryLength::Duration(secs) => s.skip(stale_count(s, secs, now) as int),
    }
}

/// `r` is `base` with `e` inserted somewhere, and `r` is in the order of times.
pub open spec fn inserted_in_order(base: Seq<EntryView>, e: EntryView, r: Seq<EntryView>) -> bool {
    &&& exists|i: int| 0 <= i <= base.len() && r == base.insert(i, e)
    &&& times_sorted(r)
}

/// The change that an emoji reply from `from` makes to the entry it answers.
pub open spec fn add_emoji_fn(emoji: Seq<char>, from: NodeId) -> spec_fn(EntryView) -> EntryView {
    |e: EntryView| EntryView {
        emojis: e.emojis.insert(
            emoji,
            if e.emojis.contains_key(emoji) { e.emojis[emoji].push(from) } else { seq![from] },
        ),
        ..e
    }
}

/// A conversation after an entry arrived: an emoji reply goes to the replies of the message it
/// answers (if the conversation has it); any other entry is inserted in the order of times,
/// replacing an entry with the same message id, and then the history is trimmed at time `now`.
/// Nothing but the entries changes.
pub open spec fn message_added(old_cv: ChannelViewModel, new_cv: ChannelViewModel, entry: EntryView, history_length: HistoryLength, now: u64) -> bool {
    &&& new_cv == (ChannelViewModel { entries: new_cv.entries, ..old_cv })
    &&& match entry.message {
        MCMessage::EmojiReply(reply_to, emoji) => new_cv.entries == update_entry(old_cv.entries, reply_to, add_emoji_fn(emoji@, entry.from)),
        _ => exists|mid: Seq<EntryView>|
            inserted_in_order(without_id(old_cv.entries, entry.message_id), entry, mid)
                && new_cv.entries == trimmed(mid, history_length, now),
    }
}

/// An empty conversation with `channel_id`, for the device's own node `my_node_num`.
pub open spec fn empty_conversation(channel_id: ChannelId, my_node_num: NodeId) -> ChannelViewModel {
    ChannelViewModel {
        channel_id,
        message: Seq::empty(),
        entries: Seq::empty(),
        my_node_num,
        preparing_reply: None,
    }
}

/// An entry counts as unread when the user has not seen it and its kind is being shown.
pub open spec fn counts_as_unread(e: EntryView, show_position_updates: bool, show_user_updates: bool) -> bool {
    &&& !(e.message is PositionMessage && !show_position_updates)
    &&& !(e.message is UserMessage && !show_user_updates)
    &&& !e.seen
}

/// The number of entries that count as unread.
pub open spec fn unread_in(s: Seq<EntryView>, show_position_updates: bool, show_user_updates: bool) -> nat
    decreases s.len(),
{
    if s.len() == 0 {
        0
    } else {
        unread_in(s.drop_last(), show_position_updates, show_user_updates) + if counts_as_unread(
            s.last(),
            show_position_updates,
            show_user_updates,
        ) {
            1nat
        } else {
            0nat
        }
    }
}

/// A message to a conversation from the user interface.
#[derive(Debug, Clone)]
pub enum ChannelViewMessage {
    /// The text in the message box changed.
    MessageInput(String),
    /// Clear the message box.
    ClearMessage,
    /// Send the text in the message box, possibly as a reply to a message.
    SendMessage(Option<MessageId>),
    /// Start preparing a reply to a message.
    PrepareReply(MessageId),
    /// Stop preparing a reply.
    CancelPrepareReply,
    /// The user has seen a message.
    MessageSeen(MessageId),
    /// A message went out of sight.
    MessageUnseen(MessageId),
    /// Show a conversation (or the device's list of conversations).
    PickChannel(Option<ChannelId>),
    /// Send an emoji reply to a message.
    ReplyWithEmoji(MessageId, String, ChannelId),
    /// Put the text that shares the app in the message box.
    ShareMeshChat,
}

/// A conversation with a channel or a node.
#[derive(Debug)]
pub struct ChannelView {
    channel_id: ChannelId,
    /// The text typed so far.
    message: String,
    /// The entries' message ids, each with the entry's time, in the order of the times.
    order: RingMap<MessageId, u32>,
    /// The entries, by message id.
    entries: HashMap<MessageId, ChannelViewEntry>,
    my_node_num: NodeId,
    preparing_reply: Option<MessageId>,
}

/// The contents of a [ChannelView] as values.
pub struct ChannelViewModel {
    pub channel_id: ChannelId,
    pub message: Seq<char>,
    /// The entries, in the order of their times.
    pub entries: Seq<EntryView>,
    pub my_node_num: NodeId,
    pub preparing_reply: Option<MessageId>,
}

impl View for ChannelView {
    type V = ChannelViewModel;

    closed spec fn view(&self) -> ChannelViewModel {
        ChannelViewModel {
            channel_id: self.channel_id,
            message: self.message@,
            entries: ring_pairs(self.order).map_values(|p: (u32, u32)| self.entries@[p.0]@),
            my_node_num: self.my_node_num,
            preparing_reply: self.preparing_reply,
        }
    }
}

impl ChannelView {
    /// Well-formed: the order and the entries hold the same message ids, each once, with the
    /// same times, in the order of the times.
    pub closed spec fn wf(&self) -> bool {
        let p = ring_pairs(self.order);
        &&& keys_unique(p)
        &&& sorted_by_value(p)
        &&& forall|i: int| 0 <= i < p.len() ==> #[trigger] self.entries@.contains_key(p[i].0)
        &&& forall|i: int| 0 <= i < p.len() ==> self.entries@[#[trigger] p[i].0]@.rx_time == p[i].1
        &&& forall|k: MessageId| #[trigger] self.entries@.contains_key(k) ==> exists|i: int| 0 <= i < p.len() && p[i].0 == k
        &&& forall|k: MessageId| #[trigger] self.entries@.contains_key(k) ==> self.entries@[k].wf() && self.entries@[k]@.message_id == k
    }

    proof fn lemma_wf(&self)
        requires
            self.wf(),
        ensures
            ids_unique(self@.entries),
            times_sorted(self@.entries),
            self@.entries.len() == ring_pairs(self.order).len(),
            forall|i: int| 0 <= i < self@.entries.len() ==> #[trigger] self@.entries[i].message_id == ring_pairs(self.order)[i].0,
            forall|i: int| 0 <= i < self@.entries.len() ==> #[trigger] self@.entries[i] == self.entries@[ring_pairs(self.order)[i].0]@,
    {
        let p = ring_pairs(self.order);
        assert forall|i: int| 0 <= i < self@.entries.len() implies #[trigger] self@.entries[i].message_id == p[i].0 by {
            assert(self.entries@.contains_key(p[i].0));
        }
        assert forall|i: int, j: int| 0 <= i <= j < self@.entries.len() implies self@.entries[i].rx_time <= self@.entries[j].rx_time by {
            assert(self.entries@[p[i].0]@.rx_time == p[i].1);
            assert(self.entries@[p[j].0]@.rx_time == p[j].1);
        }
        assert forall|i: int, j: int| 0 <= i < self@.entries.len() && 0 <= j < self@.entries.len() && i != j implies self@.entries[i].message_id != self@.entries[j].message_id by {
            assert(self.entries@.contains_key(p[i].0));
            assert(self.entries@.contains_key(p[j].0));
        }
    }

    /// A new, empty conversation.
    pub fn new(channel_id: ChannelId, my_node_num: NodeId) -> (v: Self)
        ensures
            v.wf(),
            v@.channel_id == channel_id,
            v@.message == Seq::<char>::empty(),
            v@.entries == Seq::<EntryView>::empty(),
            v@.my_node_num == my_node_num,
            v@.preparing_reply is None,
            v@ == empty_conversation(channel_id, my_node_num),
    {
        let v = ChannelView {
            channel_id,
            message: String::new(),
            order: ring_new(),
            entries: HashMap::new(),
            my_node_num,
            preparing_reply: None,
        };
        assert(v@.entries =~= Seq::<EntryView>::empty());
        v
    }

    /// The conversation's id.
    pub fn channel_id(&self) -> (r: ChannelId)
        ensures
            r == self@.channel_id,
    {
        self.channel_id
    }

    /// The text typed so far.
    pub fn message(&self) -> (r: &str)
        ensures
            r@ == self@.message,
    {
        self.message.as_str()
    }

    /// The message a reply is being prepared to, if any.
    pub fn preparing_reply(&self) -> (r: Option<MessageId>)
        ensures
            r == self@.preparing_reply,
    {
        self.preparing_reply
    }

    /// The number of entries.
    pub fn len(&self) -> (n: usize)
        requires
            self.wf(),
        ensures
            n == self@.entries.len(),
    {
        ring_len(&self.order)
    }

    /// True when the conversation has no entry.
    pub fn is_empty(&self) -> (b: bool)
        requires
            self.wf(),
        ensures
            b == (self@.entries.len() == 0),
    {
        ring_len(&self.order) == 0
    }

    /// The entry with message id `id`, if there is one.
    pub fn get(&self, id: MessageId) -> (r: Option<&ChannelViewEntry>)
        requires
            self.wf(),
        ensures
            match r {
                Some(e) => entry_with_id(self@.entries, id) == Some(e@),
                None => entry_with_id(self@.entries, id) is None,
            },
    {
        proof { self.lemma_wf(); }
        let r = self.entries.get(&id);
        proof {
            let p = ring_pairs(self.order);
            let s = self@.entries;
            if self.entries@.contains_key(id) {
                let i = choose|i: int| 0 <= i < p.len() && p[i].0 == id;
                assert(s[i].message_id == id);
                let j = choose|j: int| 0 <= j < s.len() && s[j].message_id == id;
                assert(j == i);
            } else {
                assert forall|j: int| 0 <= j < s.len() implies s[j].message_id != id by {
                    assert(self.entries@.contains_key(p[j].0));
                }
            }
        }
        r
    }

    /// True when the conversation has an entry with message id `id`.
    pub fn contains(&self, id: MessageId) -> (b: bool)
        requires
            self.wf(),
        ensures
            b == (entry_with_id(self@.entries, id) is Some),
    {
        self.get(id).is_some()
    }

    /// The message ids of the entries, in the order of the entries.
    pub fn entry_ids(&self) -> (ids: Vec<MessageId>)
        requires
            self.wf(),
        ensures
            ids@ == self@.entries.map_values(|e: EntryView| e.message_id),
    {
        proof { self.lemma_wf(); }
        let n = ring_len(&self.order);
        let mut ids: Vec<MessageId> = Vec::new();
        let mut i: usize = 0;
        while i < n
            invariant
                self.wf(),
                n == self@.entries.len(),
                n == ring_pairs(self.order).len(),
                i <= n,
                forall|j: int| 0 <= j < n ==> #[trigger] self@.entries[j].message_id == ring_pairs(self.order)[j].0,
                ids@ == self@.entries.subrange(0, i as int).map_values(|e: EntryView| e.message_id),
            decreases n - i,
        {
            let (k, _) = ring_get_index(&self.order, i).unwrap();
            ids.push(k);
            i = i + 1;
            assert(ids@ =~= self@.entries.subrange(0, i as int).map_values(|e: EntryView| e.message_id));
        }
        assert(self@.entries.subrange(0, n as int) =~= self@.entries);
        ids
    }
}


impl ChannelView {
    /// Replacing the entry with id `id` (present) by `e` changes the model by `f`, and keeps the
    /// conversation well-formed.
    proof fn lemma_replace(old_v: &ChannelView, new_v: &ChannelView, id: MessageId, e: ChannelViewEntry, f: spec_fn(EntryView) -> EntryView)
        requires
            old_v.wf(),
            new_v.order == old_v.order,
            old_v.entries@.contains_key(id),
            new_v.entries@ == old_v.entries@.insert(id, e),
            e.wf(),
            e@ == f(old_v.entries@[id]@),
            e@.message_id == id,
            e@.rx_time == old_v.entries@[id]@.rx_time,
        ensures
            new_v.wf(),
            new_v@.entries == update_entry(old_v@.entries, id, f),
    {
        let p = ring_pairs(old_v.order);
        old_v.lemma_wf();
        assert forall|i: int| 0 <= i < p.len() implies new_v.entries@[#[trigger] p[i].0]@.rx_time == p[i].1 by {
            assert(old_v.entries@.contains_key(p[i].0));
        }
        assert forall|k: MessageId| #[trigger] new_v.entries@.contains_key(k) implies exists|i: int| 0 <= i < p.len() && p[i].0 == k by {
            assert(old_v.entries@.contains_key(k));
        }
        assert(new_v@.entries =~= update_entry(old_v@.entries, id, f)) by {
            assert forall|i: int| 0 <= i < p.len() implies new_v@.entries[i] == update_entry(old_v@.entries, id, f)[i] by {
                assert(old_v.entries@.contains_key(p[i].0));
                assert(old_v@.entries[i] == old_v.entries@[p[i].0]@);
            }
        }
    }

    /// No entry of a well-formed conversation has an id that the entries map lacks.
    proof fn lemma_absent(&self, id: MessageId, f: spec_fn(EntryView) -> EntryView)
        requires
            self.wf(),
            !self.entries@.contains_key(id),
        ensures
            update_entry(self@.entries, id, f) == self@.entries,
            entry_with_id(self@.entries, id) is None,
    {
        let p = ring_pairs(self.order);
        self.lemma_wf();
        assert forall|i: int| 0 <= i < self@.entries.len() implies self@.entries[i].message_id != id by {
            assert(self.entries@.contains_key(p[i].0));
        }
        assert(update_entry(self@.entries, id, f) =~= self@.entries);
    }

    /// Mark the entry with message id `request_id` as acknowledged, if there is one.
    pub fn ack(&mut self, request_id: MessageId)
        requires
            old(self).wf(),
        ensures
            final(self).wf(),
            final(self)@ == (ChannelViewModel {
                entries: update_entry(old(self)@.entries, request_id, |e: EntryView| EntryView { acked: true, ..e }),
                ..old(self)@
            }),
    {
        let ghost f = |e: EntryView| EntryView { acked: true, ..e };
        if let Some(mut e) = self.entries.remove(&request_id) {
            e.ack();
            self.entries.insert(request_id, e);
            proof {
                assert(self.entries@ =~= old(self).entries@.insert(request_id, e));
                Self::lemma_replace(old(self), self, request_id, e, f);
            }
        } else {
            proof { old(self).lemma_absent(request_id, f); }
        }
        assert(self@.entries == update_entry(old(self)@.entries, request_id, f));
    }

    /// Mark the entry with message id `message_id` as seen, if there is one.
    pub fn mark_seen(&mut self, message_id: MessageId)
        requires
            old(self).wf(),
        ensures
            final(self).wf(),
            final(self)@ == (ChannelViewModel {
                entries: update_entry(old(self)@.entries, message_id, |e: EntryView| EntryView { seen: true, ..e }),
                ..old(self)@
            }),
    {
        let ghost f = |e: EntryView| EntryView { seen: true, ..e };
        if let Some(mut e) = self.entries.remove(&message_id) {
            e.mark_seen();
            self.entries.insert(message_id, e);
            proof {
                assert(self.entries@ =~= old(self).entries@.insert(message_id, e));
                Self::lemma_replace(old(self), self, message_id, e, f);
            }
        } else {
            proof { old(self).lemma_absent(message_id, f); }
        }
        assert(self@.entries == update_entry(old(self)@.entries, message_id, f));
    }

    /// Add node `from`'s emoji reply to the entry with message id `reply_to`, if there is one.
    pub fn add_emoji_reply(&mut self, reply_to: MessageId, emoji: String, from: NodeId)
        requires
            old(self).wf(),
        ensures
            final(self).wf(),
            final(self)@ == (ChannelViewModel {
                entries: update_entry(old(self)@.entries, reply_to, add_emoji_fn(emoji@, from)),
                ..old(self)@
            }),
    {
        let ghost em = emoji@;
        let ghost f = add_emoji_fn(em, from);
        if let Some(mut e) = self.entries.remove(&reply_to) {
            proof { assert(old(self).entries@.contains_key(reply_to)); }
            e.add_emoji(emoji, from);
            self.entries.insert(reply_to, e);
            proof {
                assert(self.entries@ =~= old(self).entries@.insert(reply_to, e));
                Self::lemma_replace(old(self), self, reply_to, e, f);
            }
        } else {
            proof { old(self).lemma_absent(reply_to, f); }
        }
        assert(self@.entries == update_entry(old(self)@.entries, reply_to, f));
    }

    /// Remove the oldest entry.
    fn pop_oldest(&mut self)
        requires
            old(self).wf(),
            old(self)@.entries.len() > 0,
        ensures
            final(self).wf(),
            final(self)@ == (ChannelViewModel { entries: old(self)@.entries.drop_first(), ..old(self)@ }),
    {
        proof { old(self).lemma_wf(); }
        let popped = ring_pop_front(&mut self.order);
        let (k, _) = popped.unwrap();
        let _ = self.entries.remove(&k);
        proof {
            let p = ring_pairs(old(self).order);
            let q = ring_pairs(self.order);
            assert(q == p.drop_first());
            assert forall|i: int| 0 <= i < q.len() implies q[i].0 != k by {
                assert(q[i] == p[i + 1]);
            }
            assert forall|i: int| 0 <= i < q.len() implies #[trigger] self.entries@.contains_key(q[i].0) by {
                assert(q[i] == p[i + 1]);
                assert(old(self).entries@.contains_key(p[i + 1].0));
            }
            assert forall|i: int| 0 <= i < q.len() implies self.entries@[#[trigger] q[i].0]@.rx_time == q[i].1 by {
                assert(q[i] == p[i + 1]);
            }
            assert forall|kk: MessageId| #[trigger] self.entries@.contains_key(kk) implies exists|i: int| 0 <= i < q.len() && q[i].0 == kk by {
                assert(old(self).entries@.contains_key(kk));
                let i = choose|i: int| 0 <= i < p.len() && p[i].0 == kk;
                assert(i != 0);
                assert(q[i - 1] == p[i]);
            }
            assert(self@.entries =~= old(self)@.entries.drop_first()) by {
                assert forall|i: int| 0 <= i < q.len() implies self@.entries[i] == old(self)@.entries.drop_first()[i] by {
                    assert(q[i] == p[i + 1]);
                }
            }
        }
    }

    /// Drop older entries as the history length setting asks, at time `now` (seconds since
    /// the epoch).
    pub fn trim_history(&mut self, history_length: &HistoryLength, now: u64)
        requires
            old(self).wf(),
        ensures
            final(self).wf(),
            final(self)@ == (ChannelViewModel { entries: trimmed(old(self)@.entries, *history_length, now), ..old(self)@ }),
    {
        match history_length {
            HistoryLength::NumberOfMessages(number) => {
                let number = *number;
                while ring_len(&self.order) > number
                    invariant
                        self.wf(),
                        self@ == (ChannelViewModel { entries: self@.entries, ..old(self)@ }),
                        trimmed(self@.entries, HistoryLength::NumberOfMessages(number), now) == trimmed(old(self)@.entries, HistoryLength::NumberOfMessages(number), now),
                    decreases self@.entries.len(),
                {
                    let ghost before = self@.entries;
                    proof { self.lemma_wf(); }
                    self.pop_oldest();
                    assert(trimmed(self@.entries, HistoryLength::NumberOfMessages(number), now) =~= trimmed(before, HistoryLength::NumberOfMessages(number), now));
                }
                proof { self.lemma_wf(); }
            },
            HistoryLength::Duration(secs) => {
                let secs = *secs;
                loop
                    invariant
                        self.wf(),
                        self@ == (ChannelViewModel { entries: self@.entries, ..old(self)@ }),
                        trimmed(self@.entries, HistoryLength::Duration(secs), now) == trimmed(old(self)@.entries, HistoryLength::Duration(secs), now),
                    ensures
                        self.wf(),
                        self@ == (ChannelViewModel { entries: self@.entries, ..old(self)@ }),
                        self@.entries == trimmed(old(self)@.entries, HistoryLength::Duration(secs), now),
                    decreases self@.entries.len(),
                {
                    proof { self.lemma_wf(); }
                    match ring_get_index(&self.order, 0) {
                        Some((_, rx)) => {
                            let stale = (rx as u64) < now && secs < now - (rx as u64);
                            proof {
                                let p = ring_pairs(self.order);
                                assert(self.entries@[p[0].0]@.rx_time == p[0].1);
                                assert(self@.entries[0].rx_time == rx);
                            }
                            if stale {
                                let ghost before = self@.entries;
                                assert(stale_count(before, secs, now) == 1 + stale_count(before.drop_first(), secs, now));
                                proof { lemma_stale_count_le(before.drop_first(), secs, now); }
                                self.pop_oldest();
                                assert(before.skip(stale_count(before, secs, now) as int) =~= before.drop_first().skip(stale_count(before.drop_first(), secs, now) as int));
                            } else {
                                assert(stale_count(self@.entries, secs, now) == 0);
                                assert(self@.entries.skip(0) =~= self@.entries);
                                break;
                            }
                        },
                        None => {
                            assert(self@.entries.skip(0) =~= self@.entries);
                            break;
                        },
                    }
                }
            },
            HistoryLength::All => {},
        }
    }
}


impl ChannelView {
    /// Removing the pair with key `id` from the order corresponds to removing the entry with
    /// that id from the model.
    proof fn lemma_without(&self, id: MessageId)
        requires
            self.wf(),
        ensures
            without_key(ring_pairs(self.order), id).len() == without_id(self@.entries, id).len(),
            forall|m: int| 0 <= m < without_key(ring_pairs(self.order), id).len() ==> {
                &&& (#[trigger] without_key(ring_pairs(self.order), id)[m]).0 != id
                &&& self.entries@.contains_key(without_key(ring_pairs(self.order), id)[m].0)
                &&& self.entries@[without_key(ring_pairs(self.order), id)[m].0]@ == without_id(self@.entries, id)[m]
                &&& self.entries@[without_key(ring_pairs(self.order), id)[m].0]@.rx_time == without_key(ring_pairs(self.order), id)[m].1
            },
            forall|m: int| 0 <= m < ring_pairs(self.order).len() && ring_pairs(self.order)[m].0 != id ==> exists|n: int|
                0 <= n < without_key(ring_pairs(self.order), id).len() && without_key(ring_pairs(self.order), id)[n] == ring_pairs(self.order)[m],
    {
        self.lemma_wf();
        let p = ring_pairs(self.order);
        let v = self@.entries;
        let q = without_key(p, id);
        if exists|j: int| 0 <= j < p.len() && p[j].0 == id {
            let jj = choose|j: int| 0 <= j < p.len() && p[j].0 == id;
            assert(v[jj].message_id == id);
            let j2 = choose|j: int| 0 <= j < v.len() && v[j].message_id == id;
            assert(p[j2].0 == id);
            assert(j2 == jj);
            assert(q == p.remove(jj));
            assert(without_id(v, id) == v.remove(jj));
            assert forall|m: int| 0 <= m < q.len() implies {
                &&& q[m].0 != id
                &&& self.entries@.contains_key(q[m].0)
                &&& self.entries@[q[m].0]@ == without_id(v, id)[m]
                &&& self.entries@[q[m].0]@.rx_time == q[m].1
            } by {
                let m2 = if m < jj { m } else { m + 1 };
                assert(q[m] == p[m2]);
                assert(self.entries@.contains_key(p[m2].0));
                assert(v[m2] == self.entries@[p[m2].0]@);
            }
            assert forall|m: int| 0 <= m < p.len() && p[m].0 != id implies exists|n: int| 0 <= n < q.len() && q[n] == p[m] by {
                let n = if m < jj { m } else { m - 1 };
                assert(q[n] == p[m]);
            }
        } else {
            assert(q == p);
            assert forall|j: int| 0 <= j < v.len() implies v[j].message_id != id by {
                assert(v[j].message_id == p[j].0);
            }
            assert(without_id(v, id) == v);
            assert forall|m: int| 0 <= m < q.len() implies {
                &&& q[m].0 != id
                &&& self.entries@.contains_key(q[m].0)
                &&& self.entries@[q[m].0]@ == without_id(v, id)[m]
                &&& self.entries@[q[m].0]@.rx_time == q[m].1
            } by {
                assert(self.entries@.contains_key(p[m].0));
            }
            assert forall|m: int| 0 <= m < p.len() && p[m].0 != id implies exists|n: int| 0 <= n < q.len() && q[n] == p[m] by {
                assert(q[m] == p[m]);
            }
        }
    }

    /// Insert an entry in the order of times; an entry with the same message id is replaced.
    fn insert_entry(&mut self, entry: ChannelViewEntry)
        requires
            old(self).wf(),
            entry.wf(),
        ensures
            final(self).wf(),
            final(self)@ == (ChannelViewModel { entries: final(self)@.entries, ..old(self)@ }),
            inserted_in_order(without_id(old(self)@.entries, entry@.message_id), entry@, final(self)@.entries),
    {
        let id = entry.message_id();
        let rx = entry.time();
        let ghost ev = entry@;
        proof { old(self).lemma_without(id); old(self).lemma_wf(); }
        ring_insert_sorted_by_value(&mut self.order, id, rx);
        self.entries.insert(id, entry);
        proof {
            let p = ring_pairs(old(self).order);
            let q = without_key(p, id);
            let w = without_id(old(self)@.entries, id);
            let i = choose|i: int| 0 <= i <= q.len() && ring_pairs(self.order) == q.insert(i, (id, rx));
            let np = ring_pairs(self.order);
            assert(np == q.insert(i, (id, rx)));
            assert forall|j: int| 0 <= j < np.len() implies #[trigger] self.entries@.contains_key(np[j].0) && self.entries@[np[j].0]@.rx_time == np[j].1 && self.entries@[np[j].0]@ == w.insert(i, ev)[j] by {
                if j < i {
                    assert(np[j] == q[j]);
                } else if j > i {
                    assert(np[j] == q[j - 1]);
                }
            }
            assert forall|k: MessageId| #[trigger] self.entries@.contains_key(k) implies exists|j: int| 0 <= j < np.len() && np[j].0 == k by {
                if k == id {
                    assert(np[i].0 == k);
                } else {
                    assert(old(self).entries@.contains_key(k));
                    let m = choose|m: int| 0 <= m < p.len() && p[m].0 == k;
                    let n = choose|n: int| 0 <= n < q.len() && q[n] == p[m];
                    let j = if n < i { n } else { n + 1 };
                    assert(np[j] == q[n]);
                }
            }
            assert forall|k: MessageId| #[trigger] self.entries@.contains_key(k) implies self.entries@[k].wf() && self.entries@[k]@.message_id == k by {
                if k != id {
                    assert(old(self).entries@.contains_key(k));
                }
            }
            assert(self@.entries =~= w.insert(i, ev));
            assert(self.wf());
            self.lemma_wf();
        }
    }

    /// Add a new entry to the conversation, keeping the order of times, then drop older entries
    /// as the history length setting asks at time `now` (seconds since the epoch). An emoji reply
    /// is not an entry of its own: the emoji is added to the replies of the message it answers,
    /// if the conversation has it. Returns true when the entry was sent by this device's own node
    /// (the view then scrolls to the end).
    pub fn new_message(&mut self, new_message: ChannelViewEntry, history_length: &HistoryLength, now: u64) -> (mine: bool)
        requires
            old(self).wf(),
            new_message.wf(),
        ensures
            final(self).wf(),
            mine == (new_message@.from == old(self)@.my_node_num),
            message_added(old(self)@, final(self)@, new_message@, *history_length, now),
    {
        let mine = new_message.from() == self.my_node_num;
        let from = new_message.from();
        let ghost ev = new_message@;
        let is_emoji = matches!(new_message.message(), MCMessage::EmojiReply(_, _));
        if is_emoji {
            let e = new_message;
            match e.into_message() {
                MCMessage::EmojiReply(reply_to, emoji) => {
                    self.add_emoji_reply(reply_to, emoji, from);
                },
                _ => {},
            }
        } else {
            self.insert_entry(new_message);
            let ghost mid = self@.entries;
            self.trim_history(history_length, now);
            assert(inserted_in_order(without_id(old(self)@.entries, ev.message_id), ev, mid));
        }
        assert(message_added(old(self)@, self@, ev, *history_length, now));
        mine
    }
}


impl Default for ChannelView {
    /// An empty conversation with the default conversation id, for node zero.
    fn default() -> (v: Self)
        ensures
            v.wf(),
            v@ == empty_conversation(ChannelId::Channel(0), 0),
    {
        ChannelView::new(ChannelId::Channel(0), 0)
    }
}

impl ChannelView {
    /// The number of unread entries, not counting the kinds of message that are not being shown.
    pub fn unread_count(&self, show_position_updates: bool, show_user_updates: bool) -> (n: usize)
        requires
            self.wf(),
        ensures
            n == unread_in(self@.entries, show_position_updates, show_user_updates),
    {
        proof { self.lemma_wf(); }
        let len = ring_len(&self.order);
        let mut count: usize = 0;
        let mut i: usize = 0;
        while i < len
            invariant
                self.wf(),
                len == self@.entries.len(),
                len == ring_pairs(self.order).len(),
                i <= len,
                count <= i,
                forall|j: int| 0 <= j < len ==> #[trigger] self@.entries[j] == self.entries@[ring_pairs(self.order)[j].0]@,
                count == unread_in(self@.entries.subrange(0, i as int), show_position_updates, show_user_updates),
            decreases len - i,
        {
            let (k, _) = ring_get_index(&self.order, i).unwrap();
            proof { assert(self.entries@.contains_key(ring_pairs(self.order)[i as int].0)); }
            let e = self.entries.get(&k).unwrap();
            let counts = !(e.message().is_position() && !show_position_updates)
                && !(e.message().is_user() && !show_user_updates) && !e.seen();
            assert(self@.entries.subrange(0, i + 1).drop_last() =~= self@.entries.subrange(0, i as int));
            if counts {
                count = count + 1;
            }
            i = i + 1;
        }
        assert(self@.entries.subrange(0, len as int) =~= self@.entries);
        count
    }

    /// The line quoted above a reply to the entry with message id `id`, if there is one.
    pub fn reply_quote(&self, id: MessageId) -> (r: Option<String>)
        requires
            self.wf(),
        ensures
            match entry_with_id(self@.entries, id) {
                Some(e) => r is Some && r->0@ == quote_text(e.message),
                None => r is None,
            },
    {
        match self.get(id) {
            Some(e) => Some(quote_of(e.message())),
            None => None,
        }
    }

    /// Stop preparing a reply.
    pub fn cancel_interactive(&mut self)
        ensures
            final(self)@ == (ChannelViewModel { preparing_reply: None, ..old(self)@ }),
            final(self).wf() == old(self).wf(),
    {
        self.preparing_reply = None;
    }
}


/// A conversation after a message from the user interface, and the work it asks of the app:
/// typed text is kept when its UTF-8 form is shorter than 200 bytes; sending takes the typed text
/// (if any) and clears it and the reply being prepared; a reply is prepared only to an entry the
/// conversation has; picking a conversation, replying with an emoji and sharing the app become
/// work for the app.
pub open spec fn view_updated(old_cv: ChannelViewModel, msg: ChannelViewMessage, new_cv: ChannelViewModel, effects: Seq<Effect>) -> bool {
    match msg {
        ChannelViewMessage::MessageInput(s) => {
            &&& new_cv == (if byte_len(s@) < 200 {
                ChannelViewModel { message: s@, ..old_cv }
            } else {
                old_cv
            })
            &&& effects.len() == 0
        },
        ChannelViewMessage::ClearMessage => {
            &&& new_cv == (ChannelViewModel { message: Seq::empty(), ..old_cv })
            &&& effects.len() == 0
        },
        ChannelViewMessage::SendMessage(reply_to) => if old_cv.message.len() > 0 {
            &&& new_cv == (ChannelViewModel { message: Seq::empty(), preparing_reply: None, ..old_cv })
            &&& effects.len() == 1
            &&& effects[0] matches Effect::SendText(t, c, r) && t@ == old_cv.message
                && c == old_cv.channel_id && r == reply_to
        } else {
            &&& new_cv == old_cv
            &&& effects.len() == 0
        },
        ChannelViewMessage::PrepareReply(id) => {
            &&& new_cv == (if entry_with_id(old_cv.entries, id) is Some {
                ChannelViewModel { preparing_reply: Some(id), ..old_cv }
            } else {
                old_cv
            })
            &&& effects.len() == 0
        },
        ChannelViewMessage::CancelPrepareReply => {
            &&& new_cv == (ChannelViewModel { preparing_reply: None, ..old_cv })
            &&& effects.len() == 0
        },
        ChannelViewMessage::MessageSeen(id) => {
            &&& new_cv == (ChannelViewModel {
                entries: update_entry(old_cv.entries, id, |e: EntryView| EntryView { seen: true, ..e }),
                ..old_cv
            })
            &&& effects.len() == 0
        },
        ChannelViewMessage::MessageUnseen(_) => {
            &&& new_cv == old_cv
            &&& effects.len() == 0
        },
        ChannelViewMessage::PickChannel(c) => {
            &&& new_cv == old_cv
            &&& effects.len() == 1
            &&& effects[0] matches Effect::ShowChannel(cc) && cc == c
        },
        ChannelViewMessage::ReplyWithEmoji(id, emoji, c) => {
            &&& new_cv == old_cv
            &&& effects.len() == 1
            &&& effects[0] matches Effect::SendEmojiReply(i, e, cc) && i == id && e == emoji && cc == c
        },
        ChannelViewMessage::ShareMeshChat => {
            &&& new_cv == (ChannelViewModel { message: SHARE_TEXT@, ..old_cv })
            &&& effects.len() == 1
            &&& effects[0] is FocusMessageInput
        },
    }
}

impl ChannelView {
    /// Apply a message from the user interface, returning the work it asks of the app.
    pub fn update(&mut self, channel_view_message: ChannelViewMessage) -> (effects: Vec<Effect>)
        requires
            old(self).wf(),
        ensures
            final(self).wf(),
            view_updated(old(self)@, channel_view_message, final(self)@, effects@),
    {
        let mut effects: Vec<Effect> = Vec::new();
        match channel_view_message {
            ChannelViewMessage::MessageInput(s) => {
                if s.as_str().len() < 200 {
                    self.message = s;
                }
            },
            ChannelViewMessage::ClearMessage => {
                self.message = String::new();
            },
            ChannelViewMessage::SendMessage(reply_to_id) => {
                if self.message.as_str().unicode_len() > 0 {
                    let msg = self.message.clone();
                    self.message = String::new();
                    self.preparing_reply = None;
                    effects.push(Effect::SendText(msg, self.channel_id, reply_to_id));
                }
            },
            ChannelViewMessage::PrepareReply(entry_id) => {
                if self.contains(entry_id) {
                    self.preparing_reply = Some(entry_id);
                }
            },
            ChannelViewMessage::CancelPrepareReply => {
                self.cancel_interactive();
            },
            ChannelViewMessage::MessageSeen(message_id) => {
                self.mark_seen(message_id);
            },
            ChannelViewMessage::MessageUnseen(_) => {},
            ChannelViewMessage::PickChannel(channel_id) => {
                effects.push(Effect::ShowChannel(channel_id));
            },
            ChannelViewMessage::ReplyWithEmoji(message_id, emoji, channel_id) => {
                effects.push(Effect::SendEmojiReply(message_id, emoji, channel_id));
            },
            ChannelViewMessage::ShareMeshChat => {
                self.message = String::from_str(SHARE_TEXT);
                effects.push(Effect::FocusMessageInput);
            },
        }
        effects
    }
}

impl ChannelView {
    /// A conversation keeps its entries in the order of their times, and never holds two entries
    /// with the same message id.
    pub proof fn lemma_entries_ordered(&self)
        requires
            self.wf(),
        ensures
            times_sorted(self@.entries),
            ids_unique(self@.entries),
    {
        self.lemma_wf();
    }
}

/// A message received is kept: when the whole history is kept, the conversation holds the new
/// entry after it arrives (unless it is an emoji reply, which goes to the message it answers),
/// an earlier entry with its id gives way to it, and every other entry stays.
pub proof fn lemma_received_message_kept(old_cv: ChannelViewModel, new_cv: ChannelViewModel, entry: EntryView, now: u64)
    requires
        message_added(old_cv, new_cv, entry, HistoryLength::All, now),
        !(entry.message is EmojiReply),
    ensures
        new_cv.entries.contains(entry),
        new_cv.entries.len() == without_id(old_cv.entries, entry.message_id).len() + 1,
        forall|e: EntryView| #[trigger] old_cv.entries.contains(e) && e.message_id != entry.message_id ==> new_cv.entries.contains(e),
{
    let base = without_id(old_cv.entries, entry.message_id);
    let mid = choose|mid: Seq<EntryView>| inserted_in_order(base, entry, mid) && new_cv.entries == trimmed(mid, HistoryLength::All, now);
    let i = choose|i: int| 0 <= i <= base.len() && mid == base.insert(i, entry);
    assert(mid[i] == entry);
    assert forall|e: EntryView| #[trigger] old_cv.entries.contains(e) && e.message_id != entry.message_id implies new_cv.entries.contains(e) by {
        let k = choose|k: int| 0 <= k < old_cv.entries.len() && old_cv.entries[k] == e;
        let b = if exists|j: int| 0 <= j < old_cv.entries.len() && old_cv.entries[j].message_id == entry.message_id {
            choose|j: int| 0 <= j < old_cv.entries.len() && old_cv.entries[j].message_id == entry.message_id
        } else {
            old_cv.entries.len() as int
        };
        let kb = if k < b { k } else { k - 1 };
        assert(base[kb] == e);
        if kb < i {
            assert(mid[kb] == e);
        } else {
            assert(mid[kb + 1] == e);
        }
    }
}

/// Trimming keeps the latest entries: with a number of messages, the last ones (as many as the
/// setting allows); with a duration, all from the first entry that is not too old, every entry
/// dropped being older than the duration.
pub proof fn lemma_trim_keeps_latest(s: Seq<EntryView>, history_length: HistoryLength, now: u64)
    ensures
        exists|k: int| 0 <= k <= s.len() && #[trigger] trimmed(s, history_length, now) == s.skip(k),
        history_length matches HistoryLength::NumberOfMessages(n) ==>
            trimmed(s, history_length, now).len() == if s.len() > n { n as int } else { s.len() as int },
        history_length matches HistoryLength::Duration(secs) ==>
            forall|i: int| 0 <= i < s.len() - trimmed(s, history_length, now).len() ==> (s[i].rx_time as int) + (secs as int) < now,
{
    match history_length {
        HistoryLength::All => {
            assert(trimmed(s, history_length, now) == s.skip(0));
        },
        HistoryLength::NumberOfMessages(n) => {
            if s.len() > n {
                assert(trimmed(s, history_length, now) == s.skip(s.len() - n));
            } else {
                assert(trimmed(s, history_length, now) == s.skip(0));
            }
        },
        HistoryLength::Duration(secs) => {
            lemma_stale_count_le(s, secs, now);
            let k = stale_count(s, secs, now) as int;
            assert(trimmed(s, history_length, now) == s.skip(k));
            lemma_stale_prefix(s, secs, now);
        },
    }
}

/// Every entry before the first one that is not too old is older than the duration.
proof fn lemma_stale_prefix(s: Seq<EntryView>, secs: u64, now: u64)
    ensures
        forall|i: int| 0 <= i < stale_count(s, secs, now) ==> (s[i].rx_time as int) + (secs as int) < now,
    decreases s.len(),
{
    if s.len() > 0 && (s[0].rx_time as int) + (secs as int) < (now as int) {
        lemma_stale_prefix(s.drop_first(), secs, now);
        lemma_stale_count_le(s, secs, now);
        assert forall|i: int| 0 <= i < stale_count(s, secs, now) implies (s[i].rx_time as int) + (secs as int) < now by {
            if i > 0 {
                assert(s[i] == s.drop_first()[i - 1]);
            }
        }
    }
}

/// An acknowledgement changes no entry but the one acknowledged: the entries stay in place,
/// and the entry with the acknowledged id is marked as acknowledged.
pub proof fn lemma_ack_marks_only_that_message(s: Seq<EntryView>, id: MessageId)
    ensures
        update_entry(s, id, |e: EntryView| EntryView { acked: true, ..e }).len() == s.len(),
        forall|i: int| #![trigger s[i]] 0 <= i < s.len() ==> update_entry(s, id, |e: EntryView| EntryView { acked: true, ..e })[i]
            == if s[i].message_id == id { EntryView { acked: true, ..s[i] } } else { s[i] },
{
}

/// Seeing a message never raises the number of unread messages: it drops by one when the
/// message was counted as unread, and stays otherwise.
pub proof fn lemma_seen_lowers_unread(s: Seq<EntryView>, id: MessageId, show_position_updates: bool, show_user_updates: bool)
    requires
        ids_unique(s),
    ensures
        unread_in(update_entry(s, id, |e: EntryView| EntryView { seen: true, ..e }), show_position_updates, show_user_updates)
            == unread_in(s, show_position_updates, show_user_updates) - if exists|j: int| 0 <= j < s.len() && s[j].message_id == id
                && counts_as_unread(s[j], show_position_updates, show_user_updates) { 1int } else { 0int },
    decreases s.len(),
{
    let f = |e: EntryView| EntryView { seen: true, ..e };
    let t = update_entry(s, id, f);
    if s.len() > 0 {
        let d = s.drop_last();
        assert(ids_unique(d));
        lemma_seen_lowers_unread(d, id, show_position_updates, show_user_updates);
        assert(t.drop_last() =~= update_entry(d, id, f));
        let last = s.last();
        if last.message_id == id {
            assert(!exists|j: int| 0 <= j < d.len() && d[j].message_id == id) by {
                if exists|j: int| 0 <= j < d.len() && d[j].message_id == id {
                    let j = choose|j: int| 0 <= j < d.len() && d[j].message_id == id;
                    assert(s[j].message_id == s[s.len() - 1].message_id);
                }
            }
        } else {
            if exists|j: int| 0 <= j < s.len() && s[j].message_id == id && counts_as_unread(s[j], show_position_updates, show_user_updates) {
                let j = choose|j: int| 0 <= j < s.len() && s[j].message_id == id && counts_as_unread(s[j], show_position_updates, show_user_updates);
                assert(d[j] == s[j]);
            }
            if exists|j: int| 0 <= j < d.len() && d[j].message_id == id && counts_as_unread(d[j], show_position_updates, show_user_updates) {
                let j = choose|j: int| 0 <= j < d.len() && d[j].message_id == id && counts_as_unread(d[j], show_position_updates, show_user_updates);
                assert(s[j] == d[j]);
            }
        }
    }
}

/// A conversation set to keep a number of messages never holds more after a message arrives:
/// an entry inserted leaves at most that many, the latest; an emoji reply changes no count.
pub proof fn lemma_history_bounded(old_cv: ChannelViewModel, new_cv: ChannelViewModel, entry: EntryView, max: usize, now: u64)
    requires
        message_added(old_cv, new_cv, entry, HistoryLength::NumberOfMessages(max), now),
    ensures
        entry.message is EmojiReply ==> new_cv.entries.len() == old_cv.entries.len(),
        !(entry.message is EmojiReply) ==> new_cv.entries.len() <= max,
{
    if !(entry.message is EmojiReply) {
        let base = without_id(old_cv.entries, entry.message_id);
        let mid = choose|mid: Seq<EntryView>| inserted_in_order(base, entry, mid)
            && new_cv.entries == trimmed(mid, HistoryLength::NumberOfMessages(max), now);
        lemma_trim_keeps_latest(mid, HistoryLength::NumberOfMessages(max), now);
    }
}

/// The heading shown above the first message of a day.
#[derive(Debug, Clone, Copy, PartialEq, Eq, Structural)]
pub enum DayHeading {
    /// "Today".
    Today,
    /// The day's name, for a day earlier in the current week.
    Weekday,
    /// The day's name, month and date, for a day before the current week in the current year.
    WeekdayAndDate,
    /// The day's name, month, date and year, for a day before the current week in another year.
    WeekdayDateAndYear,
}

/// ISO week `a` (week-numbering year, week) comes before week `b`.
pub open spec fn week_before(a: (i32, u32), b: (i32, u32)) -> bool {
    a.0 < b.0 || (a.0 == b.0 && a.1 < b.1)
}

/// The heading for a message's day, from its ISO week, year and day of the month, against those
/// of today: a day before this week shows its date (and its year when that differs from this
/// year); otherwise a day with today's day of the month is "Today", and any other shows its
/// name.
pub open spec fn day_heading_of(week: (i32, u32), year: i32, day: u32, now_week: (i32, u32), now_year: i32, now_day: u32) -> DayHeading {
    if week_before(week, now_week) {
        if year != now_year { DayHeading::WeekdayDateAndYear } else { DayHeading::WeekdayAndDate }
    } else if day == now_day {
        DayHeading::Today
    } else {
        DayHeading::Weekday
    }
}

/// The heading for a message's day (see [day_heading_of]).
pub fn day_heading(week: (i32, u32), year: i32, day: u32, now_week: (i32, u32), now_year: i32, now_day: u32) -> (h: DayHeading)
    ensures
        h == day_heading_of(week, year, day, now_week, now_year, now_day),
{
    let before = week.0 < now_week.0 || (week.0 == now_week.0 && week.1 < now_week.1);
    if before {
        if year != now_year { DayHeading::WeekdayDateAndYear } else { DayHeading::WeekdayAndDate }
    } else if day == now_day {
        DayHeading::Today
    } else {
        DayHeading::Weekday
    }
}

} // verus!
