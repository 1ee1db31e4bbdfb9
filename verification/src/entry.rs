//! One entry of a conversation: a message sent or received, with its acknowledgement,
//! seen-state and emoji replies.
use crate::channel_id::{MessageId, NodeId};
use crate::model::{position_text, user_text, MCPosition, MCUser};
use crate::strmap::StrMap;
use crate::text::{
    byte_len, decimal_digits, push_char, push_decimal, push_str, str_starts_with, truncate, truncated,
};
use vstd::prelude::*;

verus! {

/// The contents of a conversation entry.
#[derive(Debug, Clone, PartialEq)]
pub enum MCMessage {
    /// An alert, with its text.
    AlertMessage(String),
    /// A new text message.
    NewTextMessage(String),
    /// A text reply: the id of the message replied to, and the reply's text.
    TextMessageReply(MessageId, String),
    /// An emoji reply: the id of the message replied to, and the emoji.
    EmojiReply(MessageId, String),
    /// A position report.
    PositionMessage(MCPosition),
    /// A user report.
    UserMessage(MCUser),
}

/// The text shown for a message.
pub open spec fn message_text(m: MCMessage) -> Seq<char> {
    match m {
        MCMessage::AlertMessage(t) => t@,
        MCMessage::NewTextMessage(t) => t@,
        MCMessage::TextMessageReply(_, t) => "Re: "@ + t@,
        MCMessage::EmojiReply(id, t) => t@ + ": "@ + decimal_digits(id as nat),
        MCMessage::PositionMessage(p) => position_text(p),
        MCMessage::UserMessage(u) => user_text(u),
    }
}

impl MCMessage {
    /// Render the message as the text shown in a conversation.
    pub fn display_string(&self) -> (s: String)
        ensures
            s@ == message_text(*self),
    {
        match self {
            MCMessage::AlertMessage(t) => t.clone(),
            MCMessage::NewTextMessage(t) => t.clone(),
            MCMessage::TextMessageReply(_, t) => {
                let mut s = String::new();
                push_str(&mut s, "Re: ");
                push_str(&mut s, t.as_str());
                s
            },
            MCMessage::EmojiReply(id, t) => {
                let mut s = t.clone();
                push_str(&mut s, ": ");
                push_decimal(&mut s, *id as u64);
                s
            },
            MCMessage::PositionMessage(p) => p.display_string(),
            MCMessage::UserMessage(u) => u.display_string(),
        }
    }

    /// True for a position report.
    pub fn is_position(&self) -> (b: bool)
        ensures
            b == (*self is PositionMessage),
    {
        matches!(self, MCMessage::PositionMessage(_))
    }

    /// True for a user report.
    pub fn is_user(&self) -> (b: bool)
        ensures
            b == (*self is UserMessage),
    {
        matches!(self, MCMessage::UserMessage(_))
    }
}

/// The line quoted above a reply to a message: "Re: " and the message's text, cut to twenty
/// characters and marked " ..." when its UTF-8 form is longer than twenty bytes.
pub open spec fn quote_text(m: MCMessage) -> Seq<char> {
    let t = "Re: "@ + message_text(m);
    if byte_len(t) > 20 {
        truncated(t, 20) + " ..."@
    } else {
        t
    }
}

/// The quote line for a reply to `message`.
pub fn quote_of(message: &MCMessage) -> (s: String)
    ensures
        s@ == quote_text(*message),
{
    let mut t = String::new();
    push_str(&mut t, "Re: ");
    let body = message.display_string();
    push_str(&mut t, body.as_str());
    if t.as_str().len() > 20 {
        let mut cut = truncate(t.as_str(), 20);
        push_str(&mut cut, " ...");
        cut
    } else {
        t
    }
}

/// A piece of a message's text: plain text, or a link (whose text is the link itself).
#[derive(Debug, Clone, PartialEq)]
pub struct Span {
    pub text: String,
    pub link: Option<String>,
}

/// The contents of a span as values: its text, and its link if it is one.
pub open spec fn span_view(s: Span) -> (Seq<char>, Option<Seq<char>>) {
    (s.text@, match s.link {
        Some(l) => Some(l@),
        None => None,
    })
}

/// Scanning `s` left to right: the words completed so far (each ending in a space, the space
/// included) and the characters read since the last space.
pub open spec fn scan_words(s: Seq<char>) -> (Seq<Seq<char>>, Seq<char>)
    decreases s.len(),
{
    if s.len() == 0 {
        (Seq::empty(), Seq::empty())
    } else {
        let (ws, cur) = scan_words(s.drop_last());
        let cur2 = cur.push(s.last());
        if s.last() == ' ' {
            (ws.push(cur2), Seq::empty())
        } else {
            (ws, cur2)
        }
    }
}

/// `s` cut after each space, each piece keeping its space (`str::split_inclusive(' ')`).
pub open spec fn words(s: Seq<char>) -> Seq<Seq<char>> {
    let (ws, cur) = scan_words(s);
    if cur.len() > 0 { ws.push(cur) } else { ws }
}

/// A word is a link when it begins with "http:" or "https:".
pub open spec fn is_link(w: Seq<char>) -> bool {
    (5 <= w.len() && w.subrange(0, 5) == "http:"@) || (6 <= w.len() && w.subrange(0, 6) == "https:"@)
}

/// Folding the words left to right: the spans completed so far and the plain text not yet
/// closed into a span.
pub open spec fn fold_spans(ws: Seq<Seq<char>>) -> (Seq<(Seq<char>, Option<Seq<char>>)>, Seq<char>)
    decreases ws.len(),
{
    if ws.len() == 0 {
        (Seq::empty(), Seq::empty())
    } else {
        let (sp, pend) = fold_spans(ws.drop_last());
        let w = ws.last();
        if is_link(w) {
            let sp2 = if pend.len() > 0 { sp.push((pend, None)) } else { sp };
            (sp2.push((w, Some(w))), Seq::empty())
        } else {
            (sp, pend + w)
        }
    }
}

/// The spans of a message's text: runs of plain words, each link a span of its own.
pub open spec fn tokenized(s: Seq<char>) -> Seq<(Seq<char>, Option<Seq<char>>)> {
    let (sp, pend) = fold_spans(words(s));
    if pend.len() > 0 { sp.push((pend, None)) } else { sp }
}

/// The texts of spans, joined in order.
pub open spec fn joined_spans(sp: Seq<(Seq<char>, Option<Seq<char>>)>) -> Seq<char>
    decreases sp.len(),
{
    if sp.len() == 0 {
        Seq::empty()
    } else {
        joined_spans(sp.drop_last()) + sp.last().0
    }
}

/// Words joined in order.
pub open spec fn joined_words(ws: Seq<Seq<char>>) -> Seq<char>
    decreases ws.len(),
{
    if ws.len() == 0 {
        Seq::empty()
    } else {
        joined_words(ws.drop_last()) + ws.last()
    }
}

/// The texts of the spans that are links, in order.
pub open spec fn link_spans(sp: Seq<(Seq<char>, Option<Seq<char>>)>) -> Seq<Seq<char>>
    decreases sp.len(),
{
    if sp.len() == 0 {
        Seq::empty()
    } else if sp.last().1 is Some {
        link_spans(sp.drop_last()).push(sp.last().0)
    } else {
        link_spans(sp.drop_last())
    }
}

/// The words that are links, in order.
pub open spec fn link_words(ws: Seq<Seq<char>>) -> Seq<Seq<char>>
    decreases ws.len(),
{
    if ws.len() == 0 {
        Seq::empty()
    } else if is_link(ws.last()) {
        link_words(ws.drop_last()).push(ws.last())
    } else {
        link_words(ws.drop_last())
    }
}

/// Spans as a message's text is split into: a link span's link is its text, which is a link; a
/// plain span is not empty and is no link; and no two plain spans stand next to each other.
pub open spec fn spans_wf(sp: Seq<(Seq<char>, Option<Seq<char>>)>) -> bool {
    &&& forall|i: int| 0 <= i < sp.len() ==> match (#[trigger] sp[i]).1 {
        Some(l) => l == sp[i].0 && is_link(sp[i].0),
        None => sp[i].0.len() > 0 && !is_link(sp[i].0),
    }
    &&& forall|i: int, j: int| 0 <= i && j == i + 1 && j < sp.len() ==> (#[trigger] sp[i]).1 is Some || (#[trigger] sp[j]).1 is Some
}

/// Scanning a text gives words that each end in a space and a rest without a space, which
/// joined give back the text.
proof fn lemma_scan_words(s: Seq<char>)
    ensures
        joined_words(scan_words(s).0) + scan_words(s).1 == s,
        forall|i: int| 0 <= i < scan_words(s).0.len() ==> (#[trigger] scan_words(s).0[i]).len() > 0
            && scan_words(s).0[i].last() == ' ',
        forall|j: int| 0 <= j < scan_words(s).1.len() ==> #[trigger] scan_words(s).1[j] != ' ',
    decreases s.len(),
{
    if s.len() > 0 {
        lemma_scan_words(s.drop_last());
        let (ws0, cur0) = scan_words(s.drop_last());
        let cur2 = cur0.push(s.last());
        assert(s.drop_last().push(s.last()) =~= s);
        assert(joined_words(ws0) + cur2 =~= (joined_words(ws0) + cur0).push(s.last()));
        if s.last() == ' ' {
            assert(ws0.push(cur2).drop_last() =~= ws0);
            assert(joined_words(ws0.push(cur2)) + Seq::<char>::empty() =~= s);
        }
    }
}

/// The words of a text join to give the text back; each is not empty, and each but the last
/// ends in a space.
proof fn lemma_words(s: Seq<char>)
    ensures
        joined_words(words(s)) == s,
        forall|i: int| 0 <= i < words(s).len() ==> (#[trigger] words(s)[i]).len() > 0,
        forall|i: int| 0 <= i < words(s).len() - 1 ==> (#[trigger] words(s)[i]).last() == ' ',
{
    lemma_scan_words(s);
    let (ws, cur) = scan_words(s);
    if cur.len() > 0 {
        assert(ws.push(cur).drop_last() =~= ws);
        assert forall|i: int| 0 <= i < words(s).len() - 1 implies (#[trigger] words(s)[i]).last() == ' ' by {
            assert(words(s)[i] == ws[i]);
        }
    } else {
        assert(joined_words(ws) + cur =~= joined_words(ws));
    }
}

/// A text that is no link and ends in a space stays no link whatever follows it: the space
/// falls within the first five characters or after them.
proof fn lemma_no_link_extends(a: Seq<char>, b: Seq<char>)
    requires
        a.len() > 0,
        a.last() == ' ',
        !is_link(a),
    ensures
        !is_link(a + b),
{
    reveal_strlit("http:");
    reveal_strlit("https:");
    let ab = a + b;
    if 5 <= ab.len() && ab.subrange(0, 5) == "http:"@ {
        if a.len() >= 5 {
            assert(a.subrange(0, 5) =~= ab.subrange(0, 5));
        } else {
            assert(ab.subrange(0, 5)[a.len() - 1] == ' ');
        }
    }
    if 6 <= ab.len() && ab.subrange(0, 6) == "https:"@ {
        if a.len() >= 6 {
            assert(a.subrange(0, 6) =~= ab.subrange(0, 6));
        } else {
            assert(ab.subrange(0, 6)[a.len() - 1] == ' ');
        }
    }
}

/// Folding words that are not empty, each but the last ending in a space: the spans and the
/// pending text join to give the words back; the spans are well formed and end with a link; the
/// pending text is no link and ends as the last word does; and the links are the words that are
/// links.
proof fn lemma_fold_spans(ws: Seq<Seq<char>>)
    requires
        forall|i: int| 0 <= i < ws.len() ==> (#[trigger] ws[i]).len() > 0,
        forall|i: int| 0 <= i < ws.len() - 1 ==> (#[trigger] ws[i]).last() == ' ',
    ensures
        joined_spans(fold_spans(ws).0) + fold_spans(ws).1 == joined_words(ws),
        spans_wf(fold_spans(ws).0),
        fold_spans(ws).0.len() > 0 ==> fold_spans(ws).0.last().1 is Some,
        fold_spans(ws).1.len() > 0 ==> !is_link(fold_spans(ws).1) && ws.len() > 0
            && fold_spans(ws).1.last() == ws.last().last(),
        link_spans(fold_spans(ws).0) == link_words(ws),
    decreases ws.len(),
{
    if ws.len() > 0 {
        let ws0 = ws.drop_last();
        assert forall|i: int| 0 <= i < ws0.len() - 1 implies (#[trigger] ws0[i]).last() == ' ' by {
            assert(ws0[i] == ws[i]);
        }
        assert forall|i: int| 0 <= i < ws0.len() implies (#[trigger] ws0[i]).len() > 0 by {
            assert(ws0[i] == ws[i]);
        }
        lemma_fold_spans(ws0);
        let (sp, pend) = fold_spans(ws0);
        let w = ws.last();
        assert(w == ws[ws.len() - 1]);
        if is_link(w) {
            let sp2 = if pend.len() > 0 { sp.push((pend, None)) } else { sp };
            let sp3 = sp2.push((w, Some(w)));
            assert(sp3.drop_last() =~= sp2);
            assert(joined_words(ws) == joined_words(ws0) + w);
            assert(link_words(ws) == link_words(ws0).push(w));
            assert(link_spans(sp3) == link_spans(sp2).push(w));
            if pend.len() > 0 {
                assert(sp2.drop_last() =~= sp);
                assert(link_spans(sp2) == link_spans(sp));
                assert(joined_spans(sp2) == joined_spans(sp) + pend);
                assert(joined_spans(sp3) == joined_spans(sp2) + w);
                assert(joined_spans(sp3) + Seq::<char>::empty() =~= joined_spans(sp) + pend + w);
                assert forall|i: int| 0 <= i < sp3.len() implies match (#[trigger] sp3[i]).1 {
                    Some(l) => l == sp3[i].0 && is_link(sp3[i].0),
                    None => sp3[i].0.len() > 0 && !is_link(sp3[i].0),
                } by {
                    if i < sp.len() {
                        assert(sp3[i] == sp[i]);
                    }
                }
                assert forall|i: int, j: int| 0 <= i && j == i + 1 && j < sp3.len() implies (#[trigger] sp3[i]).1 is Some || (#[trigger] sp3[j]).1 is Some by {
                    if j < sp.len() {
                        assert(sp3[i] == sp[i] && sp3[j] == sp[j]);
                    } else if j == sp.len() {
                        assert(sp3[i] == sp[i]);
                        assert(sp[sp.len() - 1] == sp.last());
                    }
                }
            } else {
                assert(joined_spans(sp3) == joined_spans(sp2) + w);
                assert(joined_spans(sp) + pend =~= joined_spans(sp));
                assert(joined_spans(sp3) + Seq::<char>::empty() =~= joined_words(ws));
                assert forall|i: int| 0 <= i < sp3.len() implies match (#[trigger] sp3[i]).1 {
                    Some(l) => l == sp3[i].0 && is_link(sp3[i].0),
                    None => sp3[i].0.len() > 0 && !is_link(sp3[i].0),
                } by {
                    if i < sp.len() {
                        assert(sp3[i] == sp[i]);
                    }
                }
                assert forall|i: int, j: int| 0 <= i && j == i + 1 && j < sp3.len() implies (#[trigger] sp3[i]).1 is Some || (#[trigger] sp3[j]).1 is Some by {
                    if j < sp.len() {
                        assert(sp3[i] == sp[i] && sp3[j] == sp[j]);
                    }
                }
            }
        } else {
            assert(link_words(ws) == link_words(ws0));
            assert(joined_words(ws) == joined_words(ws0) + w);
            assert(joined_spans(sp) + (pend + w) =~= joined_spans(sp) + pend + w);
            if pend.len() > 0 {
                assert(ws0.last() == ws[ws.len() - 2]);
                lemma_no_link_extends(pend, w);
            } else {
                assert(pend + w =~= w);
            }
        }
    }
}

/// What splitting a message's text gives: the spans join to give the text back; a span is a
/// link exactly when its text is one, and then its link is its text; no span is empty and no
/// two plain spans stand next to each other; the links are the words of the text (each with the
/// space after it) that begin with "http:" or "https:", in order; an empty text gives no span.
pub proof fn lemma_tokenized(s: Seq<char>)
    ensures
        joined_spans(tokenized(s)) == s,
        spans_wf(tokenized(s)),
        link_spans(tokenized(s)) == link_words(words(s)),
        s.len() == 0 ==> tokenized(s).len() == 0,
{
    lemma_words(s);
    lemma_fold_spans(words(s));
    let (sp, pend) = fold_spans(words(s));
    if pend.len() > 0 {
        let sp2 = sp.push((pend, None::<Seq<char>>));
        assert(sp2.drop_last() =~= sp);
        assert forall|i: int| 0 <= i < sp2.len() implies match (#[trigger] sp2[i]).1 {
            Some(l) => l == sp2[i].0 && is_link(sp2[i].0),
            None => sp2[i].0.len() > 0 && !is_link(sp2[i].0),
        } by {
            if i < sp.len() {
                assert(sp2[i] == sp[i]);
            }
        }
        assert forall|i: int, j: int| 0 <= i && j == i + 1 && j < sp2.len() implies (#[trigger] sp2[i]).1 is Some || (#[trigger] sp2[j]).1 is Some by {
            if j < sp.len() {
                assert(sp2[i] == sp[i] && sp2[j] == sp[j]);
            } else {
                assert(sp2[i] == sp[i]);
                assert(sp[sp.len() - 1] == sp.last());
            }
        }
    } else {
        assert(joined_spans(sp) + pend =~= joined_spans(sp));
    }
    if s.len() == 0 {
        assert(scan_words(s).0.len() == 0);
    }
}

fn split_words(message: &str) -> (r: Vec<String>)
    ensures
        r@.map_values(|w: String| w@) == words(message@),
{
    let n = message.unicode_len();
    let mut ws: Vec<String> = Vec::new();
    let mut cur = String::new();
    let mut i: usize = 0;
    while i < n
        invariant
            n == message@.len(),
            i <= n,
            (ws@.map_values(|w: String| w@), cur@) == scan_words(message@.subrange(0, i as int)),
        decreases n - i,
    {
        let c = message.get_char(i);
        let ghost pre = message@.subrange(0, i as int);
        assert(message@.subrange(0, i + 1).drop_last() =~= pre);
        push_char(&mut cur, c);
        if c == ' ' {
            let w = cur;
            cur = String::new();
            let ghost old_ws = ws@;
            ws.push(w);
            assert(ws@.map_values(|w: String| w@) =~= old_ws.map_values(|w: String| w@).push(w@));
        }
        i = i + 1;
    }
    assert(message@.subrange(0, n as int) =~= message@);
    if cur.as_str().unicode_len() > 0 {
        let ghost old_ws = ws@;
        ws.push(cur);
        assert(ws@.map_values(|w: String| w@) =~= old_ws.map_values(|w: String| w@).push(ws@.last()@));
    }
    ws
}

fn word_is_link(w: &str) -> (b: bool)
    ensures
        b == is_link(w@),
{
    let a = str_starts_with(w, "http:");
    let b = str_starts_with(w, "https:");
    proof {
        reveal_strlit("http:");
        reveal_strlit("https:");
    }
    a || b
}

/// Split a message's text into spans: plain text, and links, each link a span of its own.
pub fn tokenize(message: &str) -> (spans: Vec<Span>)
    ensures
        spans@.map_values(|s: Span| span_view(s)) == tokenized(message@),
{
    let ws = split_words(message);
    let ghost wsv = ws@.map_values(|w: String| w@);
    let mut spans: Vec<Span> = Vec::new();
    let mut pending = String::new();
    let mut i: usize = 0;
    while i < ws.len()
        invariant
            i <= ws@.len(),
            wsv == ws@.map_values(|w: String| w@),
            (spans@.map_values(|s: Span| span_view(s)), pending@) == fold_spans(wsv.subrange(0, i as int)),
        decreases ws@.len() - i,
    {
        let w = &ws[i];
        assert(wsv.subrange(0, i + 1).drop_last() =~= wsv.subrange(0, i as int));
        assert(wsv.subrange(0, i + 1).last() == w@);
        if word_is_link(w.as_str()) {
            if pending.as_str().unicode_len() > 0 {
                let ghost old_sp = spans@;
                let p = pending;
                pending = String::new();
                spans.push(Span { text: p, link: None });
                assert(spans@.map_values(|s: Span| span_view(s)) =~= old_sp.map_values(|s: Span| span_view(s)).push(span_view(spans@.last())));
            }
            let ghost old_sp2 = spans@;
            spans.push(Span { text: w.clone(), link: Some(w.clone()) });
            assert(spans@.map_values(|s: Span| span_view(s)) =~= old_sp2.map_values(|s: Span| span_view(s)).push(span_view(spans@.last())));
            pending = String::new();
        } else {
            push_str(&mut pending, w.as_str());
        }
        i = i + 1;
    }
    assert(wsv.subrange(0, ws@.len() as int) =~= wsv);
    if pending.as_str().unicode_len() > 0 {
        let ghost old_sp = spans@;
        spans.push(Span { text: pending, link: None });
        assert(spans@.map_values(|s: Span| span_view(s)) =~= old_sp.map_values(|s: Span| span_view(s)).push(span_view(spans@.last())));
    }
    spans
}

} // verus!

verus! {

/// An entry of a conversation: a message received or sent.
#[derive(Debug, Clone)]
pub struct ChannelViewEntry {
    /// The node that sent the message.
    from: NodeId,
    message_id: MessageId,
    /// When the message was sent or received, in seconds since the epoch.
    rx_time: u32,
    message: MCMessage,
    /// Has the user seen the message?
    seen: bool,
    /// Has a receiver acknowledged the message?
    acked: bool,
    /// Emoji replies: for each emoji, the nodes that sent it.
    emoji_reply: StrMap<Vec<NodeId>>,
}

/// The contents of a [ChannelViewEntry] as values.
pub struct EntryView {
    pub from: NodeId,
    pub message_id: MessageId,
    pub rx_time: u32,
    pub message: MCMessage,
    pub seen: bool,
    pub acked: bool,
    /// For each emoji replied, the nodes that sent it, in the order they arrived.
    pub emojis: Map<Seq<char>, Seq<NodeId>>,
}

impl View for ChannelViewEntry {
    type V = EntryView;

    closed spec fn view(&self) -> EntryView {
        EntryView {
            from: self.from,
            message_id: self.message_id,
            rx_time: self.rx_time,
            message: self.message,
            seen: self.seen,
            acked: self.acked,
            emojis: self.emoji_reply@.map_values(|v: Vec<NodeId>| v@),
        }
    }
}

impl ChannelViewEntry {
    /// Well-formed: the emoji map holds no emoji twice.
    pub closed spec fn wf(&self) -> bool {
        self.emoji_reply.wf()
    }

    /// A new entry, not yet seen nor acknowledged and without emoji replies.
    pub fn new(message_id: MessageId, from: NodeId, message: MCMessage, rx_time: u32) -> (e: Self)
        ensures
            e.wf(),
            e@.message_id == message_id,
            e@.from == from,
            e@.message == message,
            e@.rx_time == rx_time,
            !e@.seen,
            !e@.acked,
            e@.emojis == Map::<Seq<char>, Seq<NodeId>>::empty(),
    {
        let e = ChannelViewEntry {
            from,
            message_id,
            rx_time,
            message,
            seen: false,
            acked: false,
            emoji_reply: StrMap::new(),
        };
        assert(e@.emojis =~= Map::<Seq<char>, Seq<NodeId>>::empty());
        e
    }

    /// The node that sent the message.
    pub fn from(&self) -> (r: NodeId)
        ensures
            r == self@.from,
    {
        self.from
    }

    /// The message.
    pub fn message(&self) -> (r: &MCMessage)
        ensures
            *r == self@.message,
    {
        &self.message
    }

    /// The message, taking the entry apart.
    pub fn into_message(self) -> (r: MCMessage)
        ensures
            r == self@.message,
    {
        self.message
    }

    /// The message's id.
    pub fn message_id(&self) -> (r: MessageId)
        ensures
            r == self@.message_id,
    {
        self.message_id
    }

    /// When the message was sent or received, in seconds since the epoch.
    pub fn time(&self) -> (r: u32)
        ensures
            r == self@.rx_time,
    {
        self.rx_time
    }

    /// Mark the entry as acknowledged by a receiver.
    pub fn ack(&mut self)
        ensures
            final(self)@ == (EntryView { acked: true, ..old(self)@ }),
            final(self).wf() == old(self).wf(),
    {
        self.acked = true;
    }

    /// True when a receiver has acknowledged the message.
    pub fn acked(&self) -> (r: bool)
        ensures
            r == self@.acked,
    {
        self.acked
    }

    /// True when the user has seen the message.
    pub fn seen(&self) -> (r: bool)
        ensures
            r == self@.seen,
    {
        self.seen
    }

    /// Mark the message as seen by the user.
    pub fn mark_seen(&mut self)
        ensures
            final(self)@ == (EntryView { seen: true, ..old(self)@ }),
            final(self).wf() == old(self).wf(),
    {
        self.seen = true;
    }

    /// The emoji replies, keyed by emoji.
    pub fn emojis(&self) -> (r: &StrMap<Vec<NodeId>>)
        ensures
            r@.map_values(|v: Vec<NodeId>| v@) == self@.emojis,
            r.wf() == self.wf(),
    {
        &self.emoji_reply
    }

    /// Record that node `from` replied with `emoji`: `from` is added after the nodes that sent
    /// the same emoji before.
    pub fn add_emoji(&mut self, emoji_string: String, from: NodeId)
        requires
            old(self).wf(),
        ensures
            final(self).wf(),
            final(self)@ == (EntryView {
                emojis: old(self)@.emojis.insert(
                    emoji_string@,
                    if old(self)@.emojis.contains_key(emoji_string@) {
                        old(self)@.emojis[emoji_string@].push(from)
                    } else {
                        seq![from]
                    },
                ),
                ..old(self)@
            }),
    {
        let ghost e = emoji_string@;
        let senders = match self.emoji_reply.remove(emoji_string.as_str()) {
            Some(mut v) => {
                v.push(from);
                v
            },
            None => {
                let mut v = Vec::new();
                v.push(from);
                v
            },
        };
        self.emoji_reply.insert(emoji_string, senders);
        proof {
            assert(self@.emojis =~= old(self)@.emojis.insert(
                e,
                if old(self)@.emojis.contains_key(e) {
                    old(self)@.emojis[e].push(from)
                } else {
                    seq![from]
                },
            ));
        }
    }
}

} // verus!
