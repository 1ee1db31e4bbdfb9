//! Identifiers of conversations: a channel of the radio, or a direct conversation with a node.
use crate::text::{push_decimal, push_signed_decimal, push_str, signed_decimal, decimal_digits};
use vstd::prelude::*;

verus! {

/// The number that identifies a node of the mesh.
pub type NodeId = u64;

/// The number that identifies a message.
pub type MessageId = u32;

/// A conversation: one of the radio's channels (by its index, 0..7) or a direct conversation
/// with a node (by its node number).
#[derive(Debug, Clone, Copy, PartialEq, Eq, Hash, Structural)]
pub enum ChannelId {
    Channel(i32),
    Node(NodeId),
}

impl Default for ChannelId {
    /// The default conversation is channel 0.
    fn default() -> (r: Self)
        ensures
            r == ChannelId::Channel(0),
    {
        ChannelId::Channel(0)
    }
}

/// The text shown for a conversation id: its debug form followed by a newline,
/// such as "Channel(5)\n" or "Node(12345)\n".
pub open spec fn channel_id_text(id: ChannelId) -> Seq<char> {
    match id {
        ChannelId::Channel(n) => "Channel("@ + signed_decimal(n as int) + ")\n"@,
        ChannelId::Node(n) => "Node("@ + decimal_digits(n as nat) + ")\n"@,
    }
}

impl ChannelId {
    /// Render this id as text, the way it is displayed.
    pub fn display_string(&self) -> (s: String)
        ensures
            s@ == channel_id_text(*self),
    {
        let mut s = String::new();
        match self {
            ChannelId::Channel(n) => {
                push_str(&mut s, "Channel(");
                push_signed_decimal(&mut s, *n as i64);
            },
            ChannelId::Node(n) => {
                push_str(&mut s, "Node(");
                push_decimal(&mut s, *n);
            },
        }
        push_str(&mut s, ")\n");
        s
    }
}

} // verus!
