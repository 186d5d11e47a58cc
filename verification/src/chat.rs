//! Chats, the text messages they hold and the records of the log.
use vstd::prelude::*;
use crate::ordered::Ranked;

verus! {

/// The address of a message sent to everyone on a channel.
pub const BROADCAST_ADDR: u32 = 0xffff_ffff;

/// A conversation: a channel of the radio or a direct chat with a node.
/// Channels come before direct chats, each kind in order of its key.
#[derive(Debug, Clone, Copy, PartialEq, Eq, Structural, Hash)]
pub enum Chat {
    Channel(u32),
    Direct(u32),
}

impl Ranked for Chat {
    open spec fn rank(&self) -> int {
        match *self {
            Chat::Channel(k) => k as int,
            Chat::Direct(k) => 0x1_0000_0000 + k,
        }
    }

    fn rank_of(&self) -> (r: u64) {
        match *self {
            Chat::Channel(k) => k as u64,
            Chat::Direct(k) => 0x1_0000_0000u64 + k as u64,
        }
    }

    proof fn lemma_rank_injective(a: Self, b: Self) {
    }
}

/// A text message, or an emoji reaction to one. `datetime` is a Unix time in
/// seconds; `snr_bits` holds the bits of the 32-bit floating point signal to
/// noise ratio; `routing_error` is the code of the routing error reported
/// for it, if any.
#[derive(Debug, Clone)]
pub struct Message {
    pub id: u32,
    pub reply_message_id: u32,
    pub from: u32,
    pub to: u32,
    pub channel: u32,
    pub is_emoji: bool,
    pub datetime: i64,
    pub text: String,
    pub reactions: Vec<u32>,
    pub hops: u32,
    pub snr_bits: u32,
    pub rssi: i32,
    pub routing_error: Option<i32>,
}

impl Chat {
    /// The chat a message belongs to, seen from the node `my_node_key`: the
    /// channel it was broadcast on, or the direct chat with the other node.
    pub open spec fn spec_of_message(m: Message, my_node_key: u32) -> Chat {
        if m.to == BROADCAST_ADDR {
            Chat::Channel(m.channel)
        } else if m.from == my_node_key {
            Chat::Direct(m.to)
        } else {
            Chat::Direct(m.from)
        }
    }

    pub fn of_message(m: &Message, my_node_key: u32) -> (r: Chat)
        ensures
            r == Chat::spec_of_message(*m, my_node_key),
    {
        if m.to == BROADCAST_ADDR {
            Chat::Channel(m.channel)
        } else if m.from == my_node_key {
            Chat::Direct(m.to)
        } else {
            Chat::Direct(m.from)
        }
    }

    /// Whether the message `m` is one of this chat's, for the purpose of
    /// purging it: any message on the channel, or any message between the
    /// two nodes of a direct chat.
    pub open spec fn spec_holds(self, m: Message, my_node_key: u32) -> bool {
        match self {
            Chat::Channel(k) => m.channel == k,
            Chat::Direct(n) => (m.from == my_node_key && m.to == n) || (m.to == my_node_key
                && m.from == n),
        }
    }

    pub fn holds(&self, m: &Message, my_node_key: u32) -> (r: bool)
        ensures
            r == self.spec_holds(*m, my_node_key),
    {
        match *self {
            Chat::Channel(k) => m.channel == k,
            Chat::Direct(n) => (m.from == my_node_key && m.to == n) || (m.to == my_node_key
                && m.from == n),
        }
    }
}

/// The severity of a log record.
#[derive(Debug, Clone, Copy, PartialEq, Eq, Structural)]
pub enum LogLevel {
    Trace,
    Debug,
    Info,
    Warn,
    Error,
}

/// A record of the application's log; `datetime` is a Unix time in seconds.
#[derive(Debug, Clone)]
pub struct LogRecord {
    pub datetime: i64,
    pub level: LogLevel,
    pub source: String,
    pub message: String,
}

} // verus!
