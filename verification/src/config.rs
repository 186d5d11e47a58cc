//! The saved part of the state, when it is saved, and where a chat message
//! typed by the user is sent.
use vstd::prelude::*;
use std::hash::{DefaultHasher, Hash, Hasher};
use crate::chat::Chat;
use crate::device::{Device, DeviceSet};
use crate::state::{AppConfig, State, StateAction, StateField};
use crate::types::{Toast, ToastKind};
use crate::packets::PORT_TEXT_MESSAGE;
use vstd::utf8::encode_utf8;
use vstd::string::*;

verus! {

impl Device {
    /// Copies an optional device.
    pub fn clone_option(d: &Option<Device>) -> (r: Option<Device>)
        ensures
            d is None ==> r is None,
            *d matches Some(x) ==> r matches Some(y) && y.same(x),
    {
        match d {
            Some(x) => Some(x.deep_clone()),
            None => None,
        }
    }
}

impl DeviceSet {
    /// A copy of the set, device by device.
    pub fn deep_clone(&self) -> (r: DeviceSet)
        requires
            self.wf(),
        ensures
            r.wf(),
            r.items.len() == self.items.len(),
            forall|i: int| 0 <= i < self.items.len() ==> (#[trigger] r.items@[i]).same(self.items@[i]),
    {
        let mut items: Vec<Device> = Vec::new();
        let mut i: usize = 0;
        while i < self.items.len()
            invariant
                i <= self.items.len(),
                items.len() == i,
                forall|j: int| 0 <= j < i ==> (#[trigger] items@[j]).same(self.items@[j]),
            decreases self.items.len() - i,
        {
            items.push(self.items[i].deep_clone());
            i = i + 1;
        }
        let r = DeviceSet { items };
        assert forall|a: int, b: int| 0 <= a < b < r.items.len() implies (
        #[trigger] r.items@[a]).spec_order(#[trigger] r.items@[b]) < 0 by {
            assert(self.items@[a].spec_order(self.items@[b]) < 0);
        }
        r
    }
}

impl AppConfig {
    /// The saved part of the state.
    pub fn from_state(state: &State) -> (r: AppConfig)
        requires
            state.wf(),
        ensures
            r.active_tab == state.active_tab,
            state.active_device is None ==> r.active_device is None,
            state.active_device matches Some(d) ==> r.active_device matches Some(e) && e.same(d),
            r.devices.wf(),
            r.devices.items.len() == state.devices.items.len(),
            forall|i: int|
                0 <= i < state.devices.items.len() ==> (#[trigger] r.devices.items@[i]).same(
                    state.devices.items@[i],
                ),
            r.nodes_sort_by == state.nodes_sort_by,
            r.nodes_filter@ == state.nodes_filter@,
            r.ui_config == state.ui_config,
            r.my_node_key == state.my_node_key,
    {
        AppConfig {
            active_tab: state.active_tab,
            active_device: Device::clone_option(&state.active_device),
            devices: state.devices.deep_clone(),
            nodes_sort_by: state.nodes_sort_by,
            nodes_filter: state.nodes_filter.clone(),
            ui_config: state.ui_config,
            my_node_key: state.my_node_key,
        }
    }
}

/// std's `DefaultHasher` fed with the saved configuration as its derived
/// `Hash` feeds it. Nothing is stated of the hash value.
#[verifier::external_body]
pub(crate) fn app_config_hash(config: &AppConfig) -> u64 {
    let mut hasher = DefaultHasher::new();
    config.hash(&mut hasher);
    hasher.finish()
}

/// What to do with the saved configuration after a change of the state:
/// announce that it was loaded, and store it.
#[derive(Debug, Clone, Copy, PartialEq, Eq, Structural)]
pub struct ConfigStep {
    pub announce_loaded: bool,
    pub store: bool,
}

/// After the fields `changed` changed: announce the configuration when it
/// was just loaded; once loaded, store it when its hash differs from the
/// hash last stored.
pub fn config_step(changed: &Vec<StateField>, config_loaded: bool, hash: u64, last_hash: u64) -> (r:
    ConfigStep)
    ensures
        r.announce_loaded == changed@.contains(StateField::ConfigLoaded),
        r.store == (config_loaded && hash != last_hash),
{
    let mut announce = false;
    let mut i: usize = 0;
    while i < changed.len()
        invariant
            i <= changed.len(),
            announce == exists|j: int| 0 <= j < i && changed@[j] == StateField::ConfigLoaded,
        decreases changed.len() - i,
    {
        if changed[i] == StateField::ConfigLoaded {
            announce = true;
        }
        i = i + 1;
    }
    ConfigStep { announce_loaded: announce, store: config_loaded && hash != last_hash }
}

impl ConfigStep {
    /// What announcing the loaded configuration does to the state: a
    /// normal toast `config loaded`; nothing without an announcement.
    pub fn announcement(&self) -> (r: Vec<StateAction>)
        ensures
            self.announce_loaded ==> r@.len() == 1 && (r@[0] matches StateAction::Toast(t) && t.kind
                == ToastKind::Normal && t.text@ == "config loaded"@),
            !self.announce_loaded ==> r@.len() == 0,
    {
        let mut r: Vec<StateAction> = Vec::new();
        if self.announce_loaded {
            r.push(StateAction::Toast(Toast::normal("config loaded")));
        }
        r
    }
}

/// Decides, after a change of the state, whether to announce and store the
/// saved configuration, and returns the hash to remember as last stored.
pub fn config_after_change(state: &State, changed: &Vec<StateField>, last_hash: u64) -> (r: (
    ConfigStep,
    u64,
))
    requires
        state.wf(),
    ensures
        r.0.announce_loaded == changed@.contains(StateField::ConfigLoaded),
        !state.config_loaded ==> !r.0.store && r.1 == last_hash,
        r.0.store ==> state.config_loaded && r.1 != last_hash,
        state.config_loaded && !r.0.store ==> r.1 == last_hash,
{
    if state.config_loaded {
        let cfg = AppConfig::from_state(state);
        let hash = app_config_hash(&cfg);
        let step = config_step(changed, true, hash, last_hash);
        (step, hash)
    } else {
        (config_step(changed, false, 0, last_hash), last_hash)
    }
}

/// What an outgoing message carries: text, or an emoji reaction.
#[derive(Debug, Clone)]
pub enum OutgoingText {
    Text(String),
    Emoji(String),
}

/// A message to send: to everyone on a channel, or to one node.
#[derive(Debug, Clone)]
pub enum OutgoingMessage {
    Broadcast { channel_id: u32, reply_message_id: Option<u32>, text: OutgoingText, my_node_num: u32 },
    Direct { node_num: u32, reply_message_id: Option<u32>, text: OutgoingText, my_node_num: u32 },
}

/// The message that sends `text` to the chat in view, if there is one.
pub open spec fn spec_outgoing(
    active_chat: Option<Chat>,
    my_node_key: Option<u32>,
    reply_message_id: Option<u32>,
    text: OutgoingText,
) -> Option<OutgoingMessage> {
    match active_chat {
        Some(Chat::Channel(channel_id)) => Some(
            OutgoingMessage::Broadcast {
                channel_id,
                reply_message_id,
                text,
                my_node_num: my_node_key->0,
            },
        ),
        Some(Chat::Direct(node_num)) => Some(
            OutgoingMessage::Direct { node_num, reply_message_id, text, my_node_num: my_node_key->0 },
        ),
        None => None,
    }
}

/// The message that sends `text` to the chat in view; `None` when no chat
/// is in view. A chat in view needs the node's own key.
pub fn outgoing_message(
    active_chat: Option<Chat>,
    my_node_key: Option<u32>,
    reply_message_id: Option<u32>,
    text: OutgoingText,
) -> (r: Option<OutgoingMessage>)
    requires
        active_chat is Some ==> my_node_key is Some,
    ensures
        r == spec_outgoing(active_chat, my_node_key, reply_message_id, text),
{
    match active_chat {
        Some(Chat::Channel(channel_id)) => {
            let my = my_node_key.unwrap();
            Some(OutgoingMessage::Broadcast { channel_id, reply_message_id, text, my_node_num: my })
        },
        Some(Chat::Direct(node_num)) => {
            let my = my_node_key.unwrap();
            Some(OutgoingMessage::Direct { node_num, reply_message_id, text, my_node_num: my })
        },
        None => None,
    }
}

/// A message for the chat in view goes, from the user's own node, to the
/// channel in view as a broadcast or to the node in view as a direct
/// message, and carries the text and the message it answers exactly as
/// given; with no chat in view nothing is sent.
pub proof fn law_outgoing_goes_to_chat_in_view(
    active_chat: Option<Chat>,
    my: u32,
    reply_message_id: Option<u32>,
    text: OutgoingText,
)
    ensures
        active_chat is None ==> spec_outgoing(active_chat, Some(my), reply_message_id, text) is None,
        active_chat matches Some(Chat::Channel(c)) ==> spec_outgoing(active_chat, Some(my), reply_message_id, text)
            matches Some(OutgoingMessage::Broadcast { channel_id, reply_message_id: reply, text: t, my_node_num })
            && channel_id == c && reply == reply_message_id && t == text && my_node_num == my,
        active_chat matches Some(Chat::Direct(n)) ==> spec_outgoing(active_chat, Some(my), reply_message_id, text)
            matches Some(OutgoingMessage::Direct { node_num, reply_message_id: reply, text: t, my_node_num })
            && node_num == n && reply == reply_message_id && t == text && my_node_num == my,
{
}

/// The mesh packet that carries a text message: its payload, port, the
/// node it goes to (`None` for everyone), channel, the flags it is sent
/// with, the message it answers and the emoji flag of a reaction.
#[derive(Debug, Clone, PartialEq, Eq)]
pub struct TextPacket {
    pub payload: Vec<u8>,
    pub port: i32,
    pub destination: Option<u32>,
    pub channel: u32,
    pub want_ack: bool,
    pub want_response: bool,
    pub echo_response: bool,
    pub reply_id: Option<u32>,
    pub emoji: Option<u32>,
}

/// The text of an outgoing message: the text, or the emoji's glyph.
pub open spec fn outgoing_chars(t: OutgoingText) -> Seq<char> {
    match t {
        OutgoingText::Text(s) => s@,
        OutgoingText::Emoji(g) => g@,
    }
}

/// The packet that sends the message: its text as UTF-8 on the text
/// message port, to the channel (a direct message on channel 0), asking
/// for an acknowledgement and an echo but no response, marked as an emoji
/// for a reaction.
pub fn text_packet(m: &OutgoingMessage) -> (r: TextPacket)
    ensures
        r.port == PORT_TEXT_MESSAGE,
        r.want_ack && !r.want_response && r.echo_response,
        match *m {
            OutgoingMessage::Broadcast { channel_id, reply_message_id, text, .. } => {
                &&& r.payload@ == encode_utf8(outgoing_chars(text))
                &&& r.destination is None && r.channel == channel_id
                &&& r.reply_id == reply_message_id
                &&& r.emoji == (if text is Emoji { Some(1u32) } else { None })
            },
            OutgoingMessage::Direct { node_num, reply_message_id, text, .. } => {
                &&& r.payload@ == encode_utf8(outgoing_chars(text))
                &&& r.destination == Some(node_num) && r.channel == 0
                &&& r.reply_id == reply_message_id
                &&& r.emoji == (if text is Emoji { Some(1u32) } else { None })
            },
        },
{
    let (destination, channel, reply, text) = match m {
        OutgoingMessage::Broadcast { channel_id, reply_message_id, text, .. } => (
            None,
            *channel_id,
            *reply_message_id,
            text,
        ),
        OutgoingMessage::Direct { node_num, reply_message_id, text, .. } => (
            Some(*node_num),
            0u32,
            *reply_message_id,
            text,
        ),
    };
    let (payload, emoji) = match text {
        OutgoingText::Text(s) => (vstd::slice::slice_to_vec(s.as_str().as_bytes()), None),
        OutgoingText::Emoji(g) => (vstd::slice::slice_to_vec(g.as_str().as_bytes()), Some(1u32)),
    };
    TextPacket {
        payload,
        port: PORT_TEXT_MESSAGE,
        destination,
        channel,
        want_ack: true,
        want_response: false,
        echo_response: true,
        reply_id: reply,
        emoji,
    }
}

} // verus!
