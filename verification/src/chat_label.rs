//! How a chat is named in the chat list and the chat's title: a channel by
//! its number and name, coloured by the strength of its key; a direct chat
//! by the node's badge and long name.
use vstd::prelude::*;
use vstd::string::*;
use std::collections::HashMap;
use crate::chat::Chat;
use crate::helpers::{channel_name_of, modem_preset_channel_name, pad_center, padded_center, psk_len_level, SignalLevel};
use crate::node::{node_id_text, Node};
use crate::radio::modem_preset_str_name;
use crate::state::State;
use crate::text::{decimal_digits, push_char, push_decimal, push_hex};
use crate::types::{Channel, ChannelRole};

verus! {

/// How the badge of a node's short name is coloured: the user's own node,
/// a node that sent no user information, a node without an id, or a known
/// node.
#[derive(Debug, Clone, Copy, PartialEq, Eq, Structural)]
pub enum NodeBadge {
    Mine,
    NoUser,
    Unknown,
    Known,
}

/// How a part of a label is drawn.
#[derive(Debug, Clone, Copy, PartialEq, Eq, Structural)]
pub enum PartStyle {
    Plain,
    Dim,
    /// coloured by the strength of the channel's key
    Key(SignalLevel),
    /// dim and struck through
    Struck,
    Badge(NodeBadge),
}

/// A part of a label.
#[derive(Debug, Clone, PartialEq, Eq)]
pub struct LabelPart {
    pub text: String,
    pub style: PartStyle,
}

/// The parts as texts and styles.
pub open spec fn parts_view(ps: Seq<LabelPart>) -> Seq<(Seq<char>, PartStyle)> {
    ps.map_values(|p: LabelPart| (p.text@, p.style))
}

/// The class of a channel key of `len` bytes.
pub open spec fn key_level(len: nat) -> SignalLevel {
    if len == 0 {
        SignalLevel::Bad
    } else if len == 1 {
        SignalLevel::Fair
    } else {
        SignalLevel::Good
    }
}

/// The name the primary channel shows: its own, else the channel name of
/// the radio's modem preset, else "Primary".
pub open spec fn primary_name(name: Seq<char>, preset: Option<i32>) -> Seq<char> {
    if name.len() > 0 {
        name
    } else if preset is Some && modem_preset_str_name(preset->0) is Some {
        channel_name_of(modem_preset_str_name(preset->0)->0)
    } else {
        "Primary"@
    }
}

/// The label of a channel, given the radio's modem preset code.
pub open spec fn spec_channel_label(ch: Channel, preset: Option<i32>) -> Seq<(Seq<char>, PartStyle)> {
    let number = (seq!['#'] + decimal_digits(ch.key as nat), PartStyle::Dim);
    let space = (seq![' '], PartStyle::Plain);
    let key = PartStyle::Key(key_level(ch.psk@.len()));
    match ch.role {
        ChannelRole::Primary => seq![number, space, (primary_name(ch.name@, preset), key)],
        ChannelRole::Disabled => seq![number, space, ("Secondary Disabled"@, PartStyle::Struck)],
        _ => seq![
            number,
            space,
            (if ch.name@.len() > 0 {
                ch.name@
            } else {
                "Secondary"@
            }, key),
        ],
    }
}

/// The badge of a node.
pub open spec fn badge_of(node: Node, my: bool) -> NodeBadge {
    if my {
        NodeBadge::Mine
    } else if node.user is None {
        NodeBadge::NoUser
    } else if node_id_text(node.key) == "?"@ {
        NodeBadge::Unknown
    } else {
        NodeBadge::Known
    }
}

/// The label of a direct chat with node `key`: the node's short name
/// centred in six columns on its badge and its long name, or the node's id
/// when the node is not known.
pub open spec fn spec_direct_label(key: u32, node: Option<Node>, my: bool) -> Seq<(Seq<char>, PartStyle)> {
    match node {
        Some(n) => seq![
            (padded_center(n.spec_short_name(), 6), PartStyle::Badge(badge_of(n, my))),
            (seq![' '], PartStyle::Plain),
            (n.spec_long_name(), PartStyle::Plain),
        ],
        None => seq![(node_id_text(key), PartStyle::Plain)],
    }
}

fn part(text: String, style: PartStyle) -> (r: LabelPart)
    ensures
        r.text@ == text@,
        r.style == style,
{
    LabelPart { text, style }
}

fn text_of(t: &str) -> (r: String)
    ensures
        r@ == t@,
{
    let mut s = String::new();
    s.append(t);
    s
}

/// The label of a channel, given the code of the radio's modem preset when
/// the radio reported its LoRa settings. A direct conversation's channel
/// reads as a secondary one.
pub fn channel_label(ch: &Channel, preset: Option<i32>) -> (r: Vec<LabelPart>)
    ensures
        parts_view(r@) == spec_channel_label(*ch, preset),
{
    let mut number = String::new();
    push_char(&mut number, '#');
    push_decimal(&mut number, ch.key as u64);
    let level = psk_len_level(ch.psk.len());
    let name = match ch.role {
        ChannelRole::Primary => {
            if ch.name.as_str().unicode_len() > 0 {
                ch.name.clone()
            } else {
                let from_preset = match preset {
                    Some(code) => modem_preset_channel_name(code),
                    None => None,
                };
                match from_preset {
                    Some(n) => n,
                    None => text_of("Primary"),
                }
            }
        },
        ChannelRole::Disabled => text_of("Secondary Disabled"),
        _ => if ch.name.as_str().unicode_len() > 0 {
            ch.name.clone()
        } else {
            text_of("Secondary")
        },
    };
    let style = match ch.role {
        ChannelRole::Disabled => PartStyle::Struck,
        _ => PartStyle::Key(level),
    };
    let r = vec![part(number, PartStyle::Dim), part(text_of(" "), PartStyle::Plain), part(name, style)];
    proof {
        reveal_strlit(" ");
        assert(" "@ =~= seq![' ']);
        assert(seq!['#'] + decimal_digits(ch.key as nat) =~= Seq::<char>::empty().push('#') + decimal_digits(
            ch.key as u64 as nat,
        ));
        assert(parts_view(r@) =~= spec_channel_label(*ch, preset));
    }
    r
}

/// The label of a direct chat with node `key`, given the node when it is
/// known and whether it is the user's own.
pub fn direct_label(key: u32, node: Option<&Node>, my: bool) -> (r: Vec<LabelPart>)
    ensures
        parts_view(r@) == spec_direct_label(
            key,
            match node {
                Some(n) => Some(*n),
                None => None,
            },
            my,
        ),
{
    match node {
        Some(n) => {
            let short = n.short_name();
            let id = n.id();
            let badge = if my {
                NodeBadge::Mine
            } else if n.user.is_none() {
                NodeBadge::NoUser
            } else if id.as_str().unicode_len() == 1 && id.as_str().get_char(0) == '?' {
                NodeBadge::Unknown
            } else {
                NodeBadge::Known
            };
            proof {
                reveal_strlit("?");
                if id@.len() == 1 && id@[0] == '?' {
                    assert(id@ =~= "?"@);
                }
                if id@ == "?"@ {
                    assert(id@.len() == 1 && id@[0] == '?');
                }
            }
            let r = vec![
                part(pad_center(short.as_str(), 6), PartStyle::Badge(badge)),
                part(text_of(" "), PartStyle::Plain),
                part(n.long_name(), PartStyle::Plain),
            ];
            proof {
                reveal_strlit(" ");
                assert(" "@ =~= seq![' ']);
                assert(badge == badge_of(*n, my));
                assert(r@[0].text@ == padded_center(n.spec_short_name(), 6));
                assert(parts_view(r@) =~= spec_direct_label(key, Some(*n), my));
            }
            r
        },
        None => {
            let mut id = String::new();
            push_char(&mut id, '!');
            push_hex(&mut id, key as u64);
            let r = vec![part(id, PartStyle::Plain)];
            proof {
                assert(parts_view(r@) =~= spec_direct_label(key, None, my));
            }
            r
        },
    }
}

/// The label of a chat as the state knows it: a channel chat by the
/// channel's entry (which it must have), with the modem preset of the
/// radio's LoRa settings when the radio reported them; a direct chat by the
/// node's entry.
pub fn chat_label(state: &State, chat: &Chat) -> (r: Vec<LabelPart>)
    requires
        state.channels.wf(),
        *chat matches Chat::Channel(k) ==> state.channels.contains(k),
    ensures
        *chat matches Chat::Channel(k) ==> exists|i: int|
            0 <= i < state.channels.entries.len() && #[trigger] state.channels.entries@[i].0 == k && parts_view(r@)
                == spec_channel_label(state.channels.entries@[i].1, state.device_config.lora_modem_preset),
        *chat matches Chat::Direct(k) ==> parts_view(r@) == spec_direct_label(
            k,
            if state.nodes@.contains_key(k) {
                Some(state.nodes@[k])
            } else {
                None
            },
            state.my_node_key == Some(k),
        ),
{
    match chat {
        Chat::Channel(k) => {
            let preset = state.device_config.lora_modem_preset;
            match state.channels.get(k) {
                Some(ch) => {
                    let r = channel_label(ch, preset);
                    proof {
                        let i = choose|i: int|
                            0 <= i < state.channels.entries.len() && #[trigger] state.channels.entries@[i] == (
                            *k,
                            *ch,
                        );
                        assert(state.channels.entries@[i].0 == *k);
                        assert(parts_view(r@) == spec_channel_label(state.channels.entries@[i].1, preset));
                    }
                    r
                },
                None => Vec::new(),
            }
        },
        Chat::Direct(k) => {
            let my = match state.my_node_key {
                Some(m) => m == *k,
                None => false,
            };
            direct_label(*k, state.nodes.get(k), my)
        },
    }
}

} // verus!
