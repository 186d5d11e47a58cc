//! Packets of the mesh as the chat and node services read them: text
//! messages and reactions, delivery errors, node announcements and
//! administration requests.
use vstd::prelude::*;
use meshtastic::Message as _;
use meshtastic::protobufs::admin_message::PayloadVariant as AdminRequest;
use meshtastic::protobufs::routing::Variant as RoutingVariant;
use meshtastic::protobufs::{AdminMessage, Routing, User};
use crate::chat::Message;
use crate::node::{Node, NodeUser};
use crate::state::StateAction;

verus! {

/// The application port of text messages.
pub const PORT_TEXT_MESSAGE: i32 = 1;

/// The application port of node announcements.
pub const PORT_NODEINFO: i32 = 4;

/// The application port of delivery reports.
pub const PORT_ROUTING: i32 = 5;

/// The application port of administration requests.
pub const PORT_ADMIN: i32 = 6;

/// The application port of replies.
pub const PORT_REPLY: i32 = 32;

/// The decoded part of a mesh packet.
#[derive(Debug, Clone)]
pub struct PacketData {
    pub portnum: i32,
    pub payload: Vec<u8>,
    pub reply_id: u32,
    pub request_id: u32,
    pub emoji: u32,
}

/// A packet of the mesh: who sent it to whom on which channel, when and how
/// it arrived, and its decoded part when it could be decoded. `rx_snr_bits`
/// holds the bits of the 32-bit floating point signal to noise ratio.
#[derive(Debug, Clone)]
pub struct MeshPacketInfo {
    pub id: u32,
    pub from: u32,
    pub to: u32,
    pub channel: u32,
    pub rx_time: u32,
    pub hop_start: u32,
    pub hop_limit: u32,
    pub rx_snr_bits: u32,
    pub rx_rssi: i32,
    pub data: Option<PacketData>,
}

/// Why a packet is not a message.
#[derive(Debug, Clone, Copy, PartialEq, Eq, Structural)]
pub enum MessageError {
    EmptyPayload,
    NotUtf8,
}

/// The hops a packet took: its hop start less its hop limit, zero when the
/// limit is above the start.
pub open spec fn hops_taken(p: MeshPacketInfo) -> u32 {
    if p.hop_start >= p.hop_limit {
        (p.hop_start - p.hop_limit) as u32
    } else {
        0
    }
}

/// `String::from_utf8` of std: the text the bytes encode in UTF-8, `None`
/// when they are not UTF-8.
#[verifier::external_body]
fn utf8_text(bytes: &Vec<u8>) -> (r: Option<String>)
    ensures
        r matches Some(s) ==> vstd::utf8::valid_utf8(bytes@) && s@ == vstd::utf8::decode_utf8(bytes@),
        r is None ==> !vstd::utf8::valid_utf8(bytes@),
{
    String::from_utf8(bytes.clone()).ok()
}

impl Message {
    /// The message a text packet carries: its payload as UTF-8 text, sent
    /// by `from` to `to` on `channel`, a reaction when the packet marks an
    /// emoji, received at `rx_time` after the hops it took.
    pub fn from_packet(p: &MeshPacketInfo, d: &PacketData) -> (r: Result<Message, MessageError>)
        ensures
            d.payload@.len() == 0 ==> r == Err::<Message, MessageError>(MessageError::EmptyPayload),
            d.payload@.len() > 0 && !vstd::utf8::valid_utf8(d.payload@) ==> r == Err::<
                Message,
                MessageError,
            >(MessageError::NotUtf8),
            r is Ok <==> d.payload@.len() > 0 && vstd::utf8::valid_utf8(d.payload@),
            r matches Ok(m) ==> {
                &&& m.id == p.id
                &&& m.reply_message_id == d.reply_id
                &&& m.from == p.from
                &&& m.to == p.to
                &&& m.channel == p.channel
                &&& m.is_emoji == (d.emoji != 0)
                &&& m.datetime == p.rx_time as i64
                &&& m.text@ == vstd::utf8::decode_utf8(d.payload@)
                &&& m.reactions@.len() == 0
                &&& m.hops == hops_taken(*p)
                &&& m.snr_bits == p.rx_snr_bits
                &&& m.rssi == p.rx_rssi
                &&& m.routing_error is None
            },
    {
        if d.payload.len() == 0 {
            return Err(MessageError::EmptyPayload);
        }
        match utf8_text(&d.payload) {
            Some(text) => Ok(
                Message {
                    id: p.id,
                    reply_message_id: d.reply_id,
                    from: p.from,
                    to: p.to,
                    channel: p.channel,
                    is_emoji: d.emoji != 0,
                    datetime: p.rx_time as i64,
                    text,
                    reactions: Vec::new(),
                    hops: if p.hop_start >= p.hop_limit {
                        p.hop_start - p.hop_limit
                    } else {
                        0
                    },
                    snr_bits: p.rx_snr_bits,
                    rssi: p.rx_rssi,
                    routing_error: None,
                },
            ),
            None => Err(MessageError::NotUtf8),
        }
    }
}

/// The error code a delivery report reports, when the payload decodes to
/// a report of an error.
pub uninterp spec fn routing_error_reason(payload: Seq<u8>) -> Option<i32>;

/// `Routing::decode` of the `meshtastic` crate's protocol code, on a
/// delivery report's payload: the reported error code when the payload
/// decodes to a report with an error reason, `None` when it does not decode
/// or reports something else.
#[verifier::external_body]
fn decode_routing_error(payload: &Vec<u8>) -> (r: Option<i32>)
    ensures
        r == routing_error_reason(payload@),
{
    match Routing::decode(payload.as_slice()) {
        Ok(Routing { variant: Some(RoutingVariant::ErrorReason(e)) }) => Some(e),
        _ => None,
    }
}

/// The fields of a user as plain values: identifier, short name, long name,
/// role, hardware model, public key, licence and whether it takes messages.
pub open spec fn user_fields(u: NodeUser) -> (Seq<char>, Seq<char>, Seq<char>, i32, i32, Seq<u8>, bool, Option<bool>) {
    (u.id@, u.short_name@, u.long_name@, u.role, u.hw_model, u.public_key@, u.is_licensed, u.is_unmessagable)
}

/// The user a node announcement's payload decodes to, by its fields.
pub uninterp spec fn decoded_user(payload: Seq<u8>) -> Option<
    (Seq<char>, Seq<char>, Seq<char>, i32, i32, Seq<u8>, bool, Option<bool>),
>;

/// `User::decode` of the `meshtastic` crate's protocol code, on a node
/// announcement's payload, its fields copied into the library's user; `None`
/// when the payload does not decode.
#[verifier::external_body]
fn decode_user(payload: &Vec<u8>) -> (r: Option<NodeUser>)
    ensures
        r matches Some(u) ==> decoded_user(payload@) == Some(user_fields(u)),
        r is None ==> decoded_user(payload@) is None,
{
    match User::decode(payload.as_slice()) {
        Ok(u) => Some(NodeUser {
            id: u.id, short_name: u.short_name, long_name: u.long_name, role: u.role, hw_model: u.hw_model,
            public_key: u.public_key, is_licensed: u.is_licensed, is_unmessagable: u.is_unmessagable,
        }),
        Err(_) => None,
    }
}

/// What an administration request's payload decodes to: the node it asks
/// to remove, or the new owner it sets, by its fields (at most one of the
/// two); neither when it does not decode or asks for something else.
pub uninterp spec fn decoded_admin(payload: Seq<u8>) -> (
    Option<u32>,
    Option<(Seq<char>, Seq<char>, Seq<char>, i32, i32, Seq<u8>, bool, Option<bool>)>,
);

/// `AdminMessage::decode` of the `meshtastic` crate's protocol code, on an
/// administration request's payload: the node number of a removal request,
/// or the user of a request that sets the owner, copied into the library's
/// user.
#[verifier::external_body]
fn decode_admin(payload: &Vec<u8>) -> (r: (Option<u32>, Option<NodeUser>))
    ensures
        r.0 == decoded_admin(payload@).0,
        r.1 matches Some(u) ==> decoded_admin(payload@).1 == Some(user_fields(u)),
        r.1 is None ==> decoded_admin(payload@).1 is None,
{
    match AdminMessage::decode(payload.as_slice()).ok().and_then(|m| m.payload_variant) {
        Some(AdminRequest::RemoveByNodenum(n)) => (Some(n), None),
        Some(AdminRequest::SetOwner(u)) => (None, Some(NodeUser {
            id: u.id, short_name: u.short_name, long_name: u.long_name, role: u.role, hw_model: u.hw_model,
            public_key: u.public_key, is_licensed: u.is_licensed, is_unmessagable: u.is_unmessagable,
        })),
        _ => (None, None),
    }
}


/// What the chat service makes of a packet of the mesh (`r`, for the
/// user's node `my_node_key`): a delivery error reported to this node marks
/// the message it concerns, and a text or a reply becomes the message the
/// packet carries, as `Message::from_packet` makes it; anything else, a
/// report to another node or a payload that is not a message, makes
/// nothing.
pub open spec fn chat_packet_answer(my_node_key: Option<u32>, p: MeshPacketInfo, r: Option<StateAction>) -> bool {
    match p.data {
        None => r is None,
        Some(d) => if d.portnum == PORT_ROUTING {
            match routing_error_reason(d.payload@) {
                Some(e) => if my_node_key == Some(p.to) {
                    r == Some(StateAction::MessageErrorSet { message_id: d.request_id, error: Some(e) })
                } else {
                    r is None
                },
                None => r is None,
            }
        } else if d.portnum == PORT_TEXT_MESSAGE || d.portnum == PORT_REPLY {
            &&& (r is Some <==> d.payload@.len() > 0 && vstd::utf8::valid_utf8(d.payload@))
            &&& r matches Some(a) ==> a matches StateAction::MessageAdd(m) && {
                &&& m.id == p.id
                &&& m.reply_message_id == d.reply_id
                &&& m.from == p.from
                &&& m.to == p.to
                &&& m.channel == p.channel
                &&& m.is_emoji == (d.emoji != 0)
                &&& m.datetime == p.rx_time as i64
                &&& m.text@ == vstd::utf8::decode_utf8(d.payload@)
                &&& m.reactions@.len() == 0
                &&& m.hops == hops_taken(p)
                &&& m.snr_bits == p.rx_snr_bits
                &&& m.rssi == p.rx_rssi
                &&& m.routing_error is None
            }
        } else {
            r is None
        },
    }
}

/// What the chat service makes of a packet of the mesh, as
/// `chat_packet_answer` says.
pub fn chat_packet_action(my_node_key: Option<u32>, p: &MeshPacketInfo) -> (r: Option<StateAction>)
    ensures
        match p.data {
            None => r is None,
            Some(d) => if d.portnum == PORT_ROUTING {
                match routing_error_reason(d.payload@) {
                    Some(e) => if my_node_key == Some(p.to) {
                        r == Some(StateAction::MessageErrorSet { message_id: d.request_id, error: Some(e) })
                    } else {
                        r is None
                    },
                    None => r is None,
                }
            } else if d.portnum == PORT_TEXT_MESSAGE || d.portnum == PORT_REPLY {
                (r is Some <==> d.payload@.len() > 0 && vstd::utf8::valid_utf8(d.payload@)) && (r matches Some(
                    a,
                ) ==> a matches StateAction::MessageAdd(m) && m.id == p.id && m.from == p.from && m.to == p.to
                    && m.text@ == vstd::utf8::decode_utf8(d.payload@) && m.is_emoji == (d.emoji != 0))
            } else {
                r is None
            },
        },
        chat_packet_answer(my_node_key, *p, r),
{
    match &p.data {
        None => None,
        Some(d) => if d.portnum == PORT_ROUTING {
            match decode_routing_error(&d.payload) {
                Some(e) => if my_node_key == Some(p.to) {
                    Some(StateAction::MessageErrorSet { message_id: d.request_id, error: Some(e) })
                } else {
                    None
                },
                None => None,
            }
        } else if d.portnum == PORT_TEXT_MESSAGE || d.portnum == PORT_REPLY {
            match Message::from_packet(p, d) {
                Ok(m) => Some(StateAction::MessageAdd(m)),
                Err(_) => None,
            }
        } else {
            None
        },
    }
}

/// A packet that becomes a message keeps what the packet says of it: its
/// id, sender, addressee and channel, the message it answers, when it was
/// received, the hops it took and its signal; a broadcast is so filed in the
/// chat of the channel it was sent on. Only text and reply packets with a
/// UTF-8 payload become messages.
pub proof fn law_packet_message_keeps_packet(my: Option<u32>, p: MeshPacketInfo, r: Option<StateAction>)
    requires
        chat_packet_answer(my, p, r),
    ensures
        r matches Some(StateAction::MessageAdd(m)) ==> {
            &&& p.data matches Some(d) && (d.portnum == 1 || d.portnum == 32) && m.reply_message_id == d.reply_id
                && m.is_emoji == (d.emoji != 0) && d.payload@.len() > 0 && m.text@ == vstd::utf8::decode_utf8(
                d.payload@,
            )
            &&& m.id == p.id && m.from == p.from && m.to == p.to && m.channel == p.channel
            &&& m.datetime == p.rx_time as i64 && m.snr_bits == p.rx_snr_bits && m.rssi == p.rx_rssi
            &&& m.hops == (if p.hop_start >= p.hop_limit {
                p.hop_start - p.hop_limit
            } else {
                0
            })
            &&& p.to == crate::chat::BROADCAST_ADDR ==> forall|k: u32|
                #[trigger] crate::chat::Chat::spec_of_message(m, k) == crate::chat::Chat::Channel(p.channel)
        },
        r matches Some(StateAction::MessageErrorSet { message_id, .. }) ==> p.data matches Some(d) && d.portnum
            == 5 && message_id == d.request_id && my == Some(p.to),
{
}

/// The hops a packet took are what its hop limit fell by from its hop
/// start (none when the limit is above the start); and the ports the
/// services read packets on are those of the Meshtastic protocol: text
/// messages 1, node announcements 4, delivery reports 5, administration 6
/// and replies 32.
pub proof fn law_packet_hops_and_ports(p: MeshPacketInfo)
    ensures
        p.hop_limit <= p.hop_start ==> hops_taken(p) + p.hop_limit == p.hop_start,
        p.hop_limit > p.hop_start ==> hops_taken(p) == 0,
        PORT_TEXT_MESSAGE == 1 && PORT_NODEINFO == 4 && PORT_ROUTING == 5 && PORT_ADMIN == 6 && PORT_REPLY == 32,
{
}

/// What the node service makes of a packet of the mesh, in order: the
/// sender is first seen (as `Node::from_packet` makes it, without user);
/// a node announcement that decodes updates the sender with its user; an
/// administration request that decodes sets the owner or deletes a node;
/// and the sender's hops and signal are updated last.
pub fn nodes_packet_actions(p: &MeshPacketInfo) -> (r: Vec<StateAction>)
    ensures
        r@.len() >= 2,
        r@[0] matches StateAction::NodeInit(n) && n.key == p.from && n.user is None && n.hops == Some(
            hops_taken(*p),
        ) && n.last_heard == Some(p.rx_time as i64) && n.snr_bits == p.rx_snr_bits && n.rssi == Some(
            p.rx_rssi,
        ),
        r@.last() == (StateAction::NodeUpdateLastHeard {
            node_key: p.from,
            hops: hops_taken(*p),
            snr_bits: p.rx_snr_bits,
            rssi: p.rx_rssi,
        }),
        r@.len() == 3 <==> (p.data matches Some(d) && ((d.portnum == PORT_NODEINFO && decoded_user(d.payload@)
            is Some) || (d.portnum == PORT_ADMIN && (decoded_admin(d.payload@).0 is Some || decoded_admin(
            d.payload@,
        ).1 is Some)))),
        r@.len() == 3 ==> match p.data {
            Some(d) => if d.portnum == PORT_NODEINFO {
                r@[1] matches StateAction::NodeUpdate(n) && n.key == p.from && (n.user matches Some(u)
                    && decoded_user(d.payload@) == Some(user_fields(u)))
            } else {
                match decoded_admin(d.payload@).0 {
                    Some(k) => r@[1] == StateAction::NodeDelete(k),
                    None => r@[1] matches StateAction::NodeOwnerSet(u) && decoded_admin(d.payload@).1 == Some(
                        user_fields(u),
                    ),
                }
            },
            None => false,
        },
{
    let hops = if p.hop_start >= p.hop_limit {
        p.hop_start - p.hop_limit
    } else {
        0
    };
    let mut r: Vec<StateAction> = Vec::new();
    r.push(
        StateAction::NodeInit(
            Node::from_packet(p.from, None, p.hop_start, p.hop_limit, p.rx_time, p.rx_snr_bits, p.rx_rssi),
        ),
    );
    match &p.data {
        Some(d) => if d.portnum == PORT_NODEINFO {
            match decode_user(&d.payload) {
                Some(user) => {
                    let ghost fields = user_fields(user);
                    let node = Node::from_packet(
                        p.from,
                        Some(user),
                        p.hop_start,
                        p.hop_limit,
                        p.rx_time,
                        p.rx_snr_bits,
                        p.rx_rssi,
                    );
                    assert(node.user matches Some(u) && user_fields(u) == fields);
                    r.push(StateAction::NodeUpdate(node));
                },
                None => {},
            }
        } else if d.portnum == PORT_ADMIN {
            match decode_admin(&d.payload) {
                (Some(k), _) => r.push(StateAction::NodeDelete(k)),
                (None, Some(user)) => r.push(StateAction::NodeOwnerSet(user)),
                (None, None) => {},
            }
        },
        None => {},
    }
    r.push(
        StateAction::NodeUpdateLastHeard {
            node_key: p.from,
            hops,
            snr_bits: p.rx_snr_bits,
            rssi: p.rx_rssi,
        },
    );
    r
}

} // verus!
