use meshtastic::protobufs::admin_message::PayloadVariant as AdminRequest;
use meshtastic::protobufs::routing::Variant as RoutingVariant;
use meshtastic::protobufs::{AdminMessage, Routing, User};
use meshtastic::Message as _;

use termtastic::chat::Message;
use termtastic::packets::{
    chat_packet_action, nodes_packet_actions, MeshPacketInfo, MessageError, PacketData, PORT_ADMIN, PORT_NODEINFO,
    PORT_ROUTING, PORT_TEXT_MESSAGE,
};
use termtastic::state::StateAction;

fn packet(from: u32, to: u32, portnum: i32, payload: Vec<u8>) -> MeshPacketInfo {
    MeshPacketInfo {
        id: 77,
        from,
        to,
        channel: 1,
        rx_time: 1_700_000_000,
        hop_start: 3,
        hop_limit: 1,
        rx_snr_bits: 6.5f32.to_bits(),
        rx_rssi: -90,
        data: Some(PacketData { portnum, payload, reply_id: 0, request_id: 55, emoji: 0 }),
    }
}

#[test]
fn text_packet_becomes_message() {
    let p = packet(5, 9, PORT_TEXT_MESSAGE, b"hello".to_vec());
    match chat_packet_action(Some(9), &p) {
        Some(StateAction::MessageAdd(m)) => {
            assert_eq!(m.text, "hello");
            assert_eq!(m.from, 5);
            assert_eq!(m.to, 9);
            assert_eq!(m.hops, 2);
            assert_eq!(m.datetime, 1_700_000_000);
            assert!(!m.is_emoji);
        },
        _ => panic!("a message"),
    }
    let d = p.data.clone().unwrap();
    let empty = PacketData { payload: Vec::new(), ..d.clone() };
    assert_eq!(Message::from_packet(&p, &empty).err(), Some(MessageError::EmptyPayload));
    let broken = PacketData { payload: vec![0xff, 0xfe], ..d };
    assert_eq!(Message::from_packet(&p, &broken).err(), Some(MessageError::NotUtf8));
}

#[test]
fn delivery_error_marks_own_message() {
    let report = Routing { variant: Some(RoutingVariant::ErrorReason(5)) }.encode_to_vec();
    let p = packet(5, 9, PORT_ROUTING, report);
    assert!(matches!(
        chat_packet_action(Some(9), &p),
        Some(StateAction::MessageErrorSet { message_id: 55, error: Some(5) })
    ));
    assert!(chat_packet_action(Some(8), &p).is_none());
}

#[test]
fn node_announcement_updates_sender() {
    let user = User { id: "!00000005".to_string(), short_name: "AB".to_string(), long_name: "Alpha".to_string(), ..Default::default() };
    let p = packet(5, 9, PORT_NODEINFO, user.encode_to_vec());
    let actions = nodes_packet_actions(&p);
    assert_eq!(actions.len(), 3);
    assert!(matches!(&actions[0], StateAction::NodeInit(n) if n.key == 5 && n.user.is_none()));
    match &actions[1] {
        StateAction::NodeUpdate(n) => assert_eq!(n.user.as_ref().unwrap().short_name, "AB"),
        _ => panic!("an update"),
    }
    assert!(matches!(actions[2], StateAction::NodeUpdateLastHeard { node_key: 5, hops: 2, rssi: -90, .. }));
}

#[test]
fn admin_removal_deletes_node() {
    let request = AdminMessage { payload_variant: Some(AdminRequest::RemoveByNodenum(7)), ..Default::default() };
    let p = packet(5, 9, PORT_ADMIN, request.encode_to_vec());
    let actions = nodes_packet_actions(&p);
    assert!(matches!(actions[1], StateAction::NodeDelete(7)));
    let plain = packet(5, 9, 99, Vec::new());
    assert_eq!(nodes_packet_actions(&plain).len(), 2);
}
