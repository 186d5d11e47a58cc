use termtastic::reactions::reactions_line;
use termtastic::chat_label::{channel_label, direct_label, LabelPart, NodeBadge, PartStyle};
use termtastic::helpers::SignalLevel;
use termtastic::node::{Node, NodeUser};
use termtastic::types::{Channel, ChannelRole};

fn channel(key: u32, role: ChannelRole, name: &str, psk: Vec<u8>) -> Channel {
    Channel {
        key,
        id: 0,
        role,
        name: name.to_string(),
        psk,
        uplink_enabled: false,
        downlink_enabled: false,
        position_precision: 0,
        is_muted: false,
        is_enabled: true,
    }
}

fn parts(ps: &[LabelPart]) -> Vec<(String, PartStyle)> {
    ps.iter().map(|p| (p.text.clone(), p.style)).collect()
}

fn p(t: &str, s: PartStyle) -> (String, PartStyle) {
    (t.to_string(), s)
}

#[test]
fn primary_channel_takes_the_preset_name() {
    let ch = channel(0, ChannelRole::Primary, "", vec![1]);
    assert_eq!(
        parts(&channel_label(&ch, Some(3))),
        vec![p("#0", PartStyle::Dim), p(" ", PartStyle::Plain), p("MediumSlow", PartStyle::Key(SignalLevel::Fair))]
    );
    assert_eq!(parts(&channel_label(&ch, None))[2], p("Primary", PartStyle::Key(SignalLevel::Fair)));
    assert_eq!(parts(&channel_label(&ch, Some(-1)))[2], p("Primary", PartStyle::Key(SignalLevel::Fair)));
    let named = channel(0, ChannelRole::Primary, "Home", vec![0; 32]);
    assert_eq!(parts(&channel_label(&named, Some(3)))[2], p("Home", PartStyle::Key(SignalLevel::Good)));
}

#[test]
fn secondary_and_disabled_channels() {
    let ch = channel(12, ChannelRole::Secondary, "", vec![]);
    assert_eq!(
        parts(&channel_label(&ch, Some(0))),
        vec![p("#12", PartStyle::Dim), p(" ", PartStyle::Plain), p("Secondary", PartStyle::Key(SignalLevel::Bad))]
    );
    let off = channel(3, ChannelRole::Disabled, "Old", vec![1]);
    assert_eq!(parts(&channel_label(&off, None))[2], p("Secondary Disabled", PartStyle::Struck));
}

#[test]
fn direct_chats_show_the_node() {
    let user = NodeUser {
        id: String::new(),
        short_name: "AB".to_string(),
        long_name: "Alpha Bravo".to_string(),
        role: 0,
        hw_model: 9,
        public_key: vec![],
        is_licensed: false,
        is_unmessagable: None,
    };
    let n = Node::from_packet(0xabcd, Some(user), 3, 3, 0, 0, -90);
    assert_eq!(
        parts(&direct_label(0xabcd, Some(&n), false)),
        vec![
            p("  AB  ", PartStyle::Badge(NodeBadge::Known)),
            p(" ", PartStyle::Plain),
            p("Alpha Bravo", PartStyle::Plain)
        ]
    );
    assert_eq!(parts(&direct_label(0xabcd, Some(&n), true))[0].1, PartStyle::Badge(NodeBadge::Mine));
    let bare = Node::from_packet(0x1234, None, 3, 3, 0, 0, -90);
    assert_eq!(
        parts(&direct_label(0x1234, Some(&bare), false)),
        vec![
            p(" 1234 ", PartStyle::Badge(NodeBadge::NoUser)),
            p(" ", PartStyle::Plain),
            p("Meshtastic 1234", PartStyle::Plain)
        ]
    );
    assert_eq!(parts(&direct_label(0x5f, None, false)), vec![p("!5f", PartStyle::Plain)]);
}

fn reaction(text: &str, datetime: i64) -> termtastic::chat::Message {
    termtastic::chat::Message {
        id: 0,
        reply_message_id: 1,
        from: 2,
        to: 3,
        channel: 0,
        is_emoji: true,
        datetime,
        text: text.to_string(),
        reactions: vec![],
        hops: 0,
        snr_bits: 0,
        rssi: 0,
        routing_error: None,
    }
}

#[test]
fn reactions_line_counts_each_emoji_once() {
    let rs = vec![reaction("👍", 30), reaction("❤️", 10), reaction("👍", 20), reaction("😂", 20), reaction("👍", 40)];
    assert_eq!(
        parts(&reactions_line(&rs)),
        vec![
            p(" ", PartStyle::Plain),
            p("❤️", PartStyle::Plain),
            p(" ", PartStyle::Plain),
            p("👍", PartStyle::Plain),
            p(":3", PartStyle::Dim),
            p(" ", PartStyle::Plain),
            p("😂", PartStyle::Plain),
        ]
    );
    assert!(reactions_line(&vec![]).is_empty());
}
