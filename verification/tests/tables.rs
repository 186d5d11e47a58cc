use termtastic::config::{text_packet, ConfigStep, OutgoingMessage, OutgoingText};
use termtastic::form_table::form_items;
use termtastic::formdata::FormValue;
use termtastic::forms::FormItemKey;
use termtastic::events::{save_report, RadioEvent};
use termtastic::helpers::{hops_label, pad_center, HopsLabel};
use termtastic::settings::{channel_save_order, form_channel_keys, SaveRoute};
use termtastic::state::StateAction;
use termtastic::traceroute::{route_groups, update_nodeinfo_traceroute, NodeTraceroute, RouteGroup, TracerouteHop};
use termtastic::types::{Channel, ChannelRole, FormId, ToastKind};

fn field(id: FormId, name: &str) -> termtastic::form_table::FormItem {
    form_items(id)
        .unwrap()
        .into_iter()
        .find(|i| matches!(i.key, FormItemKey::Simple(k) if k == name))
        .unwrap()
}

#[test]
fn field_rules_of_the_table() {
    let short = field(FormId::DeviceUser, "short_name");
    assert!(short.check_value(&FormValue::String("ABCD".to_string())).is_ok());
    assert!(short.check_value(&FormValue::String("A".to_string())).is_ok());
    assert!(short.check_value(&FormValue::String("ABCDE".to_string())).is_err());
    assert!(short.check_value(&FormValue::String(String::new())).is_err());
    let bw = field(FormId::RadioLora, "bandwidth");
    assert!(bw.check_value(&FormValue::UnsignedInt32(31)).is_ok());
    assert!(bw.check_value(&FormValue::UnsignedInt32(500)).is_ok());
    assert!(bw.check_value(&FormValue::UnsignedInt32(30)).is_err());
    assert!(bw.check_value(&FormValue::UnsignedInt32(501)).is_err());
    let pos = field(FormId::DevicePosition, "position_broadcast_secs");
    let f = |s: u32| pos.format_value(&FormValue::UnsignedInt32(s)).unwrap();
    assert_eq!(f(0), "Default");
    assert_eq!(f(60), "1 minute");
    assert_eq!(f(90), "90 seconds");
    assert_eq!(f(900), "15 minutes");
    assert_eq!(f(3600), "1 hour");
    assert_eq!(f(7200), "2 hours");
    assert_eq!(f(86400), "24 hours");
}

#[test]
fn network_form_fields() {
    let items = form_items(FormId::DeviceNetwork).unwrap();
    assert_eq!(items.len(), 7);
    let ssid = field(FormId::DeviceNetwork, "wifi_ssid");
    assert!(ssid.check_value(&FormValue::String("home".to_string())).is_ok());
    assert!(ssid.check_value(&FormValue::String("x".repeat(33))).is_err());
    assert_eq!(field(FormId::DeviceNetwork, "wifi_enabled").format_value(&FormValue::Bool(true)), Some("true".to_string()));
}

#[test]
fn hop_labels_read_as_text() {
    assert_eq!(hops_label(Some(3), None, true).text(), Some("my node".to_string()));
    assert_eq!(hops_label(Some(1), None, false).text(), Some("1 hop".to_string()));
    assert_eq!(hops_label(Some(4), None, false).text(), Some("4 hops".to_string()));
    assert_eq!(hops_label(None, None, false).text(), Some("unknown".to_string()));
    assert_eq!(hops_label(Some(0), Some(-90), false), HopsLabel::Direct { rssi: Some(-90) });
    assert_eq!(hops_label(Some(0), Some(-90), false).text(), None);
}

fn channel(key: u32, role: ChannelRole) -> Channel {
    Channel {
        key,
        id: key,
        role,
        name: String::new(),
        psk: vec![],
        uplink_enabled: false,
        downlink_enabled: false,
        position_precision: 0,
        is_muted: false,
        is_enabled: true,
    }
}

#[test]
fn channels_form_and_save_order() {
    let entries = vec![
        (0, channel(0, ChannelRole::Primary)),
        (1, channel(1, ChannelRole::Direct)),
        (2, channel(2, ChannelRole::Secondary)),
    ];
    assert_eq!(form_channel_keys(&entries), vec![0, 2]);
    let only_direct = vec![(1, channel(1, ChannelRole::Direct))];
    assert!(form_channel_keys(&only_direct).is_empty());
    assert_eq!(channel_save_order(&vec![3, 1, 2, 1]), vec![1, 3, 2, 0]);
    assert!(channel_save_order(&vec![]).is_empty());
}

#[test]
fn traceroute_groups_there_and_back() {
    let groups = route_groups(Some(1), 9, 1700, &vec![5], &vec![12, 20], &vec![], &vec![]);
    assert_eq!(groups.len(), 1);
    assert_eq!(groups[0].title, "Route there");
    assert_eq!(
        groups[0].hops,
        vec![
            TracerouteHop { node: 1, snr_q4: None },
            TracerouteHop { node: 5, snr_q4: Some(12) },
            TracerouteHop { node: 9, snr_q4: Some(20) },
        ]
    );
    let groups = route_groups(Some(1), 9, 1700, &vec![], &vec![8], &vec![], &vec![-128]);
    assert_eq!(groups.len(), 2);
    assert_eq!(groups[1].title, "Route back");
    assert_eq!(groups[1].hops, vec![TracerouteHop { node: 9, snr_q4: None }, TracerouteHop { node: 1, snr_q4: None }]);
    assert_eq!(groups[0].time, 1700);
    assert_eq!(groups[1].time, 1700);
    assert_eq!(groups[0].text, "{\n  \"route\": [],\n  \"snr_towards\": [\n    8\n  ]\n}");
    assert_eq!(groups[1].text, "{\n  \"route_back\": [],\n  \"snr_back\": [\n    -128\n  ]\n}");
}

#[test]
fn loaded_config_is_announced() {
    let a = ConfigStep { announce_loaded: true, store: false }.announcement();
    assert!(matches!(&a[..], [StateAction::Toast(t)] if t.kind == ToastKind::Normal && t.text == "config loaded"));
    assert!(ConfigStep { announce_loaded: false, store: true }.announcement().is_empty());
}

#[test]
fn text_packets_follow_the_chat() {
    let d = text_packet(&OutgoingMessage::Direct {
        node_num: 7,
        reply_message_id: Some(3),
        text: OutgoingText::Emoji("👍".to_string()),
        my_node_num: 1,
    });
    assert_eq!(d.payload, "👍".as_bytes().to_vec());
    assert_eq!((d.port, d.destination, d.channel, d.reply_id, d.emoji), (1, Some(7), 0, Some(3), Some(1)));
    assert!(d.want_ack && !d.want_response && d.echo_response);
    let b = text_packet(&OutgoingMessage::Broadcast {
        channel_id: 2,
        reply_message_id: None,
        text: OutgoingText::Text("hi".to_string()),
        my_node_num: 1,
    });
    assert_eq!((b.payload, b.destination, b.channel, b.emoji), (b"hi".to_vec(), None, 2, None));
}

#[test]
fn node_window_traceroute_follows_the_latest() {
    let t = NodeTraceroute { time: 1700, route: vec![5], snr_towards: vec![12, -128], route_back: vec![], snr_back: vec![8] };
    let mut shown: Vec<RouteGroup> = Vec::new();
    assert!(!update_nodeinfo_traceroute(&mut shown, None, Some(1), Some(&t)));
    assert!(shown.is_empty());
    assert!(!update_nodeinfo_traceroute(&mut shown, Some(9), Some(1), None));
    assert!(update_nodeinfo_traceroute(&mut shown, Some(9), Some(1), Some(&t)));
    assert_eq!(shown.len(), 2);
    assert_eq!(shown[0].title, "Route there");
    assert_eq!(
        shown[0].hops,
        vec![
            TracerouteHop { node: 1, snr_q4: None },
            TracerouteHop { node: 5, snr_q4: Some(12) },
            TracerouteHop { node: 9, snr_q4: None },
        ]
    );
    assert_eq!(shown[0].text, "{\n  \"route\": [\n    5\n  ],\n  \"snr_towards\": [\n    12,\n    -128\n  ]\n}");
    assert_eq!(shown[1].title, "Route back");
    assert_eq!(
        shown[1].hops,
        vec![TracerouteHop { node: 9, snr_q4: None }, TracerouteHop { node: 1, snr_q4: Some(8) }]
    );
    assert!(update_nodeinfo_traceroute(&mut shown, Some(9), Some(1), None));
    assert!(shown.is_empty());
}

#[test]
fn save_reports_by_route() {
    assert!(save_report(SaveRoute::AppConfig, FormId::AppUi, true).is_none());
    assert!(matches!(save_report(SaveRoute::RadioConfig, FormId::RadioLora, true), Some(RadioEvent::ConfigSaved(FormId::RadioLora))));
    assert!(matches!(
        save_report(SaveRoute::ModuleConfig, FormId::ModuleMqtt, false),
        Some(RadioEvent::ConfigSaveFailed(FormId::ModuleMqtt))
    ));
    assert!(matches!(
        save_report(SaveRoute::Channels, FormId::RadioChannels, true),
        Some(RadioEvent::ChannelsSaved(FormId::RadioChannels))
    ));
    assert!(matches!(
        save_report(SaveRoute::User, FormId::DeviceUser, false),
        Some(RadioEvent::UserSaveFailed(FormId::DeviceUser))
    ));
}

#[test]
fn centring_ascii_counts_one_column_a_character() {
    assert_eq!(pad_center("ab", 6), "  ab  ");
    assert_eq!(pad_center("abc", 6), " abc  ");
    assert_eq!(pad_center("abcdefg", 6), "abcdefg");
}
