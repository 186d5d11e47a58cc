use std::collections::{HashMap, HashSet, VecDeque};

use meshtastic::protobufs::config::lo_ra_config::ModemPreset;

use termtastic::chat_label::chat_label;
use termtastic::chat::{Chat, LogLevel, LogRecord, Message, BROADCAST_ADDR};
use termtastic::config::{config_step, outgoing_message, OutgoingMessage, OutgoingText};
use termtastic::device::{Device, DeviceSet};
use termtastic::device_config::{ConfigPart, DeviceConfig, DeviceModuleConfig};
use termtastic::formdata::{FormData, FormValue};
use termtastic::forms::FormItemKey;
use termtastic::helpers::{
    channel_name_from_preset_name, delivery_label, hops_label, humanize_duration, last_heard_label,
    modem_preset_channel_name, pad_center, psk_len_level, rssi_level, trim_lines, DeliveryLabel,
    HopsLabel, HumanDuration, LastHeard, SignalLevel,
};
use termtastic::link::{check_connection, reconnection_backoff_millis};
use termtastic::node::{Node, NodeError, NodeUser};
use termtastic::nodes_view::{contains_text, count_online, node_compare, nodes_view, split_words};
use termtastic::order::compare_text;
use termtastic::ordered::OrderedMap;
use termtastic::serialize::{to_formdata, FormDataSerializerError, Serialized};
use termtastic::events::{
    chat_app_event, connection_app_event, connection_radio_event, db_write_for, discovery_finished, nodes_app_event,
    settings_app_event, settings_radio_event, ui_app_event, AppEvent, DbWrite, Effect, PacketSummary, RadioCommand,
    RadioEvent,
};
use termtastic::messenger::{chat_messages, compose, join_lines, MessengerScreen, TextRequest};
use termtastic::screens::{Input, Key};
use termtastic::settings_screen::Handled;
use termtastic::settings::{build_settings, form_source, save_plan, ConfigSection, SavePlan, SaveRoute};
use termtastic::state::{AppConfig, State, StateAction, StateField};
use termtastic::input::{
    parse_i32, parse_u32, submit_float, submit_input, Base64EncoderExt, InputError, InputKind, IntErrorKind,
    Validator,
};
use termtastic::radio::ModemPresetExt;
use termtastic::ui::{
    toggle_choice, Channels, ChannelsRequest, EmojiSelectorWidget, Header, ListKey, NodeInfoTab,
    PopupInputWidget, Rect, TerminalSize,
};
use termtastic::traceroute::{node_label, route_hops, snr_q4, TracerouteHop};
use termtastic::types::{
    Channel, ChannelRole, ChannelSettings, ConnectionState, DeviceDiscoveringState, FormBitMaskVariant, FormId,
    NodesSortBy, SettingsFormState, SettingsItem, Tab, Toast, ToastKind, UiConfig,
};

fn user(short: &str, long: &str) -> NodeUser {
    NodeUser {
        id: String::new(),
        short_name: short.to_string(),
        long_name: long.to_string(),
        role: 0,
        hw_model: 9,
        public_key: vec![],
        is_licensed: false,
        is_unmessagable: None,
    }
}

fn node(key: u32, short: &str, long: &str, hops: Option<u32>, last_heard: Option<i64>) -> Node {
    let mut n = Node::from_packet(key, Some(user(short, long)), 3, 3, 0, 0, -90);
    n.hops = hops;
    n.last_heard = last_heard;
    n.update_fulltext();
    n
}

fn empty_state() -> State {
    State {
        active_chat: None,
        active_device: None,
        active_tab: Tab::Chat,
        channels: OrderedMap::new(),
        chats: OrderedMap::new(),
        connection_attempt: 0,
        connection_state: ConnectionState::NotConnected,
        config_loaded: false,
        device_config: DeviceConfig::empty(),
        device_module_config: DeviceModuleConfig::empty(),
        device_canned_messages: None,
        device_discovering_state: DeviceDiscoveringState::NotStarted,
        devices_discovered: DeviceSet::new(),
        devices: DeviceSet::new(),
        logs: Vec::new(),
        messages: HashMap::new(),
        my_node_key: None,
        my_node_user_hash: 0,
        need_clear_frame: false,
        nodeinfo_popup: None,
        nodes: HashMap::new(),
        nodes_last_telemetry: HashSet::new(),
        nodes_sort_by: NodesSortBy::Hops,
        nodes_filter: String::new(),
        nodes_view: Vec::new(),
        online_nodes: 0,
        reconnection_backoff: None,
        rx: false,
        rx_t: 0,
        settings_form_data: None,
        settings_form_is_changed: false,
        settings_form_original_data: None,
        settings_form_state: SettingsFormState::Inactive,
        splash_logo: false,
        splash_logo_t: 0,
        toast: None,
        toast_queue: VecDeque::new(),
        toast_t: 0,
        ui_config: UiConfig::default(),
    }
}

fn message(id: u32, from: u32, to: u32, channel: u32) -> Message {
    Message {
        id,
        reply_message_id: 0,
        from,
        to,
        channel,
        is_emoji: false,
        datetime: 0,
        text: "hi".to_string(),
        reactions: vec![],
        hops: 0,
        snr_bits: 0,
        rssi: 0,
        routing_error: None,
    }
}

#[test]
fn tabs_cycle_both_ways() {
    assert_eq!(Tab::Chat.next(), Tab::Nodes);
    assert_eq!(Tab::Logs.next(), Tab::Chat);
    assert_eq!(Tab::Chat.prev(), Tab::Logs);
    let mut t = Tab::Settings;
    for _ in 0..5 {
        t = t.next();
    }
    assert_eq!(t, Tab::Settings);
    assert_eq!(Tab::Connection.next().prev(), Tab::Connection);
}

#[test]
fn node_orderings_cycle_both_ways() {
    assert_eq!(NodesSortBy::Hops.prev(), NodesSortBy::HwModel);
    assert_eq!(NodesSortBy::HwModel.next(), NodesSortBy::Hops);
    assert_eq!(NodesSortBy::LastHeard.next(), NodesSortBy::Role);
    assert_eq!(NodesSortBy::LastHeard.next().prev(), NodesSortBy::LastHeard);
}

#[test]
fn toasts_carry_kind_and_text() {
    let t = Toast::warning("careful");
    assert_eq!(t.kind, ToastKind::Warning);
    assert_eq!(t.text, "careful");
    assert_eq!(ToastKind::Error.timeout(), 3000);
    assert_eq!(ToastKind::Success.timeout(), 1500);
}

#[test]
fn channels_from_radio() {
    let settings = ChannelSettings {
        id: 7,
        name: "ops".to_string(),
        psk: vec![1],
        uplink_enabled: true,
        downlink_enabled: false,
        module_settings: Some((13, true)),
    };
    let ch = Channel::from_radio(2, 2, Some(settings));
    assert_eq!(ch.key, 2);
    assert_eq!(ch.role, ChannelRole::Secondary);
    assert_eq!(ch.position_precision, 13);
    assert!(ch.is_muted && ch.is_enabled);
    assert_eq!(ch.protocol_role(), 2);
    let blank = Channel::from_radio(5, 1, None);
    assert_eq!(blank.role, ChannelRole::Disabled);
    assert!(!blank.is_enabled);
    assert_eq!(blank.protocol_role(), 0);
    assert!(blank.protocol_settings().is_none());
    assert!(Channel::direct(4).role.is_direct());
}

#[test]
fn texts_compare_by_code_point() {
    assert_eq!(compare_text("abc", "abd"), -1);
    assert_eq!(compare_text("abc", "ab"), 1);
    assert_eq!(compare_text("", ""), 0);
    assert_eq!(compare_text("Zeta", "alpha"), -1);
    assert_eq!(compare_text("é", "z"), 1);
}

#[test]
fn devices_order_tcp_ble_serial() {
    let mut set = DeviceSet::new();
    assert!(set.insert(Device::Serial("/dev/ttyUSB0".to_string())));
    assert!(set.insert(Device::Ble("AA:BB".to_string())));
    assert!(set.insert(Device::Tcp("10.0.0.2".to_string())));
    assert!(set.insert(Device::Tcp("10.0.0.1".to_string())));
    assert!(!set.insert(Device::Ble("AA:BB".to_string())));
    let addrs: Vec<&str> = set.items.iter().map(|d| d.address().as_str()).collect();
    assert_eq!(addrs, vec!["10.0.0.1", "10.0.0.2", "AA:BB", "/dev/ttyUSB0"]);
    assert!(set.contains(&Device::Tcp("10.0.0.2".to_string())));
    assert!(set.remove(&Device::Tcp("10.0.0.2".to_string())));
    assert!(!set.remove(&Device::Tcp("10.0.0.2".to_string())));
    assert!(!set.contains(&Device::Tcp("10.0.0.2".to_string())));
    assert_eq!(set.items.len(), 3);
}

#[test]
fn ordered_map_keeps_keys_sorted() {
    let mut m: OrderedMap<u32, &str> = OrderedMap::new();
    m.insert_sorted(3, "c");
    m.insert_sorted(1, "a");
    m.insert_sorted(2, "b");
    m.insert_sorted(1, "A");
    let keys: Vec<u32> = m.entries.iter().map(|e| e.0).collect();
    assert_eq!(keys, vec![1, 2, 3]);
    assert_eq!(m.get(&1), Some(&"A"));
    assert_eq!(m.remove(&2), Some("b"));
    assert_eq!(m.get(&2), None);
    assert_eq!(m.len(), 2);
}

#[test]
fn chats_of_messages() {
    assert_eq!(Chat::of_message(&message(1, 5, BROADCAST_ADDR, 2), 9), Chat::Channel(2));
    assert_eq!(Chat::of_message(&message(1, 9, 5, 0), 9), Chat::Direct(5));
    assert_eq!(Chat::of_message(&message(1, 5, 9, 0), 9), Chat::Direct(5));
    assert!(Chat::Direct(5).holds(&message(1, 5, 9, 0), 9));
    assert!(!Chat::Direct(6).holds(&message(1, 5, 9, 0), 9));
    assert!(Chat::Channel(0).holds(&message(1, 5, 9, 0), 9));
}

#[test]
fn words_split_on_whitespace() {
    assert_eq!(split_words("  ab\tc  d "), vec!["ab", "c", "d"]);
    assert!(split_words("   ").is_empty());
    assert_eq!(split_words("x"), vec!["x"]);
}

#[test]
fn text_search() {
    assert!(contains_text("$online", "onl"));
    assert!(contains_text("abc", ""));
    assert!(!contains_text("abc", "abcd"));
    assert!(!contains_text("abc", "ac"));
}

#[test]
fn node_names_and_ids() {
    let n = node(0xabcd1234, "AB", "Alpha Bravo", Some(0), Some(100));
    assert_eq!(n.id(), "!abcd1234");
    assert_eq!(n.hw_model(), "RAK4631");
    assert_eq!(n.role(), "CLIENT");
    assert!(n.fulltext.contains("$direct"));
    assert!(n.fulltext.contains("!abcd1234"));
    let anon = Node::from_packet(0x1234, None, 5, 3, 0, 0, -50);
    assert_eq!(anon.short_name(), "1234");
    assert_eq!(anon.long_name(), "Meshtastic 1234");
    assert_eq!(anon.hops, Some(2));
    assert_eq!(anon.to_user().unwrap_err(), NodeError::NoUserInformation);
    assert!(Node::from_node_info(1, None, None, 0, 0, false, false, false).is_err());
}

#[test]
fn node_list_filters_and_orders() {
    let mut nodes = HashMap::new();
    nodes.insert(1, node(1, "BBB", "Bravo", Some(2), Some(1000)));
    nodes.insert(2, node(2, "AAA", "Alpha", Some(1), Some(0)));
    nodes.insert(3, node(3, "CCC", "Charlie", None, None));
    let tel = HashSet::new();
    let view = nodes_view(&nodes, &tel, "", NodesSortBy::ShortName, Some(3), 1000);
    assert_eq!(view, vec![3, 2, 1]);
    let view = nodes_view(&nodes, &tel, "", NodesSortBy::Hops, None, 1000);
    assert_eq!(view, vec![2, 1, 3]);
    let view = nodes_view(&nodes, &tel, "$online", NodesSortBy::Hops, None, 1000);
    assert_eq!(view, vec![2, 1]);
    let view = nodes_view(&nodes, &tel, "$online", NodesSortBy::Hops, None, 8000);
    assert_eq!(view, vec![1]);
    let view = nodes_view(&nodes, &tel, "$offline", NodesSortBy::Hops, None, 8000);
    assert_eq!(view, vec![2, 3]);
    let view = nodes_view(&nodes, &tel, "alpha", NodesSortBy::Hops, None, 1000);
    assert_eq!(view, vec![2]);
    let mut tel = HashSet::new();
    tel.insert(3);
    let view = nodes_view(&nodes, &tel, "$telemetry", NodesSortBy::Hops, None, 1000);
    assert_eq!(view, vec![3]);
    assert_eq!(count_online(&nodes, 1000), 2);
    assert_eq!(count_online(&nodes, 8000), 1);
    assert_eq!(node_compare(&nodes[&1], &nodes[&2], NodesSortBy::LastHeard, None), -1);
}

#[test]
fn hop_and_reach_words_filter_exactly() {
    let mut nodes = HashMap::new();
    nodes.insert(1, node(1, "ONE", "One", Some(1), Some(0)));
    nodes.insert(2, node(2, "TWL", "Twelve", Some(12), Some(0)));
    nodes.insert(3, node(3, "UNK", "Unknown hops", None, Some(0)));
    nodes.insert(4, node(4, "DIR", "Direct", Some(0), Some(0)));
    let tel = HashSet::new();
    assert_eq!(nodes_view(&nodes, &tel, "$hops1", NodesSortBy::Hops, None, 10), vec![1]);
    assert_eq!(nodes_view(&nodes, &tel, "$hops12", NodesSortBy::Hops, None, 10), vec![2]);
    assert_eq!(nodes_view(&nodes, &tel, "$hops01", NodesSortBy::Hops, None, 10), vec![1]);
    assert!(nodes_view(&nodes, &tel, "$hops99999999999", NodesSortBy::Hops, None, 10).is_empty());
    assert_eq!(nodes_view(&nodes, &tel, "$remote", NodesSortBy::Hops, None, 10), vec![1, 2]);
    assert_eq!(nodes_view(&nodes, &tel, "$direct", NodesSortBy::Hops, None, 10), vec![4]);
    assert_eq!(nodes_view(&nodes, &tel, "$remote $hops12", NodesSortBy::Hops, None, 10), vec![2]);
}

#[test]
fn reducer_tracks_connection() {
    let mut s = empty_state();
    let changed = s.handle_action(StateAction::ConnectionStart, 10, 0);
    assert_eq!(
        changed,
        vec![StateField::ConnectionState, StateField::ConnectionAttempt, StateField::ReconnectionBackoff]
    );
    assert_eq!(s.connection_attempt, 1);
    s.handle_action(StateAction::ConnectionFail("lost".to_string()), 42, 0);
    match &s.connection_state {
        ConnectionState::ProblemDetected { since_millis, error } => {
            assert_eq!(*since_millis, 42);
            assert_eq!(error, "lost");
        }
        _ => panic!("expected a problem"),
    }
    s.handle_action(StateAction::ConnectionSuccess, 50, 0);
    assert_eq!(s.connection_attempt, 0);
    assert!(matches!(s.connection_state, ConnectionState::Connected));
}

#[test]
fn reducer_rebuilds_node_list() {
    let mut s = empty_state();
    let changed = s.handle_action(StateAction::NodeInit(node(7, "G", "Golf", Some(1), Some(5))), 0, 10);
    assert_eq!(changed, vec![StateField::Nodes, StateField::NodesView]);
    assert_eq!(s.nodes_view, vec![7]);
    let changed = s.handle_action(StateAction::NodesFilterSet("XYZ".to_string()), 0, 10);
    assert_eq!(s.nodes_filter, "xyz");
    assert_eq!(changed, vec![StateField::NodesFilter, StateField::NodesView]);
    assert!(s.nodes_view.is_empty());
    let changed = s.handle_action(StateAction::NodeDelete(8), 0, 10);
    assert!(changed.is_empty());
    s.nodeinfo_popup = Some(7);
    let changed = s.handle_action(StateAction::NodeDelete(7), 0, 10);
    assert_eq!(changed, vec![StateField::NodeinfoPopup, StateField::Nodes, StateField::NodesView]);
    assert!(s.nodes.is_empty());
    assert_eq!(s.nodeinfo_popup, None);
}

#[test]
fn reducer_merges_loaded_nodes() {
    let mut s = empty_state();
    s.handle_action(StateAction::NodeInit(node(1, "A", "A", Some(1), Some(50))), 0, 0);
    let loaded = vec![node(1, "OLD", "old", Some(1), Some(40)), node(2, "N", "new", None, None)];
    s.handle_action(StateAction::DbDataLoaded { nodes: loaded }, 0, 0);
    assert_eq!(s.nodes[&1].short_name(), "A");
    assert_eq!(s.nodes[&2].short_name(), "N");
    let newer = vec![node(1, "NEW", "newer", Some(1), Some(60))];
    s.handle_action(StateAction::DbDataLoaded { nodes: newer }, 0, 0);
    assert_eq!(s.nodes[&1].short_name(), "NEW");
}

#[test]
fn reducer_files_messages_into_chats() {
    let mut s = empty_state();
    s.handle_action(StateAction::MyNodeKeySet(9), 0, 0);
    let ch = Channel::from_radio(0, 1, None);
    s.handle_action(StateAction::ChannelSet(0, Channel { role: ChannelRole::Primary, ..ch }), 0, 0);
    assert!(s.chats.contains_key(&Chat::Channel(0)));
    s.handle_action(StateAction::MessageAdd(message(100, 5, BROADCAST_ADDR, 0)), 0, 0);
    s.handle_action(StateAction::MessageAdd(message(101, 5, 9, 0)), 0, 0);
    s.handle_action(StateAction::MessageAdd(message(102, 9, 5, 0)), 0, 0);
    let keys: Vec<Chat> = s.chats.entries.iter().map(|e| e.0).collect();
    assert_eq!(keys, vec![Chat::Channel(0), Chat::Direct(5)]);
    assert_eq!(s.chats.get(&Chat::Direct(5)).unwrap(), &vec![101, 102]);
    let mut reaction = message(103, 5, BROADCAST_ADDR, 0);
    reaction.is_emoji = true;
    reaction.reply_message_id = 100;
    let changed = s.handle_action(StateAction::MessageAdd(reaction), 0, 0);
    assert_eq!(changed, vec![StateField::Messages]);
    assert_eq!(s.messages[&100].reactions, vec![103]);
    s.handle_action(StateAction::MessageErrorSet { message_id: 102, error: Some(5) }, 0, 0);
    assert_eq!(s.messages[&102].routing_error, Some(5));
    let changed = s.handle_action(StateAction::ChatPurge(Chat::Direct(5)), 0, 0);
    assert!(changed.is_empty());
    assert!(!s.messages.contains_key(&101));
    assert!(!s.messages.contains_key(&102));
    assert!(!s.chats.contains_key(&Chat::Direct(5)));
    assert!(s.messages.contains_key(&100));
    s.handle_action(StateAction::ChatPurge(Chat::Channel(0)), 0, 0);
    assert!(s.messages.is_empty());
    assert_eq!(s.chats.get(&Chat::Channel(0)).unwrap(), &Vec::<u32>::new());
}

#[test]
fn reducer_direct_chat_switches_tab() {
    let mut s = empty_state();
    s.active_tab = Tab::Nodes;
    let changed = s.handle_action(StateAction::DirectChatStart(4), 0, 0);
    assert_eq!(changed, vec![StateField::Chats, StateField::ActiveChat, StateField::ActiveTab]);
    assert_eq!(s.active_tab, Tab::Chat);
    assert_eq!(s.active_chat, Some(Chat::Direct(4)));
    let changed = s.handle_action(StateAction::DirectChatStart(4), 0, 0);
    assert_eq!(changed, vec![StateField::ActiveChat, StateField::ActiveTab]);
}

#[test]
fn reducer_devices_and_discovery() {
    let mut s = empty_state();
    let changed = s.handle_action(StateAction::DevicesAdd(Device::Serial("/dev/a".to_string())), 0, 0);
    assert_eq!(changed, vec![StateField::Devices]);
    let changed = s.handle_action(StateAction::DevicesAdd(Device::Serial("/dev/a".to_string())), 0, 0);
    assert!(changed.is_empty());
    s.handle_action(StateAction::DevicesDiscoveredAdd(Device::Tcp("h".to_string())), 0, 0);
    let changed = s.handle_action(StateAction::DeviceDiscoveringStart, 0, 0);
    assert_eq!(changed, vec![StateField::DeviceDiscoveringState, StateField::DevicesDiscovered]);
    assert!(s.devices_discovered.items.is_empty());
    s.handle_action(StateAction::DeviceDiscoveringFail("no radio".to_string()), 0, 0);
    assert_eq!(s.device_discovering_state, DeviceDiscoveringState::Failed("no radio".to_string()));
}

#[test]
fn reducer_toasts_queue_and_expire() {
    let mut s = empty_state();
    s.handle_action(StateAction::Toast(Toast::success("one")), 0, 0);
    s.handle_action(StateAction::Toast(Toast::error("two")), 0, 0);
    let changed = s.handle_tick(100);
    assert_eq!(changed, vec![StateField::Toast, StateField::ToastT]);
    assert_eq!(s.toast.as_ref().unwrap().text, "one");
    assert!(s.handle_tick(200).is_empty());
    assert!(s.handle_tick(600).is_empty());
    assert_eq!(s.toast.as_ref().unwrap().text, "one");
    let changed = s.handle_tick(601);
    assert_eq!(changed, vec![StateField::Toast, StateField::Toast, StateField::ToastT]);
    assert_eq!(s.toast.as_ref().unwrap().text, "two");
    assert!(s.handle_tick(3601).is_empty());
    let changed = s.handle_tick(3602);
    assert_eq!(changed, vec![StateField::Toast]);
    assert!(s.toast.is_none());
}

#[test]
fn reducer_rx_and_splash_time_out() {
    let mut s = empty_state();
    s.handle_action(StateAction::RxTrigger, 1000, 0);
    s.handle_action(StateAction::SplashLogo, 1000, 0);
    assert!(s.handle_tick(1250).is_empty());
    assert_eq!(s.handle_tick(1251), vec![StateField::Rx]);
    assert_eq!(s.handle_tick(2501), vec![StateField::SplashLogo]);
    assert!(!s.rx && !s.splash_logo);
}

#[test]
fn reducer_settings_form_edits() {
    let mut s = empty_state();
    let mut data = FormData::new();
    data.insert("hop_limit".to_string(), FormValue::UnsignedInt32(3));
    s.handle_action(StateAction::SettingsFormLoadingDone { id: FormId::RadioLora, data }, 0, 0);
    assert_eq!(s.settings_form_state, SettingsFormState::Loaded { id: FormId::RadioLora });
    let changed = s.handle_action(
        StateAction::SettingsFormValueSet {
            key: FormItemKey::Simple("hop_limit"),
            value: FormValue::UnsignedInt32(5),
        },
        0,
        0,
    );
    assert_eq!(changed, vec![StateField::SettingsFormData, StateField::SettingsFormIsChanged]);
    assert!(s.settings_form_is_changed);
    s.handle_action(StateAction::SettingsFormReset, 0, 0);
    assert!(!s.settings_form_is_changed);
    assert_eq!(s.settings_form_data.as_ref().unwrap().get("hop_limit").unwrap().as_u32(), 3);
    s.handle_action(StateAction::SettingsFormClose, 0, 0);
    assert!(s.settings_form_data.is_none());
    let changed = s.handle_action(
        StateAction::SettingsFormValueSet { key: FormItemKey::NoField, value: FormValue::Bool(true) },
        0,
        0,
    );
    assert!(changed.is_empty());
}

#[test]
fn reducer_applies_saved_config() {
    let mut s = empty_state();
    let mut devices = DeviceSet::new();
    devices.insert(Device::Ble("X".to_string()));
    let cfg = AppConfig {
        active_tab: Tab::Logs,
        active_device: None,
        devices,
        nodes_sort_by: NodesSortBy::Role,
        nodes_filter: "abc".to_string(),
        ui_config: UiConfig::default(),
        my_node_key: Some(3),
    };
    let changed = s.handle_action(StateAction::AppConfigApply(cfg), 0, 0);
    assert_eq!(changed.last(), Some(&StateField::NodesView));
    assert!(s.config_loaded);
    assert_eq!(s.active_tab, Tab::Logs);
    let step = config_step(&changed, s.config_loaded, 1, 0);
    assert!(step.announce_loaded && step.store);
    let step = config_step(&vec![StateField::Logs], true, 7, 7);
    assert!(!step.announce_loaded && !step.store);
}

#[test]
fn reducer_logs_and_stop() {
    let mut s = empty_state();
    s.handle_action(
        StateAction::LogRecordAdd(LogRecord {
            datetime: 0,
            level: LogLevel::Info,
            source: "x".to_string(),
            message: "m".to_string(),
        }),
        0,
        0,
    );
    assert_eq!(s.logs.len(), 1);
    s.handle_action(StateAction::NodeInit(node(1, "A", "A", None, None)), 0, 0);
    s.online_nodes = 4;
    let changed = s.handle_action(StateAction::ConnectionStop, 0, 0);
    assert_eq!(changed.len(), 15);
    assert_eq!(changed[4], StateField::DeviceConfig);
    assert_eq!(changed[6], StateField::NodesView);
    assert_eq!(changed[14], StateField::NodesView);
    assert!(s.device_config.lora.is_none());
    assert!(s.nodes.is_empty() && s.nodes_view.is_empty());
    assert_eq!(s.online_nodes, 0);
    assert_eq!(s.handle_action(StateAction::NodesOnlineSet(0), 0, 0), vec![]);
    assert_eq!(s.handle_action(StateAction::NodesOnlineSet(2), 0, 0), vec![StateField::OnlineNodes]);
}

#[test]
fn reducer_owner_and_heard() {
    let mut s = empty_state();
    s.handle_action(StateAction::MyNodeKeySet(1), 0, 0);
    s.handle_action(StateAction::NodeInit(node(1, "A", "A", Some(2), None)), 0, 0);
    let changed = s.handle_action(StateAction::NodeOwnerSet(user("Z", "Zulu")), 0, 0);
    assert_eq!(changed, vec![StateField::MyNodeUserHash, StateField::Nodes, StateField::NodesView]);
    assert_eq!(s.nodes[&1].short_name(), "Z");
    s.handle_action(
        StateAction::NodeUpdateLastHeard { node_key: 1, hops: 0, snr_bits: 0x4040_0000, rssi: -70 },
        0,
        1234,
    );
    let n = &s.nodes[&1];
    assert_eq!(n.last_heard, Some(1234));
    assert_eq!(n.hops, Some(0));
    assert_eq!(n.rssi, Some(-70));
    assert_eq!(n.snr_bits, 0x4040_0000);
    assert!(n.fulltext.contains("$direct"));
}

#[test]
fn reconnection_waits_double_up_to_a_cap() {
    assert_eq!(reconnection_backoff_millis(0), 1000);
    assert_eq!(reconnection_backoff_millis(3), 8000);
    assert_eq!(reconnection_backoff_millis(4), 16000);
    assert_eq!(reconnection_backoff_millis(5), 30000);
    assert_eq!(reconnection_backoff_millis(54), 30000);
    assert_eq!(reconnection_backoff_millis(u32::MAX), 30000);
    let problem = ConnectionState::ProblemDetected { since_millis: 1000, error: String::new() };
    let c = check_connection(true, &problem, 1, 1500);
    assert_eq!(c.backoff_left_millis, Some(1500));
    assert!(!c.connect);
    let c = check_connection(true, &problem, 1, 5000);
    assert_eq!(c.backoff_left_millis, Some(0));
    assert!(c.connect);
    let c = check_connection(true, &ConnectionState::NotConnected, 0, 0);
    assert!(c.connect && c.backoff_left_millis.is_none());
    let c = check_connection(false, &ConnectionState::NotConnected, 0, 0);
    assert!(!c.connect);
    let c = check_connection(true, &ConnectionState::Connected, 0, 0);
    assert!(!c.connect);
}

#[test]
fn traceroute_hops_there_and_back() {
    assert_eq!(snr_q4(-128), None);
    assert_eq!(snr_q4(26), Some(26));
    let hops = route_hops(Some(1), &vec![2, 3], Some(4), &vec![10, -128]);
    assert_eq!(
        hops,
        vec![
            TracerouteHop { node: 1, snr_q4: None },
            TracerouteHop { node: 2, snr_q4: Some(10) },
            TracerouteHop { node: 3, snr_q4: None },
            TracerouteHop { node: 4, snr_q4: None },
        ]
    );
    let mut nodes = HashMap::new();
    nodes.insert(0x10, node(0x10, "S", "Sierra", None, None));
    assert_eq!(node_label(&nodes, 0x10), "Sierra (!10)");
    assert_eq!(node_label(&nodes, 0xff), "!ff");
}

#[test]
fn outgoing_messages_follow_the_chat_in_view() {
    let m = outgoing_message(Some(Chat::Channel(2)), Some(9), None, OutgoingText::Text("x".to_string()));
    assert!(matches!(m, Some(OutgoingMessage::Broadcast { channel_id: 2, my_node_num: 9, .. })));
    let m = outgoing_message(Some(Chat::Direct(5)), Some(9), Some(1), OutgoingText::Emoji("👍".to_string()));
    assert!(matches!(
        m,
        Some(OutgoingMessage::Direct { node_num: 5, reply_message_id: Some(1), my_node_num: 9, .. })
    ));
    assert!(outgoing_message(None, None, None, OutgoingText::Text("x".to_string())).is_none());
}

#[test]
fn nested_form_keys_create_their_record() {
    let mut data = FormData::new();
    data.insert("map_report_settings".to_string(), FormValue::Option(None));
    let mut defaults = FormData::new();
    defaults.insert("publish_interval_secs".to_string(), FormValue::UnsignedInt32(3600));
    let key = FormItemKey::NestedOption {
        outer: "map_report_settings",
        inner: "position_precision",
        default_value: FormValue::UnsignedInt32(1),
        default_record: defaults,
    };
    assert_eq!(key.read(&data).unwrap().as_u32(), 1);
    key.write(&mut data, FormValue::UnsignedInt32(14));
    assert_eq!(key.read(&data).unwrap().as_u32(), 14);
    let record = data.get("map_report_settings").unwrap().as_option().unwrap().as_nested();
    assert_eq!(record.get("publish_interval_secs").unwrap().as_u32(), 3600);
    assert_eq!(record.len(), 2);
}

#[test]
fn records_become_form_data() {
    let record = Serialized::Struct(vec![
        ("name".to_string(), Serialized::Str("n".to_string())),
        ("hops".to_string(), Serialized::U32(3)),
        ("flag".to_string(), Serialized::Bool(true)),
        ("opt".to_string(), Serialized::Nothing),
    ]);
    let data = to_formdata(&record).unwrap();
    assert_eq!(data.len(), 4);
    assert_eq!(data.get("hops").unwrap().as_u32(), 3);
    assert!(data.get("flag").unwrap().as_bool());
    assert!(data.get("opt").unwrap().as_option().is_none());
    match to_formdata(&Serialized::U8(1)) {
        Err(FormDataSerializerError::UnsupportedType(_)) => {}
        _ => panic!("a bare number is no record"),
    }
}

#[test]
fn labels_for_the_user_interface() {
    assert_eq!(humanize_duration(30), HumanDuration::Now);
    assert_eq!(humanize_duration(125), HumanDuration::Minutes(2));
    assert_eq!(humanize_duration(7200), HumanDuration::Hours(2));
    assert_eq!(humanize_duration(3 * 86400), HumanDuration::Days(3));
    assert_eq!(HumanDuration::Minutes(5).text(), "5m");
    assert_eq!(last_heard_label(Some(0), true, 10), LastHeard::Mine);
    assert_eq!(last_heard_label(None, false, 10), LastHeard::Unknown);
    assert_eq!(last_heard_label(Some(0), false, 3600), LastHeard::Ago(HumanDuration::Hours(1)));
    assert_eq!(rssi_level(-101), SignalLevel::Bad);
    assert_eq!(rssi_level(-90), SignalLevel::Fair);
    assert_eq!(rssi_level(-80), SignalLevel::Good);
    assert_eq!(psk_len_level(0), SignalLevel::Bad);
    assert_eq!(psk_len_level(32), SignalLevel::Good);
    assert_eq!(hops_label(Some(0), Some(-60), false), HopsLabel::Direct { rssi: Some(-60) });
    assert_eq!(hops_label(Some(3), None, false), HopsLabel::Hops(3));
    assert_eq!(hops_label(None, None, true), HopsLabel::MyNode);
    assert_eq!(delivery_label(None), DeliveryLabel::Sent);
    assert_eq!(delivery_label(Some(0)), DeliveryLabel::Acked);
    assert_eq!(delivery_label(Some(1)), DeliveryLabel::Failed("NO_ROUTE".to_string()));
    assert_eq!(delivery_label(Some(9999)), DeliveryLabel::Failed("9999".to_string()));
    assert_eq!(channel_name_from_preset_name("LONG_FAST"), "LongFast");
    assert_eq!(modem_preset_channel_name(3), Some("MediumSlow".to_string()));
    assert_eq!(modem_preset_channel_name(-5), None);
    assert_eq!(pad_center("ab", 6), "  ab  ");
    assert_eq!(
        trim_lines(&vec!["a  ".to_string(), "b".to_string(), "  ".to_string()]),
        vec!["a".to_string(), "b".to_string()]
    );
}

#[test]
fn radio_config_sections_are_kept_in_place() {
    let mut s = empty_state();
    let lora = meshtastic::protobufs::config::LoRaConfig { hop_limit: 5, modem_preset: 3, ..Default::default() };
    let changed = s.handle_action(StateAction::DeviceConfigSet(ConfigPart::Lora { modem_preset: 3, config: lora }), 0, 0);
    assert_eq!(changed, vec![StateField::DeviceConfig]);
    assert_eq!(s.device_config.lora.as_ref().unwrap().hop_limit, 5);
    assert_eq!(s.device_config.lora_modem_preset, Some(3));
    let ch = Channel::from_radio(0, 1, None);
    s.handle_action(StateAction::ChannelSet(0, Channel { role: ChannelRole::Primary, ..ch }), 0, 0);
    let label = chat_label(&s, &Chat::Channel(0));
    assert_eq!(label[2].text, "MediumSlow");
    assert!(s.device_config.bluetooth.is_none());
    s.handle_action(StateAction::ConnectionStop, 0, 0);
    assert!(s.device_config.lora.is_none());
}

#[test]
fn labels_of_tabs_and_orderings() {
    assert_eq!(Tab::Connection.label(), "connection");
    assert_eq!(NodesSortBy::HwModel.label(), "hardware / short name");
    assert_eq!(NodeInfoTab::Info.next(), NodeInfoTab::Traceroutes);
    assert_eq!(NodeInfoTab::Info.prev(), NodeInfoTab::Telemetry);
    assert_eq!(NodeInfoTab::Telemetry.next().title(), "info");
}

#[test]
fn bit_mask_choices_toggle() {
    let choices = vec![FormBitMaskVariant::new("a", 1), FormBitMaskVariant::new("bc", 6)];
    assert_eq!(toggle_choice(0, &choices, 0), 1);
    assert_eq!(toggle_choice(1, &choices, 0), 0);
    assert_eq!(toggle_choice(2, &choices, 1), 0);
    assert_eq!(toggle_choice(1, &choices, 1), 7);
    assert_eq!(toggle_choice(toggle_choice(9, &choices, 1), &choices, 1), 9);
}

#[test]
fn channel_list_confirms_purges() {
    let keys = vec![0, 3];
    let mut c = Channels::new();
    assert_eq!(c.handle_key(ListKey::Enter, &keys), (true, None));
    c.selected = Some(1);
    assert_eq!(c.handle_key(ListKey::Enter, &keys), (true, Some(ChannelsRequest::Open(3))));
    assert_eq!(c.handle_key(ListKey::Delete, &keys), (true, None));
    assert_eq!(c.channel_purge_key, Some(3));
    assert_eq!(c.handle_key(ListKey::Other, &keys), (false, None));
    assert_eq!(c.handle_key(ListKey::Enter, &keys), (true, Some(ChannelsRequest::Purge(3))));
    assert_eq!(c.channel_purge_key, None);
    c.handle_key(ListKey::Backspace, &keys);
    assert_eq!(c.handle_key(ListKey::Esc, &keys), (true, None));
    assert_eq!(c.channel_purge_key, None);
    assert_eq!(c.handle_key(ListKey::Tab, &keys), (false, None));
}

#[test]
fn popups_and_size_warning() {
    let area = Rect { x: 0, y: 0, width: 80, height: 24 };
    assert_eq!(
        PopupInputWidget::new(40).popup_area(area),
        Rect { x: 20, y: 10, width: 40, height: 4 }
    );
    assert_eq!(TerminalSize::new((100, 30)).sizes_text(80, 24), "100x30 [80x24]");
    assert_eq!(Header::new(), Header {});
    assert_eq!(EmojiSelectorWidget::new(), EmojiSelectorWidget {});
}

#[test]
fn integers_read_as_std_reads_them() {
    assert_eq!(parse_u32("42"), Ok(42));
    assert_eq!(parse_u32("+7"), Ok(7));
    assert_eq!(parse_u32(""), Err(IntErrorKind::Empty));
    assert_eq!(parse_u32("-1"), Err(IntErrorKind::InvalidDigit));
    assert_eq!(parse_u32("4294967296"), Err(IntErrorKind::PosOverflow));
    assert_eq!(parse_i32("-2147483648"), Ok(i32::MIN));
    assert_eq!(parse_i32("-2147483649"), Err(IntErrorKind::NegOverflow));
    assert_eq!(parse_i32("1x"), Err(IntErrorKind::InvalidDigit));
    assert_eq!(parse_i32("+"), Err(IntErrorKind::InvalidDigit));
    for (text, expected) in [("0", 0i32), ("-5", -5), ("007", 7)] {
        assert_eq!(parse_i32(text), text.parse::<i32>().map_err(|_| IntErrorKind::InvalidDigit));
        assert_eq!(parse_i32(text), Ok(expected));
    }
    assert_eq!(IntErrorKind::Empty.message(), "".parse::<u32>().unwrap_err().to_string());
    assert_eq!(IntErrorKind::PosOverflow.message(), "99999999999".parse::<u32>().unwrap_err().to_string());
}

#[test]
fn typed_values_are_checked_by_their_rules() {
    let pin = Validator::UnsignedRange { min: 100_000, max: 999_999, message: "Invalid PIN" };
    assert_eq!(submit_input(InputKind::UnsignedInt32, &pin, "123456").unwrap().as_u32(), 123456);
    assert_eq!(
        submit_input(InputKind::UnsignedInt32, &pin, "12").unwrap_err(),
        InputError::Invalid("Invalid PIN".to_string())
    );
    assert_eq!(
        submit_input(InputKind::UnsignedInt32, &pin, "x").unwrap_err(),
        InputError::Integer(IntErrorKind::InvalidDigit)
    );
    let power = Validator::SignedRange { min: -100, max: 100, message: "Must be between -100 and 100" };
    assert_eq!(submit_input(InputKind::Int32, &power, "-30").unwrap().as_i32(), -30);
    assert!(submit_input(InputKind::Int32, &power, "101").is_err());
    let short = Validator::TextLength { min: 1, max: 4, message: "Min length is 1, max 4" };
    assert!(submit_input(InputKind::Text, &short, "ABCD").is_ok());
    assert!(submit_input(InputKind::Text, &short, "").is_err());
    assert!(submit_input(InputKind::Text, &short, "ÄÄÄ").is_err());
    let host = Validator::HostAddress;
    assert!(submit_input(InputKind::Text, &host, "mqtt.meshtastic.org").is_ok());
    assert!(submit_input(InputKind::Text, &host, "192.168.1.2:1883").is_ok());
    assert!(submit_input(InputKind::Text, &host, "bad host name!").is_err());
    let key = submit_input(InputKind::Base64, &Validator::Any, "AQI=").unwrap();
    assert_eq!(key.as_vec().len(), 2);
    assert_eq!(key.as_vec()[1].as_u8(), 2);
    assert_eq!(submit_input(InputKind::Base64, &Validator::Any, "").unwrap().as_vec().len(), 0);
    assert!(matches!(
        submit_input(InputKind::Base64, &Validator::Any, "@@"),
        Err(InputError::Base64(_))
    ));
    assert_eq!(vec![1u8, 2u8].base64_encode(), "AQI=");
}

#[test]
fn floating_point_rules_go_by_the_numbers() {
    let adc = Validator::FloatRange {
        min_bits: 2.0f32.to_bits(),
        max_bits: 6.0f32.to_bits(),
        zero_allowed: true,
        message: "Must be between 2.0 and 6.0, or 0 for disable",
    };
    assert!(submit_float(&adc, Ok(3.2f32.to_bits())).is_ok());
    assert!(submit_float(&adc, Ok(0.0f32.to_bits())).is_ok());
    assert!(submit_float(&adc, Ok((-0.0f32).to_bits())).is_ok());
    assert!(submit_float(&adc, Ok(6.5f32.to_bits())).is_err());
    assert!(submit_float(&adc, Ok(f32::NAN.to_bits())).is_err());
    let freq = Validator::FloatRange {
        min_bits: 0.0f32.to_bits(),
        max_bits: 2500.0f32.to_bits(),
        zero_allowed: false,
        message: "Must be between 0 and 2500",
    };
    assert!(submit_float(&freq, Ok(869.525f32.to_bits())).is_ok());
    assert!(submit_float(&freq, Ok((-1.0f32).to_bits())).is_err());
    assert_eq!(
        submit_float(&freq, Err("invalid float literal".to_string())).unwrap_err(),
        InputError::Float("invalid float literal".to_string())
    );
}

#[test]
fn modem_presets_name_their_channels() {
    assert_eq!(ModemPreset::LongFast.as_channel_name(), "LongFast");
    assert_eq!(ModemPreset::ShortTurbo.as_channel_name(), "ShortTurbo");
}

#[test]
fn settings_menu_lists_forms_in_groups() {
    let items = build_settings();
    assert_eq!(items.len(), 27);
    assert!(matches!(items[0], SettingsItem::Group { title: "App" }));
    assert!(matches!(items[1], SettingsItem::Form { title: "UI", id: FormId::AppUi }));
    assert!(matches!(items[13], SettingsItem::Form { title: "Network", id: FormId::DeviceNetwork }));
    assert!(matches!(items[26], SettingsItem::Form { title: "Traffic Management", id: FormId::ModuleTrafficManagement }));
}

#[test]
fn settings_form_sources() {
    let mut s = empty_state();
    assert_eq!(form_source(&s, FormId::AppUi), Ok(Some(ConfigSection::Ui)));
    assert_eq!(form_source(&s, FormId::RadioLora), Err("Lora config not loaded"));
    assert_eq!(form_source(&s, FormId::RadioChannels), Err("Channels data not loaded"));
    assert_eq!(form_source(&s, FormId::DeviceAdministration), Ok(None));
    assert_eq!(form_source(&s, FormId::DeviceNetwork), Err("Network config not loaded"));
    assert_eq!(
        form_source(&s, FormId::ModuleTrafficManagement),
        Err("Traffic Management config not loaded or it's not supported by the device firmware")
    );
    let ch = Channel::from_radio(0, 1, None);
    s.handle_action(StateAction::ChannelSet(0, Channel { role: ChannelRole::Primary, ..ch }), 0, 0);
    assert_eq!(form_source(&s, FormId::RadioChannels), Ok(Some(ConfigSection::Channels)));
    assert_eq!(save_plan(&s, FormId::AppUi), SavePlan::AppConfig);
    assert_eq!(save_plan(&s, FormId::DeviceAdministration), SavePlan::Nothing);
    s.handle_action(StateAction::MyNodeKeySet(7), 0, 0);
    assert_eq!(
        save_plan(&s, FormId::ModuleMqtt),
        SavePlan::ToRadio { section: ConfigSection::Mqtt, route: SaveRoute::ModuleConfig, my_node_num: 7 }
    );
}

fn toast_text(a: &StateAction) -> Option<(ToastKind, String)> {
    match a {
        StateAction::Toast(t) => Some((t.kind, t.text.clone())),
        _ => None,
    }
}

#[test]
fn ui_service_answers() {
    let r = ui_app_event(AppEvent::TabNextRequested);
    assert!(matches!(r.actions[..], [StateAction::TabSwitchToNext]));
    let r = ui_app_event(AppEvent::TryingToQuit);
    assert_eq!(toast_text(&r.actions[0]), Some((ToastKind::Normal, "press Esc twice quickly to quit".to_string())));
    let r = ui_app_event(AppEvent::CopyToClipboardRequested("abc".to_string()));
    assert!(matches!(&r.effects[..], [Effect::CopyToClipboard(t)] if t == "abc"));
    let r = ui_app_event(AppEvent::DisconnectionRequested);
    assert!(r.actions.is_empty() && r.commands.is_empty() && r.effects.is_empty());
}

#[test]
fn settings_service_answers() {
    let s = empty_state();
    let r = settings_app_event(&s, AppEvent::SettingsFormSelected(FormId::RadioLora));
    assert!(matches!(r.actions[0], StateAction::SettingsFormLoadingStart { id: FormId::RadioLora }));
    assert!(matches!(&r.actions[1], StateAction::SettingsFormLoadingFail { id: FormId::RadioLora, error } if error == "Lora config not loaded"));
    let r = settings_app_event(&s, AppEvent::SettingsFormSelected(FormId::AppUi));
    assert_eq!(r.actions.len(), 1);
    assert!(matches!(r.effects[..], [Effect::ConvertSection { id: FormId::AppUi, section: ConfigSection::Ui }]));
    let r = settings_app_event(&s, AppEvent::SettingsFormSaveRequested(FormId::AppUi));
    assert_eq!(toast_text(&r.actions[0]), Some((ToastKind::Normal, "saving...".to_string())));
    assert!(matches!(r.effects[..], [Effect::SaveForm { id: FormId::AppUi, plan: SavePlan::AppConfig }]));
    let r = settings_radio_event(&s, RadioEvent::ConfigSaveFailed(FormId::RadioLora));
    assert_eq!(toast_text(&r.actions[0]), Some((ToastKind::Error, "save failed (see logs)".to_string())));
    assert!(matches!(r.actions[1], StateAction::SettingsFormSavingFailed { id: FormId::RadioLora }));
    let r = settings_radio_event(&s, RadioEvent::ChannelsSaved(FormId::RadioChannels));
    assert!(matches!(r.actions[0], StateAction::ActiveChatUnset));
    assert_eq!(toast_text(&r.actions[1]), Some((ToastKind::Success, "channels saved".to_string())));
}

#[test]
fn chat_and_node_services_send_commands() {
    let mut s = empty_state();
    let r = chat_app_event(&s, AppEvent::ChatMessageSubmitted { text: "hi".to_string(), reply_message_id: None });
    assert!(r.commands.is_empty());
    s.handle_action(StateAction::MyNodeKeySet(9), 0, 0);
    s.handle_action(StateAction::ActiveChatSet(Chat::Direct(5)), 0, 0);
    let r = chat_app_event(&s, AppEvent::ChatMessageSubmitted { text: "hi".to_string(), reply_message_id: Some(3) });
    assert!(matches!(&r.commands[..], [RadioCommand::Send(OutgoingMessage::Direct { node_num: 5, reply_message_id: Some(3), my_node_num: 9, .. })]));
    let r = nodes_app_event(&s, AppEvent::NodeDeleteRequested(4));
    assert!(matches!(r.commands[..], [RadioCommand::DeleteNode { node_num: 4, my_node_num: 9 }]));
    let r = connection_app_event(&s, AppEvent::DeviceRebootRequested);
    assert!(matches!(r.commands[..], [RadioCommand::Reboot { my_node_num: 9, secs: 3 }]));
    let r = discovery_finished(Err("no adapter".to_string()));
    assert!(matches!(&r.actions[0], StateAction::DeviceDiscoveringFail(e) if e == "no adapter"));
    assert_eq!(toast_text(&r.actions[1]), Some((ToastKind::Error, "discovery failed".to_string())));
}

#[test]
fn connection_service_reads_packets() {
    let mut s = empty_state();
    let r = connection_radio_event(&s, RadioEvent::IncomingPacket(PacketSummary::MyInfo(42)));
    assert!(matches!(r.actions[..], [StateAction::MyNodeKeySet(42), StateAction::RxTrigger]));
    assert!(matches!(r.effects[..], [Effect::OpenDatabase(42)]));
    s.handle_action(StateAction::MyNodeKeySet(42), 0, 0);
    let r = connection_radio_event(&s, RadioEvent::IncomingPacket(PacketSummary::ConfigComplete));
    assert!(matches!(r.actions[0], StateAction::ConnectionSuccess));
    assert!(matches!(r.commands[..], [RadioCommand::LoadCannedMessages { my_node_num: 42 }]));
    assert!(matches!(r.actions[2], StateAction::RxTrigger));
    let r = connection_radio_event(&s, RadioEvent::Disconnected);
    assert!(matches!(r.actions[0], StateAction::ConnectionStop));
    assert_eq!(db_write_for(&StateAction::NodeDelete(3)), Some(DbWrite::RemoveNode(3)));
    assert_eq!(db_write_for(&StateAction::SplashLogo), None);
}

fn key(k: Key) -> Input {
    Input::Press { key: k, plain: true, ctrl: false, shift: false }
}

#[test]
fn compose_sends_trimmed_text_or_reaction() {
    let lines = vec!["hello  ".to_string(), "world".to_string(), "".to_string()];
    assert_eq!(join_lines(&lines), "hello  \nworld\n");
    match compose(&lines, None) {
        Some(AppEvent::ChatMessageSubmitted { text, reply_message_id: None }) => assert_eq!(text, "hello\nworld"),
        _ => panic!("a message"),
    }
    let smile = vec!["👍".to_string()];
    assert!(matches!(compose(&smile, Some(7)), Some(AppEvent::ChatReactionSubmitted { reply_message_id: Some(7), .. })));
    assert!(matches!(compose(&smile, None), Some(AppEvent::ChatMessageSubmitted { .. })));
    let long = vec!["x".repeat(201)];
    assert!(compose(&long, None).is_none());
    let wide = vec!["ä".repeat(150)];
    assert!(matches!(compose(&wide, None), Some(AppEvent::ChatMessageSubmitted { .. })));
    let two_lines = vec!["ä".repeat(100), "ö".repeat(99)];
    assert!(compose(&two_lines, None).is_some());
    let too_many = vec!["ä".repeat(100), "ö".repeat(100)];
    assert!(compose(&too_many, None).is_none());
}

#[test]
fn messenger_keys() {
    let mut s = empty_state();
    s.handle_action(StateAction::MyNodeKeySet(9), 0, 0);
    s.handle_action(StateAction::NodeInit(node(5, "E", "Echo", Some(1), Some(5))), 0, 10);
    s.handle_action(StateAction::MessageAdd(message(100, 5, 9, 0)), 0, 0);
    let messages = chat_messages(&s, Chat::Direct(5));
    assert_eq!(messages, vec![100]);
    let mut screen = MessengerScreen::new();
    let mut reply: Option<(u32, u32)> = None;
    let empty: Vec<String> = Vec::new();
    let step = screen.handle_input(&key(Key::F(2)), &s, &messages, Some(0), &mut reply, &empty, None);
    assert_eq!(step.handled, Handled::Yes);
    assert_eq!(reply, Some((5, 100)));
    let typed = vec!["ok".to_string()];
    let step = screen.handle_input(&key(Key::Enter), &s, &messages, Some(0), &mut reply, &typed, None);
    assert!(matches!(&step.events[..], [AppEvent::ChatMessageSubmitted { reply_message_id: Some(100), .. }]));
    assert!(reply.is_none());
    assert!(matches!(step.text[..], [TextRequest::Clear]));
    let step = screen.handle_input(&key(Key::F(4)), &s, &messages, Some(0), &mut reply, &empty, None);
    assert!(matches!(step.events[..], [AppEvent::NodeInfoPopupRequested(5)]));
    let step = screen.handle_input(&key(Key::Esc), &s, &messages, Some(0), &mut reply, &empty, None);
    assert!(matches!(step.events[..], [AppEvent::ChatSwitchRequested]));
    let step = screen.handle_input(&key(Key::Tab), &s, &messages, Some(0), &mut reply, &empty, None);
    assert_eq!(step.handled, Handled::No);
    screen.handle_input(&key(Key::F(7)), &s, &messages, Some(0), &mut reply, &empty, None);
    assert!(screen.is_reaction_viewer_visible);
    let step = screen.handle_input(&key(Key::Down), &s, &messages, Some(0), &mut reply, &empty, None);
    assert_eq!(step.reactions, Some(0));
}

#[test]
fn shown_durations_end_in_ago_except_now() {
    let shown = |s: i64| {
        let d = humanize_duration(s);
        (d.text(), d.suffix())
    };
    assert_eq!(shown(59), ("now".to_string(), ""));
    assert_eq!(shown(60), ("1m".to_string(), " ago"));
    assert_eq!(shown(3599), ("59m".to_string(), " ago"));
    assert_eq!(shown(3600), ("1h".to_string(), " ago"));
    assert_eq!(shown(47 * 3600), ("47h".to_string(), " ago"));
    assert_eq!(shown(48 * 3600), ("2d".to_string(), " ago"));
}

#[test]
fn direct_routes_show_signal_strength() {
    let direct = hops_label(Some(0), Some(-60), false);
    assert_eq!(direct.text(), None);
    assert_eq!(direct.rssi_parts(), vec!["/".to_string(), "-60dbm".to_string()]);
    assert!(hops_label(Some(0), None, false).rssi_parts().is_empty());
    assert!(hops_label(Some(2), Some(-60), false).rssi_parts().is_empty());
    assert_eq!(hops_label(Some(2), None, false).text(), Some("2 hops".to_string()));
    assert_eq!(hops_label(Some(1), None, false).text(), Some("1 hop".to_string()));
    assert_eq!(hops_label(None, None, false).text(), Some("unknown".to_string()));
    assert_eq!(hops_label(Some(5), None, true).text(), Some("my node".to_string()));
}

#[test]
fn settings_menu_starts_with_app_ui() {
    let items = build_settings();
    assert!(matches!(items[0], SettingsItem::Group { title: "App" }));
    assert!(matches!(items[1], SettingsItem::Form { title: "UI", id: FormId::AppUi }));
    assert!(matches!(items[2], SettingsItem::Group { title: "Radio" }));
    assert!(matches!(items[3], SettingsItem::Form { title: "LoRa", id: FormId::RadioLora }));
}

#[test]
fn writing_the_loaded_value_leaves_form_unchanged() {
    let mut s = empty_state();
    let mut data = FormData::new();
    data.insert("hop_limit".to_string(), FormValue::UnsignedInt32(3));
    data.insert("tx_enabled".to_string(), FormValue::Bool(true));
    s.handle_action(StateAction::SettingsFormLoadingDone { id: FormId::RadioLora, data }, 0, 0);
    let set = |v: u32| StateAction::SettingsFormValueSet {
        key: FormItemKey::Simple("hop_limit"),
        value: FormValue::UnsignedInt32(v),
    };
    s.handle_action(set(3), 0, 0);
    assert!(!s.settings_form_is_changed);
    s.handle_action(set(4), 0, 0);
    assert!(s.settings_form_is_changed);
    s.handle_action(set(3), 0, 0);
    assert!(!s.settings_form_is_changed);
    s.handle_action(
        StateAction::SettingsFormValueSet { key: FormItemKey::Simple("region"), value: FormValue::Int32(1) },
        0,
        0,
    );
    assert!(s.settings_form_is_changed);
    s.handle_action(StateAction::SettingsFormReset, 0, 0);
    assert!(!s.settings_form_is_changed);
    let d = s.settings_form_data.as_ref().unwrap();
    assert!(d.get("region").is_none());
    assert_eq!(d.get("hop_limit").unwrap().as_u32(), 3);
}

#[test]
fn filter_words_combine_as_and() {
    let mut nodes = HashMap::new();
    nodes.insert(1, node(1, "ONE", "Alpha base", Some(1), Some(0)));
    nodes.insert(2, node(2, "TWO", "Alpha camp", Some(2), Some(0)));
    nodes.insert(3, node(3, "THR", "Beta camp", Some(3), Some(0)));
    let tel = HashSet::new();
    let a = nodes_view(&nodes, &tel, "alpha", NodesSortBy::Hops, None, 10);
    let b = nodes_view(&nodes, &tel, "camp", NodesSortBy::Hops, None, 10);
    let ab = nodes_view(&nodes, &tel, "alpha camp", NodesSortBy::Hops, None, 10);
    assert_eq!(a, vec![1, 2]);
    assert_eq!(b, vec![2, 3]);
    assert_eq!(ab, vec![2]);
    assert_eq!(nodes_view(&nodes, &tel, "  camp   alpha ", NodesSortBy::Hops, None, 10), vec![2]);
}

#[test]
fn setting_the_filter_rebuilds_the_node_list() {
    let mut s = empty_state();
    s.handle_action(StateAction::NodesFilterSet("Alpha".to_string()), 0, 10);
    let changed = s.handle_action(StateAction::NodesFilterSet("CAMP".to_string()), 0, 10);
    assert_eq!(s.nodes_filter, "camp");
    assert_eq!(changed.last(), Some(&StateField::NodesView));
    let changed = s.handle_action(StateAction::SettingsFormReset, 0, 10);
    assert!(!changed.contains(&StateField::NodesView));
}

#[test]
fn messenger_passes_typing_to_the_field() {
    let s = empty_state();
    let messages: Vec<u32> = Vec::new();
    let mut screen = MessengerScreen::new();
    let mut reply: Option<(u32, u32)> = None;
    let typed = vec!["h".to_string()];
    let step = screen.handle_input(&key(Key::Char('i')), &s, &messages, None, &mut reply, &typed, None);
    assert_eq!(step.handled, Handled::Yes);
    assert!(step.events.is_empty());
    assert!(matches!(step.text[..], [TextRequest::Forward]));
    let step = screen.handle_input(&key(Key::F(7)), &s, &messages, None, &mut reply, &typed, None);
    assert!(!screen.is_reaction_viewer_visible);
    assert!(step.text.is_empty());
    screen.handle_input(&key(Key::F(5)), &s, &messages, None, &mut reply, &typed, None);
    assert!(screen.is_emoji_selector_visible);
}
