//! The application state, the actions that change it, and the reducer that
//! applies them and reports which fields changed.
use vstd::prelude::*;
use std::collections::{HashMap, HashSet, VecDeque};
use std::hash::{DefaultHasher, Hash, Hasher};
use vstd::std_specs::iter::IteratorSpec;
use crate::chat::{Chat, LogRecord, Message};
use crate::device::{Device, DeviceSet};
use crate::device_config::{ConfigPart, DeviceConfig, DeviceModuleConfig, ModuleConfigPart};
use crate::formdata::{data_eq, FormData, FormValue};
use crate::forms::FormItemKey;
use crate::node::{Node, NodeUser};
use crate::nodes_view::{is_listed_in_order, keyed_by_own_key, nodes_view, passes_filter, words};
use crate::ordered::{OrderedMap, Ranked};
use crate::text::{lowercase, to_lowercase};
use crate::types::{
    Channel, ChannelRole, ConnectionState, DeviceDiscoveringState, NodesSortBy, SettingsFormState,
    Tab, Toast, UiConfig, FormId,
};

verus! {

broadcast use vstd::std_specs::hash::group_hash_axioms;

/// A field of the state, as named in the lists of changed fields.
#[derive(Debug, Clone, Copy, PartialEq, Eq, Structural)]
pub enum StateField {
    ActiveChat,
    ActiveDevice,
    ActiveTab,
    Channels,
    Chats,
    ConnectionAttempt,
    ConnectionState,
    ConfigLoaded,
    DeviceConfig,
    DeviceModuleConfig,
    DeviceCannedMessages,
    DeviceDiscoveringState,
    DevicesDiscovered,
    Devices,
    Logs,
    Messages,
    MyNodeKey,
    MyNodeUserHash,
    NeedClearFrame,
    NodeinfoPopup,
    Nodes,
    NodesSortBy,
    NodesFilter,
    NodesView,
    OnlineNodes,
    ReconnectionBackoff,
    Rx,
    RxT,
    SettingsFormData,
    SettingsFormIsChanged,
    SettingsFormOriginalData,
    SettingsFormState,
    SplashLogo,
    SplashLogoT,
    Toast,
    ToastQueue,
    ToastT,
    UiConfig,
}

/// After a change of one of these fields the node list is rebuilt.
pub open spec fn watched_by_nodes_view(f: StateField) -> bool {
    f == StateField::MyNodeKey || f == StateField::Nodes || f == StateField::NodesFilter || f
        == StateField::NodesSortBy
}

/// The part of the state that is saved between runs.
#[derive(Debug, Hash)]
pub struct AppConfig {
    pub active_tab: Tab,
    pub active_device: Option<Device>,
    pub devices: DeviceSet,
    pub nodes_sort_by: NodesSortBy,
    pub nodes_filter: String,
    pub ui_config: UiConfig,
    pub my_node_key: Option<u32>,
}

/// The application state. Times ending in `_t` are readings, in
/// milliseconds, of the application's monotonic clock; the backoff is in
/// milliseconds.
pub struct State {
    pub active_chat: Option<Chat>,
    pub active_device: Option<Device>,
    pub active_tab: Tab,
    pub channels: OrderedMap<u32, Channel>,
    pub chats: OrderedMap<Chat, Vec<u32>>,
    pub connection_attempt: u32,
    pub connection_state: ConnectionState,
    pub config_loaded: bool,
    pub device_config: DeviceConfig,
    pub device_module_config: DeviceModuleConfig,
    pub device_canned_messages: Option<String>,
    pub device_discovering_state: DeviceDiscoveringState,
    pub devices_discovered: DeviceSet,
    pub devices: DeviceSet,
    pub logs: Vec<LogRecord>,
    pub messages: HashMap<u32, Message>,
    pub my_node_key: Option<u32>,
    pub my_node_user_hash: u64,
    pub need_clear_frame: bool,
    pub nodeinfo_popup: Option<u32>,
    pub nodes: HashMap<u32, Node>,
    pub nodes_last_telemetry: HashSet<u32>,
    pub nodes_sort_by: NodesSortBy,
    pub nodes_filter: String,
    pub nodes_view: Vec<u32>,
    pub online_nodes: u16,
    pub reconnection_backoff: Option<u64>,
    pub rx: bool,
    pub rx_t: u64,
    pub settings_form_data: Option<FormData>,
    pub settings_form_is_changed: bool,
    pub settings_form_original_data: Option<FormData>,
    pub settings_form_state: SettingsFormState,
    pub splash_logo: bool,
    pub splash_logo_t: u64,
    pub toast: Option<Toast>,
    pub toast_queue: VecDeque<Toast>,
    pub toast_t: u64,
    pub ui_config: UiConfig,
}

/// Something that changes the state.
#[derive(Debug)]
pub enum StateAction {
    AppConfigApply(AppConfig),
    ActiveChatSet(Chat),
    ActiveChatUnset,
    ChannelSet(u32, Channel),
    ChatPurge(Chat),
    ConnectionFail(String),
    ConnectionStart,
    ConnectionStop,
    ConnectionSuccess,
    ReconnectionBackoffSet(u64),
    DbDataLoaded { nodes: Vec<Node> },
    DeviceActiveSet(Device),
    DevicesAdd(Device),
    DevicesRemove(Device),
    DevicesDiscoveredAdd(Device),
    DeviceDiscoveringStart,
    DeviceDiscoveringFail(String),
    DeviceDiscoveringDone,
    DeviceConfigSet(ConfigPart),
    DeviceModuleConfigSet(ModuleConfigPart),
    DeviceCannedMessagesSet(String),
    LogRecordAdd(LogRecord),
    DirectChatStart(u32),
    FrameCleared,
    MessageAdd(Message),
    MessageErrorSet { message_id: u32, error: Option<i32> },
    MyNodeKeySet(u32),
    NodeInit(Node),
    NodeInitUnknown(Node),
    NodeInfoPopupSetKey(u32),
    NodeInfoPopupUnsetKey,
    NodeUpdate(Node),
    NodeUpdateLastHeard { node_key: u32, hops: u32, snr_bits: u32, rssi: i32 },
    NodeDelete(u32),
    NodeOwnerSet(NodeUser),
    NodesSortBySet(NodesSortBy),
    NodesFilterSet(String),
    NodesOnlineSet(u16),
    RxTrigger,
    SplashLogo,
    TabSwitchToNext,
    TabSwitchToPrevious,
    Toast(Toast),
    SettingsFormLoadingStart { id: FormId },
    SettingsFormLoadingFail { id: FormId, error: String },
    SettingsFormLoadingDone { id: FormId, data: FormData },
    SettingsFormSavingStart { id: FormId },
    SettingsFormSavingFailed { id: FormId },
    SettingsFormClose,
    SettingsFormReset,
    SettingsFormValueSet { key: FormItemKey, value: FormValue },
    UiConfigSet { config: UiConfig },
}

/// std's `DefaultHasher` fed with the user as its derived `Hash` feeds it.
/// Nothing is stated of the hash value.
#[verifier::external_body]
fn user_hash(user: &NodeUser) -> u64 {
    let mut hasher = DefaultHasher::new();
    user.hash(&mut hasher);
    hasher.finish()
}

/// The node list of the state, as `nodes_view` builds it.
pub open spec fn is_node_list_of(s: State, now: i64, keys: Seq<u32>) -> bool {
    &&& keys.no_duplicates()
    &&& forall|k: u32|
        keys.contains(k) <==> s.nodes@.contains_key(k) && passes_filter(
            s.nodes@[k],
            words(s.nodes_filter@),
            now,
            s.nodes_last_telemetry@.contains(k),
        )
    &&& is_listed_in_order(s.nodes@, keys, s.nodes_sort_by, s.my_node_key)
}

/// `post` holds the entries of `pre` and, where it belongs, the chat `c`
/// with the message ids `ids`.
pub open spec fn chat_added(
    pre: OrderedMap<Chat, Vec<u32>>,
    post: OrderedMap<Chat, Vec<u32>>,
    c: Chat,
    ids: Seq<u32>,
) -> bool {
    exists|p: int, v: Vec<u32>|
        OrderedMap::<Chat, Vec<u32>>::place_of(pre.entries@, c, p) && v@ == ids && post.entries@
            == pre.entries@.insert(p, (c, v))
}

/// The loaded nodes merged into `m`: each goes in unless a node with its
/// key was heard more recently or as recently.
pub open spec fn merge_loaded(m: Map<u32, Node>, loaded: Seq<Node>) -> Map<u32, Node>
    decreases loaded.len(),
{
    if loaded.len() == 0 {
        m
    } else {
        let prev = merge_loaded(m, loaded.drop_last());
        let n = loaded.last();
        if !prev.contains_key(n.key) || heard_later(n.last_heard, prev[n.key].last_heard) {
            prev.insert(n.key, n)
        } else {
            prev
        }
    }
}

/// Whether the first time is later than the second; never heard is the
/// earliest.
pub open spec fn heard_later(a: Option<i64>, b: Option<i64>) -> bool {
    match (a, b) {
        (Some(x), Some(y)) => x > y,
        (Some(_), None) => true,
        _ => false,
    }
}

/// Whether two optional form data differ, form data compared as maps.
pub open spec fn form_differs(a: Option<FormData>, b: Option<FormData>) -> bool {
    match (a, b) {
        (Some(x), Some(y)) => !data_eq(x@, y@),
        (None, None) => false,
        _ => true,
    }
}


/// The receive indicator goes off this long after the last packet, in milliseconds.
pub const RX_TIMEOUT_MILLIS: u64 = 250;

/// A toast with another waiting behind it is shown at most this long, in milliseconds.
pub const TOAST_QUICK_TIMEOUT_MILLIS: u64 = 500;

/// The splash logo is shown this long, in milliseconds.
pub const SPLASH_LOGO_TIMEOUT_MILLIS: u64 = 1500;

/// Milliseconds between two ticks of the clock that drives `handle_tick`.
pub const TICK_INTERVAL_MILLIS: u64 = 33;

/// Milliseconds from the clock reading `t` to `now`; none if `t` is later.
pub open spec fn elapsed(now: u64, t: u64) -> int {
    if now >= t {
        now - t
    } else {
        0
    }
}

/// How long the toast of this kind is shown: its own timeout, at most the
/// quick timeout when another toast waits.
pub open spec fn toast_timeout(kind: crate::types::ToastKind, queue_empty: bool) -> int {
    if queue_empty || (kind.spec_timeout() as int) < TOAST_QUICK_TIMEOUT_MILLIS as int {
        kind.spec_timeout() as int
    } else {
        TOAST_QUICK_TIMEOUT_MILLIS as int
    }
}

/// The reducer's tick at the clock reading `now`: the receive indicator and
/// the splash logo go off after their timeouts, the toast shown goes after
/// its timeout (quickly when another waits), and then a waiting toast, if
/// any, is shown where none is left.
pub open spec fn ticked(pre: State, now: u64, post: State, changed: Seq<StateField>) -> bool {
    let rx_off = pre.rx && elapsed(now, pre.rx_t) > RX_TIMEOUT_MILLIS;
    let splash_off = pre.splash_logo && elapsed(now, pre.splash_logo_t) > SPLASH_LOGO_TIMEOUT_MILLIS;
    let toast_off = pre.toast matches Some(t) && elapsed(now, pre.toast_t) > toast_timeout(
        t.kind,
        pre.toast_queue@.len() == 0,
    );
    let queued = pre.toast_queue@.len() > 0 && (pre.toast is None || toast_off);
    &&& post == State {
        rx: if rx_off {
            false
        } else {
            pre.rx
        },
        splash_logo: if splash_off {
            false
        } else {
            pre.splash_logo
        },
        toast: if queued {
            Some(pre.toast_queue@[0])
        } else if toast_off {
            None
        } else {
            pre.toast
        },
        toast_queue: post.toast_queue,
        toast_t: if queued {
            now
        } else {
            pre.toast_t
        },
        ..pre
    }
    &&& post.toast_queue@ == if queued {
        pre.toast_queue@.drop_first()
    } else {
        pre.toast_queue@
    }
    &&& changed == (if rx_off {
        seq![StateField::Rx]
    } else {
        Seq::empty()
    }) + (if splash_off {
        seq![StateField::SplashLogo]
    } else {
        Seq::empty()
    }) + (if toast_off {
        seq![StateField::Toast]
    } else {
        Seq::empty()
    }) + (if queued {
        seq![StateField::Toast, StateField::ToastT]
    } else {
        Seq::empty()
    })
}

/// The messages of `ms` that `chat` holds, seen from `my_node_key`.
pub open spec fn purged_ids(ms: Map<u32, Message>, chat: Chat, my_node_key: u32) -> Set<u32> {
    ms.dom().filter(|id: u32| chat.spec_holds(ms[id], my_node_key))
}

/// The node's own key, or zero when it is not known.
pub open spec fn my_key_or_zero(s: State) -> u32 {
    match s.my_node_key {
        Some(k) => k,
        None => 0,
    }
}

/// The channel entries after `ch` is stored under `key`: replaced in place,
/// or added where the key belongs.
pub open spec fn channel_stored(
    pre: OrderedMap<u32, Channel>,
    post: OrderedMap<u32, Channel>,
    key: u32,
    ch: Channel,
) -> bool {
    &&& pre.contains(key) ==> exists|i: int|
        0 <= i < pre.entries.len() && pre.entries@[i].0 == key && post.entries@
            == pre.entries@.update(i, (key, ch))
    &&& !pre.contains(key) ==> exists|p: int|
        OrderedMap::<u32, Channel>::place_of(pre.entries@, key, p) && post.entries@
            == pre.entries@.insert(p, (key, ch))
}

/// The fields an action changes in `pre`, in the order they are reported,
/// before the node list is considered.
pub open spec fn changed_by(pre: State, action: StateAction) -> Seq<StateField> {
    match action {
        StateAction::SplashLogo => seq![StateField::SplashLogo, StateField::SplashLogoT],
        StateAction::AppConfigApply(_) => seq![
            StateField::ActiveTab,
            StateField::ActiveDevice,
            StateField::Devices,
            StateField::NodesSortBy,
            StateField::NodesFilter,
            StateField::UiConfig,
            StateField::MyNodeKey,
            StateField::ConfigLoaded,
        ],
        StateAction::TabSwitchToNext => seq![StateField::ActiveTab, StateField::NeedClearFrame],
        StateAction::TabSwitchToPrevious => seq![StateField::ActiveTab, StateField::NeedClearFrame],
        StateAction::DeviceActiveSet(_) => seq![StateField::ActiveDevice],
        StateAction::ConnectionStart => seq![
            StateField::ConnectionState,
            StateField::ConnectionAttempt,
            StateField::ReconnectionBackoff,
        ],
        StateAction::ConnectionFail(_) => seq![StateField::ConnectionState],
        StateAction::ConnectionStop => seq![
            StateField::ActiveDevice,
            StateField::Channels,
            StateField::ConnectionAttempt,
            StateField::ConnectionState,
            StateField::DeviceConfig,
            StateField::DeviceModuleConfig,
            StateField::NodesView,
            StateField::Nodes,
            StateField::OnlineNodes,
            StateField::ReconnectionBackoff,
            StateField::SettingsFormData,
            StateField::SettingsFormIsChanged,
            StateField::SettingsFormOriginalData,
            StateField::SettingsFormState,
        ],
        StateAction::ConnectionSuccess => seq![
            StateField::ConnectionState,
            StateField::ConnectionAttempt,
            StateField::ReconnectionBackoff,
        ],
        StateAction::DbDataLoaded { .. } => seq![StateField::Nodes],
        StateAction::ReconnectionBackoffSet(_) => seq![StateField::ReconnectionBackoff],
        StateAction::LogRecordAdd(_) => seq![StateField::Logs],
        StateAction::DevicesDiscoveredAdd(d) => if pre.devices_discovered.has(d) {
            seq![]
        } else {
            seq![StateField::DevicesDiscovered]
        },
        StateAction::DeviceDiscoveringStart => seq![
            StateField::DeviceDiscoveringState,
            StateField::DevicesDiscovered,
        ],
        StateAction::DeviceDiscoveringFail(_) => seq![StateField::DeviceDiscoveringState],
        StateAction::DeviceDiscoveringDone => seq![StateField::DeviceDiscoveringState],
        StateAction::DevicesAdd(d) => if pre.devices.has(d) {
            seq![]
        } else {
            seq![StateField::Devices]
        },
        StateAction::DevicesRemove(d) => if pre.devices.has(d) {
            seq![StateField::Devices]
        } else {
            seq![]
        },
        StateAction::DeviceConfigSet(_) => seq![StateField::DeviceConfig],
        StateAction::DeviceModuleConfigSet(_) => seq![StateField::DeviceModuleConfig],
        StateAction::DeviceCannedMessagesSet(_) => seq![StateField::DeviceCannedMessages],
        StateAction::NodeInit(_) => seq![StateField::Nodes],
        StateAction::NodeInitUnknown(n) => if pre.nodes@.contains_key(n.key) {
            seq![]
        } else {
            seq![StateField::Nodes]
        },
        StateAction::NodeInfoPopupSetKey(_) => seq![StateField::NodeinfoPopup],
        StateAction::NodeInfoPopupUnsetKey => seq![StateField::NodeinfoPopup],
        StateAction::NodeUpdate(n) => if pre.nodes@.contains_key(n.key) {
            seq![StateField::Nodes]
        } else {
            seq![]
        },
        StateAction::NodeUpdateLastHeard { node_key, .. } => if pre.nodes@.contains_key(node_key) {
            seq![StateField::Nodes]
        } else {
            seq![]
        },
        StateAction::NodeDelete(k) => if !pre.nodes@.contains_key(k) {
            seq![]
        } else if pre.nodeinfo_popup == Some(k) {
            seq![StateField::NodeinfoPopup, StateField::Nodes]
        } else {
            seq![StateField::Nodes]
        },
        StateAction::NodeOwnerSet(_) => if pre.nodes@.contains_key(my_key_or_zero(pre)) {
            seq![StateField::MyNodeUserHash, StateField::Nodes]
        } else {
            seq![]
        },
        StateAction::ChannelSet(key, ch) => if ch.role != ChannelRole::Disabled && !pre.chats.contains(
            Chat::Channel(key),
        ) {
            seq![StateField::Chats, StateField::Channels]
        } else {
            seq![StateField::Channels]
        },
        StateAction::ActiveChatSet(_) => seq![StateField::ActiveChat],
        StateAction::ActiveChatUnset => seq![StateField::ActiveChat],
        StateAction::ChatPurge(_) => seq![],
        StateAction::RxTrigger => seq![StateField::Rx, StateField::RxT],
        StateAction::NodesSortBySet(_) => seq![StateField::NodesSortBy],
        StateAction::NodesFilterSet(_) => seq![StateField::NodesFilter],
        StateAction::NodesOnlineSet(c) => if pre.online_nodes == c {
            seq![]
        } else {
            seq![StateField::OnlineNodes]
        },
        StateAction::MyNodeKeySet(_) => seq![StateField::MyNodeKey],
        StateAction::DirectChatStart(k) => if !pre.chats.contains(Chat::Direct(k)) {
            seq![StateField::Chats, StateField::ActiveChat, StateField::ActiveTab]
        } else {
            seq![StateField::ActiveChat, StateField::ActiveTab]
        },
        StateAction::MessageAdd(m) => if m.is_emoji {
            seq![StateField::Messages]
        } else {
            seq![StateField::Chats, StateField::Messages]
        },
        StateAction::MessageErrorSet { message_id, .. } => if pre.messages@.contains_key(message_id) {
            seq![StateField::Messages]
        } else {
            seq![]
        },
        StateAction::FrameCleared => seq![StateField::NeedClearFrame],
        StateAction::Toast(_) => seq![StateField::ToastQueue],
        StateAction::SettingsFormLoadingStart { .. } => seq![
            StateField::SettingsFormOriginalData,
            StateField::SettingsFormData,
            StateField::SettingsFormIsChanged,
            StateField::SettingsFormState,
        ],
        StateAction::SettingsFormLoadingFail { .. } => seq![
            StateField::SettingsFormOriginalData,
            StateField::SettingsFormData,
            StateField::SettingsFormIsChanged,
            StateField::SettingsFormState,
        ],
        StateAction::SettingsFormLoadingDone { .. } => seq![
            StateField::SettingsFormOriginalData,
            StateField::SettingsFormData,
            StateField::SettingsFormIsChanged,
            StateField::SettingsFormState,
        ],
        StateAction::SettingsFormSavingStart { .. } => seq![StateField::SettingsFormState],
        StateAction::SettingsFormSavingFailed { .. } => seq![StateField::SettingsFormState],
        StateAction::SettingsFormClose => seq![
            StateField::SettingsFormOriginalData,
            StateField::SettingsFormData,
            StateField::SettingsFormIsChanged,
            StateField::SettingsFormState,
        ],
        StateAction::SettingsFormReset => seq![
            StateField::SettingsFormData,
            StateField::SettingsFormIsChanged,
        ],
        StateAction::SettingsFormValueSet { .. } => if pre.settings_form_data is Some {
            seq![StateField::SettingsFormData, StateField::SettingsFormIsChanged]
        } else {
            seq![]
        },
        StateAction::UiConfigSet { .. } => seq![StateField::UiConfig],
    }
}

/// The state `post` after `action` in `pre`, the node list left aside.
pub open spec fn next_state(pre: State, action: StateAction, now_ms: u64, now_s: i64, post: State) -> bool {
    step(pre, action, now_ms, now_s, State { nodes_view: pre.nodes_view, ..post })
}

/// The state `post` after `action` in `pre`, with the node list of `pre`.
pub open spec fn step(pre: State, action: StateAction, now_ms: u64, now_s: i64, post: State) -> bool {
    match action {
        StateAction::SplashLogo => post == State {
            splash_logo: true,
            splash_logo_t: now_ms,
            nodes_view: post.nodes_view,
            ..pre
        },
        StateAction::AppConfigApply(cfg) => post == State {
            active_tab: cfg.active_tab,
            active_device: cfg.active_device,
            devices: cfg.devices,
            nodes_sort_by: cfg.nodes_sort_by,
            nodes_filter: cfg.nodes_filter,
            ui_config: cfg.ui_config,
            my_node_key: cfg.my_node_key,
            config_loaded: true,
            nodes_view: post.nodes_view,
            ..pre
        },
        StateAction::TabSwitchToNext => {
            &&& post == State {
                active_tab: post.active_tab,
                need_clear_frame: true,
                nodes_view: post.nodes_view,
                ..pre
            }
            &&& post.active_tab.spec_index() == (pre.active_tab.spec_index() + 1) % 5
        },
        StateAction::TabSwitchToPrevious => {
            &&& post == State {
                active_tab: post.active_tab,
                need_clear_frame: true,
                nodes_view: post.nodes_view,
                ..pre
            }
            &&& post.active_tab.spec_index() == (pre.active_tab.spec_index() + 4) % 5
        },
        StateAction::DeviceActiveSet(d) => post == State {
            active_device: Some(d),
            nodes_view: post.nodes_view,
            ..pre
        },
        StateAction::ConnectionStart => post == State {
            connection_state: ConnectionState::Connecting,
            connection_attempt: (pre.connection_attempt + 1) as u32,
            reconnection_backoff: None,
            nodes_view: post.nodes_view,
            ..pre
        },
        StateAction::ConnectionFail(error) => post == State {
            connection_state: ConnectionState::ProblemDetected { since_millis: now_ms, error },
            nodes_view: post.nodes_view,
            ..pre
        },
        StateAction::ConnectionStop => {
            &&& post == State {
                active_device: None,
                channels: post.channels,
                connection_attempt: 0,
                connection_state: ConnectionState::NotConnected,
                device_config: DeviceConfig::spec_empty(),
                device_module_config: DeviceModuleConfig::spec_empty(),
                nodes: post.nodes,
                online_nodes: 0,
                reconnection_backoff: None,
                settings_form_data: None,
                settings_form_is_changed: false,
                settings_form_original_data: None,
                settings_form_state: SettingsFormState::Inactive,
                nodes_view: post.nodes_view,
                ..pre
            }
            &&& post.channels.entries@ == Seq::<(u32, Channel)>::empty()
            &&& post.nodes@ == Map::<u32, Node>::empty()
        },
        StateAction::ConnectionSuccess => post == State {
            connection_state: ConnectionState::Connected,
            connection_attempt: 0,
            reconnection_backoff: None,
            nodes_view: post.nodes_view,
            ..pre
        },
        StateAction::DbDataLoaded { nodes } => {
            &&& post == State { nodes: post.nodes, nodes_view: post.nodes_view, ..pre }
            &&& post.nodes@ == merge_loaded(pre.nodes@, nodes@)
        },
        StateAction::ReconnectionBackoffSet(ms) => post == State {
            reconnection_backoff: Some(ms),
            nodes_view: post.nodes_view,
            ..pre
        },
        StateAction::LogRecordAdd(r) => {
            &&& post == State { logs: post.logs, nodes_view: post.nodes_view, ..pre }
            &&& post.logs@ == pre.logs@.push(r)
        },
        StateAction::DevicesDiscoveredAdd(d) => {
            &&& post == State {
                devices_discovered: post.devices_discovered,
                nodes_view: post.nodes_view,
                ..pre
            }
            &&& pre.devices_discovered.has(d) ==> post.devices_discovered.items@
                == pre.devices_discovered.items@
            &&& !pre.devices_discovered.has(d) ==> exists|p: int|
                0 <= p <= pre.devices_discovered.items.len()
                    && post.devices_discovered.items@ == pre.devices_discovered.items@.insert(p, d)
        },
        StateAction::DeviceDiscoveringStart => {
            &&& post == State {
                device_discovering_state: DeviceDiscoveringState::Discovering,
                devices_discovered: post.devices_discovered,
                nodes_view: post.nodes_view,
                ..pre
            }
            &&& post.devices_discovered.items@ == Seq::<Device>::empty()
        },
        StateAction::DeviceDiscoveringFail(error) => post == State {
            device_discovering_state: DeviceDiscoveringState::Failed(error),
            nodes_view: post.nodes_view,
            ..pre
        },
        StateAction::DeviceDiscoveringDone => post == State {
            device_discovering_state: DeviceDiscoveringState::Done,
            nodes_view: post.nodes_view,
            ..pre
        },
        StateAction::DevicesAdd(d) => {
            &&& post == State { devices: post.devices, nodes_view: post.nodes_view, ..pre }
            &&& pre.devices.has(d) ==> post.devices.items@ == pre.devices.items@
            &&& !pre.devices.has(d) ==> exists|p: int|
                0 <= p <= pre.devices.items.len() && post.devices.items@ == pre.devices.items@.insert(
                    p,
                    d,
                )
        },
        StateAction::DevicesRemove(d) => {
            &&& post == State { devices: post.devices, nodes_view: post.nodes_view, ..pre }
            &&& !pre.devices.has(d) ==> post.devices.items@ == pre.devices.items@
            &&& pre.devices.has(d) ==> exists|i: int|
                0 <= i < pre.devices.items.len() && pre.devices.items@[i].same(d)
                    && post.devices.items@ == pre.devices.items@.remove(i)
        },
        StateAction::DeviceConfigSet(part) => post == State {
            device_config: pre.device_config.with(part),
            nodes_view: post.nodes_view,
            ..pre
        },
        StateAction::DeviceModuleConfigSet(part) => post == State {
            device_module_config: pre.device_module_config.with(part),
            nodes_view: post.nodes_view,
            ..pre
        },
        StateAction::DeviceCannedMessagesSet(m) => post == State {
            device_canned_messages: Some(m),
            nodes_view: post.nodes_view,
            ..pre
        },
        StateAction::NodeInit(n) => {
            &&& post == State { nodes: post.nodes, nodes_view: post.nodes_view, ..pre }
            &&& post.nodes@ == pre.nodes@.insert(n.key, n)
        },
        StateAction::NodeInitUnknown(n) => {
            &&& post == State { nodes: post.nodes, nodes_view: post.nodes_view, ..pre }
            &&& post.nodes@ == if pre.nodes@.contains_key(n.key) {
                pre.nodes@
            } else {
                pre.nodes@.insert(n.key, n)
            }
        },
        StateAction::NodeInfoPopupSetKey(k) => post == State {
            nodeinfo_popup: Some(k),
            nodes_view: post.nodes_view,
            ..pre
        },
        StateAction::NodeInfoPopupUnsetKey => post == State {
            nodeinfo_popup: None,
            nodes_view: post.nodes_view,
            ..pre
        },
        StateAction::NodeUpdate(n) => {
            &&& post == State { nodes: post.nodes, nodes_view: post.nodes_view, ..pre }
            &&& !pre.nodes@.contains_key(n.key) ==> post.nodes@ == pre.nodes@
            &&& pre.nodes@.contains_key(n.key) ==> {
                let u = post.nodes@[n.key];
                &&& post.nodes@ == pre.nodes@.insert(n.key, u)
                &&& u == Node {
                    user: n.user,
                    hops: n.hops,
                    last_heard: n.last_heard,
                    snr_bits: n.snr_bits,
                    rssi: n.rssi,
                    fulltext: u.fulltext,
                    ..pre.nodes@[n.key]
                }
                &&& u.has_fulltext()
            }
        },
        StateAction::NodeUpdateLastHeard { node_key, hops, snr_bits, rssi } => {
            &&& post == State { nodes: post.nodes, nodes_view: post.nodes_view, ..pre }
            &&& !pre.nodes@.contains_key(node_key) ==> post.nodes@ == pre.nodes@
            &&& pre.nodes@.contains_key(node_key) ==> {
                let e = pre.nodes@[node_key];
                let u = post.nodes@[node_key];
                &&& post.nodes@ == pre.nodes@.insert(node_key, u)
                &&& u == Node {
                    last_heard: Some(now_s),
                    hops: Some(hops),
                    snr_bits: if hops == 0 {
                        snr_bits
                    } else {
                        e.snr_bits
                    },
                    rssi: if hops == 0 {
                        Some(rssi)
                    } else {
                        e.rssi
                    },
                    fulltext: u.fulltext,
                    ..e
                }
                &&& u.has_fulltext()
            }
        },
        StateAction::NodeDelete(k) => if pre.nodes@.contains_key(k) {
            &&& post == State {
                nodes: post.nodes,
                nodeinfo_popup: if pre.nodeinfo_popup == Some(k) {
                    None
                } else {
                    pre.nodeinfo_popup
                },
                nodes_view: post.nodes_view,
                ..pre
            }
            &&& post.nodes@ == pre.nodes@.remove(k)
        } else {
            &&& post == State { nodes: post.nodes, nodes_view: post.nodes_view, ..pre }
            &&& post.nodes@ == pre.nodes@
        },
        StateAction::NodeOwnerSet(user) => {
            let k = my_key_or_zero(pre);
            &&& post == State {
                nodes: post.nodes,
                my_node_user_hash: post.my_node_user_hash,
                nodes_view: post.nodes_view,
                ..pre
            }
            &&& !pre.nodes@.contains_key(k) ==> post.nodes@ == pre.nodes@ && post.my_node_user_hash
                == pre.my_node_user_hash
            &&& pre.nodes@.contains_key(k) ==> post.nodes@ == pre.nodes@.insert(
                k,
                Node { user: Some(user), ..pre.nodes@[k] },
            )
        },
        StateAction::ChannelSet(key, ch) => {
            let chat = Chat::Channel(key);
            let add = ch.role != ChannelRole::Disabled && !pre.chats.contains(chat);
            &&& post == State {
                chats: post.chats,
                channels: post.channels,
                nodes_view: post.nodes_view,
                ..pre
            }
            &&& add ==> chat_added(pre.chats, post.chats, chat, Seq::empty())
            &&& !add ==> post.chats.entries@ == pre.chats.entries@
            &&& channel_stored(pre.channels, post.channels, key, ch)
        },
        StateAction::ActiveChatSet(c) => post == State {
            active_chat: Some(c),
            nodes_view: post.nodes_view,
            ..pre
        },
        StateAction::ActiveChatUnset => post == State {
            active_chat: None,
            nodes_view: post.nodes_view,
            ..pre
        },
        StateAction::ChatPurge(chat) => {
            &&& post == State {
                messages: post.messages,
                chats: post.chats,
                nodes_view: post.nodes_view,
                ..pre
            }
            &&& post.messages@ == pre.messages@.remove_keys(
                purged_ids(pre.messages@, chat, my_key_or_zero(pre)),
            )
            &&& !pre.chats.contains(chat) ==> post.chats.entries@ == pre.chats.entries@
            &&& pre.chats.contains(chat) ==> exists|i: int|
                #![trigger pre.chats.entries@[i]]
                0 <= i < pre.chats.entries.len() && pre.chats.entries@[i].0 == chat && match chat {
                    Chat::Channel(_) => post.chats.entries@.len() == pre.chats.entries@.len()
                        && post.chats.entries@[i].0 == chat && post.chats.entries@[i].1@
                        == Seq::<u32>::empty() && forall|j: int|
                        0 <= j < pre.chats.entries.len() && j != i ==> post.chats.entries@[j]
                            == pre.chats.entries@[j],
                    Chat::Direct(_) => post.chats.entries@ == pre.chats.entries@.remove(i),
                }
        },
        StateAction::RxTrigger => post == State {
            rx_t: now_ms,
            rx: true,
            nodes_view: post.nodes_view,
            ..pre
        },
        StateAction::NodesSortBySet(s) => post == State {
            nodes_sort_by: s,
            nodes_view: post.nodes_view,
            ..pre
        },
        StateAction::NodesFilterSet(f) => {
            &&& post == State { nodes_filter: post.nodes_filter, nodes_view: post.nodes_view, ..pre }
            &&& post.nodes_filter@ == lowercase(f@)
        },
        StateAction::NodesOnlineSet(c) => post == State {
            online_nodes: c,
            nodes_view: post.nodes_view,
            ..pre
        },
        StateAction::MyNodeKeySet(k) => post == State {
            my_node_key: Some(k),
            nodes_view: post.nodes_view,
            ..pre
        },
        StateAction::DirectChatStart(k) => {
            let chat = Chat::Direct(k);
            &&& post == State {
                chats: post.chats,
                active_chat: Some(chat),
                active_tab: Tab::Chat,
                nodes_view: post.nodes_view,
                ..pre
            }
            &&& !pre.chats.contains(chat) ==> chat_added(pre.chats, post.chats, chat, Seq::empty())
            &&& pre.chats.contains(chat) ==> post.chats.entries@ == pre.chats.entries@
        },
        StateAction::MessageAdd(m) => if m.is_emoji {
            &&& post == State { messages: post.messages, nodes_view: post.nodes_view, ..pre }
            &&& !pre.messages@.contains_key(m.reply_message_id) ==> post.messages@
                == pre.messages@.insert(m.id, m)
            &&& pre.messages@.contains_key(m.reply_message_id) ==> exists|r: Message|
                r == Message { reactions: r.reactions, ..pre.messages@[m.reply_message_id] }
                    && r.reactions@ == pre.messages@[m.reply_message_id].reactions@.push(m.id)
                    && post.messages@ == pre.messages@.insert(m.reply_message_id, r).insert(m.id, m)
        } else {
            let chat = Chat::spec_of_message(m, my_key_or_zero(pre));
            &&& post == State {
                messages: post.messages,
                chats: post.chats,
                nodes_view: post.nodes_view,
                ..pre
            }
            &&& post.messages@ == pre.messages@.insert(m.id, m)
            &&& !pre.chats.contains(chat) ==> chat_added(pre.chats, post.chats, chat, seq![m.id])
            &&& pre.chats.contains(chat) ==> exists|i: int, v: Vec<u32>|
                0 <= i < pre.chats.entries.len() && pre.chats.entries@[i].0 == chat && v@
                    == pre.chats.entries@[i].1@.push(m.id) && post.chats.entries@
                    == pre.chats.entries@.update(i, (chat, v))
        },
        StateAction::MessageErrorSet { message_id, error } => {
            &&& post == State { messages: post.messages, nodes_view: post.nodes_view, ..pre }
            &&& post.messages@ == if pre.messages@.contains_key(message_id) {
                pre.messages@.insert(
                    message_id,
                    Message { routing_error: error, ..pre.messages@[message_id] },
                )
            } else {
                pre.messages@
            }
        },
        StateAction::FrameCleared => post == State {
            need_clear_frame: false,
            nodes_view: post.nodes_view,
            ..pre
        },
        StateAction::Toast(t) => {
            &&& post == State { toast_queue: post.toast_queue, nodes_view: post.nodes_view, ..pre }
            &&& post.toast_queue@ == pre.toast_queue@.push(t)
        },
        StateAction::SettingsFormLoadingStart { id } => post == State {
            settings_form_original_data: None,
            settings_form_data: None,
            settings_form_is_changed: false,
            settings_form_state: SettingsFormState::Loading { id },
            nodes_view: post.nodes_view,
            ..pre
        },
        StateAction::SettingsFormLoadingFail { id, error } => post == State {
            settings_form_original_data: None,
            settings_form_data: None,
            settings_form_is_changed: false,
            settings_form_state: SettingsFormState::LoadingFailed { id, error },
            nodes_view: post.nodes_view,
            ..pre
        },
        StateAction::SettingsFormLoadingDone { id, data } => {
            &&& post == State {
                settings_form_original_data: post.settings_form_original_data,
                settings_form_data: Some(data),
                settings_form_is_changed: false,
                settings_form_state: SettingsFormState::Loaded { id },
                nodes_view: post.nodes_view,
                ..pre
            }
            &&& post.settings_form_original_data matches Some(o) && o@ == data@
        },
        StateAction::SettingsFormSavingStart { id } => post == State {
            settings_form_state: SettingsFormState::Saving { id },
            nodes_view: post.nodes_view,
            ..pre
        },
        StateAction::SettingsFormSavingFailed { id } => post == State {
            settings_form_state: SettingsFormState::Loaded { id },
            nodes_view: post.nodes_view,
            ..pre
        },
        StateAction::SettingsFormClose => post == State {
            settings_form_original_data: None,
            settings_form_data: None,
            settings_form_is_changed: false,
            settings_form_state: SettingsFormState::Inactive,
            nodes_view: post.nodes_view,
            ..pre
        },
        StateAction::SettingsFormReset => {
            &&& post == State {
                settings_form_data: post.settings_form_data,
                settings_form_is_changed: false,
                nodes_view: post.nodes_view,
                ..pre
            }
            &&& match pre.settings_form_original_data {
                Some(o) => post.settings_form_data matches Some(d) && d@ == o@,
                None => post.settings_form_data is None,
            }
        },
        StateAction::SettingsFormValueSet { key, value } => match pre.settings_form_data {
            None => post == State { nodes_view: post.nodes_view, ..pre },
            Some(d) => {
                &&& post == State {
                    settings_form_data: post.settings_form_data,
                    settings_form_is_changed: post.settings_form_is_changed,
                    nodes_view: post.nodes_view,
                    ..pre
                }
                &&& post.settings_form_data matches Some(e) && e@ == key.spec_write(d@, value@)
                &&& post.settings_form_is_changed == form_differs(
                    post.settings_form_data,
                    pre.settings_form_original_data,
                )
            },
        },
        StateAction::UiConfigSet { config } => post == State {
            ui_config: config,
            nodes_view: post.nodes_view,
            ..pre
        },
    }
}

/// Whether one of the fields is watched by the node list.
pub open spec fn touches_nodes_view(fields: Seq<StateField>) -> bool {
    exists|i: int| 0 <= i < fields.len() && watched_by_nodes_view(#[trigger] fields[i])
}

/// The reducer's step: `post` is `pre` after `action`, the node list
/// rebuilt when a field it depends on changed, and `changed` lists the
/// changed fields.
pub open spec fn reduced(
    pre: State,
    action: StateAction,
    now_ms: u64,
    now_s: i64,
    post: State,
    changed: Seq<StateField>,
) -> bool {
    let base = changed_by(pre, action);
    &&& next_state(pre, action, now_ms, now_s, post)
    &&& touches_nodes_view(base) ==> changed == base.push(StateField::NodesView)
        && is_node_list_of(post, now_s, post.nodes_view@)
    &&& !touches_nodes_view(base) ==> changed == base && post.nodes_view == pre.nodes_view
}

/// The ids of the messages of `messages` that `chat` holds.
fn collect_purged(messages: &HashMap<u32, Message>, chat: Chat, my: u32) -> (r: Vec<u32>)
    ensures
        forall|x: u32| r@.contains(x) <==> purged_ids(messages@, chat, my).contains(x),
{
    let ghost pairs = vstd::std_specs::hash::spec_hash_map_iter(messages).remaining();
    let mut r: Vec<u32> = Vec::new();
    for kv in it: messages.iter()
        invariant
            it.seq() == pairs,
            pairs == vstd::std_specs::hash::spec_hash_map_iter(messages).remaining(),
            forall|x: u32|
                r@.contains(x) <==> exists|j: int|
                    0 <= j < it.index() && *(#[trigger] pairs[j]).0 == x && chat.spec_holds(
                        messages@[x],
                        my,
                    ),
    {
        let ghost idx = it.index();
        assert(kv == pairs[idx]);
        let (id, m) = kv;
        proof {
            assert(messages@.contains_key(*pairs[idx].0));
            assert(messages@[*pairs[idx].0] == *pairs[idx].1);
        }
        let ghost before = r@;
        assert(forall|x: u32| before.contains(x) <==> exists|j: int|
            0 <= j < idx && *(#[trigger] pairs[j]).0 == x && chat.spec_holds(messages@[x], my));
        let hold = chat.holds(m, my);
        if hold {
            r.push(*id);
        }
        proof {
            assert forall|x: u32|
                r@.contains(x) <==> exists|j: int|
                    0 <= j < idx + 1 && *(#[trigger] pairs[j]).0 == x && chat.spec_holds(
                        messages@[x],
                        my,
                    ) by {
                if r@.contains(x) && !before.contains(x) {
                    assert(hold);
                    assert(x == *id);
                    assert(*pairs[idx].0 == x);
                }
                if before.contains(x) {
                    assert(r@.contains(x)) by {
                        let q = choose|q: int| 0 <= q < before.len() && before[q] == x;
                        assert(r@[q] == x);
                    }
                }
                if exists|j: int|
                    0 <= j < idx + 1 && *(#[trigger] pairs[j]).0 == x && chat.spec_holds(
                        messages@[x],
                        my,
                    ) {
                    let j = choose|j: int|
                        0 <= j < idx + 1 && *(#[trigger] pairs[j]).0 == x && chat.spec_holds(
                            messages@[x],
                            my,
                        );
                    if j == idx {
                        assert(r@[r@.len() - 1] == x);
                    }
                }
            }
        }
    }
    proof {
        assert forall|x: u32| r@.contains(x) <==> purged_ids(messages@, chat, my).contains(x) by {
            if messages@.contains_key(x) {
                assert(pairs.contains((&x, &messages@[x])));
                let j = choose|j: int| 0 <= j < pairs.len() && pairs[j] == (&x, &messages@[x]);
                assert(*pairs[j].0 == x);
            }
            if r@.contains(x) {
                let j = choose|j: int|
                    0 <= j < pairs.len() && *(#[trigger] pairs[j]).0 == x && chat.spec_holds(
                        messages@[x],
                        my,
                    );
                assert(messages@.contains_key(*pairs[j].0));
            }
        }
    }
    r
}

/// The step does not depend on the node list: a state that differs from a
/// step's result only in its node list is a result of that step too.
pub proof fn lemma_next_state_ignores_view(
    pre: State,
    action: StateAction,
    now_ms: u64,
    now_s: i64,
    post: State,
    post2: State,
)
    requires
        next_state(pre, action, now_ms, now_s, post),
        post2 == (State { nodes_view: post2.nodes_view, ..post }),
    ensures
        next_state(pre, action, now_ms, now_s, post2),
{
}

impl State {
    /// What the reducer keeps true of every state.
    pub open spec fn wf(self) -> bool {
        &&& self.channels.wf()
        &&& self.chats.wf()
        &&& self.devices.wf()
        &&& self.devices_discovered.wf()
        &&& keyed_by_own_key(self.nodes@)
        &&& (self.settings_form_data matches Some(d) ==> d.wf())
        &&& (self.settings_form_original_data matches Some(d) ==> d.wf())
    }

    /// Whether the reducer can take `action` in this state: the actions
    /// that need the node's own key need it set, a connection attempt is
    /// counted only below the counter's limit, and a form value is set
    /// through a key that fits the form.
    pub open spec fn accepts(self, action: StateAction) -> bool {
        match action {
            StateAction::ConnectionStart => self.connection_attempt < u32::MAX,
            StateAction::ChatPurge(Chat::Direct(_)) => self.my_node_key is Some,
            StateAction::MessageAdd(m) => !m.is_emoji ==> self.my_node_key is Some,
            StateAction::NodeOwnerSet(_) => self.my_node_key is Some,
            StateAction::AppConfigApply(cfg) => cfg.devices.wf(),
            StateAction::SettingsFormLoadingDone { data, .. } => data.wf(),
            StateAction::SettingsFormValueSet { key, .. } => self.settings_form_data matches Some(d)
                ==> key.fits(d@),
            _ => true,
        }
    }

    pub fn is_my_node(&self, node_key: u32) -> (r: bool)
        ensures
            r == (self.my_node_key == Some(node_key)),
    {
        match self.my_node_key {
            Some(k) => k == node_key,
            None => false,
        }
    }

    pub fn get_my_node(&self) -> (r: Option<&Node>)
        ensures
            r matches Some(n) ==> self.my_node_key matches Some(k) && self.nodes@.contains_key(k)
                && self.nodes@[k] == *n,
            r is None ==> (self.my_node_key matches Some(k) ==> !self.nodes@.contains_key(k)),
    {
        match self.my_node_key {
            Some(k) => self.nodes.get(&k),
            None => None,
        }
    }

    /// Advances the state to the clock reading `now` and reports the fields
    /// that changed.
    pub fn handle_tick(&mut self, now: u64) -> (changed: Vec<StateField>)
        requires
            old(self).wf(),
        ensures
            final(self).wf(),
            ticked(*old(self), now, *final(self), changed@),
    {
        let ghost pre = *self;
        let mut changed = self.tick_indicators(now);
        let ghost mid = *self;
        let more = self.tick_toast(now);
        let ghost first = changed@;
        let mut i: usize = 0;
        while i < more.len()
            invariant
                i <= more.len(),
                changed@ == first + more@.take(i as int),
            decreases more.len() - i,
        {
            changed.push(more[i]);
            proof {
                assert(more@.take(i + 1) =~= more@.take(i as int).push(more@[i as int]));
            }
            i = i + 1;
        }
        proof {
            assert(more@.take(more.len() as int) =~= more@);
            let rx_off = pre.rx && elapsed(now, pre.rx_t) > RX_TIMEOUT_MILLIS;
            let splash_off = pre.splash_logo && elapsed(now, pre.splash_logo_t)
                > SPLASH_LOGO_TIMEOUT_MILLIS;
            let toast_off = pre.toast matches Some(t) && elapsed(now, pre.toast_t) > toast_timeout(
                t.kind,
                pre.toast_queue@.len() == 0,
            );
            let queued = pre.toast_queue@.len() > 0 && (pre.toast is None || toast_off);
            let p1: Seq<StateField> = if rx_off {
                seq![StateField::Rx]
            } else {
                Seq::empty()
            };
            let p2: Seq<StateField> = if splash_off {
                seq![StateField::SplashLogo]
            } else {
                Seq::empty()
            };
            let p3: Seq<StateField> = if toast_off {
                seq![StateField::Toast]
            } else {
                Seq::empty()
            };
            let p4: Seq<StateField> = if queued {
                seq![StateField::Toast, StateField::ToastT]
            } else {
                Seq::empty()
            };
            assert(mid.toast == pre.toast && mid.toast_queue == pre.toast_queue && mid.toast_t == pre.toast_t);
            assert(first == p1 + p2);
            assert(more@ == p3 + p4);
            assert(changed@ =~= p1 + p2 + p3 + p4);
        }
        changed
    }

    fn tick_indicators(&mut self, now: u64) -> (changed: Vec<StateField>)
        requires
            old(self).wf(),
        ensures
            final(self).wf(),
            ({
                let pre = *old(self);
                let rx_off = pre.rx && elapsed(now, pre.rx_t) > RX_TIMEOUT_MILLIS;
                let splash_off = pre.splash_logo && elapsed(now, pre.splash_logo_t)
                    > SPLASH_LOGO_TIMEOUT_MILLIS;
                &&& *final(self) == (State {
                    rx: if rx_off {
                        false
                    } else {
                        pre.rx
                    },
                    splash_logo: if splash_off {
                        false
                    } else {
                        pre.splash_logo
                    },
                    ..pre
                })
                &&& changed@ == (if rx_off {
                    seq![StateField::Rx]
                } else {
                    Seq::empty()
                }) + (if splash_off {
                    seq![StateField::SplashLogo]
                } else {
                    Seq::empty()
                })
            }),
    {
        let mut changed: Vec<StateField> = Vec::new();
        let rx_off = self.rx && now.saturating_sub(self.rx_t) > RX_TIMEOUT_MILLIS;
        if rx_off {
            self.rx = false;
            changed.push(StateField::Rx);
        }
        let splash_off = self.splash_logo && now.saturating_sub(self.splash_logo_t)
            > SPLASH_LOGO_TIMEOUT_MILLIS;
        if splash_off {
            self.splash_logo = false;
            changed.push(StateField::SplashLogo);
        }
        proof {
            if rx_off && splash_off {
                assert(changed@ =~= seq![StateField::Rx] + seq![StateField::SplashLogo]);
            } else if rx_off {
                assert(changed@ =~= seq![StateField::Rx] + Seq::<StateField>::empty());
            } else if splash_off {
                assert(changed@ =~= Seq::<StateField>::empty() + seq![StateField::SplashLogo]);
            } else {
                assert(changed@ =~= Seq::<StateField>::empty() + Seq::<StateField>::empty());
            }
        }
        changed
    }

    fn tick_toast(&mut self, now: u64) -> (changed: Vec<StateField>)
        requires
            old(self).wf(),
        ensures
            final(self).wf(),
            ({
                let pre = *old(self);
                let toast_off = pre.toast matches Some(t) && elapsed(now, pre.toast_t) > toast_timeout(
                    t.kind,
                    pre.toast_queue@.len() == 0,
                );
                let queued = pre.toast_queue@.len() > 0 && (pre.toast is None || toast_off);
                &&& *final(self) == (State {
                    toast: if queued {
                        Some(pre.toast_queue@[0])
                    } else if toast_off {
                        None
                    } else {
                        pre.toast
                    },
                    toast_queue: final(self).toast_queue,
                    toast_t: if queued {
                        now
                    } else {
                        pre.toast_t
                    },
                    ..pre
                })
                &&& final(self).toast_queue@ == if queued {
                    pre.toast_queue@.drop_first()
                } else {
                    pre.toast_queue@
                }
                &&& changed@ == (if toast_off {
                    seq![StateField::Toast]
                } else {
                    Seq::empty()
                }) + (if queued {
                    seq![StateField::Toast, StateField::ToastT]
                } else {
                    Seq::empty()
                })
            }),
    {
        let mut changed: Vec<StateField> = Vec::new();
        let toast_off = match &self.toast {
            Some(t) => {
                let own = t.kind.timeout();
                let timeout: u128 = if self.toast_queue.len() == 0 || own
                    < TOAST_QUICK_TIMEOUT_MILLIS as u128 {
                    own
                } else {
                    TOAST_QUICK_TIMEOUT_MILLIS as u128
                };
                (now.saturating_sub(self.toast_t) as u128) > timeout
            },
            None => false,
        };
        let free = self.toast.is_none() || toast_off;
        if toast_off {
            self.toast = None;
            changed.push(StateField::Toast);
        }
        let queued = self.toast_queue.len() > 0 && free;
        if queued {
            self.toast = self.toast_queue.pop_front();
            self.toast_t = now;
            changed.push(StateField::Toast);
            changed.push(StateField::ToastT);
        }
        proof {
            if queued {
                assert(self.toast_queue@ =~= old(self).toast_queue@.drop_first());
            }
            let p3: Seq<StateField> = if toast_off {
                seq![StateField::Toast]
            } else {
                Seq::empty()
            };
            let p4: Seq<StateField> = if queued {
                seq![StateField::Toast, StateField::ToastT]
            } else {
                Seq::empty()
            };
            assert(changed@ =~= p3 + p4);
        }
        changed
    }

    /// Whether one of the fields is watched by the node list.
    fn touches(fields: &Vec<StateField>) -> (r: bool)
        ensures
            r == touches_nodes_view(fields@),
    {
        let mut i: usize = 0;
        while i < fields.len()
            invariant
                i <= fields.len(),
                forall|j: int| 0 <= j < i ==> !watched_by_nodes_view(#[trigger] fields@[j]),
            decreases fields.len() - i,
        {
            let f = fields[i];
            if f == StateField::MyNodeKey || f == StateField::Nodes || f == StateField::NodesFilter
                || f == StateField::NodesSortBy {
                return true;
            }
            i = i + 1;
        }
        false
    }

    /// Applies `action`, reports the fields it changed, and rebuilds the node
    /// list when a field it depends on changed, reporting it too.
    pub fn handle_action(&mut self, action: StateAction, now_ms: u64, now_s: i64) -> (changed: Vec<
        StateField,
    >)
        requires
            old(self).wf(),
            old(self).accepts(action),
        ensures
            final(self).wf(),
            reduced(*old(self), action, now_ms, now_s, *final(self), changed@),
    {
        let ghost pre = *self;
        let mut changed = self.apply(action, now_ms, now_s);
        let ghost mid = *self;
        if Self::touches(&changed) {
            self.update_nodes_view(now_s);
            proof {
                lemma_next_state_ignores_view(pre, action, now_ms, now_s, mid, *self);
            }
            changed.push(StateField::NodesView);
        }
        changed
    }

    /// Applies `action`, the node list left as it is.
    fn apply(&mut self, action: StateAction, now_ms: u64, now_s: i64) -> (changed: Vec<StateField>)
        requires
            old(self).wf(),
            old(self).accepts(action),
        ensures
            final(self).wf(),
            next_state(*old(self), action, now_ms, now_s, *final(self)),
            final(self).nodes_view == old(self).nodes_view,
            changed@ == changed_by(*old(self), action),
    {
        match action {
            StateAction::SplashLogo => self.on_splash_logo(now_ms, now_s),
            StateAction::AppConfigApply(cfg) => self.on_app_config_apply(cfg, now_ms, now_s),
            StateAction::TabSwitchToNext => self.on_tab_switch_to_next(now_ms, now_s),
            StateAction::TabSwitchToPrevious => self.on_tab_switch_to_previous(now_ms, now_s),
            StateAction::DeviceActiveSet(d) => self.on_device_active_set(d, now_ms, now_s),
            StateAction::ConnectionStart => self.on_connection_start(now_ms, now_s),
            StateAction::ConnectionFail(error) => self.on_connection_fail(error, now_ms, now_s),
            StateAction::ConnectionStop => self.on_connection_stop(now_ms, now_s),
            StateAction::ConnectionSuccess => self.on_connection_success(now_ms, now_s),
            StateAction::ReconnectionBackoffSet(ms) => self.on_reconnection_backoff_set(ms, now_ms, now_s),
            StateAction::LogRecordAdd(r) => self.on_log_record_add(r, now_ms, now_s),
            StateAction::DevicesDiscoveredAdd(d) => self.on_devices_discovered_add(d, now_ms, now_s),
            StateAction::DeviceDiscoveringStart => self.on_device_discovering_start(now_ms, now_s),
            StateAction::DeviceDiscoveringFail(error) => self.on_device_discovering_fail(error, now_ms, now_s),
            StateAction::DeviceDiscoveringDone => self.on_device_discovering_done(now_ms, now_s),
            StateAction::DevicesAdd(d) => self.on_devices_add(d, now_ms, now_s),
            StateAction::DevicesRemove(d) => self.on_devices_remove(d, now_ms, now_s),
            StateAction::DeviceCannedMessagesSet(m) => self.on_device_canned_messages_set(m, now_ms, now_s),
            StateAction::RxTrigger => self.on_rx_trigger(now_ms, now_s),
            StateAction::FrameCleared => self.on_frame_cleared(now_ms, now_s),
            StateAction::Toast(t) => self.on_toast(t, now_ms, now_s),
            StateAction::UiConfigSet { config } => self.on_ui_config_set(config, now_ms, now_s),
            StateAction::DbDataLoaded { nodes } => self.on_db_data_loaded(nodes, now_ms, now_s),
            StateAction::NodeInit(n) => self.on_node_init(n, now_ms, now_s),
            StateAction::NodeInitUnknown(n) => self.on_node_init_unknown(n, now_ms, now_s),
            StateAction::NodeInfoPopupSetKey(k) => self.on_node_info_popup_set_key(k, now_ms, now_s),
            StateAction::NodeInfoPopupUnsetKey => self.on_node_info_popup_unset_key(now_ms, now_s),
            StateAction::NodeUpdate(n) => self.on_node_update(n, now_ms, now_s),
            StateAction::NodeUpdateLastHeard { node_key, hops, snr_bits, rssi } => self.on_node_update_last_heard(node_key, hops, snr_bits, rssi, now_ms, now_s),
            StateAction::NodeDelete(k) => self.on_node_delete(k, now_ms, now_s),
            StateAction::NodeOwnerSet(user) => self.on_node_owner_set(user, now_ms, now_s),
            StateAction::NodesSortBySet(sort_by) => self.on_nodes_sort_by_set(sort_by, now_ms, now_s),
            StateAction::NodesFilterSet(filter) => self.on_nodes_filter_set(filter, now_ms, now_s),
            StateAction::NodesOnlineSet(count) => self.on_nodes_online_set(count, now_ms, now_s),
            StateAction::MyNodeKeySet(k) => self.on_my_node_key_set(k, now_ms, now_s),
            StateAction::ChannelSet(key, ch) => self.on_channel_set(key, ch, now_ms, now_s),
            StateAction::ActiveChatSet(c) => self.on_active_chat_set(c, now_ms, now_s),
            StateAction::ActiveChatUnset => self.on_active_chat_unset(now_ms, now_s),
            StateAction::ChatPurge(chat) => self.on_chat_purge(chat, now_ms, now_s),
            StateAction::DirectChatStart(k) => self.on_direct_chat_start(k, now_ms, now_s),
            StateAction::MessageAdd(m) => self.on_message_add(m, now_ms, now_s),
            StateAction::MessageErrorSet { message_id, error } => self.on_message_error_set(message_id, error, now_ms, now_s),
            StateAction::SettingsFormLoadingStart { id } => self.on_settings_form_loading_start(id, now_ms, now_s),
            StateAction::SettingsFormLoadingFail { id, error } => self.on_settings_form_loading_fail(id, error, now_ms, now_s),
            StateAction::SettingsFormLoadingDone { id, data } => self.on_settings_form_loading_done(id, data, now_ms, now_s),
            StateAction::SettingsFormSavingStart { id } => self.on_settings_form_saving_start(id, now_ms, now_s),
            StateAction::SettingsFormSavingFailed { id } => self.on_settings_form_saving_failed(id, now_ms, now_s),
            StateAction::SettingsFormClose => self.on_settings_form_close(now_ms, now_s),
            StateAction::SettingsFormReset => self.on_settings_form_reset(now_ms, now_s),
            StateAction::SettingsFormValueSet { key, value } => self.on_settings_form_value_set(key, value, now_ms, now_s),
            StateAction::DeviceConfigSet(part) => self.on_device_config_set(part, now_ms, now_s),
            StateAction::DeviceModuleConfigSet(part) => self.on_device_module_config_set(part, now_ms, now_s),
        }
    }

    fn on_device_config_set(&mut self, part: ConfigPart, now_ms: u64, now_s: i64) -> (changed: Vec<
        StateField,
    >)
        requires
            old(self).wf(),
        ensures
            final(self).wf(),
            next_state(*old(self), StateAction::DeviceConfigSet(part), now_ms, now_s, *final(self)),
            final(self).nodes_view == old(self).nodes_view,
            changed@ == changed_by(*old(self), StateAction::DeviceConfigSet(part)),
    {
        self.device_config.set(part);
        vec![StateField::DeviceConfig]
    }

    fn on_device_module_config_set(&mut self, part: ModuleConfigPart, now_ms: u64, now_s: i64) -> (changed:
        Vec<StateField>)
        requires
            old(self).wf(),
        ensures
            final(self).wf(),
            next_state(*old(self), StateAction::DeviceModuleConfigSet(part), now_ms, now_s, *final(self)),
            final(self).nodes_view == old(self).nodes_view,
            changed@ == changed_by(*old(self), StateAction::DeviceModuleConfigSet(part)),
    {
        self.device_module_config.set(part);
        vec![StateField::DeviceModuleConfig]
    }

    fn on_splash_logo(&mut self, now_ms: u64, now_s: i64) -> (changed: Vec<StateField>)
        requires
            old(self).wf(),
            old(self).accepts(StateAction::SplashLogo),
        ensures
            final(self).wf(),
            next_state(*old(self), StateAction::SplashLogo, now_ms, now_s, *final(self)),
            final(self).nodes_view == old(self).nodes_view,
            changed@ == changed_by(*old(self), StateAction::SplashLogo),
    {
        self.splash_logo = true;
        self.splash_logo_t = now_ms;
        vec![StateField::SplashLogo, StateField::SplashLogoT]
    
    }

    fn on_app_config_apply(&mut self, cfg: AppConfig, now_ms: u64, now_s: i64) -> (changed: Vec<StateField>)
        requires
            old(self).wf(),
            old(self).accepts(StateAction::AppConfigApply(cfg)),
        ensures
            final(self).wf(),
            next_state(*old(self), StateAction::AppConfigApply(cfg), now_ms, now_s, *final(self)),
            final(self).nodes_view == old(self).nodes_view,
            changed@ == changed_by(*old(self), StateAction::AppConfigApply(cfg)),
    {
        self.active_tab = cfg.active_tab;
        self.active_device = cfg.active_device;
        self.devices = cfg.devices;
        self.nodes_sort_by = cfg.nodes_sort_by;
        self.nodes_filter = cfg.nodes_filter;
        self.ui_config = cfg.ui_config;
        self.my_node_key = cfg.my_node_key;
        self.config_loaded = true;
        vec![
            StateField::ActiveTab,
            StateField::ActiveDevice,
            StateField::Devices,
            StateField::NodesSortBy,
            StateField::NodesFilter,
            StateField::UiConfig,
            StateField::MyNodeKey,
            StateField::ConfigLoaded,
        ]
    
    }

    fn on_tab_switch_to_next(&mut self, now_ms: u64, now_s: i64) -> (changed: Vec<StateField>)
        requires
            old(self).wf(),
            old(self).accepts(StateAction::TabSwitchToNext),
        ensures
            final(self).wf(),
            next_state(*old(self), StateAction::TabSwitchToNext, now_ms, now_s, *final(self)),
            final(self).nodes_view == old(self).nodes_view,
            changed@ == changed_by(*old(self), StateAction::TabSwitchToNext),
    {
        self.active_tab = self.active_tab.next();
        self.need_clear_frame = true;
        vec![StateField::ActiveTab, StateField::NeedClearFrame]
    
    }

    fn on_tab_switch_to_previous(&mut self, now_ms: u64, now_s: i64) -> (changed: Vec<StateField>)
        requires
            old(self).wf(),
            old(self).accepts(StateAction::TabSwitchToPrevious),
        ensures
            final(self).wf(),
            next_state(*old(self), StateAction::TabSwitchToPrevious, now_ms, now_s, *final(self)),
            final(self).nodes_view == old(self).nodes_view,
            changed@ == changed_by(*old(self), StateAction::TabSwitchToPrevious),
    {
        self.active_tab = self.active_tab.prev();
        self.need_clear_frame = true;
        vec![StateField::ActiveTab, StateField::NeedClearFrame]
    
    }

    fn on_device_active_set(&mut self, d: Device, now_ms: u64, now_s: i64) -> (changed: Vec<StateField>)
        requires
            old(self).wf(),
            old(self).accepts(StateAction::DeviceActiveSet(d)),
        ensures
            final(self).wf(),
            next_state(*old(self), StateAction::DeviceActiveSet(d), now_ms, now_s, *final(self)),
            final(self).nodes_view == old(self).nodes_view,
            changed@ == changed_by(*old(self), StateAction::DeviceActiveSet(d)),
    {
        self.active_device = Some(d);
        vec![StateField::ActiveDevice]
    
    }

    fn on_connection_start(&mut self, now_ms: u64, now_s: i64) -> (changed: Vec<StateField>)
        requires
            old(self).wf(),
            old(self).accepts(StateAction::ConnectionStart),
        ensures
            final(self).wf(),
            next_state(*old(self), StateAction::ConnectionStart, now_ms, now_s, *final(self)),
            final(self).nodes_view == old(self).nodes_view,
            changed@ == changed_by(*old(self), StateAction::ConnectionStart),
    {
        self.connection_state = ConnectionState::Connecting;
        self.connection_attempt = self.connection_attempt + 1;
        self.reconnection_backoff = None;
        vec![
            StateField::ConnectionState,
            StateField::ConnectionAttempt,
            StateField::ReconnectionBackoff,
        ]
    
    }

    fn on_connection_fail(&mut self, error: String, now_ms: u64, now_s: i64) -> (changed: Vec<StateField>)
        requires
            old(self).wf(),
            old(self).accepts(StateAction::ConnectionFail(error)),
        ensures
            final(self).wf(),
            next_state(*old(self), StateAction::ConnectionFail(error), now_ms, now_s, *final(self)),
            final(self).nodes_view == old(self).nodes_view,
            changed@ == changed_by(*old(self), StateAction::ConnectionFail(error)),
    {
        self.connection_state = ConnectionState::ProblemDetected { since_millis: now_ms, error };
        vec![StateField::ConnectionState]
    
    }

    fn on_connection_stop(&mut self, now_ms: u64, now_s: i64) -> (changed: Vec<StateField>)
        requires
            old(self).wf(),
            old(self).accepts(StateAction::ConnectionStop),
        ensures
            final(self).wf(),
            next_state(*old(self), StateAction::ConnectionStop, now_ms, now_s, *final(self)),
            final(self).nodes_view == old(self).nodes_view,
            changed@ == changed_by(*old(self), StateAction::ConnectionStop),
    {
        self.connection_stop()
    }

    fn on_connection_success(&mut self, now_ms: u64, now_s: i64) -> (changed: Vec<StateField>)
        requires
            old(self).wf(),
            old(self).accepts(StateAction::ConnectionSuccess),
        ensures
            final(self).wf(),
            next_state(*old(self), StateAction::ConnectionSuccess, now_ms, now_s, *final(self)),
            final(self).nodes_view == old(self).nodes_view,
            changed@ == changed_by(*old(self), StateAction::ConnectionSuccess),
    {
        self.connection_state = ConnectionState::Connected;
        self.connection_attempt = 0;
        self.reconnection_backoff = None;
        vec![
            StateField::ConnectionState,
            StateField::ConnectionAttempt,
            StateField::ReconnectionBackoff,
        ]
    
    }

    fn on_reconnection_backoff_set(&mut self, ms: u64, now_ms: u64, now_s: i64) -> (changed: Vec<StateField>)
        requires
            old(self).wf(),
            old(self).accepts(StateAction::ReconnectionBackoffSet(ms)),
        ensures
            final(self).wf(),
            next_state(*old(self), StateAction::ReconnectionBackoffSet(ms), now_ms, now_s, *final(self)),
            final(self).nodes_view == old(self).nodes_view,
            changed@ == changed_by(*old(self), StateAction::ReconnectionBackoffSet(ms)),
    {
        self.reconnection_backoff = Some(ms);
        vec![StateField::ReconnectionBackoff]
    
    }

    fn on_log_record_add(&mut self, r: LogRecord, now_ms: u64, now_s: i64) -> (changed: Vec<StateField>)
        requires
            old(self).wf(),
            old(self).accepts(StateAction::LogRecordAdd(r)),
        ensures
            final(self).wf(),
            next_state(*old(self), StateAction::LogRecordAdd(r), now_ms, now_s, *final(self)),
            final(self).nodes_view == old(self).nodes_view,
            changed@ == changed_by(*old(self), StateAction::LogRecordAdd(r)),
    {
        self.logs.push(r);
        vec![StateField::Logs]
    
    }

    fn on_devices_discovered_add(&mut self, d: Device, now_ms: u64, now_s: i64) -> (changed: Vec<StateField>)
        requires
            old(self).wf(),
            old(self).accepts(StateAction::DevicesDiscoveredAdd(d)),
        ensures
            final(self).wf(),
            next_state(*old(self), StateAction::DevicesDiscoveredAdd(d), now_ms, now_s, *final(self)),
            final(self).nodes_view == old(self).nodes_view,
            changed@ == changed_by(*old(self), StateAction::DevicesDiscoveredAdd(d)),
    {
        if self.devices_discovered.insert(d) {
            vec![StateField::DevicesDiscovered]
        } else {
            vec![]
        }
    
    }

    fn on_device_discovering_start(&mut self, now_ms: u64, now_s: i64) -> (changed: Vec<StateField>)
        requires
            old(self).wf(),
            old(self).accepts(StateAction::DeviceDiscoveringStart),
        ensures
            final(self).wf(),
            next_state(*old(self), StateAction::DeviceDiscoveringStart, now_ms, now_s, *final(self)),
            final(self).nodes_view == old(self).nodes_view,
            changed@ == changed_by(*old(self), StateAction::DeviceDiscoveringStart),
    {
        self.device_discovering_state = DeviceDiscoveringState::Discovering;
        self.devices_discovered.clear();
        vec![StateField::DeviceDiscoveringState, StateField::DevicesDiscovered]
    
    }

    fn on_device_discovering_fail(&mut self, error: String, now_ms: u64, now_s: i64) -> (changed: Vec<StateField>)
        requires
            old(self).wf(),
            old(self).accepts(StateAction::DeviceDiscoveringFail(error)),
        ensures
            final(self).wf(),
            next_state(*old(self), StateAction::DeviceDiscoveringFail(error), now_ms, now_s, *final(self)),
            final(self).nodes_view == old(self).nodes_view,
            changed@ == changed_by(*old(self), StateAction::DeviceDiscoveringFail(error)),
    {
        self.device_discovering_state = DeviceDiscoveringState::Failed(error);
        vec![StateField::DeviceDiscoveringState]
    
    }

    fn on_device_discovering_done(&mut self, now_ms: u64, now_s: i64) -> (changed: Vec<StateField>)
        requires
            old(self).wf(),
            old(self).accepts(StateAction::DeviceDiscoveringDone),
        ensures
            final(self).wf(),
            next_state(*old(self), StateAction::DeviceDiscoveringDone, now_ms, now_s, *final(self)),
            final(self).nodes_view == old(self).nodes_view,
            changed@ == changed_by(*old(self), StateAction::DeviceDiscoveringDone),
    {
        self.device_discovering_state = DeviceDiscoveringState::Done;
        vec![StateField::DeviceDiscoveringState]
    
    }

    fn on_devices_add(&mut self, d: Device, now_ms: u64, now_s: i64) -> (changed: Vec<StateField>)
        requires
            old(self).wf(),
            old(self).accepts(StateAction::DevicesAdd(d)),
        ensures
            final(self).wf(),
            next_state(*old(self), StateAction::DevicesAdd(d), now_ms, now_s, *final(self)),
            final(self).nodes_view == old(self).nodes_view,
            changed@ == changed_by(*old(self), StateAction::DevicesAdd(d)),
    {
        if self.devices.insert(d) {
            vec![StateField::Devices]
        } else {
            vec![]
        }
    
    }

    fn on_devices_remove(&mut self, d: Device, now_ms: u64, now_s: i64) -> (changed: Vec<StateField>)
        requires
            old(self).wf(),
            old(self).accepts(StateAction::DevicesRemove(d)),
        ensures
            final(self).wf(),
            next_state(*old(self), StateAction::DevicesRemove(d), now_ms, now_s, *final(self)),
            final(self).nodes_view == old(self).nodes_view,
            changed@ == changed_by(*old(self), StateAction::DevicesRemove(d)),
    {
        if self.devices.remove(&d) {
            vec![StateField::Devices]
        } else {
            vec![]
        }
    
    }

    fn on_device_canned_messages_set(&mut self, m: String, now_ms: u64, now_s: i64) -> (changed: Vec<StateField>)
        requires
            old(self).wf(),
            old(self).accepts(StateAction::DeviceCannedMessagesSet(m)),
        ensures
            final(self).wf(),
            next_state(*old(self), StateAction::DeviceCannedMessagesSet(m), now_ms, now_s, *final(self)),
            final(self).nodes_view == old(self).nodes_view,
            changed@ == changed_by(*old(self), StateAction::DeviceCannedMessagesSet(m)),
    {
        self.device_canned_messages = Some(m);
        vec![StateField::DeviceCannedMessages]
    
    }

    fn on_rx_trigger(&mut self, now_ms: u64, now_s: i64) -> (changed: Vec<StateField>)
        requires
            old(self).wf(),
            old(self).accepts(StateAction::RxTrigger),
        ensures
            final(self).wf(),
            next_state(*old(self), StateAction::RxTrigger, now_ms, now_s, *final(self)),
            final(self).nodes_view == old(self).nodes_view,
            changed@ == changed_by(*old(self), StateAction::RxTrigger),
    {
        self.rx_t = now_ms;
        self.rx = true;
        vec![StateField::Rx, StateField::RxT]
    
    }

    fn on_frame_cleared(&mut self, now_ms: u64, now_s: i64) -> (changed: Vec<StateField>)
        requires
            old(self).wf(),
            old(self).accepts(StateAction::FrameCleared),
        ensures
            final(self).wf(),
            next_state(*old(self), StateAction::FrameCleared, now_ms, now_s, *final(self)),
            final(self).nodes_view == old(self).nodes_view,
            changed@ == changed_by(*old(self), StateAction::FrameCleared),
    {
        self.need_clear_frame = false;
        vec![StateField::NeedClearFrame]
    
    }

    fn on_toast(&mut self, t: Toast, now_ms: u64, now_s: i64) -> (changed: Vec<StateField>)
        requires
            old(self).wf(),
            old(self).accepts(StateAction::Toast(t)),
        ensures
            final(self).wf(),
            next_state(*old(self), StateAction::Toast(t), now_ms, now_s, *final(self)),
            final(self).nodes_view == old(self).nodes_view,
            changed@ == changed_by(*old(self), StateAction::Toast(t)),
    {
        self.toast_queue.push_back(t);
        vec![StateField::ToastQueue]
    
    }

    fn on_ui_config_set(&mut self, config: UiConfig, now_ms: u64, now_s: i64) -> (changed: Vec<StateField>)
        requires
            old(self).wf(),
            old(self).accepts((StateAction::UiConfigSet { config })),
        ensures
            final(self).wf(),
            next_state(*old(self), (StateAction::UiConfigSet { config }), now_ms, now_s, *final(self)),
            final(self).nodes_view == old(self).nodes_view,
            changed@ == changed_by(*old(self), (StateAction::UiConfigSet { config })),
    {
        self.ui_config = config;
        vec![StateField::UiConfig]
    
    }

    fn on_db_data_loaded(&mut self, nodes: Vec<Node>, now_ms: u64, now_s: i64) -> (changed: Vec<StateField>)
        requires
            old(self).wf(),
            old(self).accepts((StateAction::DbDataLoaded { nodes })),
        ensures
            final(self).wf(),
            next_state(*old(self), (StateAction::DbDataLoaded { nodes }), now_ms, now_s, *final(self)),
            final(self).nodes_view == old(self).nodes_view,
            changed@ == changed_by(*old(self), (StateAction::DbDataLoaded { nodes })),
    {
        self.merge_nodes(nodes);
        vec![StateField::Nodes]
    
    }

    fn on_node_init(&mut self, n: Node, now_ms: u64, now_s: i64) -> (changed: Vec<StateField>)
        requires
            old(self).wf(),
            old(self).accepts(StateAction::NodeInit(n)),
        ensures
            final(self).wf(),
            next_state(*old(self), StateAction::NodeInit(n), now_ms, now_s, *final(self)),
            final(self).nodes_view == old(self).nodes_view,
            changed@ == changed_by(*old(self), StateAction::NodeInit(n)),
    {
        let key = n.key;
        self.nodes.insert(key, n);
        vec![StateField::Nodes]
    
    }

    fn on_node_init_unknown(&mut self, n: Node, now_ms: u64, now_s: i64) -> (changed: Vec<StateField>)
        requires
            old(self).wf(),
            old(self).accepts(StateAction::NodeInitUnknown(n)),
        ensures
            final(self).wf(),
            next_state(*old(self), StateAction::NodeInitUnknown(n), now_ms, now_s, *final(self)),
            final(self).nodes_view == old(self).nodes_view,
            changed@ == changed_by(*old(self), StateAction::NodeInitUnknown(n)),
    {
        let key = n.key;
        if self.nodes.contains_key(&key) {
            vec![]
        } else {
            self.nodes.insert(key, n);
            vec![StateField::Nodes]
        }
    
    }

    fn on_node_info_popup_set_key(&mut self, k: u32, now_ms: u64, now_s: i64) -> (changed: Vec<StateField>)
        requires
            old(self).wf(),
            old(self).accepts(StateAction::NodeInfoPopupSetKey(k)),
        ensures
            final(self).wf(),
            next_state(*old(self), StateAction::NodeInfoPopupSetKey(k), now_ms, now_s, *final(self)),
            final(self).nodes_view == old(self).nodes_view,
            changed@ == changed_by(*old(self), StateAction::NodeInfoPopupSetKey(k)),
    {
        self.nodeinfo_popup = Some(k);
        vec![StateField::NodeinfoPopup]
    
    }

    fn on_node_info_popup_unset_key(&mut self, now_ms: u64, now_s: i64) -> (changed: Vec<StateField>)
        requires
            old(self).wf(),
            old(self).accepts(StateAction::NodeInfoPopupUnsetKey),
        ensures
            final(self).wf(),
            next_state(*old(self), StateAction::NodeInfoPopupUnsetKey, now_ms, now_s, *final(self)),
            final(self).nodes_view == old(self).nodes_view,
            changed@ == changed_by(*old(self), StateAction::NodeInfoPopupUnsetKey),
    {
        self.nodeinfo_popup = None;
        vec![StateField::NodeinfoPopup]
    
    }

    fn on_node_update(&mut self, n: Node, now_ms: u64, now_s: i64) -> (changed: Vec<StateField>)
        requires
            old(self).wf(),
            old(self).accepts(StateAction::NodeUpdate(n)),
        ensures
            final(self).wf(),
            next_state(*old(self), StateAction::NodeUpdate(n), now_ms, now_s, *final(self)),
            final(self).nodes_view == old(self).nodes_view,
            changed@ == changed_by(*old(self), StateAction::NodeUpdate(n)),
    {
        self.node_update(n)
    }

    fn on_node_update_last_heard(&mut self, node_key: u32, hops: u32, snr_bits: u32, rssi: i32, now_ms: u64, now_s: i64) -> (changed: Vec<StateField>)
        requires
            old(self).wf(),
            old(self).accepts((StateAction::NodeUpdateLastHeard { node_key, hops, snr_bits, rssi })),
        ensures
            final(self).wf(),
            next_state(*old(self), (StateAction::NodeUpdateLastHeard { node_key, hops, snr_bits, rssi }), now_ms, now_s, *final(self)),
            final(self).nodes_view == old(self).nodes_view,
            changed@ == changed_by(*old(self), (StateAction::NodeUpdateLastHeard { node_key, hops, snr_bits, rssi })),
    {
        self.node_heard(
        node_key,
        hops,
        snr_bits,
        rssi,
        now_s,
    )
    }

    fn on_node_delete(&mut self, k: u32, now_ms: u64, now_s: i64) -> (changed: Vec<StateField>)
        requires
            old(self).wf(),
            old(self).accepts(StateAction::NodeDelete(k)),
        ensures
            final(self).wf(),
            next_state(*old(self), StateAction::NodeDelete(k), now_ms, now_s, *final(self)),
            final(self).nodes_view == old(self).nodes_view,
            changed@ == changed_by(*old(self), StateAction::NodeDelete(k)),
    {
        self.node_delete(k)
    }

    fn on_node_owner_set(&mut self, user: NodeUser, now_ms: u64, now_s: i64) -> (changed: Vec<StateField>)
        requires
            old(self).wf(),
            old(self).accepts(StateAction::NodeOwnerSet(user)),
        ensures
            final(self).wf(),
            next_state(*old(self), StateAction::NodeOwnerSet(user), now_ms, now_s, *final(self)),
            final(self).nodes_view == old(self).nodes_view,
            changed@ == changed_by(*old(self), StateAction::NodeOwnerSet(user)),
    {
        self.node_owner_set(user)
    }

    fn on_nodes_sort_by_set(&mut self, sort_by: NodesSortBy, now_ms: u64, now_s: i64) -> (changed: Vec<StateField>)
        requires
            old(self).wf(),
            old(self).accepts(StateAction::NodesSortBySet(sort_by)),
        ensures
            final(self).wf(),
            next_state(*old(self), StateAction::NodesSortBySet(sort_by), now_ms, now_s, *final(self)),
            final(self).nodes_view == old(self).nodes_view,
            changed@ == changed_by(*old(self), StateAction::NodesSortBySet(sort_by)),
    {
        self.nodes_sort_by = sort_by;
        vec![StateField::NodesSortBy]
    
    }

    fn on_nodes_filter_set(&mut self, filter: String, now_ms: u64, now_s: i64) -> (changed: Vec<StateField>)
        requires
            old(self).wf(),
            old(self).accepts(StateAction::NodesFilterSet(filter)),
        ensures
            final(self).wf(),
            next_state(*old(self), StateAction::NodesFilterSet(filter), now_ms, now_s, *final(self)),
            final(self).nodes_view == old(self).nodes_view,
            changed@ == changed_by(*old(self), StateAction::NodesFilterSet(filter)),
    {
        self.nodes_filter = to_lowercase(filter.as_str());
        vec![StateField::NodesFilter]
    
    }

    fn on_nodes_online_set(&mut self, count: u16, now_ms: u64, now_s: i64) -> (changed: Vec<StateField>)
        requires
            old(self).wf(),
            old(self).accepts(StateAction::NodesOnlineSet(count)),
        ensures
            final(self).wf(),
            next_state(*old(self), StateAction::NodesOnlineSet(count), now_ms, now_s, *final(self)),
            final(self).nodes_view == old(self).nodes_view,
            changed@ == changed_by(*old(self), StateAction::NodesOnlineSet(count)),
    {
        if self.online_nodes == count {
            vec![]
        } else {
            self.online_nodes = count;
            vec![StateField::OnlineNodes]
        }
    
    }

    fn on_my_node_key_set(&mut self, k: u32, now_ms: u64, now_s: i64) -> (changed: Vec<StateField>)
        requires
            old(self).wf(),
            old(self).accepts(StateAction::MyNodeKeySet(k)),
        ensures
            final(self).wf(),
            next_state(*old(self), StateAction::MyNodeKeySet(k), now_ms, now_s, *final(self)),
            final(self).nodes_view == old(self).nodes_view,
            changed@ == changed_by(*old(self), StateAction::MyNodeKeySet(k)),
    {
        self.my_node_key = Some(k);
        vec![StateField::MyNodeKey]
    
    }

    fn on_channel_set(&mut self, key: u32, ch: Channel, now_ms: u64, now_s: i64) -> (changed: Vec<StateField>)
        requires
            old(self).wf(),
            old(self).accepts(StateAction::ChannelSet(key, ch)),
        ensures
            final(self).wf(),
            next_state(*old(self), StateAction::ChannelSet(key, ch), now_ms, now_s, *final(self)),
            final(self).nodes_view == old(self).nodes_view,
            changed@ == changed_by(*old(self), StateAction::ChannelSet(key, ch)),
    {
        self.channel_set(key, ch)
    }

    fn on_active_chat_set(&mut self, c: Chat, now_ms: u64, now_s: i64) -> (changed: Vec<StateField>)
        requires
            old(self).wf(),
            old(self).accepts(StateAction::ActiveChatSet(c)),
        ensures
            final(self).wf(),
            next_state(*old(self), StateAction::ActiveChatSet(c), now_ms, now_s, *final(self)),
            final(self).nodes_view == old(self).nodes_view,
            changed@ == changed_by(*old(self), StateAction::ActiveChatSet(c)),
    {
        self.active_chat = Some(c);
        vec![StateField::ActiveChat]
    
    }

    fn on_active_chat_unset(&mut self, now_ms: u64, now_s: i64) -> (changed: Vec<StateField>)
        requires
            old(self).wf(),
            old(self).accepts(StateAction::ActiveChatUnset),
        ensures
            final(self).wf(),
            next_state(*old(self), StateAction::ActiveChatUnset, now_ms, now_s, *final(self)),
            final(self).nodes_view == old(self).nodes_view,
            changed@ == changed_by(*old(self), StateAction::ActiveChatUnset),
    {
        self.active_chat = None;
        vec![StateField::ActiveChat]
    
    }

    fn on_chat_purge(&mut self, chat: Chat, now_ms: u64, now_s: i64) -> (changed: Vec<StateField>)
        requires
            old(self).wf(),
            old(self).accepts(StateAction::ChatPurge(chat)),
        ensures
            final(self).wf(),
            next_state(*old(self), StateAction::ChatPurge(chat), now_ms, now_s, *final(self)),
            final(self).nodes_view == old(self).nodes_view,
            changed@ == changed_by(*old(self), StateAction::ChatPurge(chat)),
    {
        self.chat_purge(chat);
        vec![]
    
    }

    fn on_direct_chat_start(&mut self, k: u32, now_ms: u64, now_s: i64) -> (changed: Vec<StateField>)
        requires
            old(self).wf(),
            old(self).accepts(StateAction::DirectChatStart(k)),
        ensures
            final(self).wf(),
            next_state(*old(self), StateAction::DirectChatStart(k), now_ms, now_s, *final(self)),
            final(self).nodes_view == old(self).nodes_view,
            changed@ == changed_by(*old(self), StateAction::DirectChatStart(k)),
    {
        let chat = Chat::Direct(k);
        let mut changed: Vec<StateField> = Vec::new();
        if !self.chats.contains_key(&chat) {
            self.chats.insert_sorted(chat, Vec::new());
            changed.push(StateField::Chats);
        }
        self.active_chat = Some(chat);
        self.active_tab = Tab::Chat;
        changed.push(StateField::ActiveChat);
        changed.push(StateField::ActiveTab);
        changed
    
    }

    fn on_message_add(&mut self, m: Message, now_ms: u64, now_s: i64) -> (changed: Vec<StateField>)
        requires
            old(self).wf(),
            old(self).accepts(StateAction::MessageAdd(m)),
        ensures
            final(self).wf(),
            next_state(*old(self), StateAction::MessageAdd(m), now_ms, now_s, *final(self)),
            final(self).nodes_view == old(self).nodes_view,
            changed@ == changed_by(*old(self), StateAction::MessageAdd(m)),
    {
        self.message_add(m)
    }

    fn on_message_error_set(&mut self, message_id: u32, error: Option<i32>, now_ms: u64, now_s: i64) -> (changed: Vec<StateField>)
        requires
            old(self).wf(),
            old(self).accepts((StateAction::MessageErrorSet { message_id, error })),
        ensures
            final(self).wf(),
            next_state(*old(self), (StateAction::MessageErrorSet { message_id, error }), now_ms, now_s, *final(self)),
            final(self).nodes_view == old(self).nodes_view,
            changed@ == changed_by(*old(self), (StateAction::MessageErrorSet { message_id, error })),
    {
        match self.messages.remove(&message_id) {
            Some(m) => {
                let mut m = m;
                m.routing_error = error;
                self.messages.insert(message_id, m);
                proof {
                    assert(self.messages@ =~= old(self).messages@.insert(
                        message_id,
                        Message { routing_error: error, ..old(self).messages@[message_id] },
                    ));
                }
                vec![StateField::Messages]
            },
            None => {
                proof {
                    assert(self.messages@ =~= old(self).messages@);
                }
                vec![]
            },
        }
    
    }

    fn on_settings_form_loading_start(&mut self, id: FormId, now_ms: u64, now_s: i64) -> (changed: Vec<StateField>)
        requires
            old(self).wf(),
            old(self).accepts((StateAction::SettingsFormLoadingStart { id })),
        ensures
            final(self).wf(),
            next_state(*old(self), (StateAction::SettingsFormLoadingStart { id }), now_ms, now_s, *final(self)),
            final(self).nodes_view == old(self).nodes_view,
            changed@ == changed_by(*old(self), (StateAction::SettingsFormLoadingStart { id })),
    {
        self.settings_form_original_data = None;
        self.settings_form_data = None;
        self.settings_form_is_changed = false;
        self.settings_form_state = SettingsFormState::Loading { id };
        vec![
            StateField::SettingsFormOriginalData,
            StateField::SettingsFormData,
            StateField::SettingsFormIsChanged,
            StateField::SettingsFormState,
        ]
    
    }

    fn on_settings_form_loading_fail(&mut self, id: FormId, error: String, now_ms: u64, now_s: i64) -> (changed: Vec<StateField>)
        requires
            old(self).wf(),
            old(self).accepts((StateAction::SettingsFormLoadingFail { id, error })),
        ensures
            final(self).wf(),
            next_state(*old(self), (StateAction::SettingsFormLoadingFail { id, error }), now_ms, now_s, *final(self)),
            final(self).nodes_view == old(self).nodes_view,
            changed@ == changed_by(*old(self), (StateAction::SettingsFormLoadingFail { id, error })),
    {
        self.settings_form_original_data = None;
        self.settings_form_data = None;
        self.settings_form_is_changed = false;
        self.settings_form_state = SettingsFormState::LoadingFailed { id, error };
        vec![
            StateField::SettingsFormOriginalData,
            StateField::SettingsFormData,
            StateField::SettingsFormIsChanged,
            StateField::SettingsFormState,
        ]
    
    }

    fn on_settings_form_loading_done(&mut self, id: FormId, data: FormData, now_ms: u64, now_s: i64) -> (changed: Vec<StateField>)
        requires
            old(self).wf(),
            old(self).accepts((StateAction::SettingsFormLoadingDone { id, data })),
        ensures
            final(self).wf(),
            next_state(*old(self), (StateAction::SettingsFormLoadingDone { id, data }), now_ms, now_s, *final(self)),
            final(self).nodes_view == old(self).nodes_view,
            changed@ == changed_by(*old(self), (StateAction::SettingsFormLoadingDone { id, data })),
    {
        self.settings_form_original_data = Some(data.deep_clone());
        self.settings_form_data = Some(data);
        self.settings_form_is_changed = false;
        self.settings_form_state = SettingsFormState::Loaded { id };
        vec![
            StateField::SettingsFormOriginalData,
            StateField::SettingsFormData,
            StateField::SettingsFormIsChanged,
            StateField::SettingsFormState,
        ]
    
    }

    fn on_settings_form_saving_start(&mut self, id: FormId, now_ms: u64, now_s: i64) -> (changed: Vec<StateField>)
        requires
            old(self).wf(),
            old(self).accepts((StateAction::SettingsFormSavingStart { id })),
        ensures
            final(self).wf(),
            next_state(*old(self), (StateAction::SettingsFormSavingStart { id }), now_ms, now_s, *final(self)),
            final(self).nodes_view == old(self).nodes_view,
            changed@ == changed_by(*old(self), (StateAction::SettingsFormSavingStart { id })),
    {
        self.settings_form_state = SettingsFormState::Saving { id };
        vec![StateField::SettingsFormState]
    
    }

    fn on_settings_form_saving_failed(&mut self, id: FormId, now_ms: u64, now_s: i64) -> (changed: Vec<StateField>)
        requires
            old(self).wf(),
            old(self).accepts((StateAction::SettingsFormSavingFailed { id })),
        ensures
            final(self).wf(),
            next_state(*old(self), (StateAction::SettingsFormSavingFailed { id }), now_ms, now_s, *final(self)),
            final(self).nodes_view == old(self).nodes_view,
            changed@ == changed_by(*old(self), (StateAction::SettingsFormSavingFailed { id })),
    {
        self.settings_form_state = SettingsFormState::Loaded { id };
        vec![StateField::SettingsFormState]
    
    }

    fn on_settings_form_close(&mut self, now_ms: u64, now_s: i64) -> (changed: Vec<StateField>)
        requires
            old(self).wf(),
            old(self).accepts(StateAction::SettingsFormClose),
        ensures
            final(self).wf(),
            next_state(*old(self), StateAction::SettingsFormClose, now_ms, now_s, *final(self)),
            final(self).nodes_view == old(self).nodes_view,
            changed@ == changed_by(*old(self), StateAction::SettingsFormClose),
    {
        self.settings_form_original_data = None;
        self.settings_form_data = None;
        self.settings_form_is_changed = false;
        self.settings_form_state = SettingsFormState::Inactive;
        vec![
            StateField::SettingsFormOriginalData,
            StateField::SettingsFormData,
            StateField::SettingsFormIsChanged,
            StateField::SettingsFormState,
        ]
    
    }

    fn on_settings_form_reset(&mut self, now_ms: u64, now_s: i64) -> (changed: Vec<StateField>)
        requires
            old(self).wf(),
            old(self).accepts(StateAction::SettingsFormReset),
        ensures
            final(self).wf(),
            next_state(*old(self), StateAction::SettingsFormReset, now_ms, now_s, *final(self)),
            final(self).nodes_view == old(self).nodes_view,
            changed@ == changed_by(*old(self), StateAction::SettingsFormReset),
    {
        self.settings_form_data = match &self.settings_form_original_data {
            Some(o) => Some(o.deep_clone()),
            None => None,
        };
        self.settings_form_is_changed = false;
        vec![StateField::SettingsFormData, StateField::SettingsFormIsChanged]
    
    }

    fn on_settings_form_value_set(&mut self, key: FormItemKey, value: FormValue, now_ms: u64, now_s: i64) -> (changed: Vec<StateField>)
        requires
            old(self).wf(),
            old(self).accepts((StateAction::SettingsFormValueSet { key, value })),
        ensures
            final(self).wf(),
            next_state(*old(self), (StateAction::SettingsFormValueSet { key, value }), now_ms, now_s, *final(self)),
            final(self).nodes_view == old(self).nodes_view,
            changed@ == changed_by(*old(self), (StateAction::SettingsFormValueSet { key, value })),
    {
        self.form_value_set(key, value)
    }

    fn connection_stop(&mut self) -> (changed: Vec<StateField>)
        requires
            old(self).wf(),
        ensures
            final(self).wf(),
            next_state(*old(self), StateAction::ConnectionStop, 0, 0, *final(self)),
            final(self).nodes_view == old(self).nodes_view,
            changed@ == changed_by(*old(self), StateAction::ConnectionStop),
    {
        self.active_device = None;
        self.channels.clear();
        self.connection_attempt = 0;
        self.connection_state = ConnectionState::NotConnected;
        self.device_config = DeviceConfig::empty();
        self.device_module_config = DeviceModuleConfig::empty();
        self.nodes.clear();
        self.online_nodes = 0;
        self.reconnection_backoff = None;
        self.settings_form_data = None;
        self.settings_form_is_changed = false;
        self.settings_form_original_data = None;
        self.settings_form_state = SettingsFormState::Inactive;
        vec![
            StateField::ActiveDevice,
            StateField::Channels,
            StateField::ConnectionAttempt,
            StateField::ConnectionState,
            StateField::DeviceConfig,
            StateField::DeviceModuleConfig,
            StateField::NodesView,
            StateField::Nodes,
            StateField::OnlineNodes,
            StateField::ReconnectionBackoff,
            StateField::SettingsFormData,
            StateField::SettingsFormIsChanged,
            StateField::SettingsFormOriginalData,
            StateField::SettingsFormState,
        ]
    }

    /// Merges nodes loaded from the database into the nodes.
    fn merge_nodes(&mut self, nodes: Vec<Node>)
        requires
            old(self).wf(),
        ensures
            final(self).wf(),
            *final(self) == (State { nodes: final(self).nodes, ..*old(self) }),
            final(self).nodes@ == merge_loaded(old(self).nodes@, nodes@),
    {
        let ghost loaded = nodes@;
        let mut rest = nodes;
        let ghost mut i: int = 0;
        proof {
            assert(loaded.take(0) =~= Seq::<Node>::empty());
            assert(rest@ =~= loaded.skip(0));
        }
        while rest.len() > 0
            invariant
                0 <= i <= loaded.len(),
                rest@ == loaded.skip(i),
                self.wf(),
                *self == (State { nodes: self.nodes, ..*old(self) }),
                self.nodes@ == merge_loaded(old(self).nodes@, loaded.take(i)),
            decreases rest.len(),
        {
            let n = rest.remove(0);
            proof {
                assert(n == loaded[i]);
                assert(loaded.take(i + 1).drop_last() =~= loaded.take(i));
                assert(rest@ =~= loaded.skip(i + 1));
            }
            let key = n.key;
            let newer = match self.nodes.get(&key) {
                Some(e) => match (n.last_heard, e.last_heard) {
                    (Some(x), Some(y)) => x > y,
                    (Some(_), None) => true,
                    _ => false,
                },
                None => true,
            };
            if newer {
                self.nodes.insert(key, n);
            }
            proof {
                i = i + 1;
            }
        }
        proof {
            assert(loaded.take(i) =~= loaded);
        }
    }

    fn node_update(&mut self, n: Node) -> (changed: Vec<StateField>)
        requires
            old(self).wf(),
        ensures
            final(self).wf(),
            next_state(*old(self), StateAction::NodeUpdate(n), 0, 0, *final(self)),
            final(self).nodes_view == old(self).nodes_view,
            changed@ == changed_by(*old(self), StateAction::NodeUpdate(n)),
    {
        let key = n.key;
        match self.nodes.remove(&key) {
            Some(e) => {
                let mut e = e;
                e.user = n.user;
                e.hops = n.hops;
                e.last_heard = n.last_heard;
                e.snr_bits = n.snr_bits;
                e.rssi = n.rssi;
                e.update_fulltext();
                self.nodes.insert(key, e);
                proof {
                    assert(self.nodes@ =~= old(self).nodes@.insert(key, self.nodes@[key]));
                }
                vec![StateField::Nodes]
            },
            None => {
                proof {
                    assert(self.nodes@ =~= old(self).nodes@);
                }
                vec![]
            },
        }
    }

    fn node_heard(&mut self, node_key: u32, hops: u32, snr_bits: u32, rssi: i32, now_s: i64) -> (changed:
        Vec<StateField>)
        requires
            old(self).wf(),
        ensures
            final(self).wf(),
            next_state(
                *old(self),
                StateAction::NodeUpdateLastHeard { node_key, hops, snr_bits, rssi },
                0,
                now_s,
                *final(self),
            ),
            final(self).nodes_view == old(self).nodes_view,
            changed@ == changed_by(
                *old(self),
                StateAction::NodeUpdateLastHeard { node_key, hops, snr_bits, rssi },
            ),
    {
        match self.nodes.remove(&node_key) {
            Some(e) => {
                let mut e = e;
                e.last_heard = Some(now_s);
                e.hops = Some(hops);
                if hops == 0 {
                    e.snr_bits = snr_bits;
                    e.rssi = Some(rssi);
                }
                e.update_fulltext();
                self.nodes.insert(node_key, e);
                proof {
                    assert(self.nodes@ =~= old(self).nodes@.insert(node_key, self.nodes@[node_key]));
                }
                vec![StateField::Nodes]
            },
            None => {
                proof {
                    assert(self.nodes@ =~= old(self).nodes@);
                }
                vec![]
            },
        }
    }

    fn node_delete(&mut self, k: u32) -> (changed: Vec<StateField>)
        requires
            old(self).wf(),
        ensures
            final(self).wf(),
            next_state(*old(self), StateAction::NodeDelete(k), 0, 0, *final(self)),
            final(self).nodes_view == old(self).nodes_view,
            changed@ == changed_by(*old(self), StateAction::NodeDelete(k)),
    {
        match self.nodes.remove(&k) {
            Some(_) => {
                let mut changed: Vec<StateField> = Vec::new();
                if self.nodeinfo_popup == Some(k) {
                    self.nodeinfo_popup = None;
                    changed.push(StateField::NodeinfoPopup);
                }
                changed.push(StateField::Nodes);
                changed
            },
            None => {
                proof {
                    assert(self.nodes@ =~= old(self).nodes@);
                }
                vec![]
            },
        }
    }

    fn node_owner_set(&mut self, user: NodeUser) -> (changed: Vec<StateField>)
        requires
            old(self).wf(),
            old(self).my_node_key is Some,
        ensures
            final(self).wf(),
            next_state(*old(self), StateAction::NodeOwnerSet(user), 0, 0, *final(self)),
            final(self).nodes_view == old(self).nodes_view,
            changed@ == changed_by(*old(self), StateAction::NodeOwnerSet(user)),
    {
        let k = match self.my_node_key {
            Some(k) => k,
            None => 0,
        };
        match self.nodes.remove(&k) {
            Some(e) => {
                let mut e = e;
                let hash = user_hash(&user);
                e.user = Some(user);
                self.nodes.insert(k, e);
                self.my_node_user_hash = hash;
                proof {
                    assert(self.nodes@ =~= old(self).nodes@.insert(
                        k,
                        Node { user: Some(user), ..old(self).nodes@[k] },
                    ));
                }
                vec![StateField::MyNodeUserHash, StateField::Nodes]
            },
            None => {
                proof {
                    assert(self.nodes@ =~= old(self).nodes@);
                }
                vec![]
            },
        }
    }

    fn channel_set(&mut self, key: u32, ch: Channel) -> (changed: Vec<StateField>)
        requires
            old(self).wf(),
        ensures
            final(self).wf(),
            next_state(*old(self), StateAction::ChannelSet(key, ch), 0, 0, *final(self)),
            final(self).nodes_view == old(self).nodes_view,
            changed@ == changed_by(*old(self), StateAction::ChannelSet(key, ch)),
    {
        let mut changed: Vec<StateField> = Vec::new();
        if !ch.role.is_disabled() {
            let chat = Chat::Channel(key);
            if !self.chats.contains_key(&chat) {
                let empty: Vec<u32> = Vec::new();
                self.chats.insert_sorted(chat, empty);
                changed.push(StateField::Chats);
            }
        }
        self.channels.insert_sorted(key, ch);
        changed.push(StateField::Channels);
        changed
    }

    fn message_add(&mut self, m: Message) -> (changed: Vec<StateField>)
        requires
            old(self).wf(),
            !m.is_emoji ==> old(self).my_node_key is Some,
        ensures
            final(self).wf(),
            next_state(*old(self), StateAction::MessageAdd(m), 0, 0, *final(self)),
            final(self).nodes_view == old(self).nodes_view,
            changed@ == changed_by(*old(self), StateAction::MessageAdd(m)),
    {
        if m.is_emoji {
            self.reaction_add(m);
            vec![StateField::Messages]
        } else {
            self.text_message_add(m);
            vec![StateField::Chats, StateField::Messages]
        }
    }

    fn reaction_add(&mut self, m: Message)
        requires
            old(self).wf(),
            m.is_emoji,
        ensures
            final(self).wf(),
            *final(self) == (State { messages: final(self).messages, ..*old(self) }),
            !old(self).messages@.contains_key(m.reply_message_id) ==> final(self).messages@
                == old(self).messages@.insert(m.id, m),
            old(self).messages@.contains_key(m.reply_message_id) ==> exists|r: Message|
                r == (Message { reactions: r.reactions, ..old(self).messages@[m.reply_message_id] })
                    && r.reactions@ == old(self).messages@[m.reply_message_id].reactions@.push(m.id)
                    && final(self).messages@ == old(self).messages@.insert(m.reply_message_id, r).insert(
                    m.id,
                    m,
                ),
    {
        let id = m.id;
        let reply = m.reply_message_id;
        match self.messages.remove(&reply) {
            Some(r) => {
                let mut r = r;
                r.reactions.push(id);
                let ghost rv = r;
                self.messages.insert(reply, r);
                proof {
                    assert(self.messages@ =~= old(self).messages@.insert(reply, rv));
                }
            },
            None => {
                proof {
                    assert(self.messages@ =~= old(self).messages@);
                }
            },
        }
        self.messages.insert(id, m);
    }

    fn text_message_add(&mut self, m: Message)
        requires
            old(self).wf(),
            !m.is_emoji,
            old(self).my_node_key is Some,
        ensures
            final(self).wf(),
            *final(self) == (State {
                messages: final(self).messages,
                chats: final(self).chats,
                ..*old(self)
            }),
            final(self).messages@ == old(self).messages@.insert(m.id, m),
            ({
                let chat = Chat::spec_of_message(m, my_key_or_zero(*old(self)));
                &&& !old(self).chats.contains(chat) ==> chat_added(
                    old(self).chats,
                    final(self).chats,
                    chat,
                    seq![m.id],
                )
                &&& old(self).chats.contains(chat) ==> exists|i: int, v: Vec<u32>|
                    0 <= i < old(self).chats.entries.len() && old(self).chats.entries@[i].0 == chat
                        && v@ == old(self).chats.entries@[i].1@.push(m.id)
                        && final(self).chats.entries@ == old(self).chats.entries@.update(i, (chat, v))
            }),
    {
        let id = m.id;
        let my = match self.my_node_key {
            Some(k) => k,
            None => 0,
        };
        let chat = Chat::of_message(&m, my);
        match self.chats.find(&chat) {
            Some(i) => {
                let mut ids = self.chats.value_at(i).clone();
                ids.push(id);
                self.chats.set_value(i, ids);
            },
            None => {
                let mut ids: Vec<u32> = Vec::new();
                ids.push(id);
                self.chats.insert_sorted(chat, ids);
            },
        }
        self.messages.insert(id, m);
    }

    fn form_value_set(&mut self, key: FormItemKey, value: FormValue) -> (changed: Vec<StateField>)
        requires
            old(self).wf(),
            old(self).settings_form_data matches Some(d) ==> key.fits(d@),
        ensures
            final(self).wf(),
            next_state(
                *old(self),
                StateAction::SettingsFormValueSet { key, value },
                0,
                0,
                *final(self),
            ),
            final(self).nodes_view == old(self).nodes_view,
            changed@ == changed_by(*old(self), StateAction::SettingsFormValueSet { key, value }),
    {
        match self.settings_form_data.take() {
            Some(d) => {
                let mut d = d;
                key.write(&mut d, value);
                let differs = match &self.settings_form_original_data {
                    Some(o) => !d.eq_data(o),
                    None => true,
                };
                self.settings_form_data = Some(d);
                self.settings_form_is_changed = differs;
                vec![StateField::SettingsFormData, StateField::SettingsFormIsChanged]
            },
            None => vec![],
        }
    }

    fn chat_purge(&mut self, chat: Chat)
        requires
            old(self).wf(),
        ensures
            final(self).wf(),
            next_state(*old(self), StateAction::ChatPurge(chat), 0, 0, *final(self)),
            final(self).nodes_view == old(self).nodes_view,
    {
        let my = match self.my_node_key {
            Some(k) => k,
            None => 0,
        };
        let ids = collect_purged(&self.messages, chat, my);
        let ghost pre_messages = self.messages@;
        let mut i: usize = 0;
        proof {
            assert(ids@.take(0).to_set() =~= Set::<u32>::empty());
            assert(pre_messages.remove_keys(Set::<u32>::empty()) =~= pre_messages);
        }
        while i < ids.len()
            invariant
                i <= ids.len(),
                self.wf(),
                *self == (State { messages: self.messages, ..*old(self) }),
                pre_messages == old(self).messages@,
                self.messages@ == pre_messages.remove_keys(ids@.take(i as int).to_set()),
            decreases ids.len() - i,
        {
            let id = ids[i];
            self.messages.remove(&id);
            proof {
                assert(ids@.take(i + 1) =~= ids@.take(i as int).push(id));
                ids@.take(i as int).lemma_push_to_set_commute(id);
                assert(self.messages@ =~= pre_messages.remove_keys(ids@.take(i + 1).to_set()));
            }
            i = i + 1;
        }
        proof {
            assert(ids@.take(ids.len() as int) =~= ids@);
            assert(ids@.to_set() =~= purged_ids(pre_messages, chat, my));
        }
        match chat {
            Chat::Channel(_) => {
                match self.chats.find(&chat) {
                    Some(i) => {
                        let empty: Vec<u32> = Vec::new();
                        let ghost before = self.chats.entries@;
                        self.chats.set_value(i, empty);
                        proof {
                            assert(before == old(self).chats.entries@);
                            assert(before[i as int].0 == chat);
                            assert(self.chats.entries@[i as int].1@ == Seq::<u32>::empty());
                            assert(forall|j: int|
                                0 <= j < before.len() && j != i ==> self.chats.entries@[j] == before[j]);
                            assert(old(self).chats.entries@[i as int].0 == chat);
                        }
                    },
                    None => {},
                }
            },
            Chat::Direct(_) => {
                let removed = self.chats.remove(&chat);
                proof {
                    if removed is Some {
                        let i = choose|i: int|
                            0 <= i < old(self).chats.entries.len() && old(self).chats.entries@[i] == (
                            chat,
                            removed->0,
                        ) && self.chats.entries@ == old(self).chats.entries@.remove(i);
                        assert(old(self).chats.entries@[i].0 == chat);
                        assert(self.chats.entries@ == old(self).chats.entries@.remove(i));
                    }
                }
            },
        }
    }

    /// Rebuilds the node list from the nodes, the filter and the ordering.
    pub fn update_nodes_view(&mut self, now: i64)
        requires
            old(self).wf(),
        ensures
            final(self).wf(),
            *final(self) == (State { nodes_view: final(self).nodes_view, ..*old(self) }),
            is_node_list_of(*final(self), now, final(self).nodes_view@),
    {
        self.nodes_view = nodes_view(
            &self.nodes,
            &self.nodes_last_telemetry,
            self.nodes_filter.as_str(),
            self.nodes_sort_by,
            self.my_node_key,
            now,
        );
    }
}

} // verus!
