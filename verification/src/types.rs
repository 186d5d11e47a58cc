use vstd::prelude::*;

verus! {

/// The number of top-level tabs.
pub const TAB_COUNT: usize = 5;

/// A top-level tab of the user interface, in display order.
#[derive(Debug, Clone, Copy, PartialEq, Eq, Structural, Hash)]
pub enum Tab {
    Chat,
    Nodes,
    Settings,
    Connection,
    Logs,
}

impl Tab {
    /// Position of the tab in display order.
    pub open spec fn spec_index(self) -> int {
        match self {
            Tab::Chat => 0,
            Tab::Nodes => 1,
            Tab::Settings => 2,
            Tab::Connection => 3,
            Tab::Logs => 4,
        }
    }

    /// The tab at position `i`, if there is one.
    pub open spec fn spec_from_index(i: int) -> Option<Tab> {
        if i == 0 {
            Some(Tab::Chat)
        } else if i == 1 {
            Some(Tab::Nodes)
        } else if i == 2 {
            Some(Tab::Settings)
        } else if i == 3 {
            Some(Tab::Connection)
        } else if i == 4 {
            Some(Tab::Logs)
        } else {
            None
        }
    }

    pub fn index(self) -> (r: usize)
        ensures
            r == self.spec_index(),
    {
        match self {
            Tab::Chat => 0,
            Tab::Nodes => 1,
            Tab::Settings => 2,
            Tab::Connection => 3,
            Tab::Logs => 4,
        }
    }

    /// The tab at position `i` (`None` past the last tab).
    pub fn from_repr(i: usize) -> (r: Option<Tab>)
        ensures
            r == Tab::spec_from_index(i as int),
    {
        match i {
            0 => Some(Tab::Chat),
            1 => Some(Tab::Nodes),
            2 => Some(Tab::Settings),
            3 => Some(Tab::Connection),
            4 => Some(Tab::Logs),
            _ => None,
        }
    }

    /// The tab's title.
    pub fn label(self) -> (r: &'static str)
        ensures
            r@ == match self {
                Tab::Chat => "chat"@,
                Tab::Nodes => "nodes"@,
                Tab::Settings => "settings"@,
                Tab::Connection => "connection"@,
                Tab::Logs => "logs"@,
            },
    {
        match self {
            Tab::Chat => "chat",
            Tab::Nodes => "nodes",
            Tab::Settings => "settings",
            Tab::Connection => "connection",
            Tab::Logs => "logs",
        }
    }

    /// The previous tab, wrapping from the first to the last.
    pub fn prev(self) -> (r: Tab)
        ensures
            r.spec_index() == (self.spec_index() + TAB_COUNT - 1) % (TAB_COUNT as int),
    {
        let current_index = self.index();
        let previous_index = if current_index == 0 {
            TAB_COUNT - 1
        } else {
            current_index - 1
        };
        match Tab::from_repr(previous_index) {
            Some(t) => t,
            None => self,
        }
    }

    /// The next tab, wrapping from the last to the first.
    pub fn next(self) -> (r: Tab)
        ensures
            r.spec_index() == (self.spec_index() + 1) % (TAB_COUNT as int),
    {
        let current_index = self.index();
        let next_index = if current_index >= TAB_COUNT - 1 {
            0
        } else {
            current_index + 1
        };
        match Tab::from_repr(next_index) {
            Some(t) => t,
            None => self,
        }
    }
}


impl Default for Tab {
    fn default() -> (r: Tab)
        ensures
            r == Tab::Chat,
    {
        Tab::Chat
    }
}

/// The number of node list orderings.
pub const NODES_SORT_BY_COUNT: usize = 6;

/// An ordering of the node list, in the order the user cycles through them.
#[derive(Debug, Clone, Copy, PartialEq, Eq, Structural, Hash)]
pub enum NodesSortBy {
    /// hops, then signal to noise ratio
    Hops,
    ShortName,
    LongName,
    LastHeard,
    /// role, then hops, then signal to noise ratio
    Role,
    /// hardware model, then short name
    HwModel,
}

impl NodesSortBy {
    /// Position of the ordering in the cycle.
    pub open spec fn spec_index(self) -> int {
        match self {
            NodesSortBy::Hops => 0,
            NodesSortBy::ShortName => 1,
            NodesSortBy::LongName => 2,
            NodesSortBy::LastHeard => 3,
            NodesSortBy::Role => 4,
            NodesSortBy::HwModel => 5,
        }
    }

    /// The ordering at position `i`, if there is one.
    pub open spec fn spec_from_index(i: int) -> Option<NodesSortBy> {
        if i == 0 {
            Some(NodesSortBy::Hops)
        } else if i == 1 {
            Some(NodesSortBy::ShortName)
        } else if i == 2 {
            Some(NodesSortBy::LongName)
        } else if i == 3 {
            Some(NodesSortBy::LastHeard)
        } else if i == 4 {
            Some(NodesSortBy::Role)
        } else if i == 5 {
            Some(NodesSortBy::HwModel)
        } else {
            None
        }
    }

    pub fn index(self) -> (r: usize)
        ensures
            r == self.spec_index(),
    {
        match self {
            NodesSortBy::Hops => 0,
            NodesSortBy::ShortName => 1,
            NodesSortBy::LongName => 2,
            NodesSortBy::LastHeard => 3,
            NodesSortBy::Role => 4,
            NodesSortBy::HwModel => 5,
        }
    }

    /// The ordering at position `i` (`None` past the last one).
    pub fn from_repr(i: usize) -> (r: Option<NodesSortBy>)
        ensures
            r == NodesSortBy::spec_from_index(i as int),
    {
        match i {
            0 => Some(NodesSortBy::Hops),
            1 => Some(NodesSortBy::ShortName),
            2 => Some(NodesSortBy::LongName),
            3 => Some(NodesSortBy::LastHeard),
            4 => Some(NodesSortBy::Role),
            5 => Some(NodesSortBy::HwModel),
            _ => None,
        }
    }

    /// How the ordering is named in the node list.
    pub fn label(self) -> (r: &'static str)
        ensures
            r@ == match self {
                NodesSortBy::Hops => "hops / snr"@,
                NodesSortBy::ShortName => "short name"@,
                NodesSortBy::LongName => "long name"@,
                NodesSortBy::LastHeard => "last heard"@,
                NodesSortBy::Role => "role / hops / snr"@,
                NodesSortBy::HwModel => "hardware / short name"@,
            },
    {
        match self {
            NodesSortBy::Hops => "hops / snr",
            NodesSortBy::ShortName => "short name",
            NodesSortBy::LongName => "long name",
            NodesSortBy::LastHeard => "last heard",
            NodesSortBy::Role => "role / hops / snr",
            NodesSortBy::HwModel => "hardware / short name",
        }
    }

    /// The previous ordering, wrapping from the first to the last.
    pub fn prev(self) -> (r: NodesSortBy)
        ensures
            r.spec_index() == (self.spec_index() + NODES_SORT_BY_COUNT - 1) % (
            NODES_SORT_BY_COUNT as int),
    {
        let current_index = self.index();
        let previous_index = if current_index == 0 {
            NODES_SORT_BY_COUNT - 1
        } else {
            current_index - 1
        };
        match NodesSortBy::from_repr(previous_index) {
            Some(s) => s,
            None => self,
        }
    }

    /// The next ordering, wrapping from the last to the first.
    pub fn next(self) -> (r: NodesSortBy)
        ensures
            r.spec_index() == (self.spec_index() + 1) % (NODES_SORT_BY_COUNT as int),
    {
        let current_index = self.index();
        let next_index = if current_index >= NODES_SORT_BY_COUNT - 1 {
            0
        } else {
            current_index + 1
        };
        match NodesSortBy::from_repr(next_index) {
            Some(s) => s,
            None => self,
        }
    }
}

impl Default for NodesSortBy {
    fn default() -> (r: NodesSortBy)
        ensures
            r == NodesSortBy::Hops,
    {
        NodesSortBy::Hops
    }
}

/// A keyboard shortcut shown in the footer: the key and what it does.
#[derive(Debug, Clone)]
pub struct Hotkey {
    pub key: String,
    pub label: String,
}

impl Hotkey {
    pub fn new(key: &str, label: &str) -> (r: Hotkey)
        ensures
            r.key@ == key@,
            r.label@ == label@,
    {
        Hotkey { key: key.to_string(), label: label.to_string() }
    }
}

/// The kind of a toast notification.
#[derive(Debug, Clone, Copy, PartialEq, Eq, Structural)]
pub enum ToastKind {
    Success,
    Normal,
    Warning,
    Error,
}

impl ToastKind {
    /// How long a toast of this kind stays on screen, in milliseconds.
    pub open spec fn spec_timeout(self) -> u128 {
        match self {
            ToastKind::Success => 1500,
            ToastKind::Normal => 1500,
            ToastKind::Warning => 2000,
            ToastKind::Error => 3000,
        }
    }

    pub fn timeout(&self) -> (r: u128)
        ensures
            r == self.spec_timeout(),
    {
        match self {
            ToastKind::Success => 1500,
            ToastKind::Normal => 1500,
            ToastKind::Warning => 2000,
            ToastKind::Error => 3000,
        }
    }
}

/// A short notification shown in the header.
#[derive(Debug, Clone)]
pub struct Toast {
    pub kind: ToastKind,
    pub text: String,
}

impl Toast {
    pub fn success(text: &str) -> (r: Toast)
        ensures
            r.kind == ToastKind::Success,
            r.text@ == text@,
    {
        Toast { kind: ToastKind::Success, text: text.to_string() }
    }

    pub fn normal(text: &str) -> (r: Toast)
        ensures
            r.kind == ToastKind::Normal,
            r.text@ == text@,
    {
        Toast { kind: ToastKind::Normal, text: text.to_string() }
    }

    pub fn warning(text: &str) -> (r: Toast)
        ensures
            r.kind == ToastKind::Warning,
            r.text@ == text@,
    {
        Toast { kind: ToastKind::Warning, text: text.to_string() }
    }

    pub fn error(text: &str) -> (r: Toast)
        ensures
            r.kind == ToastKind::Error,
            r.text@ == text@,
    {
        Toast { kind: ToastKind::Error, text: text.to_string() }
    }
}


/// The role of a chat channel. `Direct` marks a conversation with one node.
#[derive(Debug, Clone, Copy, PartialEq, Eq, Structural)]
pub enum ChannelRole {
    Disabled,
    Primary,
    Secondary,
    Direct,
}

/// Code of the primary role in the radio's channel protocol.
pub const PROTOBUF_ROLE_PRIMARY: i32 = 1;

/// Code of the secondary role in the radio's channel protocol.
pub const PROTOBUF_ROLE_SECONDARY: i32 = 2;

/// Code of the disabled role in the radio's channel protocol.
pub const PROTOBUF_ROLE_DISABLED: i32 = 0;

impl ChannelRole {
    pub fn is_disabled(&self) -> (r: bool)
        ensures
            r == (*self == ChannelRole::Disabled),
    {
        match self {
            ChannelRole::Disabled => true,
            _ => false,
        }
    }

    pub fn is_direct(&self) -> (r: bool)
        ensures
            r == (*self == ChannelRole::Direct),
    {
        match self {
            ChannelRole::Direct => true,
            _ => false,
        }
    }

    /// The role that a radio's channel role code stands for; unknown codes
    /// read as disabled, as the protocol's decoder reads them.
    pub open spec fn spec_from_code(code: i32) -> ChannelRole {
        if code == PROTOBUF_ROLE_PRIMARY {
            ChannelRole::Primary
        } else if code == PROTOBUF_ROLE_SECONDARY {
            ChannelRole::Secondary
        } else {
            ChannelRole::Disabled
        }
    }

    pub fn from_code(code: i32) -> (r: ChannelRole)
        ensures
            r == ChannelRole::spec_from_code(code),
    {
        if code == PROTOBUF_ROLE_PRIMARY {
            ChannelRole::Primary
        } else if code == PROTOBUF_ROLE_SECONDARY {
            ChannelRole::Secondary
        } else {
            ChannelRole::Disabled
        }
    }
}

/// The settings part of a radio channel as the radio reports it.
#[derive(Debug, Clone)]
pub struct ChannelSettings {
    pub id: u32,
    pub name: String,
    pub psk: Vec<u8>,
    pub uplink_enabled: bool,
    pub downlink_enabled: bool,
    /// position precision and mute flag, when the radio sends module settings
    pub module_settings: Option<(u32, bool)>,
}

/// A chat channel of the radio, or a direct conversation with a node.
#[derive(Debug, Clone)]
pub struct Channel {
    pub key: u32,
    pub id: u32,
    pub role: ChannelRole,
    pub name: String,
    pub psk: Vec<u8>,
    pub uplink_enabled: bool,
    pub downlink_enabled: bool,
    pub position_precision: u32,
    pub is_muted: bool,
    pub is_enabled: bool,
}

impl Channel {
    /// Whether `c` is the blank channel of `key` and `role`.
    pub open spec fn is_blank(c: Channel, key: u32, role: ChannelRole) -> bool {
        &&& c.key == key
        &&& c.id == 0
        &&& c.role == role
        &&& c.name@ == Seq::<char>::empty()
        &&& c.psk@ == Seq::<u8>::empty()
        &&& !c.uplink_enabled
        &&& !c.downlink_enabled
        &&& c.position_precision == 0
        &&& !c.is_muted
        &&& !c.is_enabled
    }

    /// The disabled channel at slot `index`.
    pub fn disabled(index: u32) -> (r: Channel)
        ensures
            Channel::is_blank(r, index, ChannelRole::Disabled),
    {
        Channel {
            key: index,
            id: 0,
            role: ChannelRole::Disabled,
            name: String::new(),
            psk: Vec::new(),
            uplink_enabled: false,
            downlink_enabled: false,
            position_precision: 0,
            is_muted: false,
            is_enabled: false,
        }
    }

    /// The direct conversation with the node `node_key`.
    pub fn direct(node_key: u32) -> (r: Channel)
        ensures
            Channel::is_blank(r, node_key, ChannelRole::Direct),
    {
        Channel {
            key: node_key,
            id: 0,
            role: ChannelRole::Direct,
            name: String::new(),
            psk: Vec::new(),
            uplink_enabled: false,
            downlink_enabled: false,
            position_precision: 0,
            is_muted: false,
            is_enabled: false,
        }
    }

    /// The channel the radio reports at slot `index`, with role code
    /// `role_code` and its settings, if it sent any.
    pub fn from_radio(index: i32, role_code: i32, settings: Option<ChannelSettings>) -> (r: Channel)
        ensures
            settings is None ==> Channel::is_blank(r, index as u32, ChannelRole::Disabled),
            settings matches Some(s) ==> {
                &&& r.key == index as u32
                &&& r.id == s.id
                &&& r.role == ChannelRole::spec_from_code(role_code)
                &&& r.name@ == s.name@
                &&& r.psk@ == s.psk@
                &&& r.uplink_enabled == s.uplink_enabled
                &&& r.downlink_enabled == s.downlink_enabled
                &&& r.position_precision == (match s.module_settings {
                    Some(ms) => ms.0,
                    None => 0,
                })
                &&& r.is_muted == (match s.module_settings {
                    Some(ms) => ms.1,
                    None => false,
                })
                &&& r.is_enabled == (ChannelRole::spec_from_code(role_code) != ChannelRole::Disabled)
            },
    {
        let key = index as u32;
        match settings {
            Some(s) => {
                let role = ChannelRole::from_code(role_code);
                let (position_precision, is_muted) = match s.module_settings {
                    Some(ms) => ms,
                    None => (0, false),
                };
                Channel {
                    key,
                    id: s.id,
                    role,
                    name: s.name,
                    psk: s.psk,
                    uplink_enabled: s.uplink_enabled,
                    downlink_enabled: s.downlink_enabled,
                    position_precision,
                    is_muted,
                    is_enabled: !role.is_disabled(),
                }
            },
            None => Channel::disabled(key),
        }
    }

    /// The role code this channel is sent to the radio with: the enabled
    /// slot zero is primary, any other enabled slot secondary, the rest disabled.
    pub open spec fn spec_protocol_role(self) -> i32 {
        if !self.is_enabled {
            PROTOBUF_ROLE_DISABLED
        } else if self.key == 0 {
            PROTOBUF_ROLE_PRIMARY
        } else {
            PROTOBUF_ROLE_SECONDARY
        }
    }

    pub fn protocol_role(&self) -> (r: i32)
        ensures
            r == self.spec_protocol_role(),
    {
        if !self.is_enabled {
            PROTOBUF_ROLE_DISABLED
        } else if self.key == 0 {
            PROTOBUF_ROLE_PRIMARY
        } else {
            PROTOBUF_ROLE_SECONDARY
        }
    }

    /// The settings this channel is sent to the radio with: none for a
    /// disabled channel, otherwise its own settings keyed by its slot.
    pub fn protocol_settings(&self) -> (r: Option<ChannelSettings>)
        ensures
            !self.is_enabled ==> r is None,
            self.is_enabled ==> (r matches Some(s) && s.id == self.key && s.name@ == self.name@
                && s.psk@ == self.psk@ && s.uplink_enabled == self.uplink_enabled
                && s.downlink_enabled == self.downlink_enabled && s.module_settings == Some(
                (self.position_precision, self.is_muted),
            )),
    {
        if self.is_enabled {
            Some(
                ChannelSettings {
                    id: self.key,
                    name: self.name.clone(),
                    psk: self.psk.clone(),
                    uplink_enabled: self.uplink_enabled,
                    downlink_enabled: self.downlink_enabled,
                    module_settings: Some((self.position_precision, self.is_muted)),
                },
            )
        } else {
            None
        }
    }
}


/// An entry of the settings menu: a group heading or a form.
#[derive(Debug, Clone)]
pub enum SettingsItem {
    Group { title: &'static str },
    Form { title: &'static str, id: FormId },
}

impl SettingsItem {
    pub fn group(title: &'static str) -> (r: SettingsItem)
        ensures
            r == (SettingsItem::Group { title }),
    {
        SettingsItem::Group { title }
    }

    pub fn form(title: &'static str, id: FormId) -> (r: SettingsItem)
        ensures
            r == (SettingsItem::Form { title, id }),
    {
        SettingsItem::Form { title, id }
    }
}

/// A settings form.
#[derive(Debug, Clone, Copy, PartialEq, Eq, Structural)]
pub enum FormId {
    RadioLora,
    RadioChannels,
    RadioSecurity,
    DeviceUser,
    DeviceDevice,
    DevicePosition,
    DevicePower,
    DeviceDisplay,
    DeviceBluetooth,
    DeviceNetwork,
    DeviceAdministration,
    ModuleMqtt,
    ModuleSerial,
    ModuleExternalNotification,
    ModuleStoreAndForward,
    ModuleRangeTest,
    ModuleTelemetry,
    ModuleCannedMessage,
    ModuleNeighborInfo,
    ModuleAmbientLighting,
    ModuleDetectionSensor,
    ModuleTrafficManagement,
    AppUi,
    AppDb,
}

/// Where the settings form in view stands.
#[derive(Debug, Clone, PartialEq)]
pub enum SettingsFormState {
    Inactive,
    Loading { id: FormId },
    LoadingFailed { id: FormId, error: String },
    Loaded { id: FormId },
    Saving { id: FormId },
}

impl Default for SettingsFormState {
    fn default() -> (r: SettingsFormState)
        ensures
            r == SettingsFormState::Inactive,
    {
        SettingsFormState::Inactive
    }
}

/// One bit of a bit mask setting: its title and its value.
#[derive(Debug, Clone)]
pub struct FormBitMaskVariant {
    pub title: String,
    pub value: u32,
}

impl FormBitMaskVariant {
    pub fn new(title: &str, value: u32) -> (r: FormBitMaskVariant)
        ensures
            r.title@ == title@,
            r.value == value,
    {
        FormBitMaskVariant { title: title.to_string(), value }
    }
}

/// Which of the four screen paddings the user has hidden.
#[derive(Debug, Clone, Copy, PartialEq, Eq, Structural, Hash)]
pub struct UiConfig {
    pub is_top_padding_hidden: bool,
    pub is_bottom_padding_hidden: bool,
    pub is_left_padding_hidden: bool,
    pub is_right_padding_hidden: bool,
}

impl Default for UiConfig {
    fn default() -> (r: UiConfig)
        ensures
            !r.is_top_padding_hidden && !r.is_bottom_padding_hidden && !r.is_left_padding_hidden
                && !r.is_right_padding_hidden,
    {
        UiConfig {
            is_top_padding_hidden: false,
            is_bottom_padding_hidden: false,
            is_left_padding_hidden: false,
            is_right_padding_hidden: false,
        }
    }
}

/// Progress of the search for radios to connect to.
#[derive(Debug, Clone, PartialEq)]
pub enum DeviceDiscoveringState {
    NotStarted,
    Discovering,
    Failed(String),
    Done,
}

impl Default for DeviceDiscoveringState {
    fn default() -> (r: DeviceDiscoveringState)
        ensures
            r == DeviceDiscoveringState::NotStarted,
    {
        DeviceDiscoveringState::NotStarted
    }
}

/// The link to the radio. A problem carries the monotonic clock reading, in
/// milliseconds, at which it was detected, and the error.
#[derive(Debug, Clone)]
pub enum ConnectionState {
    NotConnected,
    ProblemDetected { since_millis: u64, error: String },
    Connecting,
    Connected,
}

impl Default for ConnectionState {
    fn default() -> (r: ConnectionState)
        ensures
            r is NotConnected,
    {
        ConnectionState::NotConnected
    }
}

} // verus!
