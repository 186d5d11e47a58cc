//! The settings menu, and which part of the known configuration each
//! settings form is loaded from and saved to.
use vstd::prelude::*;
use crate::state::State;
use crate::types::{Channel, ChannelRole, FormId, SettingsItem};

verus! {

/// The forms of the settings menu, in menu order.
pub open spec fn menu_forms() -> Seq<FormId> {
    seq![
        FormId::AppUi,
        FormId::RadioLora,
        FormId::RadioChannels,
        FormId::RadioSecurity,
        FormId::DeviceUser,
        FormId::DeviceDevice,
        FormId::DevicePosition,
        FormId::DevicePower,
        FormId::DeviceDisplay,
        FormId::DeviceBluetooth,
        FormId::DeviceNetwork,
        FormId::DeviceAdministration,
        FormId::ModuleMqtt,
        FormId::ModuleSerial,
        FormId::ModuleExternalNotification,
        FormId::ModuleStoreAndForward,
        FormId::ModuleRangeTest,
        FormId::ModuleTelemetry,
        FormId::ModuleCannedMessage,
        FormId::ModuleNeighborInfo,
        FormId::ModuleAmbientLighting,
        FormId::ModuleDetectionSensor,
        FormId::ModuleTrafficManagement,
    ]
}

/// The forms among the menu's entries, in order.
pub open spec fn forms_of(items: Seq<SettingsItem>) -> Seq<FormId>
    decreases items.len(),
{
    if items.len() == 0 {
        Seq::empty()
    } else {
        let rest = forms_of(items.drop_last());
        match items.last() {
            SettingsItem::Form { id, .. } => rest.push(id),
            SettingsItem::Group { .. } => rest,
        }
    }
}

/// The settings menu: its groups and forms by their titles, in order.
pub open spec fn spec_settings_menu() -> Seq<SettingsItem> {
    seq![
        SettingsItem::Group { title: "App" },
        SettingsItem::Form { title: "UI", id: FormId::AppUi },
        SettingsItem::Group { title: "Radio" },
        SettingsItem::Form { title: "LoRa", id: FormId::RadioLora },
        SettingsItem::Form { title: "Channels", id: FormId::RadioChannels },
        SettingsItem::Form { title: "Security", id: FormId::RadioSecurity },
        SettingsItem::Group { title: "Device" },
        SettingsItem::Form { title: "User", id: FormId::DeviceUser },
        SettingsItem::Form { title: "Device", id: FormId::DeviceDevice },
        SettingsItem::Form { title: "Position", id: FormId::DevicePosition },
        SettingsItem::Form { title: "Power", id: FormId::DevicePower },
        SettingsItem::Form { title: "Display", id: FormId::DeviceDisplay },
        SettingsItem::Form { title: "Bluetooth", id: FormId::DeviceBluetooth },
        SettingsItem::Form { title: "Network", id: FormId::DeviceNetwork },
        SettingsItem::Form { title: "Administration", id: FormId::DeviceAdministration },
        SettingsItem::Group { title: "Module" },
        SettingsItem::Form { title: "MQTT", id: FormId::ModuleMqtt },
        SettingsItem::Form { title: "Serial", id: FormId::ModuleSerial },
        SettingsItem::Form { title: "External Notification", id: FormId::ModuleExternalNotification },
        SettingsItem::Form { title: "Store & Forward", id: FormId::ModuleStoreAndForward },
        SettingsItem::Form { title: "Range Test", id: FormId::ModuleRangeTest },
        SettingsItem::Form { title: "Telemetry", id: FormId::ModuleTelemetry },
        SettingsItem::Form { title: "Canned Message", id: FormId::ModuleCannedMessage },
        SettingsItem::Form { title: "Neighbor Info", id: FormId::ModuleNeighborInfo },
        SettingsItem::Form { title: "Ambient Lighting", id: FormId::ModuleAmbientLighting },
        SettingsItem::Form { title: "Detection Sensor", id: FormId::ModuleDetectionSensor },
        SettingsItem::Form { title: "Traffic Management", id: FormId::ModuleTrafficManagement },
    ]
}

/// The settings menu: four groups (App, Radio, Device, Module), each
/// followed by its forms.
pub fn build_settings() -> (r: Vec<SettingsItem>)
    ensures
        r@ == spec_settings_menu(),
        r.len() == 27,
        forms_of(r@) == menu_forms(),
        r@[0] == (SettingsItem::Group { title: "App" }),
        r@[2] == (SettingsItem::Group { title: "Radio" }),
        r@[6] == (SettingsItem::Group { title: "Device" }),
        r@[15] == (SettingsItem::Group { title: "Module" }),
{
    let r = vec![
        SettingsItem::group("App"),
        SettingsItem::form("UI", FormId::AppUi),
        SettingsItem::group("Radio"),
        SettingsItem::form("LoRa", FormId::RadioLora),
        SettingsItem::form("Channels", FormId::RadioChannels),
        SettingsItem::form("Security", FormId::RadioSecurity),
        SettingsItem::group("Device"),
        SettingsItem::form("User", FormId::DeviceUser),
        SettingsItem::form("Device", FormId::DeviceDevice),
        SettingsItem::form("Position", FormId::DevicePosition),
        SettingsItem::form("Power", FormId::DevicePower),
        SettingsItem::form("Display", FormId::DeviceDisplay),
        SettingsItem::form("Bluetooth", FormId::DeviceBluetooth),
        SettingsItem::form("Network", FormId::DeviceNetwork),
        SettingsItem::form("Administration", FormId::DeviceAdministration),
        SettingsItem::group("Module"),
        SettingsItem::form("MQTT", FormId::ModuleMqtt),
        SettingsItem::form("Serial", FormId::ModuleSerial),
        SettingsItem::form("External Notification", FormId::ModuleExternalNotification),
        SettingsItem::form("Store & Forward", FormId::ModuleStoreAndForward),
        SettingsItem::form("Range Test", FormId::ModuleRangeTest),
        SettingsItem::form("Telemetry", FormId::ModuleTelemetry),
        SettingsItem::form("Canned Message", FormId::ModuleCannedMessage),
        SettingsItem::form("Neighbor Info", FormId::ModuleNeighborInfo),
        SettingsItem::form("Ambient Lighting", FormId::ModuleAmbientLighting),
        SettingsItem::form("Detection Sensor", FormId::ModuleDetectionSensor),
        SettingsItem::form("Traffic Management", FormId::ModuleTrafficManagement),
    ];
    proof {
        reveal_with_fuel(forms_of, 28);
        assert(r@ =~= spec_settings_menu());
        assert(forms_of(r@) =~= menu_forms());
    }
    r
}

/// A part of the configuration that a settings form edits.
#[derive(Debug, Clone, Copy, PartialEq, Eq, Structural)]
pub enum ConfigSection {
    Ui,
    Lora,
    Channels,
    Security,
    User,
    Device,
    Position,
    Power,
    Display,
    Bluetooth,
    Network,
    Mqtt,
    Serial,
    ExternalNotification,
    StoreForward,
    RangeTest,
    Telemetry,
    CannedMessage,
    NeighborInfo,
    AmbientLighting,
    DetectionSensor,
    TrafficManagement,
}

/// How a saved section reaches its place.
#[derive(Debug, Clone, Copy, PartialEq, Eq, Structural)]
pub enum SaveRoute {
    /// into the application's own configuration
    AppConfig,
    /// to the radio, as a section of its configuration
    RadioConfig,
    /// to the radio, as a section of its modules' configuration
    ModuleConfig,
    /// to the radio, as its channels
    Channels,
    /// to the radio, as the user of its node
    User,
}

impl ConfigSection {
    /// Where a section is saved.
    pub open spec fn spec_route(self) -> SaveRoute {
        match self {
            ConfigSection::Ui => SaveRoute::AppConfig,
            ConfigSection::Channels => SaveRoute::Channels,
            ConfigSection::User => SaveRoute::User,
            ConfigSection::Lora | ConfigSection::Security | ConfigSection::Device | ConfigSection::Position
            | ConfigSection::Power | ConfigSection::Display | ConfigSection::Bluetooth
            | ConfigSection::Network => SaveRoute::RadioConfig,
            _ => SaveRoute::ModuleConfig,
        }
    }

    pub fn route(&self) -> (r: SaveRoute)
        ensures
            r == self.spec_route(),
    {
        match self {
            ConfigSection::Ui => SaveRoute::AppConfig,
            ConfigSection::Channels => SaveRoute::Channels,
            ConfigSection::User => SaveRoute::User,
            ConfigSection::Lora | ConfigSection::Security | ConfigSection::Device | ConfigSection::Position
            | ConfigSection::Power | ConfigSection::Display | ConfigSection::Bluetooth
            | ConfigSection::Network => SaveRoute::RadioConfig,
            _ => SaveRoute::ModuleConfig,
        }
    }

    /// The message given when a form is opened before its section is known.
    pub open spec fn spec_not_loaded_message(self) -> &'static str {
        match self {
            ConfigSection::Ui => "UI config not loaded",
            ConfigSection::Lora => "Lora config not loaded",
            ConfigSection::Channels => "Channels data not loaded",
            ConfigSection::Security => "Security config not loaded",
            ConfigSection::User => "User config not loaded",
            ConfigSection::Device => "Device config not loaded",
            ConfigSection::Position => "Position config not loaded",
            ConfigSection::Power => "Power config not loaded",
            ConfigSection::Display => "Display config not loaded",
            ConfigSection::Bluetooth => "Bluetooth config not loaded",
            ConfigSection::Network => "Network config not loaded",
            ConfigSection::Mqtt => "MQTT config not loaded",
            ConfigSection::Serial => "Serial config not loaded",
            ConfigSection::ExternalNotification => "External Notification config not loaded",
            ConfigSection::StoreForward => "Store & Forward config not loaded",
            ConfigSection::RangeTest => "Range Test config not loaded",
            ConfigSection::Telemetry => "Telemetry config not loaded",
            ConfigSection::CannedMessage => "Canned Message config not loaded",
            ConfigSection::NeighborInfo => "Neighbor Info config not loaded",
            ConfigSection::AmbientLighting => "Ambient Lighting config not loaded",
            ConfigSection::DetectionSensor => "Detection Sensor config not loaded",
            ConfigSection::TrafficManagement => "Traffic Management config not loaded or it's not supported by the device firmware",
        }
    }

    pub fn not_loaded_message(&self) -> (r: &'static str)
        ensures
            r == self.spec_not_loaded_message(),
    {
        match self {
            ConfigSection::Ui => "UI config not loaded",
            ConfigSection::Lora => "Lora config not loaded",
            ConfigSection::Channels => "Channels data not loaded",
            ConfigSection::Security => "Security config not loaded",
            ConfigSection::User => "User config not loaded",
            ConfigSection::Device => "Device config not loaded",
            ConfigSection::Position => "Position config not loaded",
            ConfigSection::Power => "Power config not loaded",
            ConfigSection::Display => "Display config not loaded",
            ConfigSection::Bluetooth => "Bluetooth config not loaded",
            ConfigSection::Network => "Network config not loaded",
            ConfigSection::Mqtt => "MQTT config not loaded",
            ConfigSection::Serial => "Serial config not loaded",
            ConfigSection::ExternalNotification => "External Notification config not loaded",
            ConfigSection::StoreForward => "Store & Forward config not loaded",
            ConfigSection::RangeTest => "Range Test config not loaded",
            ConfigSection::Telemetry => "Telemetry config not loaded",
            ConfigSection::CannedMessage => "Canned Message config not loaded",
            ConfigSection::NeighborInfo => "Neighbor Info config not loaded",
            ConfigSection::AmbientLighting => "Ambient Lighting config not loaded",
            ConfigSection::DetectionSensor => "Detection Sensor config not loaded",
            ConfigSection::TrafficManagement => "Traffic Management config not loaded or it's not supported by the device firmware",
        }
    }
}

/// The section a form edits; `None` for a form that starts empty and saves
/// nothing.
pub open spec fn spec_form_section(id: FormId) -> Option<ConfigSection> {
    match id {
        FormId::AppUi => Some(ConfigSection::Ui),
        FormId::RadioLora => Some(ConfigSection::Lora),
        FormId::RadioChannels => Some(ConfigSection::Channels),
        FormId::RadioSecurity => Some(ConfigSection::Security),
        FormId::DeviceUser => Some(ConfigSection::User),
        FormId::DeviceDevice => Some(ConfigSection::Device),
        FormId::DevicePosition => Some(ConfigSection::Position),
        FormId::DevicePower => Some(ConfigSection::Power),
        FormId::DeviceDisplay => Some(ConfigSection::Display),
        FormId::DeviceBluetooth => Some(ConfigSection::Bluetooth),
        FormId::DeviceNetwork => Some(ConfigSection::Network),
        FormId::ModuleMqtt => Some(ConfigSection::Mqtt),
        FormId::ModuleSerial => Some(ConfigSection::Serial),
        FormId::ModuleExternalNotification => Some(ConfigSection::ExternalNotification),
        FormId::ModuleStoreAndForward => Some(ConfigSection::StoreForward),
        FormId::ModuleRangeTest => Some(ConfigSection::RangeTest),
        FormId::ModuleTelemetry => Some(ConfigSection::Telemetry),
        FormId::ModuleCannedMessage => Some(ConfigSection::CannedMessage),
        FormId::ModuleNeighborInfo => Some(ConfigSection::NeighborInfo),
        FormId::ModuleAmbientLighting => Some(ConfigSection::AmbientLighting),
        FormId::ModuleDetectionSensor => Some(ConfigSection::DetectionSensor),
        FormId::ModuleTrafficManagement => Some(ConfigSection::TrafficManagement),
        _ => None,
    }
}

pub fn form_section(id: FormId) -> (r: Option<ConfigSection>)
    ensures
        r == spec_form_section(id),
{
    match id {
        FormId::AppUi => Some(ConfigSection::Ui),
        FormId::RadioLora => Some(ConfigSection::Lora),
        FormId::RadioChannels => Some(ConfigSection::Channels),
        FormId::RadioSecurity => Some(ConfigSection::Security),
        FormId::DeviceUser => Some(ConfigSection::User),
        FormId::DeviceDevice => Some(ConfigSection::Device),
        FormId::DevicePosition => Some(ConfigSection::Position),
        FormId::DevicePower => Some(ConfigSection::Power),
        FormId::DeviceDisplay => Some(ConfigSection::Display),
        FormId::DeviceBluetooth => Some(ConfigSection::Bluetooth),
        FormId::DeviceNetwork => Some(ConfigSection::Network),
        FormId::ModuleMqtt => Some(ConfigSection::Mqtt),
        FormId::ModuleSerial => Some(ConfigSection::Serial),
        FormId::ModuleExternalNotification => Some(ConfigSection::ExternalNotification),
        FormId::ModuleStoreAndForward => Some(ConfigSection::StoreForward),
        FormId::ModuleRangeTest => Some(ConfigSection::RangeTest),
        FormId::ModuleTelemetry => Some(ConfigSection::Telemetry),
        FormId::ModuleCannedMessage => Some(ConfigSection::CannedMessage),
        FormId::ModuleNeighborInfo => Some(ConfigSection::NeighborInfo),
        FormId::ModuleAmbientLighting => Some(ConfigSection::AmbientLighting),
        FormId::ModuleDetectionSensor => Some(ConfigSection::DetectionSensor),
        FormId::ModuleTrafficManagement => Some(ConfigSection::TrafficManagement),
        _ => None,
    }
}

/// Whether the state holds a channel that is not a direct conversation.
pub open spec fn has_group_channel(channels: Seq<(u32, Channel)>) -> bool {
    exists|i: int| 0 <= i < channels.len() && (#[trigger] channels[i]).1.role != ChannelRole::Direct
}

/// Whether the state knows the section: the application's own settings
/// always, the channels once one that is not a direct conversation is
/// known, the user once the radio's own node is known, and each section of
/// the radio's configuration once the radio has sent it.
pub open spec fn section_known(state: State, section: ConfigSection) -> bool {
    match section {
        ConfigSection::Ui => true,
        ConfigSection::Channels => has_group_channel(state.channels.entries@),
        ConfigSection::User => state.my_node_key matches Some(k) && state.nodes@.dom().contains(k),
        ConfigSection::Lora => state.device_config.lora is Some,
        ConfigSection::Security => state.device_config.security is Some,
        ConfigSection::Device => state.device_config.device is Some,
        ConfigSection::Position => state.device_config.position is Some,
        ConfigSection::Power => state.device_config.power is Some,
        ConfigSection::Display => state.device_config.display is Some,
        ConfigSection::Bluetooth => state.device_config.bluetooth is Some,
        ConfigSection::Network => state.device_config.network is Some,
        ConfigSection::Mqtt => state.device_module_config.mqtt is Some,
        ConfigSection::Serial => state.device_module_config.serial is Some,
        ConfigSection::ExternalNotification => state.device_module_config.external_notification is Some,
        ConfigSection::StoreForward => state.device_module_config.store_forward is Some,
        ConfigSection::RangeTest => state.device_module_config.range_test is Some,
        ConfigSection::Telemetry => state.device_module_config.telemetry is Some,
        ConfigSection::CannedMessage => state.device_module_config.canned_message is Some,
        ConfigSection::NeighborInfo => state.device_module_config.neighbor is Some,
        ConfigSection::AmbientLighting => state.device_module_config.ambient_lighting is Some,
        ConfigSection::DetectionSensor => state.device_module_config.detection_sensor is Some,
        ConfigSection::TrafficManagement => state.device_module_config.traffic_management is Some,
    }
}

/// The keys of the group channels (those that are no direct chat), in
/// order: the channels the channels form edits.
pub open spec fn group_channel_keys(channels: Seq<(u32, Channel)>) -> Seq<u32>
    decreases channels.len(),
{
    if channels.len() == 0 {
        Seq::empty()
    } else {
        let before = group_channel_keys(channels.drop_last());
        if channels.last().1.role == ChannelRole::Direct {
            before
        } else {
            before.push(channels.last().0)
        }
    }
}

/// The keys of the channels the channels form edits: every channel but
/// the direct chats, in order. There is one exactly when the form can be
/// loaded.
pub fn form_channel_keys(channels: &Vec<(u32, Channel)>) -> (r: Vec<u32>)
    ensures
        r@ == group_channel_keys(channels@),
        r@.len() > 0 <==> has_group_channel(channels@),
{
    let mut r: Vec<u32> = Vec::new();
    let mut i: usize = 0;
    while i < channels.len()
        invariant
            i <= channels.len(),
            r@ == group_channel_keys(channels@.take(i as int)),
            r@.len() > 0 <==> exists|j: int| 0 <= j < i && (#[trigger] channels@[j]).1.role != ChannelRole::Direct,
        decreases channels.len() - i,
    {
        proof {
            assert(channels@.take(i + 1).drop_last() =~= channels@.take(i as int));
            assert(channels@.take(i + 1).last() == channels@[i as int]);
        }
        if !channels[i].1.role.is_direct() {
            r.push(channels[i].0);
        }
        i = i + 1;
    }
    proof {
        assert(channels@.take(channels.len() as int) =~= channels@);
    }
    r
}

fn has_group_channel_in(channels: &Vec<(u32, Channel)>) -> (r: bool)
    ensures
        r == has_group_channel(channels@),
{
    let mut i: usize = 0;
    while i < channels.len()
        invariant
            i <= channels.len(),
            forall|j: int| 0 <= j < i ==> (#[trigger] channels@[j]).1.role == ChannelRole::Direct,
        decreases channels.len() - i,
    {
        if !channels[i].1.role.is_direct() {
            return true;
        }
        i = i + 1;
    }
    false
}

/// Whether the state knows the section.
pub fn is_section_known(state: &State, section: ConfigSection) -> (r: bool)
    ensures
        r == section_known(*state, section),
{
    match section {
        ConfigSection::Ui => true,
        ConfigSection::Channels => has_group_channel_in(&state.channels.entries),
        ConfigSection::User => match state.my_node_key {
            Some(k) => state.nodes.contains_key(&k),
            None => false,
        },
        ConfigSection::Lora => state.device_config.lora.is_some(),
        ConfigSection::Security => state.device_config.security.is_some(),
        ConfigSection::Device => state.device_config.device.is_some(),
        ConfigSection::Position => state.device_config.position.is_some(),
        ConfigSection::Power => state.device_config.power.is_some(),
        ConfigSection::Display => state.device_config.display.is_some(),
        ConfigSection::Bluetooth => state.device_config.bluetooth.is_some(),
        ConfigSection::Network => state.device_config.network.is_some(),
        ConfigSection::Mqtt => state.device_module_config.mqtt.is_some(),
        ConfigSection::Serial => state.device_module_config.serial.is_some(),
        ConfigSection::ExternalNotification => state.device_module_config.external_notification.is_some(),
        ConfigSection::StoreForward => state.device_module_config.store_forward.is_some(),
        ConfigSection::RangeTest => state.device_module_config.range_test.is_some(),
        ConfigSection::Telemetry => state.device_module_config.telemetry.is_some(),
        ConfigSection::CannedMessage => state.device_module_config.canned_message.is_some(),
        ConfigSection::NeighborInfo => state.device_module_config.neighbor.is_some(),
        ConfigSection::AmbientLighting => state.device_module_config.ambient_lighting.is_some(),
        ConfigSection::DetectionSensor => state.device_module_config.detection_sensor.is_some(),
        ConfigSection::TrafficManagement => state.device_module_config.traffic_management.is_some(),
    }
}

/// Where a form's data comes from when it is opened: the section it edits
/// once the state knows it (`Ok(Some(..))`), nothing for a form that starts
/// empty (`Ok(None)`), or the section's message while it is not known.
pub fn form_source(state: &State, id: FormId) -> (r: Result<Option<ConfigSection>, &'static str>)
    ensures
        match spec_form_section(id) {
            None => r == Ok::<Option<ConfigSection>, &'static str>(None),
            Some(section) => if section_known(*state, section) {
                r == Ok::<Option<ConfigSection>, &'static str>(Some(section))
            } else {
                r == Err::<Option<ConfigSection>, &'static str>(section.spec_not_loaded_message())
            },
        },
{
    match form_section(id) {
        None => Ok(None),
        Some(section) => if is_section_known(state, section) {
            Ok(Some(section))
        } else {
            Err(section.not_loaded_message())
        },
    }
}


/// What saving a settings form does.
#[derive(Debug, Clone, Copy, PartialEq, Eq, Structural)]
pub enum SavePlan {
    /// the form saves nothing
    Nothing,
    /// the application's own settings take the form's values
    AppConfig,
    /// the section goes to the radio, addressed to its own node
    ToRadio { section: ConfigSection, route: SaveRoute, my_node_num: u32 },
}

/// What saving the form `id` does in `state`. Saving a section of the
/// radio needs the radio's own node to be known.
pub fn save_plan(state: &State, id: FormId) -> (r: SavePlan)
    requires
        spec_form_section(id) matches Some(section) && section.spec_route() != SaveRoute::AppConfig
            ==> state.my_node_key is Some,
    ensures
        match spec_form_section(id) {
            None => r == SavePlan::Nothing,
            Some(section) => if section.spec_route() == SaveRoute::AppConfig {
                r == SavePlan::AppConfig
            } else {
                r == (SavePlan::ToRadio {
                    section,
                    route: section.spec_route(),
                    my_node_num: state.my_node_key->0,
                })
            },
        },
{
    match form_section(id) {
        None => SavePlan::Nothing,
        Some(section) => {
            let route = section.route();
            match route {
                SaveRoute::AppConfig => SavePlan::AppConfig,
                _ => match state.my_node_key {
                    Some(n) => SavePlan::ToRadio { section, route, my_node_num: n },
                    None => SavePlan::Nothing,
                },
            }
        },
    }
}

/// `x` put into `s` after every entry whose channel index is not above its.
pub open spec fn insert_by_index(s: Seq<(u32, usize)>, x: (u32, usize)) -> Seq<(u32, usize)>
    decreases s.len(),
{
    if s.len() == 0 {
        seq![x]
    } else if x.0 < s[0].0 {
        seq![x] + s
    } else {
        seq![s[0]] + insert_by_index(s.drop_first(), x)
    }
}

/// The entries ordered by channel index; entries of the same index keep
/// their order.
pub open spec fn sorted_by_index(s: Seq<(u32, usize)>) -> Seq<(u32, usize)>
    decreases s.len(),
{
    if s.len() == 0 {
        Seq::empty()
    } else {
        insert_by_index(sorted_by_index(s.drop_last()), s.last())
    }
}

/// Each channel index with its position.
pub open spec fn with_positions(ids: Seq<u32>) -> Seq<(u32, usize)> {
    Seq::new(ids.len(), |i: int| (ids[i], i as usize))
}

proof fn lemma_insert_by_index_at(s: Seq<(u32, usize)>, x: (u32, usize), p: int)
    requires
        0 <= p <= s.len(),
        forall|j: int| 0 <= j < p ==> #[trigger] s[j].0 <= x.0,
        p < s.len() ==> x.0 < s[p].0,
    ensures
        insert_by_index(s, x) == s.insert(p, x),
    decreases s.len(),
{
    if s.len() == 0 {
        assert(s.insert(p, x) =~= seq![x]);
    } else if x.0 < s[0].0 {
        if p > 0 {
            assert(s[0].0 <= x.0);
        }
        assert(s.insert(p, x) =~= seq![x] + s);
    } else {
        let t = s.drop_first();
        assert forall|j: int| 0 <= j < p - 1 implies #[trigger] t[j].0 <= x.0 by {
            assert(t[j] == s[j + 1]);
        }
        lemma_insert_by_index_at(t, x, p - 1);
        assert(s.insert(p, x) =~= seq![s[0]] + t.insert(p - 1, x));
    }
}

/// The entries are in order of channel index.
pub open spec fn index_sorted(s: Seq<(u32, usize)>) -> bool {
    forall|i: int, j: int| 0 <= i < j < s.len() ==> #[trigger] s[i].0 <= #[trigger] s[j].0
}

proof fn lemma_insert_keeps_order(s: Seq<(u32, usize)>, x: (u32, usize))
    requires
        index_sorted(s),
    ensures
        index_sorted(insert_by_index(s, x)),
        insert_by_index(s, x).len() == s.len() + 1,
        forall|k: int| 0 <= k < s.len() + 1 ==> #[trigger] insert_by_index(s, x)[k] == x || s.contains(insert_by_index(s, x)[k]),
    decreases s.len(),
{
    let r = insert_by_index(s, x);
    if s.len() == 0 {
    } else if x.0 < s[0].0 {
        assert forall|k: int| 0 < k < r.len() implies s.contains(#[trigger] r[k]) by {
            assert(r[k] == s[k - 1]);
        }
        assert forall|i: int, j: int| 0 <= i < j < r.len() implies #[trigger] r[i].0 <= #[trigger] r[j].0 by {
            if i == 0 {
                assert(s[0].0 <= s[j - 1].0 || j - 1 == 0);
            } else {
                assert(r[i] == s[i - 1] && r[j] == s[j - 1]);
            }
        }
    } else {
        let t = s.drop_first();
        assert(index_sorted(t)) by {
            assert forall|i: int, j: int| 0 <= i < j < t.len() implies #[trigger] t[i].0 <= #[trigger] t[j].0 by {
                assert(t[i] == s[i + 1] && t[j] == s[j + 1]);
            }
        }
        lemma_insert_keeps_order(t, x);
        let rt = insert_by_index(t, x);
        assert(r == seq![s[0]] + rt);
        assert forall|k: int| 0 <= k < r.len() implies #[trigger] r[k] == x || s.contains(r[k]) by {
            if k > 0 {
                assert(r[k] == rt[k - 1]);
                if rt[k - 1] != x {
                    let m = choose|m: int| 0 <= m < t.len() && t[m] == rt[k - 1];
                    assert(s[m + 1] == t[m]);
                }
            } else {
                assert(s[0] == s[0]);
            }
        }
        assert forall|i: int, j: int| 0 <= i < j < r.len() implies #[trigger] r[i].0 <= #[trigger] r[j].0 by {
            if i == 0 {
                assert(r[j] == rt[j - 1]);
                if rt[j - 1] != x {
                    let m = choose|m: int| 0 <= m < t.len() && t[m] == rt[j - 1];
                    assert(s[m + 1] == t[m]);
                    assert(s[0].0 <= s[m + 1].0);
                }
            } else {
                assert(r[i] == rt[i - 1] && r[j] == rt[j - 1]);
            }
        }
    }
}

proof fn lemma_sorted_by_index(s: Seq<(u32, usize)>)
    ensures
        index_sorted(sorted_by_index(s)),
        sorted_by_index(s).len() == s.len(),
        forall|k: int| 0 <= k < s.len() ==> s.contains(#[trigger] sorted_by_index(s)[k]),
    decreases s.len(),
{
    if s.len() > 0 {
        let d = s.drop_last();
        lemma_sorted_by_index(d);
        let sd = sorted_by_index(d);
        lemma_insert_keeps_order(sd, s.last());
        let r = sorted_by_index(s);
        assert forall|k: int| 0 <= k < s.len() implies s.contains(#[trigger] r[k]) by {
            if r[k] != s.last() {
                let m = choose|m: int| 0 <= m < sd.len() && sd[m] == r[k];
                assert(d.contains(sd[m]));
                let n = choose|n: int| 0 <= n < d.len() && d[n] == sd[m];
                assert(s[n] == d[n]);
            } else {
                assert(s[s.len() - 1] == s.last());
            }
        }
    }
}

/// The order the edited channels are saved in: their positions, by channel
/// index ascending (channels of the same index in their order).
pub fn channel_save_order(ids: &Vec<u32>) -> (r: Vec<usize>)
    ensures
        r@ == sorted_by_index(with_positions(ids@)).map_values(|e: (u32, usize)| e.1),
        r.len() == ids.len(),
        forall|k: int| 0 <= k < r.len() ==> #[trigger] r@[k] < ids.len(),
        forall|i: int, j: int| 0 <= i < j < r.len() ==> ids@[#[trigger] r@[i] as int] <= ids@[#[trigger] r@[j] as int],
{
    let ghost all = with_positions(ids@);
    let mut sorted: Vec<(u32, usize)> = Vec::new();
    let mut i: usize = 0;
    while i < ids.len()
        invariant
            0 <= i <= ids.len(),
            all == with_positions(ids@),
            sorted@ == sorted_by_index(all.take(i as int)),
        decreases ids.len() - i,
    {
        let ghost s = sorted@;
        let x = (ids[i], i);
        let mut p: usize = 0;
        while p < sorted.len() && sorted[p].0 <= x.0
            invariant
                0 <= p <= sorted.len(),
                s == sorted@,
                forall|j: int| 0 <= j < p ==> #[trigger] s[j].0 <= x.0,
            decreases sorted.len() - p,
        {
            p = p + 1;
        }
        sorted.insert(p, x);
        proof {
            lemma_insert_by_index_at(s, x, p as int);
            assert(all.take(i + 1).drop_last() =~= all.take(i as int));
            assert(all.take(i + 1).last() == x);
        }
        i = i + 1;
    }
    proof {
        assert(all.take(ids.len() as int) =~= all);
    }
    let mut r: Vec<usize> = Vec::new();
    let mut k: usize = 0;
    while k < sorted.len()
        invariant
            0 <= k <= sorted.len(),
            r@ == sorted@.take(k as int).map_values(|e: (u32, usize)| e.1),
        decreases sorted.len() - k,
    {
        r.push(sorted[k].1);
        proof {
            assert(sorted@.take(k + 1).map_values(|e: (u32, usize)| e.1) =~= sorted@.take(k as int).map_values(
                |e: (u32, usize)| e.1,
            ).push(sorted@[k as int].1));
        }
        k = k + 1;
    }
    proof {
        assert(sorted@.take(sorted.len() as int) =~= sorted@);
        lemma_sorted_by_index(all);
        assert forall|k: int| 0 <= k < sorted@.len() implies #[trigger] sorted@[k].1 < ids.len() && ids@[
            sorted@[k].1 as int] == sorted@[k].0 by {
            let n = choose|n: int| 0 <= n < all.len() && all[n] == sorted@[k];
        }
        assert forall|i: int, j: int| 0 <= i < j < r.len() implies ids@[#[trigger] r@[i] as int] <= ids@[
            #[trigger] r@[j] as int] by {
            assert(r@[i] == sorted@[i].1 && r@[j] == sorted@[j].1);
            assert(sorted@[i].0 <= sorted@[j].0);
            assert(sorted@[i].1 < ids.len() && sorted@[j].1 < ids.len());
        }
        assert forall|k: int| 0 <= k < r.len() implies #[trigger] r@[k] < ids.len() by {
            assert(r@[k] == sorted@[k].1);
            assert(sorted@[k].1 < ids.len());
        }
    }
    r
}

} // verus!
