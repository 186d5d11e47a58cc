//! The radio's configuration as it reports it, section by section. Each
//! section is the `meshtastic` crate's own message type, carried as is.
use vstd::prelude::*;
use meshtastic::protobufs::config::DeviceConfig as RadioDeviceSection;

verus! {

#[verifier::external_type_specification]
#[verifier::external_body]
pub struct ExRadioBluetoothConfig(meshtastic::protobufs::config::BluetoothConfig);

#[verifier::external_type_specification]
#[verifier::external_body]
pub struct ExRadioDeviceSection(RadioDeviceSection);

#[verifier::external_type_specification]
#[verifier::external_body]
pub struct ExDeviceUiConfig(meshtastic::protobufs::DeviceUiConfig);

#[verifier::external_type_specification]
#[verifier::external_body]
pub struct ExRadioDisplayConfig(meshtastic::protobufs::config::DisplayConfig);

#[verifier::external_type_specification]
#[verifier::external_body]
pub struct ExRadioLoRaConfig(meshtastic::protobufs::config::LoRaConfig);

#[verifier::external_type_specification]
#[verifier::external_body]
pub struct ExRadioNetworkConfig(meshtastic::protobufs::config::NetworkConfig);

#[verifier::external_type_specification]
#[verifier::external_body]
pub struct ExRadioPositionConfig(meshtastic::protobufs::config::PositionConfig);

#[verifier::external_type_specification]
#[verifier::external_body]
pub struct ExRadioPowerConfig(meshtastic::protobufs::config::PowerConfig);

#[verifier::external_type_specification]
#[verifier::external_body]
pub struct ExRadioSecurityConfig(meshtastic::protobufs::config::SecurityConfig);

#[verifier::external_type_specification]
#[verifier::external_body]
pub struct ExRadioSessionkeyConfig(meshtastic::protobufs::config::SessionkeyConfig);

#[verifier::external_type_specification]
#[verifier::external_body]
pub struct ExModuleAmbientLightingConfig(meshtastic::protobufs::module_config::AmbientLightingConfig);

#[verifier::external_type_specification]
#[verifier::external_body]
pub struct ExModuleAudioConfig(meshtastic::protobufs::module_config::AudioConfig);

#[verifier::external_type_specification]
#[verifier::external_body]
pub struct ExModuleCannedMessageConfig(meshtastic::protobufs::module_config::CannedMessageConfig);

#[verifier::external_type_specification]
#[verifier::external_body]
pub struct ExModuleDetectionSensorConfig(meshtastic::protobufs::module_config::DetectionSensorConfig);

#[verifier::external_type_specification]
#[verifier::external_body]
pub struct ExModuleExternalNotificationConfig(meshtastic::protobufs::module_config::ExternalNotificationConfig);

#[verifier::external_type_specification]
#[verifier::external_body]
pub struct ExModuleMqttConfig(meshtastic::protobufs::module_config::MqttConfig);

#[verifier::external_type_specification]
#[verifier::external_body]
pub struct ExModuleNeighborInfoConfig(meshtastic::protobufs::module_config::NeighborInfoConfig);

#[verifier::external_type_specification]
#[verifier::external_body]
pub struct ExModulePaxcounterConfig(meshtastic::protobufs::module_config::PaxcounterConfig);

#[verifier::external_type_specification]
#[verifier::external_body]
pub struct ExModuleRangeTestConfig(meshtastic::protobufs::module_config::RangeTestConfig);

#[verifier::external_type_specification]
#[verifier::external_body]
pub struct ExModuleRemoteHardwareConfig(meshtastic::protobufs::module_config::RemoteHardwareConfig);

#[verifier::external_type_specification]
#[verifier::external_body]
pub struct ExModuleSerialConfig(meshtastic::protobufs::module_config::SerialConfig);

#[verifier::external_type_specification]
#[verifier::external_body]
pub struct ExModuleStatusMessageConfig(meshtastic::protobufs::module_config::StatusMessageConfig);

#[verifier::external_type_specification]
#[verifier::external_body]
pub struct ExModuleStoreForwardConfig(meshtastic::protobufs::module_config::StoreForwardConfig);

#[verifier::external_type_specification]
#[verifier::external_body]
pub struct ExModuleTelemetryConfig(meshtastic::protobufs::module_config::TelemetryConfig);

#[verifier::external_type_specification]
#[verifier::external_body]
pub struct ExModuleTrafficManagementConfig(meshtastic::protobufs::module_config::TrafficManagementConfig);

/// The radio's own configuration: the sections it has reported.
#[derive(Debug)]
pub struct DeviceConfig {
    pub bluetooth: Option<meshtastic::protobufs::config::BluetoothConfig>,
    pub device: Option<RadioDeviceSection>,
    pub device_ui: Option<meshtastic::protobufs::DeviceUiConfig>,
    pub display: Option<meshtastic::protobufs::config::DisplayConfig>,
    pub lora: Option<meshtastic::protobufs::config::LoRaConfig>,
    /// the modem preset code of the LoRa section, kept with it
    pub lora_modem_preset: Option<i32>,
    pub network: Option<meshtastic::protobufs::config::NetworkConfig>,
    pub position: Option<meshtastic::protobufs::config::PositionConfig>,
    pub power: Option<meshtastic::protobufs::config::PowerConfig>,
    pub security: Option<meshtastic::protobufs::config::SecurityConfig>,
    pub sessionkey: Option<meshtastic::protobufs::config::SessionkeyConfig>,
}

/// A section of the radio's own configuration.
#[derive(Debug)]
pub enum ConfigPart {
    Bluetooth(meshtastic::protobufs::config::BluetoothConfig),
    Device(RadioDeviceSection),
    DeviceUi(meshtastic::protobufs::DeviceUiConfig),
    Display(meshtastic::protobufs::config::DisplayConfig),
    /// the LoRa section, with its modem preset code
    Lora { config: meshtastic::protobufs::config::LoRaConfig, modem_preset: i32 },
    Network(meshtastic::protobufs::config::NetworkConfig),
    Position(meshtastic::protobufs::config::PositionConfig),
    Power(meshtastic::protobufs::config::PowerConfig),
    Security(meshtastic::protobufs::config::SecurityConfig),
    Sessionkey(meshtastic::protobufs::config::SessionkeyConfig),
}

impl DeviceConfig {
    /// No section reported yet.
    pub open spec fn spec_empty() -> DeviceConfig {
        DeviceConfig {
            bluetooth: None,
            device: None,
            device_ui: None,
            display: None,
            lora: None,
            lora_modem_preset: None,
            network: None,
            position: None,
            power: None,
            security: None,
            sessionkey: None,
        }
    }

    /// The configuration with the section `part` stored in its place.
    pub open spec fn with(self, part: ConfigPart) -> DeviceConfig {
        match part {
            ConfigPart::Bluetooth(c) => DeviceConfig { bluetooth: Some(c), ..self },
            ConfigPart::Device(c) => DeviceConfig { device: Some(c), ..self },
            ConfigPart::DeviceUi(c) => DeviceConfig { device_ui: Some(c), ..self },
            ConfigPart::Display(c) => DeviceConfig { display: Some(c), ..self },
            ConfigPart::Lora { config, modem_preset } => DeviceConfig {
                lora: Some(config),
                lora_modem_preset: Some(modem_preset),
                ..self
            },
            ConfigPart::Network(c) => DeviceConfig { network: Some(c), ..self },
            ConfigPart::Position(c) => DeviceConfig { position: Some(c), ..self },
            ConfigPart::Power(c) => DeviceConfig { power: Some(c), ..self },
            ConfigPart::Security(c) => DeviceConfig { security: Some(c), ..self },
            ConfigPart::Sessionkey(c) => DeviceConfig { sessionkey: Some(c), ..self },
        }
    }

    pub fn empty() -> (r: DeviceConfig)
        ensures
            r == DeviceConfig::spec_empty(),
    {
        DeviceConfig {
            bluetooth: None,
            device: None,
            device_ui: None,
            display: None,
            lora: None,
            lora_modem_preset: None,
            network: None,
            position: None,
            power: None,
            security: None,
            sessionkey: None,
        }
    }

    /// Stores a section the radio reported, in its place.
    pub fn set(&mut self, part: ConfigPart)
        ensures
            *final(self) == old(self).with(part),
    {
        match part {
            ConfigPart::Bluetooth(c) => {
                self.bluetooth = Some(c);
            },
            ConfigPart::Device(c) => {
                self.device = Some(c);
            },
            ConfigPart::DeviceUi(c) => {
                self.device_ui = Some(c);
            },
            ConfigPart::Display(c) => {
                self.display = Some(c);
            },
            ConfigPart::Lora { config, modem_preset } => {
                self.lora = Some(config);
                self.lora_modem_preset = Some(modem_preset);
            },
            ConfigPart::Network(c) => {
                self.network = Some(c);
            },
            ConfigPart::Position(c) => {
                self.position = Some(c);
            },
            ConfigPart::Power(c) => {
                self.power = Some(c);
            },
            ConfigPart::Security(c) => {
                self.security = Some(c);
            },
            ConfigPart::Sessionkey(c) => {
                self.sessionkey = Some(c);
            },
        }
    }
}

impl Default for DeviceConfig {
    fn default() -> (r: DeviceConfig)
        ensures
            r == DeviceConfig::spec_empty(),
    {
        DeviceConfig::empty()
    }
}


/// The configuration of the radio's modules: the sections it has reported.
#[derive(Debug)]
pub struct DeviceModuleConfig {
    pub ambient_lighting: Option<meshtastic::protobufs::module_config::AmbientLightingConfig>,
    pub audio: Option<meshtastic::protobufs::module_config::AudioConfig>,
    pub canned_message: Option<meshtastic::protobufs::module_config::CannedMessageConfig>,
    pub detection_sensor: Option<meshtastic::protobufs::module_config::DetectionSensorConfig>,
    pub external_notification: Option<meshtastic::protobufs::module_config::ExternalNotificationConfig>,
    pub mqtt: Option<meshtastic::protobufs::module_config::MqttConfig>,
    pub neighbor: Option<meshtastic::protobufs::module_config::NeighborInfoConfig>,
    pub paxcounter: Option<meshtastic::protobufs::module_config::PaxcounterConfig>,
    pub range_test: Option<meshtastic::protobufs::module_config::RangeTestConfig>,
    pub remote_hardware: Option<meshtastic::protobufs::module_config::RemoteHardwareConfig>,
    pub serial: Option<meshtastic::protobufs::module_config::SerialConfig>,
    pub status_message: Option<meshtastic::protobufs::module_config::StatusMessageConfig>,
    pub store_forward: Option<meshtastic::protobufs::module_config::StoreForwardConfig>,
    pub telemetry: Option<meshtastic::protobufs::module_config::TelemetryConfig>,
    pub traffic_management: Option<meshtastic::protobufs::module_config::TrafficManagementConfig>,
}

/// A section of the configuration of the radio's modules.
#[derive(Debug)]
pub enum ModuleConfigPart {
    AmbientLighting(meshtastic::protobufs::module_config::AmbientLightingConfig),
    Audio(meshtastic::protobufs::module_config::AudioConfig),
    CannedMessage(meshtastic::protobufs::module_config::CannedMessageConfig),
    DetectionSensor(meshtastic::protobufs::module_config::DetectionSensorConfig),
    ExternalNotification(meshtastic::protobufs::module_config::ExternalNotificationConfig),
    Mqtt(meshtastic::protobufs::module_config::MqttConfig),
    NeighborInfo(meshtastic::protobufs::module_config::NeighborInfoConfig),
    Paxcounter(meshtastic::protobufs::module_config::PaxcounterConfig),
    RangeTest(meshtastic::protobufs::module_config::RangeTestConfig),
    RemoteHardware(meshtastic::protobufs::module_config::RemoteHardwareConfig),
    Serial(meshtastic::protobufs::module_config::SerialConfig),
    Statusmessage(meshtastic::protobufs::module_config::StatusMessageConfig),
    StoreForward(meshtastic::protobufs::module_config::StoreForwardConfig),
    Telemetry(meshtastic::protobufs::module_config::TelemetryConfig),
    TrafficManagement(meshtastic::protobufs::module_config::TrafficManagementConfig),
}

impl DeviceModuleConfig {
    /// No section reported yet.
    pub open spec fn spec_empty() -> DeviceModuleConfig {
        DeviceModuleConfig {
            ambient_lighting: None,
            audio: None,
            canned_message: None,
            detection_sensor: None,
            external_notification: None,
            mqtt: None,
            neighbor: None,
            paxcounter: None,
            range_test: None,
            remote_hardware: None,
            serial: None,
            status_message: None,
            store_forward: None,
            telemetry: None,
            traffic_management: None,
        }
    }

    /// The configuration with the section `part` stored in its place.
    pub open spec fn with(self, part: ModuleConfigPart) -> DeviceModuleConfig {
        match part {
            ModuleConfigPart::AmbientLighting(c) => DeviceModuleConfig { ambient_lighting: Some(c), ..self },
            ModuleConfigPart::Audio(c) => DeviceModuleConfig { audio: Some(c), ..self },
            ModuleConfigPart::CannedMessage(c) => DeviceModuleConfig { canned_message: Some(c), ..self },
            ModuleConfigPart::DetectionSensor(c) => DeviceModuleConfig { detection_sensor: Some(c), ..self },
            ModuleConfigPart::ExternalNotification(c) => DeviceModuleConfig { external_notification: Some(c), ..self },
            ModuleConfigPart::Mqtt(c) => DeviceModuleConfig { mqtt: Some(c), ..self },
            ModuleConfigPart::NeighborInfo(c) => DeviceModuleConfig { neighbor: Some(c), ..self },
            ModuleConfigPart::Paxcounter(c) => DeviceModuleConfig { paxcounter: Some(c), ..self },
            ModuleConfigPart::RangeTest(c) => DeviceModuleConfig { range_test: Some(c), ..self },
            ModuleConfigPart::RemoteHardware(c) => DeviceModuleConfig { remote_hardware: Some(c), ..self },
            ModuleConfigPart::Serial(c) => DeviceModuleConfig { serial: Some(c), ..self },
            ModuleConfigPart::Statusmessage(c) => DeviceModuleConfig { status_message: Some(c), ..self },
            ModuleConfigPart::StoreForward(c) => DeviceModuleConfig { store_forward: Some(c), ..self },
            ModuleConfigPart::Telemetry(c) => DeviceModuleConfig { telemetry: Some(c), ..self },
            ModuleConfigPart::TrafficManagement(c) => DeviceModuleConfig { traffic_management: Some(c), ..self },
        }
    }

    pub fn empty() -> (r: DeviceModuleConfig)
        ensures
            r == DeviceModuleConfig::spec_empty(),
    {
        DeviceModuleConfig {
            ambient_lighting: None,
            audio: None,
            canned_message: None,
            detection_sensor: None,
            external_notification: None,
            mqtt: None,
            neighbor: None,
            paxcounter: None,
            range_test: None,
            remote_hardware: None,
            serial: None,
            status_message: None,
            store_forward: None,
            telemetry: None,
            traffic_management: None,
        }
    }

    /// Stores a section the radio reported, in its place.
    pub fn set(&mut self, part: ModuleConfigPart)
        ensures
            *final(self) == old(self).with(part),
    {
        match part {
            ModuleConfigPart::AmbientLighting(c) => {
                self.ambient_lighting = Some(c);
            },
            ModuleConfigPart::Audio(c) => {
                self.audio = Some(c);
            },
            ModuleConfigPart::CannedMessage(c) => {
                self.canned_message = Some(c);
            },
            ModuleConfigPart::DetectionSensor(c) => {
                self.detection_sensor = Some(c);
            },
            ModuleConfigPart::ExternalNotification(c) => {
                self.external_notification = Some(c);
            },
            ModuleConfigPart::Mqtt(c) => {
                self.mqtt = Some(c);
            },
            ModuleConfigPart::NeighborInfo(c) => {
                self.neighbor = Some(c);
            },
            ModuleConfigPart::Paxcounter(c) => {
                self.paxcounter = Some(c);
            },
            ModuleConfigPart::RangeTest(c) => {
                self.range_test = Some(c);
            },
            ModuleConfigPart::RemoteHardware(c) => {
                self.remote_hardware = Some(c);
            },
            ModuleConfigPart::Serial(c) => {
                self.serial = Some(c);
            },
            ModuleConfigPart::Statusmessage(c) => {
                self.status_message = Some(c);
            },
            ModuleConfigPart::StoreForward(c) => {
                self.store_forward = Some(c);
            },
            ModuleConfigPart::Telemetry(c) => {
                self.telemetry = Some(c);
            },
            ModuleConfigPart::TrafficManagement(c) => {
                self.traffic_management = Some(c);
            },
        }
    }
}

impl Default for DeviceModuleConfig {
    fn default() -> (r: DeviceModuleConfig)
        ensures
            r == DeviceModuleConfig::spec_empty(),
    {
        DeviceModuleConfig::empty()
    }
}


} // verus!
