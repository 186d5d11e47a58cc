//! Names of the radio protocol's enumerations, as the `meshtastic` crate's
//! generated protocol code gives them.
use vstd::prelude::*;
use meshtastic::protobufs::config::lo_ra_config::ModemPreset;
use meshtastic::protobufs::from_radio::PayloadVariant;
use crate::helpers::{channel_name_of, modem_preset_channel_name};
use crate::types::FormId;

verus! {

/// The protocol name of the hardware model with code `code`, if the code is
/// known to the protocol.
pub uninterp spec fn hardware_model_str_name(code: i32) -> Option<Seq<char>>;

/// The protocol name of the device role with code `code`, if known.
pub open spec fn device_role_str_name(code: i32) -> Option<Seq<char>> {
    if code == 0 {
        Some("CLIENT"@)
    } else if code == 1 {
        Some("CLIENT_MUTE"@)
    } else if code == 2 {
        Some("ROUTER"@)
    } else if code == 3 {
        Some("ROUTER_CLIENT"@)
    } else if code == 4 {
        Some("REPEATER"@)
    } else if code == 5 {
        Some("TRACKER"@)
    } else if code == 6 {
        Some("SENSOR"@)
    } else if code == 7 {
        Some("TAK"@)
    } else if code == 8 {
        Some("CLIENT_HIDDEN"@)
    } else if code == 9 {
        Some("LOST_AND_FOUND"@)
    } else if code == 10 {
        Some("TAK_TRACKER"@)
    } else if code == 11 {
        Some("ROUTER_LATE"@)
    } else if code == 12 {
        Some("CLIENT_BASE"@)
    } else {
        None
    }
}

/// The protocol name of the modem preset with code `code`, if known.
pub open spec fn modem_preset_str_name(code: i32) -> Option<Seq<char>> {
        if code == 0 {
            Some("LONG_FAST"@)
        } else if code == 1 {
            Some("LONG_SLOW"@)
        } else if code == 2 {
            Some("VERY_LONG_SLOW"@)
        } else if code == 3 {
            Some("MEDIUM_SLOW"@)
        } else if code == 4 {
            Some("MEDIUM_FAST"@)
        } else if code == 5 {
            Some("SHORT_SLOW"@)
        } else if code == 6 {
            Some("SHORT_FAST"@)
        } else if code == 7 {
            Some("LONG_MODERATE"@)
        } else if code == 8 {
            Some("SHORT_TURBO"@)
        } else if code == 9 {
            Some("LONG_TURBO"@)
        } else {
            None
        }
}

/// The protocol name of the routing error with code `code`, if known.
pub open spec fn routing_error_str_name(code: i32) -> Option<Seq<char>> {
    if code == 0 {
        Some("NONE"@)
    } else if code == 1 {
        Some("NO_ROUTE"@)
    } else if code == 2 {
        Some("GOT_NAK"@)
    } else if code == 3 {
        Some("TIMEOUT"@)
    } else if code == 4 {
        Some("NO_INTERFACE"@)
    } else if code == 5 {
        Some("MAX_RETRANSMIT"@)
    } else if code == 6 {
        Some("NO_CHANNEL"@)
    } else if code == 7 {
        Some("TOO_LARGE"@)
    } else if code == 8 {
        Some("NO_RESPONSE"@)
    } else if code == 9 {
        Some("DUTY_CYCLE_LIMIT"@)
    } else if code == 32 {
        Some("BAD_REQUEST"@)
    } else if code == 33 {
        Some("NOT_AUTHORIZED"@)
    } else if code == 34 {
        Some("PKI_FAILED"@)
    } else if code == 35 {
        Some("PKI_UNKNOWN_PUBKEY"@)
    } else if code == 36 {
        Some("ADMIN_BAD_SESSION_KEY"@)
    } else if code == 37 {
        Some("ADMIN_PUBLIC_KEY_UNAUTHORIZED"@)
    } else if code == 38 {
        Some("RATE_LIMIT_EXCEEDED"@)
    } else if code == 39 {
        Some("PKI_SEND_FAIL_PUBLIC_KEY"@)
    } else {
        None
    }
}

/// The `meshtastic` crate's modem preset.
#[verifier::external_type_specification]
#[verifier::external_body]
pub struct ExModemPreset(ModemPreset);

/// A packet from the radio, as the `meshtastic` crate decodes it.
#[verifier::external_type_specification]
#[verifier::external_body]
pub struct ExFromRadioPayload(PayloadVariant);

/// The protocol code of a modem preset (`preset as i32`); every preset of
/// the `meshtastic` crate's enumeration has a protocol name.
#[verifier::external_body]
pub(crate) fn modem_preset_code(preset: &ModemPreset) -> (r: i32)
    ensures
        modem_preset_str_name(r) is Some,
{
    *preset as i32
}

/// Modem presets as the channel names the radio gives them.
pub trait ModemPresetExt {
    fn as_channel_name(&self) -> String;
}

impl ModemPresetExt for ModemPreset {
    /// The channel name of the preset: its protocol name as words in
    /// capitals, written together (`LONG_FAST` is `LongFast`).
    fn as_channel_name(&self) -> (r: String)
        ensures
            exists|code: i32|
                #[trigger] modem_preset_str_name(code) is Some && r@ == channel_name_of(
                    modem_preset_str_name(code)->0,
                ),
    {
        let code = modem_preset_code(self);
        match modem_preset_channel_name(code) {
            Some(name) => name,
            None => String::new(),
        }
    }
}

/// What the radio link reports to the application.
#[derive(Debug)]
pub enum MeshtasticEvent {
    Connected,
    ConnectionError(String),
    Disconnected,
    IncomingPacket(PayloadVariant),
    MessageAccepted,
    MessageRejected(String),
    RadioStopped,
    ConfigSaved(FormId),
    ConfigSaveFailed(FormId),
    ChannelsSaved(FormId),
    ChannelsSaveFailed(FormId),
    UserSaved(FormId),
    UserSaveFailed(FormId),
    NodeInfoBroadcastSent,
    NodeInfoBroadcastFailed(String),
    NodeRemoveAccepted,
    NodeRemoveFailed(String),
    NodeFavoriteAccepted,
    NodeFavoriteFailed(String),
    TracerouteRejected(String),
}

/// Whether `c` may stand in a protocol enumeration name: an upper case ASCII
/// letter, a digit or an underscore.
pub open spec fn is_protocol_name_char(c: char) -> bool {
    ('A' <= c <= 'Z') || ('0' <= c <= '9') || c == '_'
}

/// `HardwareModel::try_from(code)` then `as_str_name`, from the `meshtastic`
/// crate: the name of a known hardware model, `None` for an unknown code.
#[verifier::external_body]
pub(crate) fn hardware_model_name(code: i32) -> (r: Option<String>)
    ensures
        r matches Some(s) ==> hardware_model_str_name(code) == Some(s@),
        r is None ==> hardware_model_str_name(code) is None,
{
    match meshtastic::protobufs::HardwareModel::try_from(code) {
        Ok(m) => Some(m.as_str_name().to_owned()),
        Err(_) => None,
    }
}

/// `config::device_config::Role::try_from(code)` then `as_str_name`, from the
/// `meshtastic` crate: the name of a known device role, `None` otherwise.
#[verifier::external_body]
pub(crate) fn device_role_name(code: i32) -> (r: Option<String>)
    ensures
        r matches Some(s) ==> device_role_str_name(code) == Some(s@),
        r is None ==> device_role_str_name(code) is None,
{
    match meshtastic::protobufs::config::device_config::Role::try_from(code) {
        Ok(m) => Some(m.as_str_name().to_owned()),
        Err(_) => None,
    }
}

/// `config::lo_ra_config::ModemPreset::try_from(code)` then `as_str_name`,
/// from the `meshtastic` crate. Every name in that crate's table is made of
/// upper case ASCII letters, digits and underscores, which the contract states.
#[verifier::external_body]
pub(crate) fn modem_preset_name(code: i32) -> (r: Option<String>)
    ensures
        r matches Some(s) ==> modem_preset_str_name(code) == Some(s@),
        r is None ==> modem_preset_str_name(code) is None,
        r matches Some(s) ==> forall|i: int| 0 <= i < s@.len() ==> is_protocol_name_char(#[trigger] s@[i]),
{
    match meshtastic::protobufs::config::lo_ra_config::ModemPreset::try_from(code) {
        Ok(m) => Some(m.as_str_name().to_owned()),
        Err(_) => None,
    }
}

/// `routing::Error::try_from(code)` then `as_str_name`, from the `meshtastic`
/// crate: the name of a known routing error, `None` otherwise.
#[verifier::external_body]
pub(crate) fn routing_error_name(code: i32) -> (r: Option<String>)
    ensures
        r matches Some(s) ==> routing_error_str_name(code) == Some(s@),
        r is None ==> routing_error_str_name(code) is None,
{
    match meshtastic::protobufs::routing::Error::try_from(code) {
        Ok(m) => Some(m.as_str_name().to_owned()),
        Err(_) => None,
    }
}

/// The protocol name of the LoRa region with code `code`, if known.
pub open spec fn region_code_str_name(code: i32) -> Option<Seq<char>> {
    if code == 0 {
        Some("UNSET"@)
    } else if code == 1 {
        Some("US"@)
    } else if code == 2 {
        Some("EU_433"@)
    } else if code == 3 {
        Some("EU_868"@)
    } else if code == 4 {
        Some("CN"@)
    } else if code == 5 {
        Some("JP"@)
    } else if code == 6 {
        Some("ANZ"@)
    } else if code == 7 {
        Some("KR"@)
    } else if code == 8 {
        Some("TW"@)
    } else if code == 9 {
        Some("RU"@)
    } else if code == 10 {
        Some("IN"@)
    } else if code == 11 {
        Some("NZ_865"@)
    } else if code == 12 {
        Some("TH"@)
    } else if code == 13 {
        Some("LORA_24"@)
    } else if code == 14 {
        Some("UA_433"@)
    } else if code == 15 {
        Some("UA_868"@)
    } else if code == 16 {
        Some("MY_433"@)
    } else if code == 17 {
        Some("MY_919"@)
    } else if code == 18 {
        Some("SG_923"@)
    } else if code == 19 {
        Some("PH_433"@)
    } else if code == 20 {
        Some("PH_868"@)
    } else if code == 21 {
        Some("PH_915"@)
    } else if code == 22 {
        Some("ANZ_433"@)
    } else if code == 23 {
        Some("KZ_433"@)
    } else if code == 24 {
        Some("KZ_863"@)
    } else if code == 25 {
        Some("NP_865"@)
    } else if code == 26 {
        Some("BR_902"@)
    } else {
        None
    }
}

/// The protocol name of the rebroadcast mode with code `code`, if known.
pub open spec fn rebroadcast_mode_str_name(code: i32) -> Option<Seq<char>> {
        if code == 0 {
            Some("ALL"@)
        } else if code == 1 {
            Some("ALL_SKIP_DECODING"@)
        } else if code == 2 {
            Some("LOCAL_ONLY"@)
        } else if code == 3 {
            Some("KNOWN_ONLY"@)
        } else if code == 4 {
            Some("NONE"@)
        } else if code == 5 {
            Some("CORE_PORTNUMS_ONLY"@)
        } else {
            None
        }
}

/// The protocol name of the GPS mode with code `code`, if known.
pub open spec fn gps_mode_str_name(code: i32) -> Option<Seq<char>> {
        if code == 0 {
            Some("DISABLED"@)
        } else if code == 1 {
            Some("ENABLED"@)
        } else if code == 2 {
            Some("NOT_PRESENT"@)
        } else {
            None
        }
}

/// The protocol name of the display unit system with code `code`, if known.
pub open spec fn display_units_str_name(code: i32) -> Option<Seq<char>> {
        if code == 0 {
            Some("METRIC"@)
        } else if code == 1 {
            Some("IMPERIAL"@)
        } else {
            None
        }
}

/// The protocol name of the display mode with code `code`, if known.
pub open spec fn display_mode_str_name(code: i32) -> Option<Seq<char>> {
        if code == 0 {
            Some("DEFAULT"@)
        } else if code == 1 {
            Some("TWOCOLOR"@)
        } else if code == 2 {
            Some("INVERTED"@)
        } else if code == 3 {
            Some("COLOR"@)
        } else {
            None
        }
}

/// The protocol name of the OLED controller type with code `code`, if known.
pub open spec fn oled_type_str_name(code: i32) -> Option<Seq<char>> {
        if code == 0 {
            Some("OLED_AUTO"@)
        } else if code == 1 {
            Some("OLED_SSD1306"@)
        } else if code == 2 {
            Some("OLED_SH1106"@)
        } else if code == 3 {
            Some("OLED_SH1107"@)
        } else if code == 4 {
            Some("OLED_SH1107_128_128"@)
        } else {
            None
        }
}

/// The protocol name of the compass orientation with code `code`, if known.
pub open spec fn compass_orientation_str_name(code: i32) -> Option<Seq<char>> {
        if code == 0 {
            Some("DEGREES_0"@)
        } else if code == 1 {
            Some("DEGREES_90"@)
        } else if code == 2 {
            Some("DEGREES_180"@)
        } else if code == 3 {
            Some("DEGREES_270"@)
        } else if code == 4 {
            Some("DEGREES_0_INVERTED"@)
        } else if code == 5 {
            Some("DEGREES_90_INVERTED"@)
        } else if code == 6 {
            Some("DEGREES_180_INVERTED"@)
        } else if code == 7 {
            Some("DEGREES_270_INVERTED"@)
        } else {
            None
        }
}

/// The protocol name of the Bluetooth pairing mode with code `code`, if known.
pub open spec fn pairing_mode_str_name(code: i32) -> Option<Seq<char>> {
        if code == 0 {
            Some("RANDOM_PIN"@)
        } else if code == 1 {
            Some("FIXED_PIN"@)
        } else if code == 2 {
            Some("NO_PIN"@)
        } else {
            None
        }
}

/// The protocol name of the serial baud rate with code `code`, if known.
pub open spec fn serial_baud_str_name(code: i32) -> Option<Seq<char>> {
    if code == 0 {
        Some("BAUD_DEFAULT"@)
    } else if code == 1 {
        Some("BAUD_110"@)
    } else if code == 2 {
        Some("BAUD_300"@)
    } else if code == 3 {
        Some("BAUD_600"@)
    } else if code == 4 {
        Some("BAUD_1200"@)
    } else if code == 5 {
        Some("BAUD_2400"@)
    } else if code == 6 {
        Some("BAUD_4800"@)
    } else if code == 7 {
        Some("BAUD_9600"@)
    } else if code == 8 {
        Some("BAUD_19200"@)
    } else if code == 9 {
        Some("BAUD_38400"@)
    } else if code == 10 {
        Some("BAUD_57600"@)
    } else if code == 11 {
        Some("BAUD_115200"@)
    } else if code == 12 {
        Some("BAUD_230400"@)
    } else if code == 13 {
        Some("BAUD_460800"@)
    } else if code == 14 {
        Some("BAUD_576000"@)
    } else if code == 15 {
        Some("BAUD_921600"@)
    } else {
        None
    }
}

/// The protocol name of the serial module mode with code `code`, if known.
pub open spec fn serial_mode_str_name(code: i32) -> Option<Seq<char>> {
    if code == 0 {
        Some("DEFAULT"@)
    } else if code == 1 {
        Some("SIMPLE"@)
    } else if code == 2 {
        Some("PROTO"@)
    } else if code == 3 {
        Some("TEXTMSG"@)
    } else if code == 4 {
        Some("NMEA"@)
    } else if code == 5 {
        Some("CALTOPO"@)
    } else if code == 6 {
        Some("WS85"@)
    } else if code == 7 {
        Some("VE_DIRECT"@)
    } else if code == 8 {
        Some("MS_CONFIG"@)
    } else if code == 9 {
        Some("LOG"@)
    } else if code == 10 {
        Some("LOGTEXT"@)
    } else {
        None
    }
}

/// The protocol name of the position flag with code `code`, if known.
pub open spec fn position_flag_str_name(code: i32) -> Option<Seq<char>> {
    if code == 0 {
        Some("UNSET"@)
    } else if code == 1 {
        Some("ALTITUDE"@)
    } else if code == 2 {
        Some("ALTITUDE_MSL"@)
    } else if code == 4 {
        Some("GEOIDAL_SEPARATION"@)
    } else if code == 8 {
        Some("DOP"@)
    } else if code == 16 {
        Some("HVDOP"@)
    } else if code == 32 {
        Some("SATINVIEW"@)
    } else if code == 64 {
        Some("SEQ_NO"@)
    } else if code == 128 {
        Some("TIMESTAMP"@)
    } else if code == 256 {
        Some("HEADING"@)
    } else if code == 512 {
        Some("SPEED"@)
    } else {
        None
    }
}

/// `config::lo_ra_config::RegionCode::try_from(code)` then `as_str_name`, from the `meshtastic`
/// crate: the name of a known LoRa region, `None` for an unknown code.
#[verifier::external_body]
pub(crate) fn region_code_name(code: i32) -> (r: Option<String>)
    ensures
        r matches Some(s) ==> region_code_str_name(code) == Some(s@),
        r is None ==> region_code_str_name(code) is None,
{
    match meshtastic::protobufs::config::lo_ra_config::RegionCode::try_from(code) {
        Ok(m) => Some(m.as_str_name().to_owned()),
        Err(_) => None,
    }
}

/// `config::device_config::RebroadcastMode::try_from(code)` then `as_str_name`, from the `meshtastic`
/// crate: the name of a known rebroadcast mode, `None` for an unknown code.
#[verifier::external_body]
pub(crate) fn rebroadcast_mode_name(code: i32) -> (r: Option<String>)
    ensures
        r matches Some(s) ==> rebroadcast_mode_str_name(code) == Some(s@),
        r is None ==> rebroadcast_mode_str_name(code) is None,
{
    match meshtastic::protobufs::config::device_config::RebroadcastMode::try_from(code) {
        Ok(m) => Some(m.as_str_name().to_owned()),
        Err(_) => None,
    }
}

/// `config::position_config::GpsMode::try_from(code)` then `as_str_name`, from the `meshtastic`
/// crate: the name of a known GPS mode, `None` for an unknown code.
#[verifier::external_body]
pub(crate) fn gps_mode_name(code: i32) -> (r: Option<String>)
    ensures
        r matches Some(s) ==> gps_mode_str_name(code) == Some(s@),
        r is None ==> gps_mode_str_name(code) is None,
{
    match meshtastic::protobufs::config::position_config::GpsMode::try_from(code) {
        Ok(m) => Some(m.as_str_name().to_owned()),
        Err(_) => None,
    }
}

/// `config::display_config::DisplayUnits::try_from(code)` then `as_str_name`, from the `meshtastic`
/// crate: the name of a known display unit system, `None` for an unknown code.
#[verifier::external_body]
pub(crate) fn display_units_name(code: i32) -> (r: Option<String>)
    ensures
        r matches Some(s) ==> display_units_str_name(code) == Some(s@),
        r is None ==> display_units_str_name(code) is None,
{
    match meshtastic::protobufs::config::display_config::DisplayUnits::try_from(code) {
        Ok(m) => Some(m.as_str_name().to_owned()),
        Err(_) => None,
    }
}

/// `config::display_config::DisplayMode::try_from(code)` then `as_str_name`, from the `meshtastic`
/// crate: the name of a known display mode, `None` for an unknown code.
#[verifier::external_body]
pub(crate) fn display_mode_name(code: i32) -> (r: Option<String>)
    ensures
        r matches Some(s) ==> display_mode_str_name(code) == Some(s@),
        r is None ==> display_mode_str_name(code) is None,
{
    match meshtastic::protobufs::config::display_config::DisplayMode::try_from(code) {
        Ok(m) => Some(m.as_str_name().to_owned()),
        Err(_) => None,
    }
}

/// `config::display_config::OledType::try_from(code)` then `as_str_name`, from the `meshtastic`
/// crate: the name of a known OLED controller type, `None` for an unknown code.
#[verifier::external_body]
pub(crate) fn oled_type_name(code: i32) -> (r: Option<String>)
    ensures
        r matches Some(s) ==> oled_type_str_name(code) == Some(s@),
        r is None ==> oled_type_str_name(code) is None,
{
    match meshtastic::protobufs::config::display_config::OledType::try_from(code) {
        Ok(m) => Some(m.as_str_name().to_owned()),
        Err(_) => None,
    }
}

/// `config::display_config::CompassOrientation::try_from(code)` then `as_str_name`, from the `meshtastic`
/// crate: the name of a known compass orientation, `None` for an unknown code.
#[verifier::external_body]
pub(crate) fn compass_orientation_name(code: i32) -> (r: Option<String>)
    ensures
        r matches Some(s) ==> compass_orientation_str_name(code) == Some(s@),
        r is None ==> compass_orientation_str_name(code) is None,
{
    match meshtastic::protobufs::config::display_config::CompassOrientation::try_from(code) {
        Ok(m) => Some(m.as_str_name().to_owned()),
        Err(_) => None,
    }
}

/// `config::bluetooth_config::PairingMode::try_from(code)` then `as_str_name`, from the `meshtastic`
/// crate: the name of a known Bluetooth pairing mode, `None` for an unknown code.
#[verifier::external_body]
pub(crate) fn pairing_mode_name(code: i32) -> (r: Option<String>)
    ensures
        r matches Some(s) ==> pairing_mode_str_name(code) == Some(s@),
        r is None ==> pairing_mode_str_name(code) is None,
{
    match meshtastic::protobufs::config::bluetooth_config::PairingMode::try_from(code) {
        Ok(m) => Some(m.as_str_name().to_owned()),
        Err(_) => None,
    }
}

/// `module_config::serial_config::SerialBaud::try_from(code)` then `as_str_name`, from the `meshtastic`
/// crate: the name of a known serial baud rate, `None` for an unknown code.
#[verifier::external_body]
pub(crate) fn serial_baud_name(code: i32) -> (r: Option<String>)
    ensures
        r matches Some(s) ==> serial_baud_str_name(code) == Some(s@),
        r is None ==> serial_baud_str_name(code) is None,
{
    match meshtastic::protobufs::module_config::serial_config::SerialBaud::try_from(code) {
        Ok(m) => Some(m.as_str_name().to_owned()),
        Err(_) => None,
    }
}

/// `module_config::serial_config::SerialMode::try_from(code)` then `as_str_name`, from the `meshtastic`
/// crate: the name of a known serial module mode, `None` for an unknown code.
#[verifier::external_body]
pub(crate) fn serial_mode_name(code: i32) -> (r: Option<String>)
    ensures
        r matches Some(s) ==> serial_mode_str_name(code) == Some(s@),
        r is None ==> serial_mode_str_name(code) is None,
{
    match meshtastic::protobufs::module_config::serial_config::SerialMode::try_from(code) {
        Ok(m) => Some(m.as_str_name().to_owned()),
        Err(_) => None,
    }
}

/// `config::position_config::PositionFlags::try_from(code)` then `as_str_name`, from the `meshtastic`
/// crate: the name of a known position flag, `None` for an unknown code.
#[verifier::external_body]
pub(crate) fn position_flag_name(code: i32) -> (r: Option<String>)
    ensures
        r matches Some(s) ==> position_flag_str_name(code) == Some(s@),
        r is None ==> position_flag_str_name(code) is None,
{
    match meshtastic::protobufs::config::position_config::PositionFlags::try_from(code) {
        Ok(m) => Some(m.as_str_name().to_owned()),
        Err(_) => None,
    }
}

/// A protocol enumeration whose values a settings field chooses from.
#[derive(Debug, Clone, Copy, PartialEq, Eq, Structural)]
pub enum ProtoEnum {
    RegionCode,
    ModemPreset,
    DeviceRole,
    RebroadcastMode,
    GpsMode,
    DisplayUnits,
    DisplayMode,
    OledType,
    CompassOrientation,
    PairingMode,
    SerialBaud,
    SerialMode,
}

impl ProtoEnum {
    /// The protocol name of the value with code `code`, if known.
    pub open spec fn str_name(self, code: i32) -> Option<Seq<char>> {
        match self {
            ProtoEnum::RegionCode => region_code_str_name(code),
            ProtoEnum::ModemPreset => modem_preset_str_name(code),
            ProtoEnum::DeviceRole => device_role_str_name(code),
            ProtoEnum::RebroadcastMode => rebroadcast_mode_str_name(code),
            ProtoEnum::GpsMode => gps_mode_str_name(code),
            ProtoEnum::DisplayUnits => display_units_str_name(code),
            ProtoEnum::DisplayMode => display_mode_str_name(code),
            ProtoEnum::OledType => oled_type_str_name(code),
            ProtoEnum::CompassOrientation => compass_orientation_str_name(code),
            ProtoEnum::PairingMode => pairing_mode_str_name(code),
            ProtoEnum::SerialBaud => serial_baud_str_name(code),
            ProtoEnum::SerialMode => serial_mode_str_name(code),
        }
    }

    /// One past the largest code the enumeration has in the protocol
    /// version this library speaks; its codes run from zero without gaps.
    pub open spec fn spec_code_bound(self) -> i32 {
        match self {
            ProtoEnum::RegionCode => 27,
            ProtoEnum::ModemPreset => 10,
            ProtoEnum::DeviceRole => 13,
            ProtoEnum::RebroadcastMode => 6,
            ProtoEnum::GpsMode => 3,
            ProtoEnum::DisplayUnits => 2,
            ProtoEnum::DisplayMode => 4,
            ProtoEnum::OledType => 5,
            ProtoEnum::CompassOrientation => 8,
            ProtoEnum::PairingMode => 3,
            ProtoEnum::SerialBaud => 16,
            ProtoEnum::SerialMode => 11,
        }
    }

    pub fn code_bound(&self) -> (r: i32)
        ensures
            r == self.spec_code_bound(),
    {
        match self {
            ProtoEnum::RegionCode => 27,
            ProtoEnum::ModemPreset => 10,
            ProtoEnum::DeviceRole => 13,
            ProtoEnum::RebroadcastMode => 6,
            ProtoEnum::GpsMode => 3,
            ProtoEnum::DisplayUnits => 2,
            ProtoEnum::DisplayMode => 4,
            ProtoEnum::OledType => 5,
            ProtoEnum::CompassOrientation => 8,
            ProtoEnum::PairingMode => 3,
            ProtoEnum::SerialBaud => 16,
            ProtoEnum::SerialMode => 11,
        }
    }

    /// The protocol name of the value with code `code`: `None` for a code
    /// the enumeration does not have.
    pub fn name(&self, code: i32) -> (r: Option<String>)
        ensures
            r matches Some(s) ==> self.str_name(code) == Some(s@),
            r is None ==> self.str_name(code) is None,
    {
        match self {
            ProtoEnum::RegionCode => region_code_name(code),
            ProtoEnum::ModemPreset => modem_preset_name(code),
            ProtoEnum::DeviceRole => device_role_name(code),
            ProtoEnum::RebroadcastMode => rebroadcast_mode_name(code),
            ProtoEnum::GpsMode => gps_mode_name(code),
            ProtoEnum::DisplayUnits => display_units_name(code),
            ProtoEnum::DisplayMode => display_mode_name(code),
            ProtoEnum::OledType => oled_type_name(code),
            ProtoEnum::CompassOrientation => compass_orientation_name(code),
            ProtoEnum::PairingMode => pairing_mode_name(code),
            ProtoEnum::SerialBaud => serial_baud_name(code),
            ProtoEnum::SerialMode => serial_mode_name(code),
        }
    }
}

} // verus!
