//! The telemetry view of the node window: the readings of a node's last
//! telemetry, grouped by kind, each field shown with its unit.
use vstd::prelude::*;
use vstd::string::*;
use crate::helpers::{humanize_duration, spec_humanize};
use crate::telemetry_kind::TelemetryKind;
use crate::nodes_view::{digits_value, is_digit};
use crate::text::{decimal_digits, push_decimal, push_signed_decimal, signed_decimal};

verus! {

/// How a field's reading is written out.
#[derive(Debug, Clone, Copy)]
pub enum FieldFormat {
    /// the integer, then the unit
    Number { suffix: &'static str },
    /// the integer divided by 1024 (rounded down), then the unit
    Kibi { suffix: &'static str },
    /// the number rounded to `digits` decimals (written by the caller, see
    /// `MetricValue::Float`), then the unit
    Rounded { digits: u8, suffix: &'static str },
    /// a number of seconds as a duration
    Uptime,
    /// the reading as it is
    Plain,
}

/// A field of a kind of telemetry: its name and how it is written out.
#[derive(Debug, Clone, Copy)]
pub struct FieldSpec {
    pub name: &'static str,
    pub format: FieldFormat,
}

/// The heading of a kind of telemetry in the view.
pub open spec fn spec_kind_title(k: TelemetryKind) -> &'static str {
    match k {
        TelemetryKind::DeviceMetrics => "Device Metrics",
        TelemetryKind::EnvironmentMetrics => "Environment Metrics",
        TelemetryKind::AirQualityMetrics => "Air Quality Metrics",
        TelemetryKind::HostMetrics => "Host Metrics",
        TelemetryKind::PowerMetrics => "Power Metrics",
        TelemetryKind::LocalStats => "Local Stats",
        TelemetryKind::HealthMetrics => "Health Metrics",
        TelemetryKind::TrafficManagementStats => "Traffic Management Stats",
    }
}

pub fn kind_title(k: TelemetryKind) -> (r: &'static str)
    ensures
        r == spec_kind_title(k),
{
    match k {
        TelemetryKind::DeviceMetrics => "Device Metrics",
        TelemetryKind::EnvironmentMetrics => "Environment Metrics",
        TelemetryKind::AirQualityMetrics => "Air Quality Metrics",
        TelemetryKind::HostMetrics => "Host Metrics",
        TelemetryKind::PowerMetrics => "Power Metrics",
        TelemetryKind::LocalStats => "Local Stats",
        TelemetryKind::HealthMetrics => "Health Metrics",
        TelemetryKind::TrafficManagementStats => "Traffic Management Stats",
    }
}

/// The fields of a kind of telemetry, in the order the view lists them.
pub open spec fn spec_kind_fields(k: TelemetryKind) -> Seq<FieldSpec> {
    match k {
        TelemetryKind::DeviceMetrics => seq![
            FieldSpec { name: "battery level", format: FieldFormat::Number { suffix: "%" } },
            FieldSpec { name: "voltage", format: FieldFormat::Rounded { digits: 1, suffix: "V" } },
            FieldSpec { name: "air util tx", format: FieldFormat::Rounded { digits: 2, suffix: "%" } },
            FieldSpec { name: "channel util", format: FieldFormat::Rounded { digits: 2, suffix: "%" } },
            FieldSpec { name: "uptime", format: FieldFormat::Uptime },
        ],
        TelemetryKind::EnvironmentMetrics => seq![
            FieldSpec { name: "temperature", format: FieldFormat::Rounded { digits: 1, suffix: "°C" } },
            FieldSpec { name: "relative humidity", format: FieldFormat::Rounded { digits: 1, suffix: "%" } },
            FieldSpec { name: "barometric pressure", format: FieldFormat::Rounded { digits: 1, suffix: "hPA" } },
            FieldSpec { name: "gas resistance", format: FieldFormat::Rounded { digits: 1, suffix: "MOhm" } },
            FieldSpec { name: "current", format: FieldFormat::Rounded { digits: 1, suffix: "A" } },
            FieldSpec { name: "voltage", format: FieldFormat::Rounded { digits: 1, suffix: "V" } },
            FieldSpec { name: "IAQ", format: FieldFormat::Plain },
            FieldSpec { name: "distance", format: FieldFormat::Rounded { digits: 3, suffix: "mm" } },
            FieldSpec { name: "lux", format: FieldFormat::Rounded { digits: 2, suffix: "" } },
            FieldSpec { name: "white lux", format: FieldFormat::Rounded { digits: 2, suffix: "" } },
            FieldSpec { name: "infrared lux", format: FieldFormat::Rounded { digits: 2, suffix: "" } },
            FieldSpec { name: "ultraviolet lux", format: FieldFormat::Rounded { digits: 2, suffix: "" } },
            FieldSpec { name: "wind direction", format: FieldFormat::Number { suffix: "°" } },
            FieldSpec { name: "wind speed", format: FieldFormat::Rounded { digits: 2, suffix: "m/s" } },
            FieldSpec { name: "wind gust", format: FieldFormat::Rounded { digits: 2, suffix: "m/s" } },
            FieldSpec { name: "wind lull", format: FieldFormat::Rounded { digits: 2, suffix: "m/s" } },
            FieldSpec { name: "weight", format: FieldFormat::Rounded { digits: 3, suffix: "kg" } },
            FieldSpec { name: "radiation", format: FieldFormat::Rounded { digits: 3, suffix: "µR/h" } },
            FieldSpec { name: "rainfall 1h", format: FieldFormat::Rounded { digits: 1, suffix: "mm" } },
            FieldSpec { name: "rainfall 24h", format: FieldFormat::Rounded { digits: 1, suffix: "mm" } },
            FieldSpec { name: "soil moisture", format: FieldFormat::Number { suffix: "%" } },
            FieldSpec { name: "soil temperature", format: FieldFormat::Rounded { digits: 1, suffix: "°C" } },
        ],
        TelemetryKind::AirQualityMetrics => seq![
            FieldSpec { name: "PM1.0 standard", format: FieldFormat::Number { suffix: "µg/m³" } },
            FieldSpec { name: "PM2.5 standard", format: FieldFormat::Number { suffix: "µg/m³" } },
            FieldSpec { name: "PM10 standard", format: FieldFormat::Number { suffix: "µg/m³" } },
            FieldSpec { name: "PM1.0 environmental", format: FieldFormat::Number { suffix: "µg/m³" } },
            FieldSpec { name: "PM2.5 environmental", format: FieldFormat::Number { suffix: "µg/m³" } },
            FieldSpec { name: "PM10 environmental", format: FieldFormat::Number { suffix: "µg/m³" } },
            FieldSpec { name: "0.3µm particles", format: FieldFormat::Number { suffix: "/0.1L" } },
            FieldSpec { name: "0.5µm particles", format: FieldFormat::Number { suffix: "/0.1L" } },
            FieldSpec { name: "1.0µm particles", format: FieldFormat::Number { suffix: "/0.1L" } },
            FieldSpec { name: "2.5µm particles", format: FieldFormat::Number { suffix: "/0.1L" } },
            FieldSpec { name: "5.0µm particles", format: FieldFormat::Number { suffix: "/0.1L" } },
            FieldSpec { name: "10.0µm particles", format: FieldFormat::Number { suffix: "/0.1L" } },
            FieldSpec { name: "CO2", format: FieldFormat::Number { suffix: "ppm" } },
            FieldSpec { name: "CO2 temperature", format: FieldFormat::Rounded { digits: 1, suffix: "°C" } },
            FieldSpec { name: "CO2 humidity", format: FieldFormat::Rounded { digits: 1, suffix: "%" } },
            FieldSpec { name: "formaldehyde", format: FieldFormat::Rounded { digits: 1, suffix: "ppb" } },
            FieldSpec { name: "formaldehyde humidity", format: FieldFormat::Rounded { digits: 1, suffix: "%RH" } },
            FieldSpec { name: "formaldehyde temperature", format: FieldFormat::Rounded { digits: 1, suffix: "°C" } },
            FieldSpec { name: "PM4.0 standard", format: FieldFormat::Number { suffix: "µg/m³" } },
            FieldSpec { name: "4.0µm particles", format: FieldFormat::Number { suffix: "/0.1L" } },
            FieldSpec { name: "PM temperature", format: FieldFormat::Rounded { digits: 1, suffix: "°C" } },
            FieldSpec { name: "PM humidity", format: FieldFormat::Rounded { digits: 1, suffix: "%" } },
            FieldSpec { name: "PM VOC index", format: FieldFormat::Rounded { digits: 2, suffix: "" } },
            FieldSpec { name: "PM NOx index", format: FieldFormat::Rounded { digits: 2, suffix: "" } },
            FieldSpec { name: "typical particle size", format: FieldFormat::Rounded { digits: 2, suffix: "µm" } },
        ],
        TelemetryKind::HostMetrics => seq![
            FieldSpec { name: "uptime", format: FieldFormat::Uptime },
            FieldSpec { name: "free memory", format: FieldFormat::Kibi { suffix: "MB" } },
            FieldSpec { name: "disk 1 free space", format: FieldFormat::Kibi { suffix: "MB" } },
            FieldSpec { name: "disk 2 free space", format: FieldFormat::Kibi { suffix: "MB" } },
            FieldSpec { name: "disk 3 free space", format: FieldFormat::Kibi { suffix: "MB" } },
            FieldSpec { name: "load 1 min", format: FieldFormat::Plain },
            FieldSpec { name: "load 5 min", format: FieldFormat::Plain },
            FieldSpec { name: "load 15 min", format: FieldFormat::Plain },
            FieldSpec { name: "user string", format: FieldFormat::Plain },
        ],
        TelemetryKind::PowerMetrics => seq![
            FieldSpec { name: "ch1_voltage", format: FieldFormat::Rounded { digits: 1, suffix: "V" } },
            FieldSpec { name: "ch1 current", format: FieldFormat::Rounded { digits: 1, suffix: "A" } },
            FieldSpec { name: "ch2_voltage", format: FieldFormat::Rounded { digits: 1, suffix: "V" } },
            FieldSpec { name: "ch2 current", format: FieldFormat::Rounded { digits: 1, suffix: "A" } },
            FieldSpec { name: "ch3_voltage", format: FieldFormat::Rounded { digits: 1, suffix: "V" } },
            FieldSpec { name: "ch3 current", format: FieldFormat::Rounded { digits: 1, suffix: "A" } },
            FieldSpec { name: "ch4_voltage", format: FieldFormat::Rounded { digits: 1, suffix: "V" } },
            FieldSpec { name: "ch4 current", format: FieldFormat::Rounded { digits: 1, suffix: "A" } },
            FieldSpec { name: "ch5_voltage", format: FieldFormat::Rounded { digits: 1, suffix: "V" } },
            FieldSpec { name: "ch5 current", format: FieldFormat::Rounded { digits: 1, suffix: "A" } },
            FieldSpec { name: "ch6_voltage", format: FieldFormat::Rounded { digits: 1, suffix: "V" } },
            FieldSpec { name: "ch6 current", format: FieldFormat::Rounded { digits: 1, suffix: "A" } },
            FieldSpec { name: "ch7_voltage", format: FieldFormat::Rounded { digits: 1, suffix: "V" } },
            FieldSpec { name: "ch7 current", format: FieldFormat::Rounded { digits: 1, suffix: "A" } },
            FieldSpec { name: "ch8_voltage", format: FieldFormat::Rounded { digits: 1, suffix: "V" } },
            FieldSpec { name: "ch8 current", format: FieldFormat::Rounded { digits: 1, suffix: "A" } },
        ],
        TelemetryKind::LocalStats => seq![
            FieldSpec { name: "uptime", format: FieldFormat::Uptime },
            FieldSpec { name: "channel utilization", format: FieldFormat::Rounded { digits: 2, suffix: "%" } },
            FieldSpec { name: "air util tx", format: FieldFormat::Rounded { digits: 2, suffix: "%" } },
            FieldSpec { name: "packets tx", format: FieldFormat::Number { suffix: "" } },
            FieldSpec { name: "packets rx", format: FieldFormat::Number { suffix: "" } },
            FieldSpec { name: "packets rx bad", format: FieldFormat::Number { suffix: "" } },
            FieldSpec { name: "online nodes", format: FieldFormat::Number { suffix: "" } },
            FieldSpec { name: "total nodes", format: FieldFormat::Number { suffix: "" } },
            FieldSpec { name: "rx dupe", format: FieldFormat::Number { suffix: "" } },
            FieldSpec { name: "tx relay", format: FieldFormat::Number { suffix: "" } },
            FieldSpec { name: "tx relay canceled", format: FieldFormat::Number { suffix: "" } },
            FieldSpec { name: "heap total", format: FieldFormat::Kibi { suffix: "KB" } },
            FieldSpec { name: "heap free", format: FieldFormat::Kibi { suffix: "KB" } },
            FieldSpec { name: "tx dropped", format: FieldFormat::Number { suffix: "" } },
            FieldSpec { name: "noise floor", format: FieldFormat::Number { suffix: "dBm" } },
        ],
        TelemetryKind::HealthMetrics => seq![
            FieldSpec { name: "heart rate", format: FieldFormat::Number { suffix: "bpm" } },
            FieldSpec { name: "SpO2", format: FieldFormat::Number { suffix: "%" } },
            FieldSpec { name: "body temperature", format: FieldFormat::Rounded { digits: 1, suffix: "°C" } },
        ],
        TelemetryKind::TrafficManagementStats => seq![
            FieldSpec { name: "packets inspected", format: FieldFormat::Number { suffix: "" } },
            FieldSpec { name: "position dedup drops", format: FieldFormat::Number { suffix: "" } },
            FieldSpec { name: "nodeinfo cache hits", format: FieldFormat::Number { suffix: "" } },
            FieldSpec { name: "rate limit drops", format: FieldFormat::Number { suffix: "" } },
            FieldSpec { name: "unknown packet drops", format: FieldFormat::Number { suffix: "" } },
            FieldSpec { name: "hop exhausted packets", format: FieldFormat::Number { suffix: "" } },
            FieldSpec { name: "router hops preserved", format: FieldFormat::Number { suffix: "" } },
        ],
    }
}

fn fields_device() -> (r: Vec<FieldSpec>)
    ensures
        r@ == spec_kind_fields(TelemetryKind::DeviceMetrics),
{
    let r = vec![
        FieldSpec { name: "battery level", format: FieldFormat::Number { suffix: "%" } },
        FieldSpec { name: "voltage", format: FieldFormat::Rounded { digits: 1, suffix: "V" } },
        FieldSpec { name: "air util tx", format: FieldFormat::Rounded { digits: 2, suffix: "%" } },
        FieldSpec { name: "channel util", format: FieldFormat::Rounded { digits: 2, suffix: "%" } },
        FieldSpec { name: "uptime", format: FieldFormat::Uptime },
    ];
    proof {
        assert(r@ =~= spec_kind_fields(TelemetryKind::DeviceMetrics));
    }
    r
}

fn fields_environment() -> (r: Vec<FieldSpec>)
    ensures
        r@ == spec_kind_fields(TelemetryKind::EnvironmentMetrics),
{
    let r = vec![
        FieldSpec { name: "temperature", format: FieldFormat::Rounded { digits: 1, suffix: "°C" } },
        FieldSpec { name: "relative humidity", format: FieldFormat::Rounded { digits: 1, suffix: "%" } },
        FieldSpec { name: "barometric pressure", format: FieldFormat::Rounded { digits: 1, suffix: "hPA" } },
        FieldSpec { name: "gas resistance", format: FieldFormat::Rounded { digits: 1, suffix: "MOhm" } },
        FieldSpec { name: "current", format: FieldFormat::Rounded { digits: 1, suffix: "A" } },
        FieldSpec { name: "voltage", format: FieldFormat::Rounded { digits: 1, suffix: "V" } },
        FieldSpec { name: "IAQ", format: FieldFormat::Plain },
        FieldSpec { name: "distance", format: FieldFormat::Rounded { digits: 3, suffix: "mm" } },
        FieldSpec { name: "lux", format: FieldFormat::Rounded { digits: 2, suffix: "" } },
        FieldSpec { name: "white lux", format: FieldFormat::Rounded { digits: 2, suffix: "" } },
        FieldSpec { name: "infrared lux", format: FieldFormat::Rounded { digits: 2, suffix: "" } },
        FieldSpec { name: "ultraviolet lux", format: FieldFormat::Rounded { digits: 2, suffix: "" } },
        FieldSpec { name: "wind direction", format: FieldFormat::Number { suffix: "°" } },
        FieldSpec { name: "wind speed", format: FieldFormat::Rounded { digits: 2, suffix: "m/s" } },
        FieldSpec { name: "wind gust", format: FieldFormat::Rounded { digits: 2, suffix: "m/s" } },
        FieldSpec { name: "wind lull", format: FieldFormat::Rounded { digits: 2, suffix: "m/s" } },
        FieldSpec { name: "weight", format: FieldFormat::Rounded { digits: 3, suffix: "kg" } },
        FieldSpec { name: "radiation", format: FieldFormat::Rounded { digits: 3, suffix: "µR/h" } },
        FieldSpec { name: "rainfall 1h", format: FieldFormat::Rounded { digits: 1, suffix: "mm" } },
        FieldSpec { name: "rainfall 24h", format: FieldFormat::Rounded { digits: 1, suffix: "mm" } },
        FieldSpec { name: "soil moisture", format: FieldFormat::Number { suffix: "%" } },
        FieldSpec { name: "soil temperature", format: FieldFormat::Rounded { digits: 1, suffix: "°C" } },
    ];
    proof {
        assert(r@ =~= spec_kind_fields(TelemetryKind::EnvironmentMetrics));
    }
    r
}

fn fields_air_quality() -> (r: Vec<FieldSpec>)
    ensures
        r@ == spec_kind_fields(TelemetryKind::AirQualityMetrics),
{
    let r = vec![
        FieldSpec { name: "PM1.0 standard", format: FieldFormat::Number { suffix: "µg/m³" } },
        FieldSpec { name: "PM2.5 standard", format: FieldFormat::Number { suffix: "µg/m³" } },
        FieldSpec { name: "PM10 standard", format: FieldFormat::Number { suffix: "µg/m³" } },
        FieldSpec { name: "PM1.0 environmental", format: FieldFormat::Number { suffix: "µg/m³" } },
        FieldSpec { name: "PM2.5 environmental", format: FieldFormat::Number { suffix: "µg/m³" } },
        FieldSpec { name: "PM10 environmental", format: FieldFormat::Number { suffix: "µg/m³" } },
        FieldSpec { name: "0.3µm particles", format: FieldFormat::Number { suffix: "/0.1L" } },
        FieldSpec { name: "0.5µm particles", format: FieldFormat::Number { suffix: "/0.1L" } },
        FieldSpec { name: "1.0µm particles", format: FieldFormat::Number { suffix: "/0.1L" } },
        FieldSpec { name: "2.5µm particles", format: FieldFormat::Number { suffix: "/0.1L" } },
        FieldSpec { name: "5.0µm particles", format: FieldFormat::Number { suffix: "/0.1L" } },
        FieldSpec { name: "10.0µm particles", format: FieldFormat::Number { suffix: "/0.1L" } },
        FieldSpec { name: "CO2", format: FieldFormat::Number { suffix: "ppm" } },
        FieldSpec { name: "CO2 temperature", format: FieldFormat::Rounded { digits: 1, suffix: "°C" } },
        FieldSpec { name: "CO2 humidity", format: FieldFormat::Rounded { digits: 1, suffix: "%" } },
        FieldSpec { name: "formaldehyde", format: FieldFormat::Rounded { digits: 1, suffix: "ppb" } },
        FieldSpec { name: "formaldehyde humidity", format: FieldFormat::Rounded { digits: 1, suffix: "%RH" } },
        FieldSpec { name: "formaldehyde temperature", format: FieldFormat::Rounded { digits: 1, suffix: "°C" } },
        FieldSpec { name: "PM4.0 standard", format: FieldFormat::Number { suffix: "µg/m³" } },
        FieldSpec { name: "4.0µm particles", format: FieldFormat::Number { suffix: "/0.1L" } },
        FieldSpec { name: "PM temperature", format: FieldFormat::Rounded { digits: 1, suffix: "°C" } },
        FieldSpec { name: "PM humidity", format: FieldFormat::Rounded { digits: 1, suffix: "%" } },
        FieldSpec { name: "PM VOC index", format: FieldFormat::Rounded { digits: 2, suffix: "" } },
        FieldSpec { name: "PM NOx index", format: FieldFormat::Rounded { digits: 2, suffix: "" } },
        FieldSpec { name: "typical particle size", format: FieldFormat::Rounded { digits: 2, suffix: "µm" } },
    ];
    proof {
        assert(r@ =~= spec_kind_fields(TelemetryKind::AirQualityMetrics));
    }
    r
}

fn fields_host() -> (r: Vec<FieldSpec>)
    ensures
        r@ == spec_kind_fields(TelemetryKind::HostMetrics),
{
    let r = vec![
        FieldSpec { name: "uptime", format: FieldFormat::Uptime },
        FieldSpec { name: "free memory", format: FieldFormat::Kibi { suffix: "MB" } },
        FieldSpec { name: "disk 1 free space", format: FieldFormat::Kibi { suffix: "MB" } },
        FieldSpec { name: "disk 2 free space", format: FieldFormat::Kibi { suffix: "MB" } },
        FieldSpec { name: "disk 3 free space", format: FieldFormat::Kibi { suffix: "MB" } },
        FieldSpec { name: "load 1 min", format: FieldFormat::Plain },
        FieldSpec { name: "load 5 min", format: FieldFormat::Plain },
        FieldSpec { name: "load 15 min", format: FieldFormat::Plain },
        FieldSpec { name: "user string", format: FieldFormat::Plain },
    ];
    proof {
        assert(r@ =~= spec_kind_fields(TelemetryKind::HostMetrics));
    }
    r
}

fn fields_power() -> (r: Vec<FieldSpec>)
    ensures
        r@ == spec_kind_fields(TelemetryKind::PowerMetrics),
{
    let r = vec![
        FieldSpec { name: "ch1_voltage", format: FieldFormat::Rounded { digits: 1, suffix: "V" } },
        FieldSpec { name: "ch1 current", format: FieldFormat::Rounded { digits: 1, suffix: "A" } },
        FieldSpec { name: "ch2_voltage", format: FieldFormat::Rounded { digits: 1, suffix: "V" } },
        FieldSpec { name: "ch2 current", format: FieldFormat::Rounded { digits: 1, suffix: "A" } },
        FieldSpec { name: "ch3_voltage", format: FieldFormat::Rounded { digits: 1, suffix: "V" } },
        FieldSpec { name: "ch3 current", format: FieldFormat::Rounded { digits: 1, suffix: "A" } },
        FieldSpec { name: "ch4_voltage", format: FieldFormat::Rounded { digits: 1, suffix: "V" } },
        FieldSpec { name: "ch4 current", format: FieldFormat::Rounded { digits: 1, suffix: "A" } },
        FieldSpec { name: "ch5_voltage", format: FieldFormat::Rounded { digits: 1, suffix: "V" } },
        FieldSpec { name: "ch5 current", format: FieldFormat::Rounded { digits: 1, suffix: "A" } },
        FieldSpec { name: "ch6_voltage", format: FieldFormat::Rounded { digits: 1, suffix: "V" } },
        FieldSpec { name: "ch6 current", format: FieldFormat::Rounded { digits: 1, suffix: "A" } },
        FieldSpec { name: "ch7_voltage", format: FieldFormat::Rounded { digits: 1, suffix: "V" } },
        FieldSpec { name: "ch7 current", format: FieldFormat::Rounded { digits: 1, suffix: "A" } },
        FieldSpec { name: "ch8_voltage", format: FieldFormat::Rounded { digits: 1, suffix: "V" } },
        FieldSpec { name: "ch8 current", format: FieldFormat::Rounded { digits: 1, suffix: "A" } },
    ];
    proof {
        assert(r@ =~= spec_kind_fields(TelemetryKind::PowerMetrics));
    }
    r
}

fn fields_local_stats() -> (r: Vec<FieldSpec>)
    ensures
        r@ == spec_kind_fields(TelemetryKind::LocalStats),
{
    let r = vec![
        FieldSpec { name: "uptime", format: FieldFormat::Uptime },
        FieldSpec { name: "channel utilization", format: FieldFormat::Rounded { digits: 2, suffix: "%" } },
        FieldSpec { name: "air util tx", format: FieldFormat::Rounded { digits: 2, suffix: "%" } },
        FieldSpec { name: "packets tx", format: FieldFormat::Number { suffix: "" } },
        FieldSpec { name: "packets rx", format: FieldFormat::Number { suffix: "" } },
        FieldSpec { name: "packets rx bad", format: FieldFormat::Number { suffix: "" } },
        FieldSpec { name: "online nodes", format: FieldFormat::Number { suffix: "" } },
        FieldSpec { name: "total nodes", format: FieldFormat::Number { suffix: "" } },
        FieldSpec { name: "rx dupe", format: FieldFormat::Number { suffix: "" } },
        FieldSpec { name: "tx relay", format: FieldFormat::Number { suffix: "" } },
        FieldSpec { name: "tx relay canceled", format: FieldFormat::Number { suffix: "" } },
        FieldSpec { name: "heap total", format: FieldFormat::Kibi { suffix: "KB" } },
        FieldSpec { name: "heap free", format: FieldFormat::Kibi { suffix: "KB" } },
        FieldSpec { name: "tx dropped", format: FieldFormat::Number { suffix: "" } },
        FieldSpec { name: "noise floor", format: FieldFormat::Number { suffix: "dBm" } },
    ];
    proof {
        assert(r@ =~= spec_kind_fields(TelemetryKind::LocalStats));
    }
    r
}

fn fields_health() -> (r: Vec<FieldSpec>)
    ensures
        r@ == spec_kind_fields(TelemetryKind::HealthMetrics),
{
    let r = vec![
        FieldSpec { name: "heart rate", format: FieldFormat::Number { suffix: "bpm" } },
        FieldSpec { name: "SpO2", format: FieldFormat::Number { suffix: "%" } },
        FieldSpec { name: "body temperature", format: FieldFormat::Rounded { digits: 1, suffix: "°C" } },
    ];
    proof {
        assert(r@ =~= spec_kind_fields(TelemetryKind::HealthMetrics));
    }
    r
}

fn fields_traffic_management() -> (r: Vec<FieldSpec>)
    ensures
        r@ == spec_kind_fields(TelemetryKind::TrafficManagementStats),
{
    let r = vec![
        FieldSpec { name: "packets inspected", format: FieldFormat::Number { suffix: "" } },
        FieldSpec { name: "position dedup drops", format: FieldFormat::Number { suffix: "" } },
        FieldSpec { name: "nodeinfo cache hits", format: FieldFormat::Number { suffix: "" } },
        FieldSpec { name: "rate limit drops", format: FieldFormat::Number { suffix: "" } },
        FieldSpec { name: "unknown packet drops", format: FieldFormat::Number { suffix: "" } },
        FieldSpec { name: "hop exhausted packets", format: FieldFormat::Number { suffix: "" } },
        FieldSpec { name: "router hops preserved", format: FieldFormat::Number { suffix: "" } },
    ];
    proof {
        assert(r@ =~= spec_kind_fields(TelemetryKind::TrafficManagementStats));
    }
    r
}

/// The fields of a kind of telemetry, as `spec_kind_fields` lists them.
pub fn kind_fields(k: TelemetryKind) -> (r: Vec<FieldSpec>)
    ensures
        r@ == spec_kind_fields(k),
{
    match k {
        TelemetryKind::DeviceMetrics => fields_device(),
        TelemetryKind::EnvironmentMetrics => fields_environment(),
        TelemetryKind::AirQualityMetrics => fields_air_quality(),
        TelemetryKind::HostMetrics => fields_host(),
        TelemetryKind::PowerMetrics => fields_power(),
        TelemetryKind::LocalStats => fields_local_stats(),
        TelemetryKind::HealthMetrics => fields_health(),
        TelemetryKind::TrafficManagementStats => fields_traffic_management(),
    }
}

/// A reading of a field. A floating point reading carries its bits and its
/// number written out by the caller twice: in full (`plain`) and rounded to
/// the decimals its field shows (`rounded`, see `FieldFormat::Rounded`).
#[derive(Debug, Clone)]
pub enum MetricValue {
    Unsigned(u64),
    Signed(i64),
    Float { bits: u32, plain: String, rounded: String },
    Text(String),
}

/// A reading as plain values.
pub enum MetricView {
    Unsigned(u64),
    Signed(i64),
    Float(u32, Seq<char>, Seq<char>),
    Text(Seq<char>),
}

impl View for MetricValue {
    type V = MetricView;

    open spec fn view(&self) -> MetricView {
        match self {
            MetricValue::Unsigned(n) => MetricView::Unsigned(*n),
            MetricValue::Signed(n) => MetricView::Signed(*n),
            MetricValue::Float { bits, plain, rounded } => MetricView::Float(*bits, plain@, rounded@),
            MetricValue::Text(s) => MetricView::Text(s@),
        }
    }
}

/// The readings of one kind of telemetry: when they were taken (seconds
/// since the Unix epoch), their JSON text, and one reading per field of the
/// kind (see `spec_kind_fields`), in order, `None` where there is none; the
/// readings come from the record fields `spec_kind_sources` lists.
#[derive(Debug, Clone)]
pub struct MetricsReading {
    pub time: i64,
    pub json: String,
    pub fields: Vec<Option<MetricValue>>,
}

/// The readings as plain values.
pub open spec fn fields_view(fs: Seq<Option<MetricValue>>) -> Seq<Option<MetricView>> {
    fs.map_values(
        |f: Option<MetricValue>|
            match f {
                Some(v) => Some(v@),
                None => None,
            },
    )
}

/// The last telemetry of a node: the readings of each kind it reported.
#[derive(Debug, Clone)]
pub struct TelemetryReading {
    pub device: Option<MetricsReading>,
    pub environment: Option<MetricsReading>,
    pub air_quality: Option<MetricsReading>,
    pub host: Option<MetricsReading>,
    pub power: Option<MetricsReading>,
    pub local_stats: Option<MetricsReading>,
    pub health: Option<MetricsReading>,
    pub traffic_management: Option<MetricsReading>,
}

/// An entry of the telemetry view.
#[derive(Debug, Clone, PartialEq, Eq)]
pub enum TelemetryItem {
    /// the heading of a kind, with the time and JSON text of its readings
    Group { title: &'static str, time: i64, json: String },
    /// a field with a reading: its name, the reading as it is (what the copy
    /// key copies) and the reading as shown
    Item { title: &'static str, value: String, shown: String },
}

/// An entry as plain values.
pub enum TelemetryItemView {
    Group(&'static str, i64, Seq<char>),
    Item(&'static str, Seq<char>, Seq<char>),
}

impl View for TelemetryItem {
    type V = TelemetryItemView;

    open spec fn view(&self) -> TelemetryItemView {
        match self {
            TelemetryItem::Group { title, time, json } => TelemetryItemView::Group(*title, *time, json@),
            TelemetryItem::Item { title, value, shown } => TelemetryItemView::Item(*title, value@, shown@),
        }
    }
}

/// The entries as plain values.
pub open spec fn telemetry_view(xs: Seq<TelemetryItem>) -> Seq<TelemetryItemView> {
    xs.map_values(|x: TelemetryItem| x@)
}

/// A reading as it is: an integer in decimal, a floating point number as
/// the caller wrote it in full, a text as it is.
pub open spec fn value_text(v: MetricView) -> Seq<char> {
    match v {
        MetricView::Unsigned(n) => decimal_digits(n as nat),
        MetricView::Signed(n) => signed_decimal(n as int),
        MetricView::Float(_, plain, _) => plain,
        MetricView::Text(s) => s,
    }
}

/// A reading as its field shows it. A reading of another sort than the
/// format expects is shown as it is.
pub open spec fn shown_text(f: FieldFormat, v: MetricView) -> Seq<char> {
    match f {
        FieldFormat::Number { suffix } => match v {
            MetricView::Unsigned(n) => decimal_digits(n as nat) + suffix@,
            MetricView::Signed(n) => signed_decimal(n as int) + suffix@,
            _ => value_text(v),
        },
        FieldFormat::Kibi { suffix } => match v {
            MetricView::Unsigned(n) => decimal_digits((n / 1024) as nat) + suffix@,
            _ => value_text(v),
        },
        FieldFormat::Rounded { suffix, .. } => match v {
            MetricView::Float(_, _, rounded) => rounded + suffix@,
            _ => value_text(v),
        },
        FieldFormat::Uptime => match v {
            MetricView::Unsigned(n) => if n <= i64::MAX {
                spec_humanize(n as int).spec_text()
            } else {
                value_text(v)
            },
            _ => value_text(v),
        },
        FieldFormat::Plain => value_text(v),
    }
}

/// The entries of the first `n` fields: one for each field with a
/// reading, in order.
pub open spec fn field_items(specs: Seq<FieldSpec>, fields: Seq<Option<MetricView>>, n: int) -> Seq<
    TelemetryItemView,
>
    decreases n,
{
    if n <= 0 {
        Seq::empty()
    } else {
        let before = field_items(specs, fields, n - 1);
        match fields[n - 1] {
            Some(v) => before.push(
                TelemetryItemView::Item(specs[n - 1].name, value_text(v), shown_text(specs[n - 1].format, v)),
            ),
            None => before,
        }
    }
}

/// The entries of a kind: none when the node did not report it; else its
/// heading, then one entry for each of its fields with a reading, in the
/// order of the kind's fields.
pub open spec fn kind_items(k: TelemetryKind, m: Option<MetricsReading>) -> Seq<TelemetryItemView> {
    match m {
        None => Seq::empty(),
        Some(r) => {
            let specs = spec_kind_fields(k);
            let fields = fields_view(r.fields@);
            let n = if specs.len() < fields.len() {
                specs.len() as int
            } else {
                fields.len() as int
            };
            seq![TelemetryItemView::Group(spec_kind_title(k), r.time, r.json@)] + field_items(specs, fields, n)
        },
    }
}

/// The telemetry view of a node's last telemetry: the entries of device,
/// environment, air quality, host and power metrics, local statistics,
/// health metrics and traffic management statistics, in this order.
pub open spec fn spec_telemetry_items(r: TelemetryReading) -> Seq<TelemetryItemView> {
    kind_items(TelemetryKind::DeviceMetrics, r.device) + kind_items(
        TelemetryKind::EnvironmentMetrics,
        r.environment,
    ) + kind_items(TelemetryKind::AirQualityMetrics, r.air_quality) + kind_items(
        TelemetryKind::HostMetrics,
        r.host,
    ) + kind_items(TelemetryKind::PowerMetrics, r.power) + kind_items(TelemetryKind::LocalStats, r.local_stats)
        + kind_items(TelemetryKind::HealthMetrics, r.health) + kind_items(
        TelemetryKind::TrafficManagementStats,
        r.traffic_management,
    )
}

fn copy_text(s: &String) -> (r: String)
    ensures
        r@ == s@,
{
    s.as_str().to_string()
}

/// A reading as it is, as `value_text` has it.
pub fn reading_text(v: &MetricValue) -> (r: String)
    ensures
        r@ == value_text(v@),
{
    match v {
        MetricValue::Unsigned(n) => {
            let mut s = String::new();
            push_decimal(&mut s, *n);
            s
        },
        MetricValue::Signed(n) => {
            let mut s = String::new();
            push_signed_decimal(&mut s, *n);
            s
        },
        MetricValue::Float { plain, .. } => copy_text(plain),
        MetricValue::Text(t) => copy_text(t),
    }
}

/// A reading as its field shows it, as `shown_text` has it.
pub fn reading_shown(f: FieldFormat, v: &MetricValue) -> (r: String)
    ensures
        r@ == shown_text(f, v@),
{
    match f {
        FieldFormat::Number { suffix } => match v {
            MetricValue::Unsigned(n) => {
                let mut s = String::new();
                push_decimal(&mut s, *n);
                s.append(suffix);
                s
            },
            MetricValue::Signed(n) => {
                let mut s = String::new();
                push_signed_decimal(&mut s, *n);
                s.append(suffix);
                s
            },
            _ => reading_text(v),
        },
        FieldFormat::Kibi { suffix } => match v {
            MetricValue::Unsigned(n) => {
                let mut s = String::new();
                push_decimal(&mut s, *n / 1024);
                s.append(suffix);
                s
            },
            _ => reading_text(v),
        },
        FieldFormat::Rounded { suffix, .. } => match v {
            MetricValue::Float { rounded, .. } => {
                let mut s = copy_text(rounded);
                s.append(suffix);
                s
            },
            _ => reading_text(v),
        },
        FieldFormat::Uptime => match v {
            MetricValue::Unsigned(n) => if *n <= 0x7fff_ffff_ffff_ffffu64 {
                humanize_duration(*n as i64).text()
            } else {
                reading_text(v)
            },
            _ => reading_text(v),
        },
        FieldFormat::Plain => reading_text(v),
    }
}

/// Appends the entries of the kind `k` (see `kind_items`).
fn push_kind(out: &mut Vec<TelemetryItem>, k: TelemetryKind, m: &Option<MetricsReading>)
    ensures
        telemetry_view(final(out)@) == telemetry_view(old(out)@) + kind_items(k, *m),
{
    match m {
        None => {
            assert(telemetry_view(out@) =~= telemetry_view(old(out)@) + kind_items(k, *m));
        },
        Some(r) => {
            let ghost start = telemetry_view(out@);
            out.push(TelemetryItem::Group { title: kind_title(k), time: r.time, json: copy_text(&r.json) });
            let ghost head = start + seq![TelemetryItemView::Group(spec_kind_title(k), r.time, r.json@)];
            assert(telemetry_view(out@) =~= head);
            let specs = kind_fields(k);
            let n: usize = if specs.len() < r.fields.len() {
                specs.len()
            } else {
                r.fields.len()
            };
            let ghost fields = fields_view(r.fields@);
            let mut i: usize = 0;
            while i < n
                invariant
                    i <= n,
                    n <= specs.len(),
                    n <= r.fields.len(),
                    specs@ == spec_kind_fields(k),
                    fields == fields_view(r.fields@),
                    telemetry_view(out@) == head + field_items(specs@, fields, i as int),
                decreases n - i,
            {
                let ghost before = telemetry_view(out@);
                match &r.fields[i] {
                    Some(v) => {
                        let f = specs[i];
                        let value = reading_text(v);
                        let shown = reading_shown(f.format, v);
                        out.push(TelemetryItem::Item { title: f.name, value, shown });
                        assert(telemetry_view(out@) =~= before.push(
                            TelemetryItemView::Item(f.name, value@, shown@),
                        ));
                    },
                    None => {},
                }
                i = i + 1;
            }
            assert(telemetry_view(out@) =~= telemetry_view(old(out)@) + kind_items(k, *m));
        },
    }
}

/// The telemetry view of a node's last telemetry, as
/// `spec_telemetry_items` lists it.
pub fn telemetry_items(r: &TelemetryReading) -> (items: Vec<TelemetryItem>)
    ensures
        telemetry_view(items@) == spec_telemetry_items(*r),
{
    let mut items: Vec<TelemetryItem> = Vec::new();
    assert(telemetry_view(items@) =~= Seq::<TelemetryItemView>::empty());
    push_kind(&mut items, TelemetryKind::DeviceMetrics, &r.device);
    push_kind(&mut items, TelemetryKind::EnvironmentMetrics, &r.environment);
    push_kind(&mut items, TelemetryKind::AirQualityMetrics, &r.air_quality);
    push_kind(&mut items, TelemetryKind::HostMetrics, &r.host);
    push_kind(&mut items, TelemetryKind::PowerMetrics, &r.power);
    push_kind(&mut items, TelemetryKind::LocalStats, &r.local_stats);
    push_kind(&mut items, TelemetryKind::HealthMetrics, &r.health);
    push_kind(&mut items, TelemetryKind::TrafficManagementStats, &r.traffic_management);
    assert(telemetry_view(items@) =~= spec_telemetry_items(*r));
    items
}

/// Refreshes the telemetry view of the node window for the node in view
/// `nodeinfo` from that node's last telemetry. With no node in view, or no
/// telemetry of it, nothing changes; otherwise the view becomes the
/// telemetry's entries. Returns whether the view was changed.
pub fn update_nodeinfo_telemetry(
    shown: &mut Vec<TelemetryItem>,
    nodeinfo: Option<u32>,
    reading: Option<&TelemetryReading>,
) -> (changed: bool)
    ensures
        nodeinfo is None || reading is None ==> !changed && *final(shown) == *old(shown),
        nodeinfo is Some && reading is Some ==> changed && telemetry_view(final(shown)@)
            == spec_telemetry_items(*reading->0),
{
    if nodeinfo.is_none() {
        return false;
    }
    match reading {
        None => false,
        Some(r) => {
            *shown = telemetry_items(r);
            true
        },
    }
}

/// A field of the radio's telemetry records, by the record and the field's
/// name in it.
#[derive(Debug, Clone, Copy, PartialEq, Eq, Structural)]
pub enum TelemetrySource {
    /// `battery_level` of the device metrics
    DeviceBatteryLevel,
    /// `voltage` of the device metrics
    DeviceVoltage,
    /// `air_util_tx` of the device metrics
    DeviceAirUtilTx,
    /// `channel_utilization` of the device metrics
    DeviceChannelUtilization,
    /// `uptime_seconds` of the device metrics
    DeviceUptimeSeconds,
    /// `temperature` of the environment metrics
    EnvironmentTemperature,
    /// `relative_humidity` of the environment metrics
    EnvironmentRelativeHumidity,
    /// `barometric_pressure` of the environment metrics
    EnvironmentBarometricPressure,
    /// `gas_resistance` of the environment metrics
    EnvironmentGasResistance,
    /// `current` of the environment metrics
    EnvironmentCurrent,
    /// `voltage` of the environment metrics
    EnvironmentVoltage,
    /// `iaq` of the environment metrics
    EnvironmentIaq,
    /// `distance` of the environment metrics
    EnvironmentDistance,
    /// `lux` of the environment metrics
    EnvironmentLux,
    /// `white_lux` of the environment metrics
    EnvironmentWhiteLux,
    /// `ir_lux` of the environment metrics
    EnvironmentIrLux,
    /// `uv_lux` of the environment metrics
    EnvironmentUvLux,
    /// `wind_direction` of the environment metrics
    EnvironmentWindDirection,
    /// `wind_speed` of the environment metrics
    EnvironmentWindSpeed,
    /// `wind_gust` of the environment metrics
    EnvironmentWindGust,
    /// `wind_lull` of the environment metrics
    EnvironmentWindLull,
    /// `weight` of the environment metrics
    EnvironmentWeight,
    /// `radiation` of the environment metrics
    EnvironmentRadiation,
    /// `rainfall_1h` of the environment metrics
    EnvironmentRainfall1h,
    /// `rainfall_24h` of the environment metrics
    EnvironmentRainfall24h,
    /// `soil_moisture` of the environment metrics
    EnvironmentSoilMoisture,
    /// `soil_temperature` of the environment metrics
    EnvironmentSoilTemperature,
    /// `pm10_standard` of the air quality metrics
    AirQualityPm10Standard,
    /// `pm25_standard` of the air quality metrics
    AirQualityPm25Standard,
    /// `pm100_standard` of the air quality metrics
    AirQualityPm100Standard,
    /// `pm10_environmental` of the air quality metrics
    AirQualityPm10Environmental,
    /// `pm25_environmental` of the air quality metrics
    AirQualityPm25Environmental,
    /// `pm100_environmental` of the air quality metrics
    AirQualityPm100Environmental,
    /// `particles_03um` of the air quality metrics
    AirQualityParticles03um,
    /// `particles_05um` of the air quality metrics
    AirQualityParticles05um,
    /// `particles_10um` of the air quality metrics
    AirQualityParticles10um,
    /// `particles_25um` of the air quality metrics
    AirQualityParticles25um,
    /// `particles_50um` of the air quality metrics
    AirQualityParticles50um,
    /// `particles_100um` of the air quality metrics
    AirQualityParticles100um,
    /// `co2` of the air quality metrics
    AirQualityCo2,
    /// `co2_temperature` of the air quality metrics
    AirQualityCo2Temperature,
    /// `co2_humidity` of the air quality metrics
    AirQualityCo2Humidity,
    /// `form_formaldehyde` of the air quality metrics
    AirQualityFormFormaldehyde,
    /// `form_humidity` of the air quality metrics
    AirQualityFormHumidity,
    /// `form_temperature` of the air quality metrics
    AirQualityFormTemperature,
    /// `pm40_standard` of the air quality metrics
    AirQualityPm40Standard,
    /// `particles_40um` of the air quality metrics
    AirQualityParticles40um,
    /// `pm_temperature` of the air quality metrics
    AirQualityPmTemperature,
    /// `pm_humidity` of the air quality metrics
    AirQualityPmHumidity,
    /// `pm_voc_idx` of the air quality metrics
    AirQualityPmVocIdx,
    /// `pm_nox_idx` of the air quality metrics
    AirQualityPmNoxIdx,
    /// `particles_tps` of the air quality metrics
    AirQualityParticlesTps,
    /// `uptime_seconds` of the host metrics
    HostUptimeSeconds,
    /// `freemem_bytes` of the host metrics
    HostFreememBytes,
    /// `diskfree1_bytes` of the host metrics
    HostDiskfree1Bytes,
    /// `diskfree2_bytes` of the host metrics
    HostDiskfree2Bytes,
    /// `diskfree3_bytes` of the host metrics
    HostDiskfree3Bytes,
    /// `load1` of the host metrics
    HostLoad1,
    /// `load5` of the host metrics
    HostLoad5,
    /// `load15` of the host metrics
    HostLoad15,
    /// `user_string` of the host metrics
    HostUserString,
    /// `ch1_voltage` of the power metrics
    PowerCh1Voltage,
    /// `ch1_current` of the power metrics
    PowerCh1Current,
    /// `ch2_voltage` of the power metrics
    PowerCh2Voltage,
    /// `ch2_current` of the power metrics
    PowerCh2Current,
    /// `ch3_voltage` of the power metrics
    PowerCh3Voltage,
    /// `ch3_current` of the power metrics
    PowerCh3Current,
    /// `ch4_voltage` of the power metrics
    PowerCh4Voltage,
    /// `ch4_current` of the power metrics
    PowerCh4Current,
    /// `ch5_voltage` of the power metrics
    PowerCh5Voltage,
    /// `ch5_current` of the power metrics
    PowerCh5Current,
    /// `ch6_voltage` of the power metrics
    PowerCh6Voltage,
    /// `ch6_current` of the power metrics
    PowerCh6Current,
    /// `ch7_voltage` of the power metrics
    PowerCh7Voltage,
    /// `ch7_current` of the power metrics
    PowerCh7Current,
    /// `ch8_voltage` of the power metrics
    PowerCh8Voltage,
    /// `ch8_current` of the power metrics
    PowerCh8Current,
    /// `uptime_seconds` of the local stats
    LocalStatsUptimeSeconds,
    /// `channel_utilization` of the local stats
    LocalStatsChannelUtilization,
    /// `air_util_tx` of the local stats
    LocalStatsAirUtilTx,
    /// `num_packets_tx` of the local stats
    LocalStatsNumPacketsTx,
    /// `num_packets_rx` of the local stats
    LocalStatsNumPacketsRx,
    /// `num_packets_rx_bad` of the local stats
    LocalStatsNumPacketsRxBad,
    /// `num_online_nodes` of the local stats
    LocalStatsNumOnlineNodes,
    /// `num_total_nodes` of the local stats
    LocalStatsNumTotalNodes,
    /// `num_rx_dupe` of the local stats
    LocalStatsNumRxDupe,
    /// `num_tx_relay` of the local stats
    LocalStatsNumTxRelay,
    /// `num_tx_relay_canceled` of the local stats
    LocalStatsNumTxRelayCanceled,
    /// `heap_total_bytes` of the local stats
    LocalStatsHeapTotalBytes,
    /// `heap_free_bytes` of the local stats
    LocalStatsHeapFreeBytes,
    /// `num_tx_dropped` of the local stats
    LocalStatsNumTxDropped,
    /// `noise_floor` of the local stats
    LocalStatsNoiseFloor,
    /// `heart_bpm` of the health metrics
    HealthHeartBpm,
    /// `sp_o2` of the health metrics
    HealthSpO2,
    /// `temperature` of the health metrics
    HealthTemperature,
    /// `packets_inspected` of the traffic management stats
    TrafficPacketsInspected,
    /// `position_dedup_drops` of the traffic management stats
    TrafficPositionDedupDrops,
    /// `nodeinfo_cache_hits` of the traffic management stats
    TrafficNodeinfoCacheHits,
    /// `rate_limit_drops` of the traffic management stats
    TrafficRateLimitDrops,
    /// `unknown_packet_drops` of the traffic management stats
    TrafficUnknownPacketDrops,
    /// `hop_exhausted_packets` of the traffic management stats
    TrafficHopExhaustedPackets,
    /// `router_hops_preserved` of the traffic management stats
    TrafficRouterHopsPreserved,
}

/// The record fields a kind's readings are read from, in the order of the
/// readings (see `MetricsReading`).
pub open spec fn spec_kind_sources(k: TelemetryKind) -> Seq<TelemetrySource> {
    match k {
        TelemetryKind::DeviceMetrics => seq![
            TelemetrySource::DeviceBatteryLevel,
            TelemetrySource::DeviceVoltage,
            TelemetrySource::DeviceAirUtilTx,
            TelemetrySource::DeviceChannelUtilization,
            TelemetrySource::DeviceUptimeSeconds,
        ],
        TelemetryKind::EnvironmentMetrics => seq![
            TelemetrySource::EnvironmentTemperature,
            TelemetrySource::EnvironmentRelativeHumidity,
            TelemetrySource::EnvironmentBarometricPressure,
            TelemetrySource::EnvironmentGasResistance,
            TelemetrySource::EnvironmentCurrent,
            TelemetrySource::EnvironmentVoltage,
            TelemetrySource::EnvironmentIaq,
            TelemetrySource::EnvironmentDistance,
            TelemetrySource::EnvironmentLux,
            TelemetrySource::EnvironmentWhiteLux,
            TelemetrySource::EnvironmentIrLux,
            TelemetrySource::EnvironmentUvLux,
            TelemetrySource::EnvironmentWindDirection,
            TelemetrySource::EnvironmentWindSpeed,
            TelemetrySource::EnvironmentWindGust,
            TelemetrySource::EnvironmentWindLull,
            TelemetrySource::EnvironmentWeight,
            TelemetrySource::EnvironmentRadiation,
            TelemetrySource::EnvironmentRainfall1h,
            TelemetrySource::EnvironmentRainfall24h,
            TelemetrySource::EnvironmentSoilMoisture,
            TelemetrySource::EnvironmentSoilTemperature,
        ],
        TelemetryKind::AirQualityMetrics => seq![
            TelemetrySource::AirQualityPm10Standard,
            TelemetrySource::AirQualityPm25Standard,
            TelemetrySource::AirQualityPm100Standard,
            TelemetrySource::AirQualityPm10Environmental,
            TelemetrySource::AirQualityPm25Environmental,
            TelemetrySource::AirQualityPm100Environmental,
            TelemetrySource::AirQualityParticles03um,
            TelemetrySource::AirQualityParticles05um,
            TelemetrySource::AirQualityParticles10um,
            TelemetrySource::AirQualityParticles25um,
            TelemetrySource::AirQualityParticles50um,
            TelemetrySource::AirQualityParticles100um,
            TelemetrySource::AirQualityCo2,
            TelemetrySource::AirQualityCo2Temperature,
            TelemetrySource::AirQualityCo2Humidity,
            TelemetrySource::AirQualityFormFormaldehyde,
            TelemetrySource::AirQualityFormHumidity,
            TelemetrySource::AirQualityFormTemperature,
            TelemetrySource::AirQualityPm40Standard,
            TelemetrySource::AirQualityParticles40um,
            TelemetrySource::AirQualityPmTemperature,
            TelemetrySource::AirQualityPmHumidity,
            TelemetrySource::AirQualityPmVocIdx,
            TelemetrySource::AirQualityPmNoxIdx,
            TelemetrySource::AirQualityParticlesTps,
        ],
        TelemetryKind::HostMetrics => seq![
            TelemetrySource::HostUptimeSeconds,
            TelemetrySource::HostFreememBytes,
            TelemetrySource::HostDiskfree1Bytes,
            TelemetrySource::HostDiskfree2Bytes,
            TelemetrySource::HostDiskfree3Bytes,
            TelemetrySource::HostLoad1,
            TelemetrySource::HostLoad5,
            TelemetrySource::HostLoad15,
            TelemetrySource::HostUserString,
        ],
        TelemetryKind::PowerMetrics => seq![
            TelemetrySource::PowerCh1Voltage,
            TelemetrySource::PowerCh1Current,
            TelemetrySource::PowerCh2Voltage,
            TelemetrySource::PowerCh2Current,
            TelemetrySource::PowerCh3Voltage,
            TelemetrySource::PowerCh3Current,
            TelemetrySource::PowerCh4Voltage,
            TelemetrySource::PowerCh4Current,
            TelemetrySource::PowerCh5Voltage,
            TelemetrySource::PowerCh5Current,
            TelemetrySource::PowerCh6Voltage,
            TelemetrySource::PowerCh6Current,
            TelemetrySource::PowerCh7Voltage,
            TelemetrySource::PowerCh7Current,
            TelemetrySource::PowerCh8Voltage,
            TelemetrySource::PowerCh8Current,
        ],
        TelemetryKind::LocalStats => seq![
            TelemetrySource::LocalStatsUptimeSeconds,
            TelemetrySource::LocalStatsChannelUtilization,
            TelemetrySource::LocalStatsAirUtilTx,
            TelemetrySource::LocalStatsNumPacketsTx,
            TelemetrySource::LocalStatsNumPacketsRx,
            TelemetrySource::LocalStatsNumPacketsRxBad,
            TelemetrySource::LocalStatsNumOnlineNodes,
            TelemetrySource::LocalStatsNumTotalNodes,
            TelemetrySource::LocalStatsNumRxDupe,
            TelemetrySource::LocalStatsNumTxRelay,
            TelemetrySource::LocalStatsNumTxRelayCanceled,
            TelemetrySource::LocalStatsHeapTotalBytes,
            TelemetrySource::LocalStatsHeapFreeBytes,
            TelemetrySource::LocalStatsNumTxDropped,
            TelemetrySource::LocalStatsNoiseFloor,
        ],
        TelemetryKind::HealthMetrics => seq![
            TelemetrySource::HealthHeartBpm,
            TelemetrySource::HealthSpO2,
            TelemetrySource::HealthTemperature,
        ],
        TelemetryKind::TrafficManagementStats => seq![
            TelemetrySource::TrafficPacketsInspected,
            TelemetrySource::TrafficPositionDedupDrops,
            TelemetrySource::TrafficNodeinfoCacheHits,
            TelemetrySource::TrafficRateLimitDrops,
            TelemetrySource::TrafficUnknownPacketDrops,
            TelemetrySource::TrafficHopExhaustedPackets,
            TelemetrySource::TrafficRouterHopsPreserved,
        ],
    }
}

/// The name a record field is shown under and how its reading is written
/// out.
pub open spec fn source_field(s: TelemetrySource) -> FieldSpec {
    match s {
        TelemetrySource::DeviceBatteryLevel => FieldSpec { name: "battery level", format: FieldFormat::Number { suffix: "%" } },
        TelemetrySource::DeviceVoltage => FieldSpec { name: "voltage", format: FieldFormat::Rounded { digits: 1, suffix: "V" } },
        TelemetrySource::DeviceAirUtilTx => FieldSpec { name: "air util tx", format: FieldFormat::Rounded { digits: 2, suffix: "%" } },
        TelemetrySource::DeviceChannelUtilization => FieldSpec { name: "channel util", format: FieldFormat::Rounded { digits: 2, suffix: "%" } },
        TelemetrySource::DeviceUptimeSeconds => FieldSpec { name: "uptime", format: FieldFormat::Uptime },
        TelemetrySource::EnvironmentTemperature => FieldSpec { name: "temperature", format: FieldFormat::Rounded { digits: 1, suffix: "°C" } },
        TelemetrySource::EnvironmentRelativeHumidity => FieldSpec { name: "relative humidity", format: FieldFormat::Rounded { digits: 1, suffix: "%" } },
        TelemetrySource::EnvironmentBarometricPressure => FieldSpec { name: "barometric pressure", format: FieldFormat::Rounded { digits: 1, suffix: "hPA" } },
        TelemetrySource::EnvironmentGasResistance => FieldSpec { name: "gas resistance", format: FieldFormat::Rounded { digits: 1, suffix: "MOhm" } },
        TelemetrySource::EnvironmentCurrent => FieldSpec { name: "current", format: FieldFormat::Rounded { digits: 1, suffix: "A" } },
        TelemetrySource::EnvironmentVoltage => FieldSpec { name: "voltage", format: FieldFormat::Rounded { digits: 1, suffix: "V" } },
        TelemetrySource::EnvironmentIaq => FieldSpec { name: "IAQ", format: FieldFormat::Plain },
        TelemetrySource::EnvironmentDistance => FieldSpec { name: "distance", format: FieldFormat::Rounded { digits: 3, suffix: "mm" } },
        TelemetrySource::EnvironmentLux => FieldSpec { name: "lux", format: FieldFormat::Rounded { digits: 2, suffix: "" } },
        TelemetrySource::EnvironmentWhiteLux => FieldSpec { name: "white lux", format: FieldFormat::Rounded { digits: 2, suffix: "" } },
        TelemetrySource::EnvironmentIrLux => FieldSpec { name: "infrared lux", format: FieldFormat::Rounded { digits: 2, suffix: "" } },
        TelemetrySource::EnvironmentUvLux => FieldSpec { name: "ultraviolet lux", format: FieldFormat::Rounded { digits: 2, suffix: "" } },
        TelemetrySource::EnvironmentWindDirection => FieldSpec { name: "wind direction", format: FieldFormat::Number { suffix: "°" } },
        TelemetrySource::EnvironmentWindSpeed => FieldSpec { name: "wind speed", format: FieldFormat::Rounded { digits: 2, suffix: "m/s" } },
        TelemetrySource::EnvironmentWindGust => FieldSpec { name: "wind gust", format: FieldFormat::Rounded { digits: 2, suffix: "m/s" } },
        TelemetrySource::EnvironmentWindLull => FieldSpec { name: "wind lull", format: FieldFormat::Rounded { digits: 2, suffix: "m/s" } },
        TelemetrySource::EnvironmentWeight => FieldSpec { name: "weight", format: FieldFormat::Rounded { digits: 3, suffix: "kg" } },
        TelemetrySource::EnvironmentRadiation => FieldSpec { name: "radiation", format: FieldFormat::Rounded { digits: 3, suffix: "µR/h" } },
        TelemetrySource::EnvironmentRainfall1h => FieldSpec { name: "rainfall 1h", format: FieldFormat::Rounded { digits: 1, suffix: "mm" } },
        TelemetrySource::EnvironmentRainfall24h => FieldSpec { name: "rainfall 24h", format: FieldFormat::Rounded { digits: 1, suffix: "mm" } },
        TelemetrySource::EnvironmentSoilMoisture => FieldSpec { name: "soil moisture", format: FieldFormat::Number { suffix: "%" } },
        TelemetrySource::EnvironmentSoilTemperature => FieldSpec { name: "soil temperature", format: FieldFormat::Rounded { digits: 1, suffix: "°C" } },
        TelemetrySource::AirQualityPm10Standard => FieldSpec { name: "PM1.0 standard", format: FieldFormat::Number { suffix: "µg/m³" } },
        TelemetrySource::AirQualityPm25Standard => FieldSpec { name: "PM2.5 standard", format: FieldFormat::Number { suffix: "µg/m³" } },
        TelemetrySource::AirQualityPm100Standard => FieldSpec { name: "PM10 standard", format: FieldFormat::Number { suffix: "µg/m³" } },
        TelemetrySource::AirQualityPm10Environmental => FieldSpec { name: "PM1.0 environmental", format: FieldFormat::Number { suffix: "µg/m³" } },
        TelemetrySource::AirQualityPm25Environmental => FieldSpec { name: "PM2.5 environmental", format: FieldFormat::Number { suffix: "µg/m³" } },
        TelemetrySource::AirQualityPm100Environmental => FieldSpec { name: "PM10 environmental", format: FieldFormat::Number { suffix: "µg/m³" } },
        TelemetrySource::AirQualityParticles03um => FieldSpec { name: "0.3µm particles", format: FieldFormat::Number { suffix: "/0.1L" } },
        TelemetrySource::AirQualityParticles05um => FieldSpec { name: "0.5µm particles", format: FieldFormat::Number { suffix: "/0.1L" } },
        TelemetrySource::AirQualityParticles10um => FieldSpec { name: "1.0µm particles", format: FieldFormat::Number { suffix: "/0.1L" } },
        TelemetrySource::AirQualityParticles25um => FieldSpec { name: "2.5µm particles", format: FieldFormat::Number { suffix: "/0.1L" } },
        TelemetrySource::AirQualityParticles50um => FieldSpec { name: "5.0µm particles", format: FieldFormat::Number { suffix: "/0.1L" } },
        TelemetrySource::AirQualityParticles100um => FieldSpec { name: "10.0µm particles", format: FieldFormat::Number { suffix: "/0.1L" } },
        TelemetrySource::AirQualityCo2 => FieldSpec { name: "CO2", format: FieldFormat::Number { suffix: "ppm" } },
        TelemetrySource::AirQualityCo2Temperature => FieldSpec { name: "CO2 temperature", format: FieldFormat::Rounded { digits: 1, suffix: "°C" } },
        TelemetrySource::AirQualityCo2Humidity => FieldSpec { name: "CO2 humidity", format: FieldFormat::Rounded { digits: 1, suffix: "%" } },
        TelemetrySource::AirQualityFormFormaldehyde => FieldSpec { name: "formaldehyde", format: FieldFormat::Rounded { digits: 1, suffix: "ppb" } },
        TelemetrySource::AirQualityFormHumidity => FieldSpec { name: "formaldehyde humidity", format: FieldFormat::Rounded { digits: 1, suffix: "%RH" } },
        TelemetrySource::AirQualityFormTemperature => FieldSpec { name: "formaldehyde temperature", format: FieldFormat::Rounded { digits: 1, suffix: "°C" } },
        TelemetrySource::AirQualityPm40Standard => FieldSpec { name: "PM4.0 standard", format: FieldFormat::Number { suffix: "µg/m³" } },
        TelemetrySource::AirQualityParticles40um => FieldSpec { name: "4.0µm particles", format: FieldFormat::Number { suffix: "/0.1L" } },
        TelemetrySource::AirQualityPmTemperature => FieldSpec { name: "PM temperature", format: FieldFormat::Rounded { digits: 1, suffix: "°C" } },
        TelemetrySource::AirQualityPmHumidity => FieldSpec { name: "PM humidity", format: FieldFormat::Rounded { digits: 1, suffix: "%" } },
        TelemetrySource::AirQualityPmVocIdx => FieldSpec { name: "PM VOC index", format: FieldFormat::Rounded { digits: 2, suffix: "" } },
        TelemetrySource::AirQualityPmNoxIdx => FieldSpec { name: "PM NOx index", format: FieldFormat::Rounded { digits: 2, suffix: "" } },
        TelemetrySource::AirQualityParticlesTps => FieldSpec { name: "typical particle size", format: FieldFormat::Rounded { digits: 2, suffix: "µm" } },
        TelemetrySource::HostUptimeSeconds => FieldSpec { name: "uptime", format: FieldFormat::Uptime },
        TelemetrySource::HostFreememBytes => FieldSpec { name: "free memory", format: FieldFormat::Kibi { suffix: "MB" } },
        TelemetrySource::HostDiskfree1Bytes => FieldSpec { name: "disk 1 free space", format: FieldFormat::Kibi { suffix: "MB" } },
        TelemetrySource::HostDiskfree2Bytes => FieldSpec { name: "disk 2 free space", format: FieldFormat::Kibi { suffix: "MB" } },
        TelemetrySource::HostDiskfree3Bytes => FieldSpec { name: "disk 3 free space", format: FieldFormat::Kibi { suffix: "MB" } },
        TelemetrySource::HostLoad1 => FieldSpec { name: "load 1 min", format: FieldFormat::Plain },
        TelemetrySource::HostLoad5 => FieldSpec { name: "load 5 min", format: FieldFormat::Plain },
        TelemetrySource::HostLoad15 => FieldSpec { name: "load 15 min", format: FieldFormat::Plain },
        TelemetrySource::HostUserString => FieldSpec { name: "user string", format: FieldFormat::Plain },
        TelemetrySource::PowerCh1Voltage => FieldSpec { name: "ch1_voltage", format: FieldFormat::Rounded { digits: 1, suffix: "V" } },
        TelemetrySource::PowerCh1Current => FieldSpec { name: "ch1 current", format: FieldFormat::Rounded { digits: 1, suffix: "A" } },
        TelemetrySource::PowerCh2Voltage => FieldSpec { name: "ch2_voltage", format: FieldFormat::Rounded { digits: 1, suffix: "V" } },
        TelemetrySource::PowerCh2Current => FieldSpec { name: "ch2 current", format: FieldFormat::Rounded { digits: 1, suffix: "A" } },
        TelemetrySource::PowerCh3Voltage => FieldSpec { name: "ch3_voltage", format: FieldFormat::Rounded { digits: 1, suffix: "V" } },
        TelemetrySource::PowerCh3Current => FieldSpec { name: "ch3 current", format: FieldFormat::Rounded { digits: 1, suffix: "A" } },
        TelemetrySource::PowerCh4Voltage => FieldSpec { name: "ch4_voltage", format: FieldFormat::Rounded { digits: 1, suffix: "V" } },
        TelemetrySource::PowerCh4Current => FieldSpec { name: "ch4 current", format: FieldFormat::Rounded { digits: 1, suffix: "A" } },
        TelemetrySource::PowerCh5Voltage => FieldSpec { name: "ch5_voltage", format: FieldFormat::Rounded { digits: 1, suffix: "V" } },
        TelemetrySource::PowerCh5Current => FieldSpec { name: "ch5 current", format: FieldFormat::Rounded { digits: 1, suffix: "A" } },
        TelemetrySource::PowerCh6Voltage => FieldSpec { name: "ch6_voltage", format: FieldFormat::Rounded { digits: 1, suffix: "V" } },
        TelemetrySource::PowerCh6Current => FieldSpec { name: "ch6 current", format: FieldFormat::Rounded { digits: 1, suffix: "A" } },
        TelemetrySource::PowerCh7Voltage => FieldSpec { name: "ch7_voltage", format: FieldFormat::Rounded { digits: 1, suffix: "V" } },
        TelemetrySource::PowerCh7Current => FieldSpec { name: "ch7 current", format: FieldFormat::Rounded { digits: 1, suffix: "A" } },
        TelemetrySource::PowerCh8Voltage => FieldSpec { name: "ch8_voltage", format: FieldFormat::Rounded { digits: 1, suffix: "V" } },
        TelemetrySource::PowerCh8Current => FieldSpec { name: "ch8 current", format: FieldFormat::Rounded { digits: 1, suffix: "A" } },
        TelemetrySource::LocalStatsUptimeSeconds => FieldSpec { name: "uptime", format: FieldFormat::Uptime },
        TelemetrySource::LocalStatsChannelUtilization => FieldSpec { name: "channel utilization", format: FieldFormat::Rounded { digits: 2, suffix: "%" } },
        TelemetrySource::LocalStatsAirUtilTx => FieldSpec { name: "air util tx", format: FieldFormat::Rounded { digits: 2, suffix: "%" } },
        TelemetrySource::LocalStatsNumPacketsTx => FieldSpec { name: "packets tx", format: FieldFormat::Number { suffix: "" } },
        TelemetrySource::LocalStatsNumPacketsRx => FieldSpec { name: "packets rx", format: FieldFormat::Number { suffix: "" } },
        TelemetrySource::LocalStatsNumPacketsRxBad => FieldSpec { name: "packets rx bad", format: FieldFormat::Number { suffix: "" } },
        TelemetrySource::LocalStatsNumOnlineNodes => FieldSpec { name: "online nodes", format: FieldFormat::Number { suffix: "" } },
        TelemetrySource::LocalStatsNumTotalNodes => FieldSpec { name: "total nodes", format: FieldFormat::Number { suffix: "" } },
        TelemetrySource::LocalStatsNumRxDupe => FieldSpec { name: "rx dupe", format: FieldFormat::Number { suffix: "" } },
        TelemetrySource::LocalStatsNumTxRelay => FieldSpec { name: "tx relay", format: FieldFormat::Number { suffix: "" } },
        TelemetrySource::LocalStatsNumTxRelayCanceled => FieldSpec { name: "tx relay canceled", format: FieldFormat::Number { suffix: "" } },
        TelemetrySource::LocalStatsHeapTotalBytes => FieldSpec { name: "heap total", format: FieldFormat::Kibi { suffix: "KB" } },
        TelemetrySource::LocalStatsHeapFreeBytes => FieldSpec { name: "heap free", format: FieldFormat::Kibi { suffix: "KB" } },
        TelemetrySource::LocalStatsNumTxDropped => FieldSpec { name: "tx dropped", format: FieldFormat::Number { suffix: "" } },
        TelemetrySource::LocalStatsNoiseFloor => FieldSpec { name: "noise floor", format: FieldFormat::Number { suffix: "dBm" } },
        TelemetrySource::HealthHeartBpm => FieldSpec { name: "heart rate", format: FieldFormat::Number { suffix: "bpm" } },
        TelemetrySource::HealthSpO2 => FieldSpec { name: "SpO2", format: FieldFormat::Number { suffix: "%" } },
        TelemetrySource::HealthTemperature => FieldSpec { name: "body temperature", format: FieldFormat::Rounded { digits: 1, suffix: "°C" } },
        TelemetrySource::TrafficPacketsInspected => FieldSpec { name: "packets inspected", format: FieldFormat::Number { suffix: "" } },
        TelemetrySource::TrafficPositionDedupDrops => FieldSpec { name: "position dedup drops", format: FieldFormat::Number { suffix: "" } },
        TelemetrySource::TrafficNodeinfoCacheHits => FieldSpec { name: "nodeinfo cache hits", format: FieldFormat::Number { suffix: "" } },
        TelemetrySource::TrafficRateLimitDrops => FieldSpec { name: "rate limit drops", format: FieldFormat::Number { suffix: "" } },
        TelemetrySource::TrafficUnknownPacketDrops => FieldSpec { name: "unknown packet drops", format: FieldFormat::Number { suffix: "" } },
        TelemetrySource::TrafficHopExhaustedPackets => FieldSpec { name: "hop exhausted packets", format: FieldFormat::Number { suffix: "" } },
        TelemetrySource::TrafficRouterHopsPreserved => FieldSpec { name: "router hops preserved", format: FieldFormat::Number { suffix: "" } },
    }
}

proof fn lemma_device_metrics_fields_named_by_source()
    ensures
        fields_named_by_source(TelemetryKind::DeviceMetrics),
{
}

proof fn lemma_environment_metrics_fields_named_by_source()
    ensures
        fields_named_by_source(TelemetryKind::EnvironmentMetrics),
{
}

proof fn lemma_air_quality_metrics_fields_named_by_source()
    ensures
        fields_named_by_source(TelemetryKind::AirQualityMetrics),
{
}

proof fn lemma_host_metrics_fields_named_by_source()
    ensures
        fields_named_by_source(TelemetryKind::HostMetrics),
{
}

proof fn lemma_power_metrics_fields_named_by_source()
    ensures
        fields_named_by_source(TelemetryKind::PowerMetrics),
{
}

proof fn lemma_local_stats_fields_named_by_source()
    ensures
        fields_named_by_source(TelemetryKind::LocalStats),
{
}

proof fn lemma_health_metrics_fields_named_by_source()
    ensures
        fields_named_by_source(TelemetryKind::HealthMetrics),
{
}

proof fn lemma_traffic_management_stats_fields_named_by_source()
    ensures
        fields_named_by_source(TelemetryKind::TrafficManagementStats),
{
}

/// Each field of a kind is shown under the name, and written out in the
/// way, of the record field its reading is read from.
pub open spec fn fields_named_by_source(k: TelemetryKind) -> bool {
    &&& spec_kind_fields(k).len() == spec_kind_sources(k).len()
    &&& forall|i: int|
        0 <= i < spec_kind_fields(k).len() ==> #[trigger] spec_kind_fields(k)[i] == source_field(spec_kind_sources(k)[i])
}

/// Every field of every kind of telemetry is shown under the name, and
/// written out in the way, of the record field its reading is read from: the
/// load over 5 minutes is named `load 5 min`, a voltage is shown in volts.
pub proof fn law_telemetry_fields_named_by_source(k: TelemetryKind)
    ensures
        fields_named_by_source(k),
{
    match k {
        TelemetryKind::DeviceMetrics => lemma_device_metrics_fields_named_by_source(),
        TelemetryKind::EnvironmentMetrics => lemma_environment_metrics_fields_named_by_source(),
        TelemetryKind::AirQualityMetrics => lemma_air_quality_metrics_fields_named_by_source(),
        TelemetryKind::HostMetrics => lemma_host_metrics_fields_named_by_source(),
        TelemetryKind::PowerMetrics => lemma_power_metrics_fields_named_by_source(),
        TelemetryKind::LocalStats => lemma_local_stats_fields_named_by_source(),
        TelemetryKind::HealthMetrics => lemma_health_metrics_fields_named_by_source(),
        TelemetryKind::TrafficManagementStats => lemma_traffic_management_stats_fields_named_by_source(),
    }
}

/// The heading of each kind of telemetry in the view, and its place among
/// the kinds.
pub open spec fn heading_and_place(k: TelemetryKind) -> (&'static str, int) {
    match k {
        TelemetryKind::DeviceMetrics => ("Device Metrics", 0),
        TelemetryKind::EnvironmentMetrics => ("Environment Metrics", 1),
        TelemetryKind::AirQualityMetrics => ("Air Quality Metrics", 2),
        TelemetryKind::HostMetrics => ("Host Metrics", 3),
        TelemetryKind::PowerMetrics => ("Power Metrics", 4),
        TelemetryKind::LocalStats => ("Local Stats", 5),
        TelemetryKind::HealthMetrics => ("Health Metrics", 6),
        TelemetryKind::TrafficManagementStats => ("Traffic Management Stats", 7),
    }
}

/// `r` with the readings `m` for the kind `k`.
pub open spec fn with_kind(r: TelemetryReading, k: TelemetryKind, m: Option<MetricsReading>) -> TelemetryReading {
    match k {
        TelemetryKind::DeviceMetrics => TelemetryReading { device: m, ..r },
        TelemetryKind::EnvironmentMetrics => TelemetryReading { environment: m, ..r },
        TelemetryKind::AirQualityMetrics => TelemetryReading { air_quality: m, ..r },
        TelemetryKind::HostMetrics => TelemetryReading { host: m, ..r },
        TelemetryKind::PowerMetrics => TelemetryReading { power: m, ..r },
        TelemetryKind::LocalStats => TelemetryReading { local_stats: m, ..r },
        TelemetryKind::HealthMetrics => TelemetryReading { health: m, ..r },
        TelemetryKind::TrafficManagementStats => TelemetryReading { traffic_management: m, ..r },
    }
}

/// A telemetry report with no readings of any kind.
pub open spec fn no_telemetry() -> TelemetryReading {
    TelemetryReading {
        device: None,
        environment: None,
        air_quality: None,
        host: None,
        power: None,
        local_stats: None,
        health: None,
        traffic_management: None,
    }
}

/// Fields without readings list nothing.
proof fn lemma_no_field_items(specs: Seq<FieldSpec>, fields: Seq<Option<MetricView>>, n: int)
    requires
        n <= fields.len(),
        forall|i: int| 0 <= i < fields.len() ==> (#[trigger] fields[i]) is None,
    ensures
        field_items(specs, fields, n) == Seq::<TelemetryItemView>::empty(),
    decreases n,
{
    if n > 0 {
        lemma_no_field_items(specs, fields, n - 1);
    }
}

/// A kind reported with no field readings shows only its heading.
proof fn lemma_heading_only(k: TelemetryKind, m: MetricsReading)
    requires
        forall|i: int| 0 <= i < m.fields@.len() ==> (#[trigger] m.fields@[i]) is None,
    ensures
        kind_items(k, Some(m)) == seq![TelemetryItemView::Group(heading_and_place(k).0, m.time, m.json@)],
{
    let fields = fields_view(m.fields@);
    assert forall|i: int| 0 <= i < fields.len() implies (#[trigger] fields[i]) is None by {
        assert(m.fields@[i] is None);
    }
    let specs = spec_kind_fields(k);
    let n = if specs.len() < fields.len() {
        specs.len() as int
    } else {
        fields.len() as int
    };
    lemma_no_field_items(specs, fields, n);
    assert(seq![TelemetryItemView::Group(spec_kind_title(k), m.time, m.json@)] + Seq::<TelemetryItemView>::empty()
        =~= seq![TelemetryItemView::Group(spec_kind_title(k), m.time, m.json@)]);
}

/// The view shows each kind of telemetry under its heading, the kinds in
/// the order device, environment, air quality, host and power metrics,
/// local statistics, health metrics, traffic management statistics: of two
/// kinds reported (without field readings), the one placed first is shown
/// first; a kind reported alone shows its heading with the time and JSON
/// text of its readings.
pub proof fn law_telemetry_kind_headings_in_order(
    k1: TelemetryKind,
    m1: MetricsReading,
    k2: TelemetryKind,
    m2: MetricsReading,
)
    requires
        heading_and_place(k1).1 < heading_and_place(k2).1,
        forall|i: int| 0 <= i < m1.fields@.len() ==> (#[trigger] m1.fields@[i]) is None,
        forall|i: int| 0 <= i < m2.fields@.len() ==> (#[trigger] m2.fields@[i]) is None,
    ensures
        spec_telemetry_items(with_kind(no_telemetry(), k1, Some(m1))) == seq![
            TelemetryItemView::Group(heading_and_place(k1).0, m1.time, m1.json@),
        ],
        spec_telemetry_items(with_kind(with_kind(no_telemetry(), k1, Some(m1)), k2, Some(m2))) == seq![
            TelemetryItemView::Group(heading_and_place(k1).0, m1.time, m1.json@),
            TelemetryItemView::Group(heading_and_place(k2).0, m2.time, m2.json@),
        ],
{
    lemma_heading_only(k1, m1);
    lemma_heading_only(k2, m2);
    let e = Seq::<TelemetryItemView>::empty();
    let g1 = seq![TelemetryItemView::Group(heading_and_place(k1).0, m1.time, m1.json@)];
    let g2 = seq![TelemetryItemView::Group(heading_and_place(k2).0, m2.time, m2.json@)];
    assert(e + g1 =~= g1);
    assert(g1 + e =~= g1);
    assert(g1 + g2 =~= seq![
        TelemetryItemView::Group(heading_and_place(k1).0, m1.time, m1.json@),
        TelemetryItemView::Group(heading_and_place(k2).0, m2.time, m2.json@),
    ]);
    assert(e + g2 =~= g2);
    assert(g2 + e =~= g2);
    assert(e + e =~= e);
    assert(g1 + e + e =~= g1);
    assert(e + g1 + e =~= g1);
}

/// Of fields with a single reading, at `j`, only that field is listed.
proof fn lemma_single_field_items(specs: Seq<FieldSpec>, fields: Seq<Option<MetricView>>, j: int, n: int)
    requires
        0 <= j < fields.len(),
        n <= fields.len(),
        fields[j] is Some,
        forall|i: int| 0 <= i < fields.len() && i != j ==> (#[trigger] fields[i]) is None,
    ensures
        field_items(specs, fields, n) == if n <= j {
            Seq::<TelemetryItemView>::empty()
        } else {
            seq![
                TelemetryItemView::Item(
                    specs[j].name,
                    value_text(fields[j]->0),
                    shown_text(specs[j].format, fields[j]->0),
                ),
            ]
        },
    decreases n,
{
    if n > 0 {
        lemma_single_field_items(specs, fields, j, n - 1);
        if n - 1 == j {
            assert(Seq::<TelemetryItemView>::empty().push(
                TelemetryItemView::Item(
                    specs[j].name,
                    value_text(fields[j]->0),
                    shown_text(specs[j].format, fields[j]->0),
                ),
            ) =~= seq![
                TelemetryItemView::Item(
                    specs[j].name,
                    value_text(fields[j]->0),
                    shown_text(specs[j].format, fields[j]->0),
                ),
            ]);
        }
    }
}

/// A kind reported with a single field reading shows its heading, then that
/// field under the name of the record field it was read from, with the
/// reading as it is and as that field writes it out; a reading past the
/// kind's fields is not shown.
pub proof fn law_telemetry_single_reading(k: TelemetryKind, m: MetricsReading, j: int)
    requires
        0 <= j < m.fields@.len(),
        m.fields@[j] is Some,
        forall|i: int| 0 <= i < m.fields@.len() && i != j ==> (#[trigger] m.fields@[i]) is None,
    ensures
        j < spec_kind_sources(k).len() ==> kind_items(k, Some(m)) == seq![
            TelemetryItemView::Group(heading_and_place(k).0, m.time, m.json@),
            TelemetryItemView::Item(
                source_field(spec_kind_sources(k)[j]).name,
                value_text(m.fields@[j]->0@),
                shown_text(source_field(spec_kind_sources(k)[j]).format, m.fields@[j]->0@),
            ),
        ],
        j >= spec_kind_sources(k).len() ==> kind_items(k, Some(m)) == seq![
            TelemetryItemView::Group(heading_and_place(k).0, m.time, m.json@),
        ],
{
    law_telemetry_fields_named_by_source(k);
    let fields = fields_view(m.fields@);
    assert forall|i: int| 0 <= i < fields.len() && i != j implies (#[trigger] fields[i]) is None by {
        assert(m.fields@[i] is None);
    }
    let specs = spec_kind_fields(k);
    let n = if specs.len() < fields.len() {
        specs.len() as int
    } else {
        fields.len() as int
    };
    lemma_single_field_items(specs, fields, j, n);
    let g = seq![TelemetryItemView::Group(spec_kind_title(k), m.time, m.json@)];
    if j < specs.len() {
        assert(specs[j] == source_field(spec_kind_sources(k)[j]));
        assert(g + field_items(specs, fields, n) =~= seq![
            TelemetryItemView::Group(heading_and_place(k).0, m.time, m.json@),
            TelemetryItemView::Item(
                source_field(spec_kind_sources(k)[j]).name,
                value_text(m.fields@[j]->0@),
                shown_text(source_field(spec_kind_sources(k)[j]).format, m.fields@[j]->0@),
            ),
        ]);
    } else {
        assert(g + field_items(specs, fields, n) =~= g);
    }
}

/// A decimal digit reads back as its value.
proof fn lemma_digit_value(k: int)
    requires
        0 <= k < 10,
    ensures
        is_digit(crate::text::hex_digit(k)),
        crate::text::hex_digit(k) as nat - '0' as nat == k,
{
    if k == 0 {
    } else if k == 1 {
    } else if k == 2 {
    } else if k == 3 {
    } else if k == 4 {
    } else if k == 5 {
    } else if k == 6 {
    } else if k == 7 {
    } else if k == 8 {
    } else {
    }
}

/// The decimal digits of a number are digits and read back as the number.
pub proof fn lemma_decimal_digits_value(n: nat)
    ensures
        decimal_digits(n).len() > 0,
        forall|i: int| 0 <= i < decimal_digits(n).len() ==> is_digit(#[trigger] decimal_digits(n)[i]),
        digits_value(decimal_digits(n)) == n,
    decreases n,
{
    if n < 10 {
        lemma_digit_value(n as int);
        let d = decimal_digits(n);
        assert(d.drop_last() =~= Seq::<char>::empty());
        assert(digits_value(d.drop_last()) == 0);
        assert(d.last() == crate::text::hex_digit(n as int));
    } else {
        lemma_decimal_digits_value(n / 10);
        lemma_digit_value((n % 10) as int);
        let d = decimal_digits(n);
        assert(d.drop_last() =~= decimal_digits(n / 10));
        assert(d.last() == crate::text::hex_digit((n % 10) as int));
        assert(digits_value(d) == digits_value(d.drop_last()) * 10 + (d.last() as nat - '0' as nat) as nat);
        assert(n == (n / 10) * 10 + n % 10);
        assert forall|i: int| 0 <= i < d.len() implies is_digit(#[trigger] d[i]) by {
            if i < d.len() - 1 {
                assert(d[i] == decimal_digits(n / 10)[i]);
            }
        }
    }
}

/// How a field writes out a whole-number reading: a number field shows the
/// number in decimal then its unit, a field in units of 1024 shows how many
/// whole 1024s the reading holds then its unit, a field shown as it is
/// shows the number in decimal.
pub proof fn law_telemetry_number_text(f: FieldFormat, n: u64)
    ensures
        f matches FieldFormat::Number { suffix } ==> {
            let t = shown_text(f, MetricView::Unsigned(n));
            &&& t.len() >= suffix@.len()
            &&& t.subrange(t.len() - suffix@.len(), t.len() as int) == suffix@
            &&& digits_value(t.subrange(0, t.len() - suffix@.len())) == n
        },
        f matches FieldFormat::Kibi { suffix } ==> {
            let t = shown_text(f, MetricView::Unsigned(n));
            let d = digits_value(t.subrange(0, t.len() - suffix@.len()));
            &&& t.len() >= suffix@.len()
            &&& t.subrange(t.len() - suffix@.len(), t.len() as int) == suffix@
            &&& d * 1024 <= n < (d + 1) * 1024
        },
        f is Plain ==> digits_value(shown_text(f, MetricView::Unsigned(n))) == n,
        f is Plain ==> shown_text(f, MetricView::Unsigned(n)) == value_text(MetricView::Unsigned(n)),
{
    lemma_decimal_digits_value(n as nat);
    lemma_decimal_digits_value((n / 1024) as nat);
    match f {
        FieldFormat::Number { suffix } => {
            let t = shown_text(f, MetricView::Unsigned(n));
            assert(t.subrange(0, t.len() - suffix@.len()) =~= decimal_digits(n as nat));
            assert(t.subrange(t.len() - suffix@.len(), t.len() as int) =~= suffix@);
        },
        FieldFormat::Kibi { suffix } => {
            let t = shown_text(f, MetricView::Unsigned(n));
            assert(t.subrange(0, t.len() - suffix@.len()) =~= decimal_digits((n / 1024) as nat));
            assert(t.subrange(t.len() - suffix@.len(), t.len() as int) =~= suffix@);
        },
        _ => {},
    }
}

} // verus!
