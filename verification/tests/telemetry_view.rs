use termtastic::telemetry_kind::TelemetryKind;
use termtastic::telemetry_view::{
    kind_fields, reading_shown, telemetry_items, update_nodeinfo_telemetry, FieldFormat, MetricValue,
    MetricsReading, TelemetryItem, TelemetryReading,
};

fn float(plain: &str, rounded: &str) -> Option<MetricValue> {
    Some(MetricValue::Float { bits: 0, plain: plain.to_string(), rounded: rounded.to_string() })
}

fn group(title: &'static str, time: i64, json: &str) -> TelemetryItem {
    TelemetryItem::Group { title, time, json: json.to_string() }
}

fn item(title: &'static str, value: &str, shown: &str) -> TelemetryItem {
    TelemetryItem::Item { title, value: value.to_string(), shown: shown.to_string() }
}

fn empty_reading() -> TelemetryReading {
    TelemetryReading {
        device: None,
        environment: None,
        air_quality: None,
        host: None,
        power: None,
        local_stats: None,
        health: None,
        traffic_management: None,
    }
}

fn sample() -> TelemetryReading {
    let mut local = vec![None; 15];
    local[14] = Some(MetricValue::Signed(-90));
    local[11] = Some(MetricValue::Unsigned(4096));
    TelemetryReading {
        device: Some(MetricsReading {
            time: 100,
            json: "{}".to_string(),
            fields: vec![
                Some(MetricValue::Unsigned(85)),
                float("3.71", "3.7"),
                None,
                float("12.345", "12.35"),
                Some(MetricValue::Unsigned(7200)),
            ],
        }),
        host: Some(MetricsReading {
            time: 200,
            json: "{\"h\": 1}".to_string(),
            fields: vec![
                None,
                Some(MetricValue::Unsigned(2048)),
                None,
                None,
                None,
                Some(MetricValue::Unsigned(150)),
                None,
                None,
                Some(MetricValue::Text("hello".to_string())),
            ],
        }),
        local_stats: Some(MetricsReading { time: 300, json: "{}".to_string(), fields: local }),
        ..empty_reading()
    }
}

#[test]
fn telemetry_fields_follow_the_view_order() {
    let device = kind_fields(TelemetryKind::DeviceMetrics);
    let names: Vec<&str> = device.iter().map(|f| f.name).collect();
    assert_eq!(names, vec!["battery level", "voltage", "air util tx", "channel util", "uptime"]);
    assert!(matches!(device[1].format, FieldFormat::Rounded { digits: 1, suffix: "V" }));
    assert_eq!(kind_fields(TelemetryKind::EnvironmentMetrics).len(), 22);
    assert_eq!(kind_fields(TelemetryKind::AirQualityMetrics).len(), 25);
    assert_eq!(kind_fields(TelemetryKind::HostMetrics).len(), 9);
    assert_eq!(kind_fields(TelemetryKind::PowerMetrics).len(), 16);
    assert_eq!(kind_fields(TelemetryKind::LocalStats).len(), 15);
    assert_eq!(kind_fields(TelemetryKind::HealthMetrics).len(), 3);
    assert_eq!(kind_fields(TelemetryKind::TrafficManagementStats).len(), 7);
}

#[test]
fn telemetry_view_lists_present_readings() {
    let items = telemetry_items(&sample());
    assert_eq!(
        items,
        vec![
            group("Device Metrics", 100, "{}"),
            item("battery level", "85", "85%"),
            item("voltage", "3.71", "3.7V"),
            item("channel util", "12.345", "12.35%"),
            item("uptime", "7200", "2h"),
            group("Host Metrics", 200, "{\"h\": 1}"),
            item("free memory", "2048", "2MB"),
            item("load 1 min", "150", "150"),
            item("user string", "hello", "hello"),
            group("Local Stats", 300, "{}"),
            item("heap total", "4096", "4KB"),
            item("noise floor", "-90", "-90dBm"),
        ]
    );
    assert!(telemetry_items(&empty_reading()).is_empty());
}

#[test]
fn telemetry_formats_by_field() {
    let kibi = FieldFormat::Kibi { suffix: "MB" };
    assert_eq!(reading_shown(kibi, &MetricValue::Unsigned(1023)), "0MB");
    let number = FieldFormat::Number { suffix: "°" };
    assert_eq!(reading_shown(number, &MetricValue::Unsigned(270)), "270°");
    assert_eq!(reading_shown(FieldFormat::Uptime, &MetricValue::Unsigned(30)), "now");
    assert_eq!(reading_shown(FieldFormat::Uptime, &MetricValue::Unsigned(3 * 86400)), "3d");
    assert_eq!(reading_shown(number, &MetricValue::Text("x".to_string())), "x");
}

#[test]
fn node_window_telemetry_follows_the_latest() {
    let mut shown = vec![group("Old", 1, "{}")];
    let reading = sample();
    assert!(!update_nodeinfo_telemetry(&mut shown, None, Some(&reading)));
    assert_eq!(shown, vec![group("Old", 1, "{}")]);
    assert!(!update_nodeinfo_telemetry(&mut shown, Some(7), None));
    assert_eq!(shown.len(), 1);
    assert!(update_nodeinfo_telemetry(&mut shown, Some(7), Some(&reading)));
    assert_eq!(shown, telemetry_items(&reading));
}
