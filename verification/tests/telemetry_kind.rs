use termtastic::telemetry_kind::TelemetryKind;

#[test]
fn telemetry_kinds_read_back_by_name() {
    let all = [
        TelemetryKind::DeviceMetrics,
        TelemetryKind::EnvironmentMetrics,
        TelemetryKind::AirQualityMetrics,
        TelemetryKind::PowerMetrics,
        TelemetryKind::LocalStats,
        TelemetryKind::HealthMetrics,
        TelemetryKind::HostMetrics,
        TelemetryKind::TrafficManagementStats,
    ];
    for k in all {
        assert_eq!(TelemetryKind::from_name(k.name()), Some(k));
    }
    assert_eq!(TelemetryKind::DeviceMetrics.name(), "device_metrics");
    assert_eq!(TelemetryKind::from_name("traffic_management_stats"), Some(TelemetryKind::TrafficManagementStats));
    assert_eq!(TelemetryKind::from_name("gps"), None);
}
