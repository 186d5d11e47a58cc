//! The kinds of telemetry a node reports, by the names the database stores
//! them under.
use vstd::prelude::*;
use crate::text::str_eq;

verus! {

/// A kind of telemetry.
#[derive(Debug, Clone, Copy, PartialEq, Eq, Structural)]
pub enum TelemetryKind {
    DeviceMetrics,
    EnvironmentMetrics,
    AirQualityMetrics,
    PowerMetrics,
    LocalStats,
    HealthMetrics,
    HostMetrics,
    TrafficManagementStats,
}

impl TelemetryKind {
    /// The name a kind is stored under.
    pub open spec fn spec_name(self) -> Seq<char> {
        match self {
            TelemetryKind::DeviceMetrics => "device_metrics"@,
            TelemetryKind::EnvironmentMetrics => "environment_metrics"@,
            TelemetryKind::AirQualityMetrics => "air_quality_metrics"@,
            TelemetryKind::PowerMetrics => "power_metrics"@,
            TelemetryKind::LocalStats => "local_stats"@,
            TelemetryKind::HealthMetrics => "health_metrics"@,
            TelemetryKind::HostMetrics => "host_metrics"@,
            TelemetryKind::TrafficManagementStats => "traffic_management_stats"@,
        }
    }

    /// The kind stored under `name`, if any.
    pub open spec fn spec_from_name(name: Seq<char>) -> Option<TelemetryKind> {
        if name == "device_metrics"@ {
            Some(TelemetryKind::DeviceMetrics)
        } else if name == "environment_metrics"@ {
            Some(TelemetryKind::EnvironmentMetrics)
        } else if name == "air_quality_metrics"@ {
            Some(TelemetryKind::AirQualityMetrics)
        } else if name == "power_metrics"@ {
            Some(TelemetryKind::PowerMetrics)
        } else if name == "local_stats"@ {
            Some(TelemetryKind::LocalStats)
        } else if name == "health_metrics"@ {
            Some(TelemetryKind::HealthMetrics)
        } else if name == "host_metrics"@ {
            Some(TelemetryKind::HostMetrics)
        } else if name == "traffic_management_stats"@ {
            Some(TelemetryKind::TrafficManagementStats)
        } else {
            None
        }
    }

    pub fn name(self) -> (r: &'static str)
        ensures
            r@ == self.spec_name(),
    {
        match self {
            TelemetryKind::DeviceMetrics => "device_metrics",
            TelemetryKind::EnvironmentMetrics => "environment_metrics",
            TelemetryKind::AirQualityMetrics => "air_quality_metrics",
            TelemetryKind::PowerMetrics => "power_metrics",
            TelemetryKind::LocalStats => "local_stats",
            TelemetryKind::HealthMetrics => "health_metrics",
            TelemetryKind::HostMetrics => "host_metrics",
            TelemetryKind::TrafficManagementStats => "traffic_management_stats",
        }
    }

    /// The kind a stored name stands for; `None` for an unknown name, which
    /// the database reader refuses.
    pub fn from_name(name: &str) -> (r: Option<TelemetryKind>)
        ensures
            r == TelemetryKind::spec_from_name(name@),
    {
        if str_eq(name, "device_metrics") {
            Some(TelemetryKind::DeviceMetrics)
        } else if str_eq(name, "environment_metrics") {
            Some(TelemetryKind::EnvironmentMetrics)
        } else if str_eq(name, "air_quality_metrics") {
            Some(TelemetryKind::AirQualityMetrics)
        } else if str_eq(name, "power_metrics") {
            Some(TelemetryKind::PowerMetrics)
        } else if str_eq(name, "local_stats") {
            Some(TelemetryKind::LocalStats)
        } else if str_eq(name, "health_metrics") {
            Some(TelemetryKind::HealthMetrics)
        } else if str_eq(name, "host_metrics") {
            Some(TelemetryKind::HostMetrics)
        } else if str_eq(name, "traffic_management_stats") {
            Some(TelemetryKind::TrafficManagementStats)
        } else {
            None
        }
    }
}

/// What is stored under a kind's name reads back as that kind.
pub proof fn lemma_kind_name_round_trip(k: TelemetryKind)
    ensures
        TelemetryKind::spec_from_name(k.spec_name()) == Some(k),
{
    reveal_strlit("device_metrics");
    reveal_strlit("environment_metrics");
    reveal_strlit("air_quality_metrics");
    reveal_strlit("power_metrics");
    reveal_strlit("local_stats");
    reveal_strlit("health_metrics");
    reveal_strlit("host_metrics");
    reveal_strlit("traffic_management_stats");
    let names: Seq<Seq<char>> = seq![
        "device_metrics"@,
        "environment_metrics"@,
        "air_quality_metrics"@,
        "power_metrics"@,
        "local_stats"@,
        "health_metrics"@,
        "host_metrics"@,
        "traffic_management_stats"@,
    ];
    // the names differ in length or in one of their first two characters
    assert forall|i: int, j: int| 0 <= i < j < 8 implies names[i] != names[j] by {
        if names[i] == names[j] {
            assert(names[i].len() == names[j].len());
            assert(names[i][0] == names[j][0]);
            assert(names[i][1] == names[j][1]);
        }
    }
}

} // verus!
