//! Platform system monitors: their names and the metrics they supply.

use vstd::prelude::*;
use crate::text::{concat_str, str_eq};

verus! {

/// Kinds of system metrics.
#[derive(Debug, Clone, Copy, PartialEq, Eq, Structural)]
pub enum MetricType {
    CpuUsage,
    Memory,
    Battery,
    Temperature,
    Network,
    Threads,
}

/// Statistics of one network interface.
#[derive(Debug)]
pub struct NetworkInterface {
    pub name: String,
    pub is_up: bool,
    pub bytes_sent: u64,
    pub bytes_received: u64,
    pub packets_sent: u64,
    pub packets_received: u64,
}

/// Errors of the system monitors.
#[derive(Debug)]
pub enum SystemMonitorError {
    PlatformNotSupported(String),
    PermissionDenied(String),
    SystemApiError(String),
    MetricNotAvailable { metric: MetricType },
    IoError(String),
    ParseError(String),
}

/// Name of a metric kind as the error messages show it.
pub open spec fn metric_name(m: MetricType) -> Seq<char> {
    match m {
        MetricType::CpuUsage => "CpuUsage"@,
        MetricType::Memory => "Memory"@,
        MetricType::Battery => "Battery"@,
        MetricType::Temperature => "Temperature"@,
        MetricType::Network => "Network"@,
        MetricType::Threads => "Threads"@,
    }
}

fn metric_text(m: MetricType) -> (s: &'static str)
    ensures
        s@ == metric_name(m),
{
    match m {
        MetricType::CpuUsage => "CpuUsage",
        MetricType::Memory => "Memory",
        MetricType::Battery => "Battery",
        MetricType::Temperature => "Temperature",
        MetricType::Network => "Network",
        MetricType::Threads => "Threads",
    }
}

impl SystemMonitorError {
    /// The error's message, as the app displays it.
    pub fn message(&self) -> (r: String)
        ensures
            (match self {
                SystemMonitorError::PlatformNotSupported(m) => r@ == "Platform not supported: "@ + m@,
                SystemMonitorError::PermissionDenied(m) => r@ == "Permission denied accessing system metrics: "@ + m@,
                SystemMonitorError::SystemApiError(m) => r@ == "System API error: "@ + m@,
                SystemMonitorError::MetricNotAvailable { metric } => r@ == "Metric not available on this platform: "@
                    + metric_name(*metric),
                SystemMonitorError::IoError(m) => r@ == "IO error: "@ + m@,
                SystemMonitorError::ParseError(m) => r@ == "Parse error: "@ + m@,
            }),
    {
        match self {
            SystemMonitorError::PlatformNotSupported(m) => concat_str("Platform not supported: ", m.as_str()),
            SystemMonitorError::PermissionDenied(m) => concat_str("Permission denied accessing system metrics: ", m.as_str()),
            SystemMonitorError::SystemApiError(m) => concat_str("System API error: ", m.as_str()),
            SystemMonitorError::MetricNotAvailable { metric } => concat_str(
                "Metric not available on this platform: ",
                metric_text(*metric),
            ),
            SystemMonitorError::IoError(m) => concat_str("IO error: ", m.as_str()),
            SystemMonitorError::ParseError(m) => concat_str("Parse error: ", m.as_str()),
        }
    }
}

/// All six metric kinds, in the order the monitors list them.
pub open spec fn all_metrics() -> Seq<MetricType> {
    seq![
        MetricType::CpuUsage,
        MetricType::Memory,
        MetricType::Battery,
        MetricType::Temperature,
        MetricType::Network,
        MetricType::Threads,
    ]
}

fn all_metric_types() -> (v: Vec<MetricType>)
    ensures
        v@ == all_metrics(),
{
    let v = vec![
        MetricType::CpuUsage,
        MetricType::Memory,
        MetricType::Battery,
        MetricType::Temperature,
        MetricType::Network,
        MetricType::Threads,
    ];
    assert(v@ =~= all_metrics());
    v
}

/// Cumulative CPU time counters of the first line of `/proc/stat`.
#[derive(Debug, Clone, Copy, PartialEq, Eq, Structural)]
pub struct CpuStats {
    pub user: u64,
    pub nice: u64,
    pub system: u64,
    pub idle: u64,
    pub iowait: u64,
    pub irq: u64,
    pub softirq: u64,
    pub steal: u64,
    pub guest: u64,
    pub guest_nice: u64,
}

/// Sum of all counters.
pub open spec fn cpu_total(s: CpuStats) -> int {
    s.user + s.nice + s.system + s.idle + s.iowait + s.irq + s.softirq + s.steal + s.guest + s.guest_nice
}

impl CpuStats {
    /// Total CPU time.
    pub fn total(&self) -> (r: u64)
        requires
            cpu_total(*self) <= u64::MAX,
        ensures
            r == cpu_total(*self),
    {
        self.user + self.nice + self.system + self.idle + self.iowait + self.irq + self.softirq + self.steal + self.guest
            + self.guest_nice
    }

    /// Idle time, waiting for I/O included.
    pub fn idle_total(&self) -> (r: u64)
        requires
            self.idle + self.iowait <= u64::MAX,
        ensures
            r == self.idle + self.iowait,
    {
        self.idle + self.iowait
    }

    /// Time spent working: the total less the idle time.
    pub fn work_total(&self) -> (r: u64)
        requires
            cpu_total(*self) <= u64::MAX,
        ensures
            r == cpu_total(*self) - (self.idle + self.iowait),
    {
        self.total() - self.idle_total()
    }
}

/// Linux system monitor, reading `/proc` and `/sys`; it keeps the CPU
/// counters of its last reading.
pub struct LinuxSystemMonitor {
    pub last_cpu_stats: Option<CpuStats>,
}

impl LinuxSystemMonitor {
    pub fn new() -> (m: Self)
        ensures
            m.last_cpu_stats is None,
    {
        LinuxSystemMonitor { last_cpu_stats: None }
    }

    pub fn platform_name(&self) -> (r: &'static str)
        ensures
            r@ == "linux"@,
    {
        "linux"
    }

    /// Linux metrics come from the kernel, not from a simulation.
    pub fn is_real_monitoring(&self) -> (r: bool)
        ensures
            r,
    {
        true
    }

    pub fn supported_metrics(&self) -> (r: Vec<MetricType>)
        ensures
            r@ == all_metrics(),
    {
        all_metric_types()
    }
}

/// macOS system monitor, reading the output of the system tools.
pub struct MacOSSystemMonitor;

impl MacOSSystemMonitor {
    pub fn new() -> (m: Self) {
        MacOSSystemMonitor
    }

    pub fn platform_name(&self) -> (r: &'static str)
        ensures
            r@ == "macos"@,
    {
        "macos"
    }

    pub fn supported_metrics(&self) -> (r: Vec<MetricType>)
        ensures
            r@ == all_metrics(),
    {
        all_metric_types()
    }
}

/// Windows system monitor.
pub struct WindowsSystemMonitor;

impl WindowsSystemMonitor {
    pub fn new() -> (m: Self) {
        WindowsSystemMonitor
    }

    pub fn platform_name(&self) -> (r: &'static str)
        ensures
            r@ == "windows"@,
    {
        "windows"
    }

    pub fn supported_metrics(&self) -> (r: Vec<MetricType>)
        ensures
            r@ == all_metrics(),
    {
        all_metric_types()
    }
}

/// iOS system monitor.
pub struct IOSSystemMonitor;

impl IOSSystemMonitor {
    pub fn new() -> (m: Self) {
        IOSSystemMonitor
    }

    pub fn platform_name(&self) -> (r: &'static str)
        ensures
            r@ == "ios"@,
    {
        "ios"
    }

    pub fn supported_metrics(&self) -> (r: Vec<MetricType>)
        ensures
            r@ == all_metrics(),
    {
        all_metric_types()
    }
}

/// The platform name reported for a target operating system: the five
/// supported systems by their own name, "unknown" for any other.
pub open spec fn platform_for_os(os: Seq<char>) -> Seq<char> {
    if os == "linux"@ || os == "android"@ || os == "ios"@ || os == "macos"@ || os == "windows"@ {
        os
    } else {
        "unknown"@
    }
}

/// Chooses the system monitor for the platform the code runs on.
pub struct SystemMonitorFactory;

impl SystemMonitorFactory {
    /// The name of the platform for the target operating system `target_os`
    /// (as `std::env::consts::OS` gives it).
    pub fn current_platform(target_os: &str) -> (r: &'static str)
        ensures
            r@ == platform_for_os(target_os@),
    {
        proof {
            reveal_strlit("linux");
            reveal_strlit("android");
            reveal_strlit("ios");
            reveal_strlit("macos");
            reveal_strlit("windows");
            reveal_strlit("unknown");
        }
        if str_eq(target_os, "linux") {
            "linux"
        } else if str_eq(target_os, "android") {
            "android"
        } else if str_eq(target_os, "ios") {
            "ios"
        } else if str_eq(target_os, "macos") {
            "macos"
        } else if str_eq(target_os, "windows") {
            "windows"
        } else {
            "unknown"
        }
    }
}

/// The monitor of the lightweight build: it measures nothing.
pub struct DummySystemMonitor;

impl DummySystemMonitor {
    /// The lightweight monitor's figures are not real measurements.
    pub fn is_real_monitoring(&self) -> (r: bool)
        ensures
            !r,
    {
        false
    }
}

/// The system monitor of the lightweight build.
pub fn global_system_monitor() -> (m: DummySystemMonitor) {
    DummySystemMonitor
}

} // verus!
