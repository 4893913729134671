//! Platform-specific scan configuration, its builder, and the per-platform
//! limits and workarounds of the compatibility layer.

use vstd::prelude::*;
use crate::error::BitCrapsError;
use crate::mobile::platform_adaptations::PlatformType;

verus! {

/// BitCraps BLE service UUID, advertised and filtered on every platform.
pub open spec fn service_uuid() -> Seq<char> {
    "12345678-1234-5678-1234-567812345678"@
}

/// Bluetooth scanning configuration of a platform.
#[derive(Clone, Debug)]
pub struct PlatformConfig {
    pub platform: PlatformType,
    pub background_scanning: bool,
    pub scan_window_ms: u32,
    pub scan_interval_ms: u32,
    pub low_power_mode: bool,
    pub service_uuids: Vec<String>,
}

/// Default (background scanning, window, interval, low power) of a platform.
pub open spec fn default_settings(p: PlatformType) -> (bool, u32, u32, bool) {
    match p {
        PlatformType::Android => (true, 500, 1000, false),
        PlatformType::Ios => (false, 300, 2000, true),
        PlatformType::Web => (false, 1000, 1000, false),
        _ => (true, 1000, 1000, false),
    }
}

/// Platform recorded in the default configuration; an unknown platform gets
/// the desktop settings.
pub open spec fn default_platform(p: PlatformType) -> PlatformType {
    match p {
        PlatformType::Unknown => PlatformType::Desktop,
        _ => p,
    }
}

/// The configuration equals the default configuration of `p`.
pub open spec fn is_default_config(c: PlatformConfig, p: PlatformType) -> bool {
    &&& c.platform == default_platform(p)
    &&& (c.background_scanning, c.scan_window_ms, c.scan_interval_ms, c.low_power_mode) == default_settings(p)
    &&& c.service_uuids@.len() == 1
    &&& c.service_uuids@[0]@ == service_uuid()
}

fn uuid_list() -> (v: Vec<String>)
    ensures
        v@.len() == 1,
        v@[0]@ == service_uuid(),
{
    let mut v: Vec<String> = Vec::new();
    v.push("12345678-1234-5678-1234-567812345678".to_owned());
    v
}

/// Platform-specific configuration builder.
pub struct PlatformConfigBuilder {
    pub config: PlatformConfig,
}

impl PlatformConfigBuilder {
    /// Starts from the default configuration of `platform`.
    pub fn new(platform: PlatformType) -> (b: Self)
        ensures
            is_default_config(b.config, platform),
    {
        let config = match platform {
            PlatformType::Android => Self::android_defaults(),
            PlatformType::Ios => Self::ios_defaults(),
            PlatformType::Desktop => Self::desktop_defaults(),
            PlatformType::Web => Self::web_defaults(),
            PlatformType::Unknown => Self::desktop_defaults(),
        };
        PlatformConfigBuilder { config }
    }

    pub fn background_scanning(self, enabled: bool) -> (b: Self)
        ensures
            b.config == (PlatformConfig { background_scanning: enabled, ..self.config }),
    {
        let mut b = self;
        b.config.background_scanning = enabled;
        b
    }

    pub fn scan_window_ms(self, window_ms: u32) -> (b: Self)
        ensures
            b.config == (PlatformConfig { scan_window_ms: window_ms, ..self.config }),
    {
        let mut b = self;
        b.config.scan_window_ms = window_ms;
        b
    }

    pub fn scan_interval_ms(self, interval_ms: u32) -> (b: Self)
        ensures
            b.config == (PlatformConfig { scan_interval_ms: interval_ms, ..self.config }),
    {
        let mut b = self;
        b.config.scan_interval_ms = interval_ms;
        b
    }

    pub fn low_power_mode(self, enabled: bool) -> (b: Self)
        ensures
            b.config == (PlatformConfig { low_power_mode: enabled, ..self.config }),
    {
        let mut b = self;
        b.config.low_power_mode = enabled;
        b
    }

    pub fn service_uuids(self, uuids: Vec<String>) -> (b: Self)
        ensures
            b.config == (PlatformConfig { service_uuids: uuids, ..self.config }),
    {
        let mut b = self;
        b.config.service_uuids = uuids;
        b
    }

    /// The configuration built so far.
    pub fn build(self) -> (c: PlatformConfig)
        ensures
            c == self.config,
    {
        self.config
    }

    fn android_defaults() -> (c: PlatformConfig)
        ensures
            is_default_config(c, PlatformType::Android),
    {
        PlatformConfig {
            platform: PlatformType::Android,
            background_scanning: true,
            scan_window_ms: 500,
            scan_interval_ms: 1000,
            low_power_mode: false,
            service_uuids: uuid_list(),
        }
    }

    fn ios_defaults() -> (c: PlatformConfig)
        ensures
            is_default_config(c, PlatformType::Ios),
    {
        PlatformConfig {
            platform: PlatformType::Ios,
            background_scanning: false,
            scan_window_ms: 300,
            scan_interval_ms: 2000,
            low_power_mode: true,
            service_uuids: uuid_list(),
        }
    }

    fn desktop_defaults() -> (c: PlatformConfig)
        ensures
            is_default_config(c, PlatformType::Desktop),
    {
        PlatformConfig {
            platform: PlatformType::Desktop,
            background_scanning: true,
            scan_window_ms: 1000,
            scan_interval_ms: 1000,
            low_power_mode: false,
            service_uuids: uuid_list(),
        }
    }

    fn web_defaults() -> (c: PlatformConfig)
        ensures
            is_default_config(c, PlatformType::Web),
    {
        PlatformConfig {
            platform: PlatformType::Web,
            background_scanning: false,
            scan_window_ms: 1000,
            scan_interval_ms: 1000,
            low_power_mode: false,
            service_uuids: uuid_list(),
        }
    }
}

/// Android-specific platform adaptations.
pub struct AndroidPlatformAdapter;

impl AndroidPlatformAdapter {
    /// Whether the app is exempt from battery optimization; no platform
    /// query is wired in, so it reports that it is not.
    pub fn is_battery_optimized() -> (r: bool)
        ensures
            !r,
    {
        false
    }

    /// Asks the user to exempt the app from battery optimization.
    pub fn request_battery_optimization_whitelist() -> (r: Result<(), BitCrapsError>)
        ensures
            r is Ok,
    {
        Ok(())
    }

    /// Whether the app is restricted in the background; reported as not.
    pub fn has_background_restrictions() -> (r: bool)
        ensures
            !r,
    {
        false
    }

    /// Sets up the foreground service for background operation.
    pub fn configure_foreground_service() -> (r: Result<(), BitCrapsError>)
        ensures
            r is Ok,
    {
        Ok(())
    }

    /// (scan window, scan interval) in milliseconds tuned for Android.
    pub fn get_optimal_bluetooth_params() -> (r: (u32, u32))
        ensures
            r == (500u32, 1000u32),
    {
        (500, 1000)
    }
}

/// iOS-specific platform adaptations.
pub struct IOSPlatformAdapter;

impl IOSPlatformAdapter {
    /// Whether background app refresh is enabled; reported as enabled.
    pub fn is_background_refresh_enabled() -> (r: bool)
        ensures
            r,
    {
        true
    }

    /// Reacts to the app moving to or from the background.
    pub fn handle_app_state_change(to_background: bool) -> (r: Result<(), BitCrapsError>)
        ensures
            r is Ok,
    {
        Ok(())
    }

    /// Sets up Core Bluetooth for background operation.
    pub fn configure_background_bluetooth() -> (r: Result<(), BitCrapsError>)
        ensures
            r is Ok,
    {
        Ok(())
    }

    /// (scan window, scan interval) in milliseconds tuned for iOS.
    pub fn get_optimal_bluetooth_params() -> (r: (u32, u32))
        ensures
            r == (300u32, 2000u32),
    {
        (300, 2000)
    }
}

/// Platform detection utilities.
pub struct PlatformDetection;

pub open spec fn supports_background(p: PlatformType) -> bool {
    match p {
        PlatformType::Android => true,
        PlatformType::Desktop => true,
        _ => false,
    }
}

pub open spec fn bluetooth_limitations(p: PlatformType) -> Seq<Seq<char>> {
    match p {
        PlatformType::Android => seq![
            "Battery optimization may kill background scanning"@,
            "Requires location permissions for BLE scanning"@,
            "May be affected by Doze mode and App Standby"@,
        ],
        PlatformType::Ios => seq![
            "Background scanning severely limited"@,
            "Local name not available in background"@,
            "Service UUID filtering required for background"@,
            "Connection intervals limited in background"@,
        ],
        PlatformType::Desktop => seq![
            "May require administrator privileges"@,
            "Bluetooth adapter availability varies"@,
        ],
        PlatformType::Web => seq![
            "Web Bluetooth API has limited device support"@,
            "Requires user gesture to initiate scanning"@,
            "No background operation support"@,
        ],
        PlatformType::Unknown => seq![
            "Platform not recognized - functionality may be limited"@,
        ],
    }
}

/// The strings of `v` are, in order, the character sequences of `s`.
pub open spec fn strings_are(v: Seq<String>, s: Seq<Seq<char>>) -> bool {
    &&& v.len() == s.len()
    &&& forall|i: int| 0 <= i < v.len() ==> #[trigger] v[i]@ == s[i]
}

fn push_str(v: &mut Vec<String>, s: &str)
    ensures
        final(v)@.len() == old(v)@.len() + 1,
        forall|i: int| 0 <= i < old(v)@.len() ==> #[trigger] final(v)@[i] == old(v)@[i],
        final(v)@[old(v)@.len() as int]@ == s@,
{
    v.push(s.to_owned());
}

/// The platform a build targets: Android and iOS by their operating
/// system, the web by the `wasm32` architecture, the desktop otherwise.
pub open spec fn platform_of(target_os: Seq<char>, target_arch: Seq<char>) -> PlatformType {
    if target_os == "android"@ {
        PlatformType::Android
    } else if target_os == "ios"@ {
        PlatformType::Ios
    } else if target_arch == "wasm32"@ {
        PlatformType::Web
    } else {
        PlatformType::Desktop
    }
}

impl PlatformDetection {
    /// The platform of the target operating system and architecture (as
    /// `std::env::consts::OS` and `ARCH` give them).
    pub fn detect_platform(target_os: &str, target_arch: &str) -> (p: PlatformType)
        ensures
            p == platform_of(target_os@, target_arch@),
    {
        if crate::text::str_eq(target_os, "android") {
            PlatformType::Android
        } else if crate::text::str_eq(target_os, "ios") {
            PlatformType::Ios
        } else if crate::text::str_eq(target_arch, "wasm32") {
            PlatformType::Web
        } else {
            PlatformType::Desktop
        }
    }

    /// The default configuration of `platform`.
    pub fn get_platform_config(platform: PlatformType) -> (c: PlatformConfig)
        ensures
            is_default_config(c, platform),
    {
        PlatformConfigBuilder::new(platform).build()
    }

    /// Whether `platform` supports background operation.
    pub fn supports_background_operation(platform: PlatformType) -> (r: bool)
        ensures
            r == supports_background(platform),
    {
        match platform {
            PlatformType::Android => true,
            PlatformType::Ios => false,
            PlatformType::Desktop => true,
            PlatformType::Web => false,
            PlatformType::Unknown => false,
        }
    }

    /// Known Bluetooth limitations of `platform`.
    pub fn get_bluetooth_limitations(platform: PlatformType) -> (v: Vec<String>)
        ensures
            strings_are(v@, bluetooth_limitations(platform)),
    {
        let mut v: Vec<String> = Vec::new();
        match platform {
            PlatformType::Android => {
                push_str(&mut v, "Battery optimization may kill background scanning");
                push_str(&mut v, "Requires location permissions for BLE scanning");
                push_str(&mut v, "May be affected by Doze mode and App Standby");
            },
            PlatformType::Ios => {
                push_str(&mut v, "Background scanning severely limited");
                push_str(&mut v, "Local name not available in background");
                push_str(&mut v, "Service UUID filtering required for background");
                push_str(&mut v, "Connection intervals limited in background");
            },
            PlatformType::Desktop => {
                push_str(&mut v, "May require administrator privileges");
                push_str(&mut v, "Bluetooth adapter availability varies");
            },
            PlatformType::Web => {
                push_str(&mut v, "Web Bluetooth API has limited device support");
                push_str(&mut v, "Requires user gesture to initiate scanning");
                push_str(&mut v, "No background operation support");
            },
            PlatformType::Unknown => {
                push_str(&mut v, "Platform not recognized - functionality may be limited");
            },
        }
        v
    }
}

/// Cross-platform compatibility layer.
pub struct CompatibilityLayer;

pub open spec fn max_connections_of(p: PlatformType) -> u32 {
    match p {
        PlatformType::Android => 7,
        PlatformType::Ios => 10,
        PlatformType::Desktop => 20,
        _ => 1,
    }
}

pub open spec fn mtu_of(p: PlatformType) -> u16 {
    match p {
        PlatformType::Android => 244,
        PlatformType::Ios => 185,
        PlatformType::Desktop => 512,
        _ => 20,
    }
}

pub open spec fn platform_permissions(p: PlatformType) -> Seq<Seq<char>> {
    match p {
        PlatformType::Android => seq![
            "android.permission.BLUETOOTH"@,
            "android.permission.BLUETOOTH_ADMIN"@,
            "android.permission.BLUETOOTH_ADVERTISE"@,
            "android.permission.BLUETOOTH_CONNECT"@,
            "android.permission.ACCESS_FINE_LOCATION"@,
        ],
        PlatformType::Ios => seq![
            "NSBluetoothAlwaysUsageDescription"@,
            "NSBluetoothPeripheralUsageDescription"@,
        ],
        _ => Seq::empty(),
    }
}

impl CompatibilityLayer {
    /// Maximum number of concurrent connections on `platform`.
    pub fn max_connections(platform: PlatformType) -> (r: u32)
        ensures
            r == max_connections_of(platform),
    {
        match platform {
            PlatformType::Android => 7,
            PlatformType::Ios => 10,
            PlatformType::Desktop => 20,
            PlatformType::Web => 1,
            PlatformType::Unknown => 1,
        }
    }

    /// MTU size that works well on `platform`.
    pub fn optimal_mtu_size(platform: PlatformType) -> (r: u16)
        ensures
            r == mtu_of(platform),
    {
        match platform {
            PlatformType::Android => 244,
            PlatformType::Ios => 185,
            PlatformType::Desktop => 512,
            PlatformType::Web => 20,
            PlatformType::Unknown => 20,
        }
    }

    /// Permissions `platform` requires for Bluetooth.
    pub fn required_permissions(platform: PlatformType) -> (v: Vec<String>)
        ensures
            strings_are(v@, platform_permissions(platform)),
    {
        let mut v: Vec<String> = Vec::new();
        match platform {
            PlatformType::Android => {
                push_str(&mut v, "android.permission.BLUETOOTH");
                push_str(&mut v, "android.permission.BLUETOOTH_ADMIN");
                push_str(&mut v, "android.permission.BLUETOOTH_ADVERTISE");
                push_str(&mut v, "android.permission.BLUETOOTH_CONNECT");
                push_str(&mut v, "android.permission.ACCESS_FINE_LOCATION");
            },
            PlatformType::Ios => {
                push_str(&mut v, "NSBluetoothAlwaysUsageDescription");
                push_str(&mut v, "NSBluetoothPeripheralUsageDescription");
            },
            _ => {},
        }
        v
    }

    /// Applies the platform workarounds: Android scans at least every
    /// 100 ms; iOS cannot scan in the background without service UUIDs.
    pub fn apply_platform_workarounds(config: &mut PlatformConfig)
        ensures
            final(config).platform == old(config).platform,
            final(config).scan_window_ms == old(config).scan_window_ms,
            final(config).low_power_mode == old(config).low_power_mode,
            final(config).service_uuids == old(config).service_uuids,
            final(config).scan_interval_ms == (
                if old(config).platform == PlatformType::Android && old(config).scan_interval_ms < 100 { 100 }
                else { old(config).scan_interval_ms }),
            final(config).background_scanning == (
                if old(config).platform == PlatformType::Ios && old(config).service_uuids@.len() == 0 { false }
                else { old(config).background_scanning }),
    {
        match config.platform {
            PlatformType::Android => {
                if config.scan_interval_ms < 100 {
                    config.scan_interval_ms = 100;
                }
            },
            PlatformType::Ios => {
                if config.background_scanning && config.service_uuids.len() == 0 {
                    config.background_scanning = false;
                }
            },
            _ => {},
        }
    }
}

} // verus!
