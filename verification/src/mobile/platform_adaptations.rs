//! Platform-specific adaptations: the Bluetooth parameters each platform
//! supports and the decisions the Android and iOS adapters take from what
//! the platform reports.

use vstd::prelude::*;

verus! {

/// Platform type enumeration.
#[derive(Debug, Clone, Copy, PartialEq, Eq, Structural)]
pub enum PlatformType {
    Android,
    Ios,
    Desktop,
    Web,
    Unknown,
}

/// App lifecycle states reported by the platform.
#[derive(Clone, Copy, Debug, PartialEq, Eq, Structural)]
pub enum AppLifecycleState {
    Foreground,
    Background,
    Suspended,
}

/// Outcome of a platform permission request.
#[derive(Clone, Copy, Debug, PartialEq, Eq, Structural)]
pub enum PermissionStatus {
    Granted,
    Denied,
    NotDetermined,
    Restricted,
}

/// Connection priority requested from the Bluetooth stack.
#[derive(Clone, Copy, Debug, PartialEq, Eq, Structural)]
pub enum ConnectionPriority {
    HighPerformance,
    Balanced,
    LowPower,
}

/// Bluetooth capabilities and parameters of a platform.
#[derive(Clone, Copy, Debug, PartialEq, Eq, Structural)]
pub struct BluetoothPlatformConfig {
    pub max_connections: u32,
    pub preferred_mtu: u16,
    pub scan_window_ms: u32,
    pub scan_interval_ms: u32,
    pub supports_peripheral_mode: bool,
    pub supports_background_scanning: bool,
    pub requires_location_permission: bool,
    pub service_uuids_required: bool,
    pub connection_priority: ConnectionPriority,
}

pub open spec fn android_bluetooth() -> BluetoothPlatformConfig {
    BluetoothPlatformConfig {
        max_connections: 7,
        preferred_mtu: 244,
        scan_window_ms: 500,
        scan_interval_ms: 1000,
        supports_peripheral_mode: true,
        supports_background_scanning: true,
        requires_location_permission: true,
        service_uuids_required: false,
        connection_priority: ConnectionPriority::Balanced,
    }
}

pub open spec fn ios_bluetooth() -> BluetoothPlatformConfig {
    BluetoothPlatformConfig {
        max_connections: 10,
        preferred_mtu: 185,
        scan_window_ms: 300,
        scan_interval_ms: 2000,
        supports_peripheral_mode: true,
        supports_background_scanning: false,
        requires_location_permission: false,
        service_uuids_required: true,
        connection_priority: ConnectionPriority::LowPower,
    }
}

pub open spec fn desktop_bluetooth() -> BluetoothPlatformConfig {
    BluetoothPlatformConfig {
        max_connections: 20,
        preferred_mtu: 512,
        scan_window_ms: 1000,
        scan_interval_ms: 1000,
        supports_peripheral_mode: true,
        supports_background_scanning: true,
        requires_location_permission: false,
        service_uuids_required: false,
        connection_priority: ConnectionPriority::HighPerformance,
    }
}

/// Bluetooth configuration that the adaptation layer uses for a platform.
pub open spec fn bluetooth_for(p: PlatformType) -> BluetoothPlatformConfig {
    match p {
        PlatformType::Android => android_bluetooth(),
        PlatformType::Ios => ios_bluetooth(),
        _ => desktop_bluetooth(),
    }
}

impl BluetoothPlatformConfig {
    pub fn default_android() -> (c: Self)
        ensures
            c == android_bluetooth(),
    {
        BluetoothPlatformConfig {
            max_connections: 7,
            preferred_mtu: 244,
            scan_window_ms: 500,
            scan_interval_ms: 1000,
            supports_peripheral_mode: true,
            supports_background_scanning: true,
            requires_location_permission: true,
            service_uuids_required: false,
            connection_priority: ConnectionPriority::Balanced,
        }
    }

    pub fn default_ios() -> (c: Self)
        ensures
            c == ios_bluetooth(),
    {
        BluetoothPlatformConfig {
            max_connections: 10,
            preferred_mtu: 185,
            scan_window_ms: 300,
            scan_interval_ms: 2000,
            supports_peripheral_mode: true,
            supports_background_scanning: false,
            requires_location_permission: false,
            service_uuids_required: true,
            connection_priority: ConnectionPriority::LowPower,
        }
    }

    pub fn default_desktop() -> (c: Self)
        ensures
            c == desktop_bluetooth(),
    {
        BluetoothPlatformConfig {
            max_connections: 20,
            preferred_mtu: 512,
            scan_window_ms: 1000,
            scan_interval_ms: 1000,
            supports_peripheral_mode: true,
            supports_background_scanning: true,
            requires_location_permission: false,
            service_uuids_required: false,
            connection_priority: ConnectionPriority::HighPerformance,
        }
    }
}

/// Android-specific adapter.
pub struct AndroidAdapter {}

impl AndroidAdapter {
    pub fn new() -> (a: Self) {
        AndroidAdapter {}
    }

    pub fn get_bluetooth_config(&self) -> (c: BluetoothPlatformConfig)
        ensures
            c == android_bluetooth(),
    {
        BluetoothPlatformConfig::default_android()
    }

    /// Background operation is possible unless the app is restricted in the
    /// background and not exempt from battery optimization.
    pub fn background_operation_from(has_restrictions: bool, is_whitelisted: bool) -> (r: bool)
        ensures
            r == (!has_restrictions || is_whitelisted),
    {
        !has_restrictions || is_whitelisted
    }

    /// Whether the battery-optimization exemption must be requested.
    pub fn needs_battery_whitelist_request(is_whitelisted: bool) -> (r: bool)
        ensures
            r == !is_whitelisted,
    {
        !is_whitelisted
    }

    /// Whether a lifecycle change switches the Android service to background mode.
    pub fn enables_background_service(state: AppLifecycleState) -> (r: bool)
        ensures
            r == (state == AppLifecycleState::Background),
    {
        match state {
            AppLifecycleState::Background => true,
            _ => false,
        }
    }
}

/// iOS-specific adapter.
pub struct IOSAdapter {}

/// Permission status that iOS reports for a Core Bluetooth authorization code.
pub open spec fn ios_authorization_status(code: i32) -> PermissionStatus {
    if code == 0 {
        PermissionStatus::NotDetermined
    } else if code == 1 {
        PermissionStatus::Restricted
    } else if code == 2 {
        PermissionStatus::Denied
    } else if code == 3 {
        PermissionStatus::Granted
    } else {
        PermissionStatus::NotDetermined
    }
}

impl IOSAdapter {
    pub fn new() -> (a: Self) {
        IOSAdapter {}
    }

    pub fn get_bluetooth_config(&self) -> (c: BluetoothPlatformConfig)
        ensures
            c == ios_bluetooth(),
    {
        BluetoothPlatformConfig::default_ios()
    }

    /// Permission status for a `CBManager.authorization` code.
    pub fn authorization_status(code: i32) -> (s: PermissionStatus)
        ensures
            s == ios_authorization_status(code),
    {
        if code == 0 {
            PermissionStatus::NotDetermined
        } else if code == 1 {
            PermissionStatus::Restricted
        } else if code == 2 {
            PermissionStatus::Denied
        } else if code == 3 {
            PermissionStatus::Granted
        } else {
            PermissionStatus::NotDetermined
        }
    }

    /// Background operation needs both background app refresh and Bluetooth authorization.
    pub fn background_operation_from(background_refresh: bool, bluetooth_authorized: bool) -> (r: bool)
        ensures
            r == (background_refresh && bluetooth_authorized),
    {
        background_refresh && bluetooth_authorized
    }

    /// Whether a lifecycle change switches iOS to background mode.
    pub fn enables_background_mode(state: AppLifecycleState) -> (r: bool)
        ensures
            r == (state == AppLifecycleState::Background),
    {
        match state {
            AppLifecycleState::Background => true,
            _ => false,
        }
    }
}

/// Platform adaptation manager for handling platform-specific behavior.
pub struct PlatformAdaptationManager {
    pub platform_type: PlatformType,
    pub android_adapter: Option<AndroidAdapter>,
    pub ios_adapter: Option<IOSAdapter>,
}

impl PlatformAdaptationManager {
    /// Creates the manager for the platform the app runs on; only the
    /// adapter of that platform is created.
    pub fn new(platform_type: PlatformType) -> (m: Self)
        ensures
            m.platform_type == platform_type,
            m.android_adapter is Some <==> platform_type == PlatformType::Android,
            m.ios_adapter is Some <==> platform_type == PlatformType::Ios,
    {
        let android_adapter = match platform_type {
            PlatformType::Android => Some(AndroidAdapter::new()),
            _ => None,
        };
        let ios_adapter = match platform_type {
            PlatformType::Ios => Some(IOSAdapter::new()),
            _ => None,
        };
        PlatformAdaptationManager { platform_type, android_adapter, ios_adapter }
    }

    /// Bluetooth configuration for the manager's platform.
    pub fn get_bluetooth_config(&self) -> (c: BluetoothPlatformConfig)
        ensures
            c == bluetooth_for(self.platform_type),
    {
        match self.platform_type {
            PlatformType::Android => {
                match &self.android_adapter {
                    Some(adapter) => adapter.get_bluetooth_config(),
                    None => BluetoothPlatformConfig::default_android(),
                }
            },
            PlatformType::Ios => {
                match &self.ios_adapter {
                    Some(adapter) => adapter.get_bluetooth_config(),
                    None => BluetoothPlatformConfig::default_ios(),
                }
            },
            _ => BluetoothPlatformConfig::default_desktop(),
        }
    }

    /// Whether background operation is available, given what the platform
    /// adapter probed (restrictions and whitelist on Android, background
    /// refresh and Bluetooth authorization on iOS). Without an adapter a
    /// mobile platform reports no background operation; other platforms
    /// always support it.
    pub fn background_operation_available(&self, first_probe: bool, second_probe: bool) -> (r: bool)
        ensures
            r == match self.platform_type {
                PlatformType::Android => self.android_adapter is Some && (!first_probe || second_probe),
                PlatformType::Ios => self.ios_adapter is Some && (first_probe && second_probe),
                _ => true,
            },
    {
        match self.platform_type {
            PlatformType::Android => {
                match &self.android_adapter {
                    Some(_) => AndroidAdapter::background_operation_from(first_probe, second_probe),
                    None => false,
                }
            },
            PlatformType::Ios => {
                match &self.ios_adapter {
                    Some(_) => IOSAdapter::background_operation_from(first_probe, second_probe),
                    None => false,
                }
            },
            _ => true,
        }
    }
}

/// Notification categories.
#[derive(Clone, Copy, Debug, PartialEq, Eq, Structural)]
pub enum NotificationCategory {
    GameInvite,
    GameUpdate,
    PeerDiscovered,
    BatteryOptimization,
    Error,
}

/// Notification priorities.
#[derive(Clone, Copy, Debug, PartialEq, Eq, Structural)]
pub enum NotificationPriority {
    Low,
    Normal,
    High,
    Critical,
}

/// A notification to show on the device.
#[derive(Clone)]
pub struct PlatformNotification {
    pub title: String,
    pub body: String,
    pub category: NotificationCategory,
    pub priority: NotificationPriority,
}

/// Android channel importance for a notification priority.
pub open spec fn android_importance_of(p: NotificationPriority) -> i32 {
    match p {
        NotificationPriority::Low => 2,
        NotificationPriority::Normal => 3,
        NotificationPriority::High => 4,
        NotificationPriority::Critical => 5,
    }
}

/// Notification manager for the platform the app runs on.
pub struct NotificationManager {
    pub platform_type: PlatformType,
}

impl NotificationManager {
    pub fn new(platform_type: PlatformType) -> (m: Self)
        ensures
            m.platform_type == platform_type,
    {
        NotificationManager { platform_type }
    }

    /// Android notification-channel importance for a priority.
    pub fn android_importance(priority: NotificationPriority) -> (r: i32)
        ensures
            r == android_importance_of(priority),
    {
        match priority {
            NotificationPriority::Low => 2,
            NotificationPriority::Normal => 3,
            NotificationPriority::High => 4,
            NotificationPriority::Critical => 5,
        }
    }

    /// iOS sound for a priority: critical notifications use the critical sound.
    pub fn ios_sound(priority: NotificationPriority) -> (r: &'static str)
        ensures
            priority == NotificationPriority::Critical ==> r@ == "UNNotificationSoundDefaultCritical"@,
            priority != NotificationPriority::Critical ==> r@ == "UNNotificationSoundDefault"@,
    {
        match priority {
            NotificationPriority::Critical => "UNNotificationSoundDefaultCritical",
            _ => "UNNotificationSoundDefault",
        }
    }
}

} // verus!
