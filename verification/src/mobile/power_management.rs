//! Power management for battery optimization: the Bluetooth scan interval
//! chosen for each power mode and platform, and detection of scans that the
//! platform's battery optimization delays.

use vstd::prelude::*;
use crate::error::BitCrapsError;
use crate::mobile::platform_adaptations::PlatformType;
use crate::mobile::platform_config::PlatformConfig;

verus! {

/// Power management modes.
#[derive(Debug, Clone, Copy, PartialEq, Eq, Structural)]
pub enum PowerMode {
    HighPerformance,
    Balanced,
    BatterySaver,
    UltraLowPower,
}

/// Scan interval in milliseconds set when switching to `mode`.
pub open spec fn mode_interval(mode: PowerMode) -> u32 {
    match mode {
        PowerMode::HighPerformance => 500,
        PowerMode::Balanced => 1000,
        PowerMode::BatterySaver => 2000,
        PowerMode::UltraLowPower => 5000,
    }
}

/// Factor by which `mode` divides the scan window and multiplies the interval.
pub open spec fn mode_factor(mode: PowerMode) -> u32 {
    match mode {
        PowerMode::HighPerformance => 1,
        PowerMode::Balanced => 2,
        PowerMode::BatterySaver => 4,
        PowerMode::UltraLowPower => 8,
    }
}

/// High performance scans with the platform's window and interval, and
/// each step towards saving power halves the window and doubles the
/// interval.
pub proof fn lemma_mode_factors_double()
    ensures
        mode_factor(PowerMode::HighPerformance) == 1,
        mode_factor(PowerMode::Balanced) == 2 * mode_factor(PowerMode::HighPerformance),
        mode_factor(PowerMode::BatterySaver) == 2 * mode_factor(PowerMode::Balanced),
        mode_factor(PowerMode::UltraLowPower) == 2 * mode_factor(PowerMode::BatterySaver),
{
}

/// Switching to high performance scans every 500 ms, and the scan interval
/// strictly grows from high performance through balanced and battery saver
/// to ultra low power: saving more power never scans more often.
pub proof fn lemma_mode_intervals_grow()
    ensures
        mode_interval(PowerMode::HighPerformance) == 500,
        mode_interval(PowerMode::HighPerformance) < mode_interval(PowerMode::Balanced),
        mode_interval(PowerMode::Balanced) < mode_interval(PowerMode::BatterySaver),
        mode_interval(PowerMode::BatterySaver) < mode_interval(PowerMode::UltraLowPower),
{
}

/// (scan window, scan interval) for `mode` on a platform with the given
/// window and interval: the window is divided and the interval multiplied
/// by the mode's factor, and the window never exceeds the interval.
pub open spec fn scan_parameters(mode: PowerMode, window: u32, interval: u32) -> (u32, u32) {
    let (w, i) = match mode {
        PowerMode::HighPerformance => (window as int, interval as int),
        PowerMode::Balanced => ((window / 2) as int, interval * 2),
        PowerMode::BatterySaver => ((window / 4) as int, interval * 4),
        PowerMode::UltraLowPower => ((window / 8) as int, interval * 8),
    };
    (if w <= i { w as u32 } else { i as u32 }, i as u32)
}

/// Two configurations hold the same values.
pub open spec fn same_config(a: PlatformConfig, b: PlatformConfig) -> bool {
    &&& a.platform == b.platform
    &&& a.background_scanning == b.background_scanning
    &&& a.scan_window_ms == b.scan_window_ms
    &&& a.scan_interval_ms == b.scan_interval_ms
    &&& a.low_power_mode == b.low_power_mode
    &&& a.service_uuids@ == b.service_uuids@
}

/// Copy of a platform configuration.
pub fn clone_config(c: &PlatformConfig) -> (r: PlatformConfig)
    ensures
        same_config(r, *c),
{
    let mut uuids: Vec<String> = Vec::new();
    let mut i: usize = 0;
    while i < c.service_uuids.len()
        invariant
            i <= c.service_uuids.len(),
            uuids@ == c.service_uuids@.take(i as int),
        decreases c.service_uuids.len() - i,
    {
        let s = c.service_uuids[i].clone();
        uuids.push(s);
        assert(uuids@ =~= c.service_uuids@.take(i + 1));
        i = i + 1;
    }
    assert(c.service_uuids@.take(c.service_uuids.len() as int) =~= c.service_uuids@);
    PlatformConfig {
        platform: c.platform,
        background_scanning: c.background_scanning,
        scan_window_ms: c.scan_window_ms,
        scan_interval_ms: c.scan_interval_ms,
        low_power_mode: c.low_power_mode,
        service_uuids: uuids,
    }
}

/// Power management system for battery optimization.
pub struct PowerManager {
    pub current_mode: PowerMode,
    pub scan_interval: u32,
    pub platform_config: Option<PlatformConfig>,
}

impl PowerManager {
    /// A manager in `initial_mode` scanning every second.
    pub fn new(initial_mode: PowerMode) -> (m: Self)
        ensures
            m.current_mode == initial_mode,
            m.scan_interval == 1000,
            m.platform_config is None,
    {
        PowerManager { current_mode: initial_mode, scan_interval: 1000, platform_config: None }
    }

    /// Switches to `mode` and resets the scan interval to the mode's interval.
    pub fn set_mode(&mut self, mode: PowerMode) -> (r: Result<(), BitCrapsError>)
        ensures
            r is Ok,
            final(self).current_mode == mode,
            final(self).scan_interval == mode_interval(mode),
            final(self).platform_config == old(self).platform_config,
    {
        self.current_mode = mode;
        self.apply_power_mode(mode)
    }

    fn apply_power_mode(&mut self, mode: PowerMode) -> (r: Result<(), BitCrapsError>)
        ensures
            r is Ok,
            final(self).current_mode == old(self).current_mode,
            final(self).scan_interval == mode_interval(mode),
            final(self).platform_config == old(self).platform_config,
    {
        let base_interval: u32 = match mode {
            PowerMode::HighPerformance => 500,
            PowerMode::Balanced => 1000,
            PowerMode::BatterySaver => 2000,
            PowerMode::UltraLowPower => 5000,
        };
        self.scan_interval = base_interval;
        Ok(())
    }

    /// Sets the scan interval; intervals under 100 ms are refused.
    pub fn set_scan_interval(&mut self, milliseconds: u32) -> (r: Result<(), BitCrapsError>)
        ensures
            milliseconds < 100 ==> (r matches Err(BitCrapsError::InvalidInput { .. })) && *final(self) == *old(self),
            milliseconds >= 100 ==> r is Ok && final(self).scan_interval == milliseconds
                && final(self).current_mode == old(self).current_mode
                && final(self).platform_config == old(self).platform_config,
    {
        if milliseconds < 100 {
            return Err(BitCrapsError::InvalidInput { reason: "Scan interval must be at least 100ms".to_owned() });
        }
        self.scan_interval = milliseconds;
        Ok(())
    }

    /// Remembers the platform configuration; on Android in low-power mode the
    /// scan interval becomes at least 3 seconds.
    pub fn configure_for_platform(&mut self, config: &PlatformConfig) -> (r: Result<(), BitCrapsError>)
        ensures
            r is Ok,
            final(self).platform_config matches Some(pc) && same_config(pc, *config),
            final(self).current_mode == old(self).current_mode,
            final(self).scan_interval == (
                if config.platform == PlatformType::Android && config.low_power_mode && old(self).scan_interval < 3000 { 3000 }
                else { old(self).scan_interval }),
    {
        self.platform_config = Some(clone_config(config));
        match config.platform {
            PlatformType::Android => self.configure_android_optimizations(config),
            PlatformType::Ios => self.configure_ios_optimizations(config),
            _ => Ok(()),
        }
    }

    fn configure_android_optimizations(&mut self, config: &PlatformConfig) -> (r: Result<(), BitCrapsError>)
        ensures
            r is Ok,
            final(self).platform_config == old(self).platform_config,
            final(self).current_mode == old(self).current_mode,
            final(self).scan_interval == (
                if config.low_power_mode && old(self).scan_interval < 3000 { 3000 } else { old(self).scan_interval }),
    {
        if config.low_power_mode {
            if self.scan_interval < 3000 {
                self.scan_interval = 3000;
            }
        }
        Ok(())
    }

    fn configure_ios_optimizations(&mut self, config: &PlatformConfig) -> (r: Result<(), BitCrapsError>)
        ensures
            r is Ok,
            *final(self) == *old(self),
    {
        Ok(())
    }

    /// Scan parameters for discovery: with a platform configuration the scan
    /// interval becomes the one the current mode gives for that platform.
    pub fn configure_discovery(&mut self, platform_config: &Option<PlatformConfig>) -> (r: Result<(), BitCrapsError>)
        requires
            platform_config matches Some(c) ==> c.scan_interval_ms * mode_factor(old(self).current_mode) <= u32::MAX,
        ensures
            r is Ok,
            final(self).current_mode == old(self).current_mode,
            final(self).platform_config == old(self).platform_config,
            final(self).scan_interval == match platform_config {
                Some(c) => scan_parameters(old(self).current_mode, c.scan_window_ms, c.scan_interval_ms).1,
                None => old(self).scan_interval,
            },
    {
        match platform_config {
            Some(config) => {
                let (_window, interval) = self.calculate_scan_parameters(self.current_mode, config);
                self.scan_interval = interval;
            },
            None => {},
        }
        Ok(())
    }

    /// Scan window and interval for `mode` on `config`'s platform.
    pub fn calculate_scan_parameters(&self, mode: PowerMode, config: &PlatformConfig) -> (r: (u32, u32))
        requires
            config.scan_interval_ms * mode_factor(mode) <= u32::MAX,
        ensures
            r == scan_parameters(mode, config.scan_window_ms, config.scan_interval_ms),
            r.0 <= r.1,
    {
        let base_window: u32 = match mode {
            PowerMode::HighPerformance => config.scan_window_ms,
            PowerMode::Balanced => config.scan_window_ms / 2,
            PowerMode::BatterySaver => config.scan_window_ms / 4,
            PowerMode::UltraLowPower => config.scan_window_ms / 8,
        };
        let base_interval: u32 = match mode {
            PowerMode::HighPerformance => config.scan_interval_ms,
            PowerMode::Balanced => config.scan_interval_ms * 2,
            PowerMode::BatterySaver => config.scan_interval_ms * 4,
            PowerMode::UltraLowPower => config.scan_interval_ms * 8,
        };
        let window = if base_window <= base_interval { base_window } else { base_interval };
        (window, base_interval)
    }
}

/// Tracks the time between scans to detect battery optimization that
/// delays them: five scans in a row that come more than three times later
/// than expected raise a warning.
pub struct BatteryOptimizationDetector {
    pub last_scan_time: u64,
    pub expected_interval: u32,
    pub violation_count: u32,
}

/// Outcome of reporting a scan at time `now` (seconds) to a detector in the
/// given state: (last scan time, violation count, whether a warning is raised,
/// observed interval in milliseconds).
pub open spec fn scan_event(last: u64, expected: u32, violations: u32, now: u64) -> (u64, u32, bool, int) {
    let actual = (now - last) * 1000;
    if actual > expected * 3 {
        let v = violations + 1;
        (now, v as u32, v >= 5, actual)
    } else {
        (now, 0u32, false, actual)
    }
}

/// Warning raised when battery optimization delays scans.
pub open spec fn warning_text(expected_ms: nat, actual_ms: nat) -> Seq<char> {
    "Battery optimization detected: expected "@ + crate::text::decimal(expected_ms) + "ms interval, got "@
        + crate::text::decimal(actual_ms) + "ms. Consider adding app to battery whitelist."@
}

/// `new` and `r` are what reporting a scan at `now` to `old` gives: nothing
/// changes and no warning is raised where `now` is before the last scan or
/// the interval in milliseconds does not fit in 64 bits; otherwise the
/// outcome of `scan_event`.
pub open spec fn scan_reported(old: BatteryOptimizationDetector, new: BatteryOptimizationDetector, now: u64, r: Option<String>) -> bool {
    if now < old.last_scan_time || now - old.last_scan_time > u64::MAX / 1000 {
        r is None && new == old
    } else {
        let e = scan_event(old.last_scan_time, old.expected_interval, old.violation_count, now);
        &&& new.last_scan_time == e.0
        &&& new.violation_count == e.1
        &&& new.expected_interval == old.expected_interval
        &&& (r is Some) == e.2
        &&& r matches Some(m) ==> m@ == warning_text(old.expected_interval as nat, e.3 as nat)
    }
}

impl BatteryOptimizationDetector {
    /// A detector that last saw a scan at `now` and expects one every second.
    pub fn new_at(now: u64) -> (d: Self)
        ensures
            d.last_scan_time == now,
            d.expected_interval == 1000,
            d.violation_count == 0,
    {
        BatteryOptimizationDetector { last_scan_time: now, expected_interval: 1000, violation_count: 0 }
    }

    /// A detector started now.
    pub fn new() -> (d: Self)
        ensures
            d.expected_interval == 1000,
            d.violation_count == 0,
    {
        Self::new_at(crate::clock::current_timestamp())
    }

    /// Records a scan at time `now` (seconds since the epoch). A scan more
    /// than three times the expected interval after the previous one counts
    /// as a violation, any other resets the count; the fifth and every later
    /// violation in a row yields a warning naming both intervals.
    pub fn report_scan_event_at(&mut self, now: u64) -> (r: Option<String>)
        requires
            old(self).last_scan_time <= now,
            (now - old(self).last_scan_time) * 1000 <= u64::MAX,
            old(self).violation_count < u32::MAX,
        ensures
            ({
                let e = scan_event(old(self).last_scan_time, old(self).expected_interval, old(self).violation_count, now);
                &&& final(self).last_scan_time == e.0
                &&& final(self).violation_count == e.1
                &&& final(self).expected_interval == old(self).expected_interval
                &&& (r is Some) == e.2
                &&& r matches Some(m) ==> m@ == warning_text(old(self).expected_interval as nat, e.3 as nat)
            }),
    {
        let last_time = self.last_scan_time;
        self.last_scan_time = now;
        let expected_interval_ms = self.expected_interval as u64;
        let actual_interval = (now - last_time) * 1000;
        if actual_interval > expected_interval_ms * 3 {
            self.violation_count = self.violation_count + 1;
            if self.violation_count >= 5 {
                let msg = "Battery optimization detected: expected ".to_owned();
                let msg = msg.concat(crate::text::decimal_string(expected_interval_ms).as_str());
                let msg = msg.concat("ms interval, got ");
                let msg = msg.concat(crate::text::decimal_string(actual_interval).as_str());
                let msg = msg.concat("ms. Consider adding app to battery whitelist.");
                return Some(msg);
            }
        } else {
            self.violation_count = 0;
        }
        None
    }

    /// Records a scan at the clock's current reading, as
    /// `report_scan_event_at` does. When the clock reads earlier than the
    /// previous scan, or the interval in milliseconds does not fit in 64
    /// bits, nothing is recorded and no warning is raised.
    pub fn report_scan_event(&mut self) -> (r: Option<String>)
        requires
            old(self).violation_count < u32::MAX,
        ensures
            exists|now: u64| #[trigger] scan_reported(*old(self), *final(self), now, r),
    {
        let now = crate::clock::current_timestamp();
        if now < self.last_scan_time || now - self.last_scan_time > u64::MAX / 1000 {
            assert(scan_reported(*old(self), *self, now, None));
            return None;
        }
        let r = self.report_scan_event_at(now);
        assert(scan_reported(*old(self), *self, now, r));
        r
    }

    /// Sets the expected scan interval in milliseconds.
    pub fn set_expected_interval(&mut self, interval_ms: u32)
        ensures
            final(self).expected_interval == interval_ms,
            final(self).last_scan_time == old(self).last_scan_time,
            final(self).violation_count == old(self).violation_count,
    {
        self.expected_interval = interval_ms;
    }
}

} // verus!
