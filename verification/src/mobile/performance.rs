//! Mobile performance settings: the adaptive BLE scan configuration, the
//! power and thermal states the optimizer moves between, and message
//! compression.

use vstd::prelude::*;
use vstd::slice::slice_to_vec;

verus! {

/// BLE scanning configuration for adaptive duty cycling.
#[derive(Debug, Clone, Copy, PartialEq, Eq, Structural)]
pub struct BleScanConfig {
    /// Active scan duration in milliseconds.
    pub active_duration_ms: u64,
    /// Idle duration between scans in milliseconds.
    pub idle_duration_ms: u64,
    /// Maximum scan duration under high activity.
    pub max_active_duration_ms: u64,
    /// Minimum idle duration to preserve battery.
    pub min_idle_duration_ms: u64,
    /// RSSI threshold for device proximity, in dBm.
    pub rssi_threshold: i16,
    /// Maximum concurrent scan operations.
    pub max_concurrent_scans: usize,
}

impl Default for BleScanConfig {
    /// One second of scanning in five (a 20% duty cycle), a -70 dBm
    /// proximity threshold and one scan at a time.
    fn default() -> (c: Self)
        ensures
            c.active_duration_ms == 1000,
            c.idle_duration_ms == 4000,
            c.max_active_duration_ms == 3000,
            c.min_idle_duration_ms == 2000,
            c.rssi_threshold == -70,
            c.max_concurrent_scans == 1,
    {
        BleScanConfig {
            active_duration_ms: 1000,
            idle_duration_ms: 4000,
            max_active_duration_ms: 3000,
            min_idle_duration_ms: 2000,
            rssi_threshold: -70,
            max_concurrent_scans: 1,
        }
    }
}

/// Compression algorithms.
#[derive(Debug, Clone, Copy, PartialEq, Eq, Structural)]
pub enum CompressionAlgorithm {
    /// LZ4: fast compression and decompression.
    Lz4,
    /// Zstd: better compression ratio.
    Zstd,
    /// Brotli: strong compression for text.
    Brotli,
}

/// Power states for mobile devices.
#[derive(Debug, Clone, Copy, PartialEq, Eq, Hash, Structural)]
pub enum PowerState {
    /// Full performance mode.
    Active,
    /// Reduced performance to save battery.
    PowerSaver,
    /// Minimal activity, maximum battery savings.
    Standby,
    /// Critical battery level.
    Critical,
    /// Device charging.
    Charging,
}

/// Thermal management states.
#[derive(Debug, Clone, Copy, PartialEq, Eq, Structural)]
pub enum ThermalState {
    /// Normal temperature range.
    Normal,
    /// Slightly elevated temperature.
    Warm,
    /// High temperature, throttling recommended.
    Hot,
    /// Critical temperature, aggressive throttling required.
    Critical,
}

/// Message compressor: messages below the minimum size, or all messages
/// when compression is off, pass unchanged; the codec itself leaves the
/// bytes as they are.
pub struct MessageCompressor {
    pub enabled: bool,
    pub algorithm: CompressionAlgorithm,
    pub min_size_bytes: usize,
}

impl MessageCompressor {
    pub fn new(enabled: bool, algorithm: CompressionAlgorithm, min_size_bytes: usize) -> (c: Self)
        ensures
            c.enabled == enabled,
            c.algorithm == algorithm,
            c.min_size_bytes == min_size_bytes,
    {
        MessageCompressor { enabled, algorithm, min_size_bytes }
    }

    /// The compressed form of `data`.
    pub fn compress(&self, data: &[u8]) -> (r: Result<Vec<u8>, ()>)
        ensures
            r matches Ok(v) && v@ == data@,
    {
        if !self.enabled || data.len() < self.min_size_bytes {
            return Ok(slice_to_vec(data));
        }
        Ok(slice_to_vec(data))
    }

    /// The data that `compress` turned into `data`.
    pub fn decompress(&self, data: &[u8]) -> (r: Result<Vec<u8>, ()>)
        ensures
            r matches Ok(v) && v@ == data@,
    {
        Ok(slice_to_vec(data))
    }
}

} // verus!
