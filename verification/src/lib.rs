//! BitCraps mobile and monitoring library: permission handling, platform
//! configuration, secure storage, power management and the monitoring and
//! alerting layer, with their behaviour stated in verified contracts.

pub mod clock;
pub mod error;
pub mod text;
pub mod keyed;
pub mod mobile;
pub mod monitoring;
