//! System monitoring: the metrics each platform monitor supports, network
//! interface statistics, monitor errors and the monitors' identities.

pub mod monitors;
pub mod proc_text;
pub mod linux;
