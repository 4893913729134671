//! Mobile platform support.

pub mod permissions;
pub mod platform_adaptations;
pub mod platform_config;
pub mod power_management;
pub mod security_integration;
pub mod secure_storage;
pub mod uniffi_impl;
pub mod performance;
pub mod power_manager;
