//! Error types shared by the mobile and monitoring layers.

use vstd::prelude::*;

verus! {

/// General failure kinds of the secure storage, permission and security layers.
#[derive(Debug)]
pub enum Error {
    InvalidState(String),
    InvalidData(String),
    Platform(String),
    Crypto(String),
    Security(String),
    NotFound(String),
}

/// Failures reported by the node-level mobile API.
#[derive(Debug)]
pub enum BitCrapsError {
    InvalidInput { reason: String },
    GameError { reason: String },
    GameLogic { reason: String },
    Platform(String),
}

} // verus!
