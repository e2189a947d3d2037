//! Input bridging between paired hosts: the session state machine, the wire
//! messages that travel between two hosts, and the input pipeline that decides
//! which pointer events are produced, forwarded and replayed.

use vstd::prelude::*;

pub mod analytics;
pub mod bridge;
pub mod clipboard;
pub mod clock;
pub mod config;
pub mod hotkeys;
pub mod input;
pub mod network;
pub mod platform;
pub mod plugins;
pub mod registry;
pub mod service;
pub mod text;
pub mod wire;

verus! {

/// Identity that a running server advertises to its peers.
#[derive(Debug, PartialEq, Eq)]
pub struct ServerInfo {
    pub hostname: String,
    pub ip: String,
    pub port: u16,
    pub fingerprint: String,
}

/// Answer to a status query on the session.
#[derive(Debug, PartialEq, Eq)]
pub struct ConnectionStatus {
    pub connected: bool,
    pub mode: String,
    pub remote_address: Option<String>,
    pub latency_ms: Option<u64>,
}

/// What can go wrong in a session.
#[derive(Debug, Clone, Copy, PartialEq, Eq, Structural)]
pub enum BridgeError {
    /// A query was made of a server that is not running.
    NotRunning,
    /// The peer declined the connection.
    HandshakeRejected,
    /// The peer stayed silent for longer than the timeout.
    ConnectionLost,
    /// The host runs a system for which there is no capture or injection.
    UnsupportedPlatform,
    /// The system has not granted the permissions that input control needs.
    PermissionDenied,
    /// A port or a timeout lies outside the range of its kind.
    ConfigInvalid,
}

impl BridgeError {
    /// The wording of an error.
    pub open spec fn spec_message(self) -> Seq<char> {
        match self {
            BridgeError::NotRunning => "Server not running"@,
            BridgeError::HandshakeRejected => "Connection rejected by peer"@,
            BridgeError::ConnectionLost => "Connection lost"@,
            BridgeError::UnsupportedPlatform => "Unsupported platform"@,
            BridgeError::PermissionDenied => "Accessibility permissions required"@,
            BridgeError::ConfigInvalid => "Configuration value out of range"@,
        }
    }

    /// The wording of an error.
    pub fn message(&self) -> (text: String)
        ensures
            text@ == self.spec_message(),
    {
        match self {
            BridgeError::NotRunning => "Server not running".to_string(),
            BridgeError::HandshakeRejected => "Connection rejected by peer".to_string(),
            BridgeError::ConnectionLost => "Connection lost".to_string(),
            BridgeError::UnsupportedPlatform => "Unsupported platform".to_string(),
            BridgeError::PermissionDenied => "Accessibility permissions required".to_string(),
            BridgeError::ConfigInvalid => "Configuration value out of range".to_string(),
        }
    }
}

/// The system that a host runs.
#[derive(Debug, Clone, PartialEq, Eq)]
pub struct PlatformInfo {
    pub os: String,
    pub arch: String,
    pub version: String,
}

/// What a clipboard holds.
#[derive(Debug, Clone, PartialEq, Eq)]
pub struct ClipboardData {
    pub text: Option<String>,
    pub image: Option<Vec<u8>>,
    pub files: Option<Vec<String>>,
}

/// A key combination and the action that it triggers.
#[derive(Debug, PartialEq, Eq)]
pub struct HotkeyConfig {
    pub key: String,
    pub modifiers: Vec<String>,
    pub action: String,
    pub enabled: bool,
}

/// The counters of a session, as they are reported.
#[derive(Debug, Clone, Copy, PartialEq, Eq, Structural)]
pub struct AnalyticsData {
    pub session_duration: u64,
    pub connections_made: u32,
    pub data_transferred: u64,
    pub errors_encountered: u32,
}

} // verus!
