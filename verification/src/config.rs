//! Connection, display and security settings, with their defaults.

use vstd::prelude::*;
use crate::BridgeError;

verus! {

/// Transport protocol of a session.
#[derive(Debug, Clone, Copy, PartialEq, Eq, Structural)]
pub enum Protocol {
    WebRTC,
    UDP,
    TCP,
}

/// How the screens of the paired hosts lie relative to each other.
#[derive(Debug, Clone, Copy, PartialEq, Eq, Structural)]
pub enum ScreenLayout {
    Horizontal,
    Vertical,
    Custom,
}

/// Where and how a session connects. A session keeps the value it was started with.
#[derive(Debug, PartialEq, Eq)]
pub struct ConnectionConfig {
    pub host: String,
    pub port: u16,
    pub protocol: Protocol,
    pub timeout_ms: u64,
}

impl Clone for ConnectionConfig {
    fn clone(&self) -> (res: Self)
        ensures
            res == *self,
    {
        ConnectionConfig {
            host: self.host.clone(),
            port: self.port,
            protocol: self.protocol,
            timeout_ms: self.timeout_ms,
        }
    }
}

impl ConnectionConfig {
    /// Whether this is the connection that a host starts out with: the
    /// loopback address, port 4242, the first protocol, five seconds.
    pub open spec fn spec_is_default(&self) -> bool {
        &&& self.host@ == "127.0.0.1"@
        &&& self.port == 4242
        &&& self.protocol == Protocol::WebRTC
        &&& self.timeout_ms == 5000
    }

    /// Whether `port` is a port number and `timeout_ms` a duration a
    /// configuration can hold.
    pub open spec fn spec_in_range(port: int, timeout_ms: int) -> bool {
        0 <= port <= u16::MAX && 0 <= timeout_ms <= u64::MAX
    }

    /// A configuration from numbers that have not been checked yet. A port
    /// outside 0 to 65535 or a negative timeout is refused.
    pub fn validated(host: String, port: i64, protocol: Protocol, timeout_ms: i64) -> (result:
        Result<ConnectionConfig, BridgeError>)
        ensures
            match result {
                Ok(config) => Self::spec_in_range(port as int, timeout_ms as int) && config == (
                ConnectionConfig { host, port: port as u16, protocol, timeout_ms: timeout_ms as u64 }),
                Err(error) => !Self::spec_in_range(port as int, timeout_ms as int) && error
                    == BridgeError::ConfigInvalid,
            },
    {
        if port < 0 || port > 65535 || timeout_ms < 0 {
            return Err(BridgeError::ConfigInvalid);
        }
        Ok(ConnectionConfig { host, port: port as u16, protocol, timeout_ms: timeout_ms as u64 })
    }
}

impl Default for ConnectionConfig {
    fn default() -> (res: Self)
        ensures
            res.spec_is_default(),
    {
        ConnectionConfig {
            host: "127.0.0.1".to_string(),
            port: 4242,
            protocol: Protocol::WebRTC,
            timeout_ms: 5000,
        }
    }
}

/// How the displays are laid out, and how the cursor crosses between them.
/// The speed multiplier is in thousandths.
#[derive(Debug, Clone, Copy, PartialEq, Eq, Structural)]
pub struct DisplayConfig {
    pub screen_layout: ScreenLayout,
    pub transition_zone_pixels: u32,
    pub cursor_speed_multiplier: u32,
}

impl DisplayConfig {
    /// The display settings that a host starts out with: screens side by
    /// side, a margin of ten pixels, the device's own speed.
    pub open spec fn spec_default() -> DisplayConfig {
        DisplayConfig {
            screen_layout: ScreenLayout::Horizontal,
            transition_zone_pixels: 10,
            cursor_speed_multiplier: 1000,
        }
    }
}

impl Default for DisplayConfig {
    fn default() -> (res: Self)
        ensures
            res == DisplayConfig::spec_default(),
    {
        DisplayConfig {
            screen_layout: ScreenLayout::Horizontal,
            transition_zone_pixels: 10,
            cursor_speed_multiplier: 1000,
        }
    }
}

/// Who may connect, and whether traffic is encrypted.
#[derive(Debug, Clone, PartialEq, Eq)]
pub struct SecurityConfig {
    pub enable_encryption: bool,
    pub trusted_devices: Vec<String>,
    pub auto_accept_connections: bool,
}

impl SecurityConfig {
    /// Whether this is the security policy that a host starts out with:
    /// encrypted, no device trusted, nothing accepted without asking.
    pub open spec fn spec_is_default(&self) -> bool {
        &&& self.enable_encryption
        &&& self.trusted_devices@ == Seq::<String>::empty()
        &&& !self.auto_accept_connections
    }
}

impl Default for SecurityConfig {
    fn default() -> (res: Self)
        ensures
            res.spec_is_default(),
    {
        SecurityConfig {
            enable_encryption: true,
            trusted_devices: Vec::new(),
            auto_accept_connections: false,
        }
    }
}

/// All settings of a host.
#[derive(Debug, Clone, PartialEq, Eq)]
pub struct Config {
    pub connection: ConnectionConfig,
    pub display: DisplayConfig,
    pub security: SecurityConfig,
}

impl Config {
    /// Whether these are the settings that a host starts out with: each part
    /// as it starts out.
    pub open spec fn spec_is_default(&self) -> bool {
        &&& self.connection.spec_is_default()
        &&& self.display == DisplayConfig::spec_default()
        &&& self.security.spec_is_default()
    }
}

impl Default for Config {
    fn default() -> (res: Self)
        ensures
            res.spec_is_default(),
    {
        Config {
            connection: ConnectionConfig::default(),
            display: DisplayConfig::default(),
            security: SecurityConfig::default(),
        }
    }
}

} // verus!
