//! The service of one host: its session, its settings and its platform.

use vstd::prelude::*;
use crate::bridge::BridgeMode;
use crate::bridge::MouseBridgeService;
use crate::config::Config;
use crate::platform::get_platform;
use crate::platform::spec_default_screen;
use crate::platform::PlatformKind;
use crate::platform::ScreenBounds;
use crate::platform::SystemInfo;
use crate::BridgeError;

verus! {

/// The service of one host.
#[derive(Debug)]
pub struct ApplicationService {
    pub bridge_service: MouseBridgeService,
    pub config: Config,
    pub platform: PlatformKind,
}

impl ApplicationService {
    /// The service of a host that runs the system with the identifier `os`:
    /// disconnected, with the default settings. A system that the library
    /// does not know is refused.
    pub fn new(os: &str) -> (service: Result<Self, BridgeError>)
        ensures
            match PlatformKind::spec_from_os(os@) {
                Some(kind) => service matches Ok(s) && s.platform == kind
                    && s.config.spec_is_default() && s.bridge_service@.wf()
                    && s.bridge_service@.mode == BridgeMode::Disconnected
                    && s.bridge_service@.config.spec_is_default(),
                None => service matches Err(e) && e == BridgeError::UnsupportedPlatform,
            },
    {
        match get_platform(os) {
            Ok(platform) => Ok(
                ApplicationService {
                    bridge_service: MouseBridgeService::new(),
                    config: Config::default(),
                    platform,
                },
            ),
            Err(error) => Err(error),
        }
    }

    /// Takes the settings that were loaded, given whether the system has
    /// granted the permissions that input control needs. Without them the
    /// service refuses to go on; the settings are kept either way.
    pub fn initialize(&mut self, loaded: Config, permissions_granted: bool) -> (result: Result<
        (),
        BridgeError,
    >)
        ensures
            final(self).config == loaded,
            final(self).platform == old(self).platform,
            final(self).bridge_service == old(self).bridge_service,
            result == (if permissions_granted {
                Ok::<(), BridgeError>(())
            } else {
                Err::<(), BridgeError>(BridgeError::PermissionDenied)
            }),
    {
        self.config = loaded;
        if !permissions_granted {
            return Err(BridgeError::PermissionDenied);
        }
        Ok(())
    }

    /// Puts new settings in the place of the old.
    pub fn update_config(&mut self, config: Config)
        ensures
            final(self).config == config,
            final(self).platform == old(self).platform,
            final(self).bridge_service == old(self).bridge_service,
    {
        self.config = config;
    }

    /// What is known of the host, given what the environment tells.
    pub fn get_platform_info(
        &self,
        os_version: Option<String>,
        architecture: String,
        hostname: String,
    ) -> (info: SystemInfo)
        ensures
            info.os_name@ == self.platform.spec_os_name(),
            info.os_version@ == (match os_version {
                Some(version) => version@,
                None => "Unknown"@,
            }),
            info.architecture == architecture,
            info.hostname == hostname,
    {
        self.platform.get_system_info(os_version, architecture, hostname)
    }

    /// The displays of the host.
    pub fn get_screen_bounds(&self) -> (screens: Vec<ScreenBounds>)
        ensures
            screens@ == seq![spec_default_screen()],
    {
        self.platform.get_screen_bounds()
    }
}

} // verus!
