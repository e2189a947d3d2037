//! What the library knows of the systems a host can run.

use vstd::prelude::*;
use crate::text::same_text;
use crate::BridgeError;

verus! {

/// The rectangle of one display as the system reports it. The scale factor is
/// in thousandths.
#[derive(Debug, Clone, Copy, PartialEq, Eq, Structural)]
pub struct ScreenBounds {
    pub x: i32,
    pub y: i32,
    pub width: u32,
    pub height: u32,
    pub primary: bool,
    pub scale_factor: u32,
}

/// The system that a host runs, and the host's name.
#[derive(Debug, Clone, PartialEq, Eq)]
pub struct SystemInfo {
    pub os_name: String,
    pub os_version: String,
    pub architecture: String,
    pub hostname: String,
}

/// The permissions that input control needs, and whether each is held.
#[derive(Debug, Clone, Copy, PartialEq, Eq, Structural)]
pub struct RequiredPermissions {
    pub accessibility: bool,
    pub input_monitoring: bool,
    pub screen_recording: bool,
}

/// How busy the system is, each in thousandths of the whole.
#[derive(Debug, Clone, Copy, PartialEq, Eq, Structural)]
pub struct SystemResources {
    pub cpu_usage: u32,
    pub memory_usage: u32,
    pub disk_usage: u32,
    pub network_usage: u32,
}

/// The display of a host of which nothing else is known: one primary display
/// of 1920 by 1080 at the origin, unscaled.
pub open spec fn spec_default_screen() -> ScreenBounds {
    ScreenBounds { x: 0, y: 0, width: 1920, height: 1080, primary: true, scale_factor: 1000 }
}

/// The displays of a host of which nothing else is known.
fn default_screens() -> (screens: Vec<ScreenBounds>)
    ensures
        screens@ == seq![spec_default_screen()],
{
    let mut screens: Vec<ScreenBounds> = Vec::new();
    screens.push(
        ScreenBounds { x: 0, y: 0, width: 1920, height: 1080, primary: true, scale_factor: 1000 },
    );
    screens
}

/// What is known of a host that runs the system `os_name`: the version is
/// unknown where the host tells none.
fn system_info(os_name: &str, os_version: Option<String>, architecture: String, hostname: String)
    -> (info: SystemInfo)
    ensures
        info.os_name@ == os_name@,
        info.os_version@ == (match os_version {
            Some(version) => version@,
            None => "Unknown"@,
        }),
        info.architecture == architecture,
        info.hostname == hostname,
{
    let os_version = match os_version {
        Some(version) => version,
        None => "Unknown".to_string(),
    };
    SystemInfo { os_name: os_name.to_string(), os_version, architecture, hostname }
}

/// The systems that the library knows.
#[derive(Debug, Clone, Copy, PartialEq, Eq, Structural)]
pub enum PlatformKind {
    MacOS,
    Windows,
    Linux,
}

impl PlatformKind {
    /// The system that the identifier `os` stands for, if the library knows it.
    pub open spec fn spec_from_os(os: Seq<char>) -> Option<PlatformKind> {
        if os == "macos"@ {
            Some(PlatformKind::MacOS)
        } else if os == "windows"@ {
            Some(PlatformKind::Windows)
        } else if os == "linux"@ {
            Some(PlatformKind::Linux)
        } else {
            None
        }
    }

    /// The name under which a system is reported.
    pub open spec fn spec_os_name(self) -> Seq<char> {
        match self {
            PlatformKind::MacOS => "macOS"@,
            PlatformKind::Windows => "Windows"@,
            PlatformKind::Linux => "Linux"@,
        }
    }

    /// The displays of the host.
    pub fn get_screen_bounds(&self) -> (screens: Vec<ScreenBounds>)
        ensures
            screens@ == seq![spec_default_screen()],
    {
        default_screens()
    }

    /// What is known of the host, given what the environment tells.
    pub fn get_system_info(
        &self,
        os_version: Option<String>,
        architecture: String,
        hostname: String,
    ) -> (info: SystemInfo)
        ensures
            info.os_name@ == self.spec_os_name(),
            info.os_version@ == (match os_version {
                Some(version) => version@,
                None => "Unknown"@,
            }),
            info.architecture == architecture,
            info.hostname == hostname,
    {
        match self {
            PlatformKind::MacOS => MacOSPlatform::new().get_system_info(
                os_version,
                architecture,
                hostname,
            ),
            PlatformKind::Windows => WindowsPlatform::new().get_system_info(
                os_version,
                architecture,
                hostname,
            ),
            PlatformKind::Linux => LinuxPlatform::new().get_system_info(
                os_version,
                architecture,
                hostname,
            ),
        }
    }

    /// Whether the system lets the library control input.
    pub fn request_accessibility_permissions(&self) -> (granted: bool)
        ensures
            granted,
    {
        true
    }
}

/// The system with the identifier `os`. An identifier that the library does
/// not know is reported as an unsupported platform.
pub fn get_platform(os: &str) -> (platform: Result<PlatformKind, BridgeError>)
    ensures
        platform == (match PlatformKind::spec_from_os(os@) {
            Some(kind) => Ok::<PlatformKind, BridgeError>(kind),
            None => Err::<PlatformKind, BridgeError>(BridgeError::UnsupportedPlatform),
        }),
{
    let os = os.to_string();
    if same_text(&os, "macos") {
        Ok(PlatformKind::MacOS)
    } else if same_text(&os, "windows") {
        Ok(PlatformKind::Windows)
    } else if same_text(&os, "linux") {
        Ok(PlatformKind::Linux)
    } else {
        Err(BridgeError::UnsupportedPlatform)
    }
}

/// A host that runs macOS.
#[derive(Debug, Clone, Copy, PartialEq, Eq, Structural)]
pub struct MacOSPlatform;

impl MacOSPlatform {
    pub fn new() -> (platform: Self)
        ensures
            platform == MacOSPlatform,
    {
        MacOSPlatform
    }

    /// The displays of the host.
    pub fn get_screen_bounds(&self) -> (screens: Vec<ScreenBounds>)
        ensures
            screens@ == seq![spec_default_screen()],
    {
        default_screens()
    }

    /// What is known of the host, given what the environment tells.
    pub fn get_system_info(
        &self,
        os_version: Option<String>,
        architecture: String,
        hostname: String,
    ) -> (info: SystemInfo)
        ensures
            info.os_name@ == "macOS"@,
            info.os_version@ == (match os_version {
                Some(version) => version@,
                None => "Unknown"@,
            }),
            info.architecture == architecture,
            info.hostname == hostname,
    {
        system_info("macOS", os_version, architecture, hostname)
    }

    /// Whether the system lets the library control input.
    pub fn request_accessibility_permissions(&self) -> (granted: bool)
        ensures
            granted,
    {
        true
    }
}

/// A host that runs Windows.
#[derive(Debug, Clone, Copy, PartialEq, Eq, Structural)]
pub struct WindowsPlatform;

impl WindowsPlatform {
    pub fn new() -> (platform: Self)
        ensures
            platform == WindowsPlatform,
    {
        WindowsPlatform
    }

    /// The displays of the host.
    pub fn get_screen_bounds(&self) -> (screens: Vec<ScreenBounds>)
        ensures
            screens@ == seq![spec_default_screen()],
    {
        default_screens()
    }

    /// What is known of the host, given what the environment tells.
    pub fn get_system_info(
        &self,
        os_version: Option<String>,
        architecture: String,
        hostname: String,
    ) -> (info: SystemInfo)
        ensures
            info.os_name@ == "Windows"@,
            info.os_version@ == (match os_version {
                Some(version) => version@,
                None => "Unknown"@,
            }),
            info.architecture == architecture,
            info.hostname == hostname,
    {
        system_info("Windows", os_version, architecture, hostname)
    }

    /// Whether the system lets the library control input. Windows asks for no
    /// permission.
    pub fn request_accessibility_permissions(&self) -> (granted: bool)
        ensures
            granted,
    {
        true
    }
}

/// A host that runs Linux.
#[derive(Debug, Clone, Copy, PartialEq, Eq, Structural)]
pub struct LinuxPlatform;

impl LinuxPlatform {
    pub fn new() -> (platform: Self)
        ensures
            platform == LinuxPlatform,
    {
        LinuxPlatform
    }

    /// The displays of the host.
    pub fn get_screen_bounds(&self) -> (screens: Vec<ScreenBounds>)
        ensures
            screens@ == seq![spec_default_screen()],
    {
        default_screens()
    }

    /// What is known of the host, given what the environment tells.
    pub fn get_system_info(
        &self,
        os_version: Option<String>,
        architecture: String,
        hostname: String,
    ) -> (info: SystemInfo)
        ensures
            info.os_name@ == "Linux"@,
            info.os_version@ == (match os_version {
                Some(version) => version@,
                None => "Unknown"@,
            }),
            info.architecture == architecture,
            info.hostname == hostname,
    {
        system_info("Linux", os_version, architecture, hostname)
    }

    /// Whether the system lets the library control input.
    pub fn request_accessibility_permissions(&self) -> (granted: bool)
        ensures
            granted,
    {
        true
    }
}

/// How busy the system is. Nothing is measured yet: every share is zero.
pub fn get_system_resources() -> (resources: SystemResources)
    ensures
        resources == (SystemResources {
            cpu_usage: 0,
            memory_usage: 0,
            disk_usage: 0,
            network_usage: 0,
        }),
{
    SystemResources { cpu_usage: 0, memory_usage: 0, disk_usage: 0, network_usage: 0 }
}

/// The permissions that input control needs: accessibility and input
/// monitoring are taken to be held, screen recording not.
pub fn check_required_permissions() -> (permissions: RequiredPermissions)
    ensures
        permissions == (RequiredPermissions {
            accessibility: true,
            input_monitoring: true,
            screen_recording: false,
        }),
{
    RequiredPermissions { accessibility: true, input_monitoring: true, screen_recording: false }
}

/// Asks for the permissions that input control needs, and says whether they
/// are held.
pub fn request_required_permissions() -> (granted: bool)
    ensures
        granted,
{
    true
}

} // verus!
