//! The process configuration, as plain data.  Loading it from disk is
//! the runtime's business; the library only carries the shapes.

use vstd::prelude::*;
use std::collections::HashMap;

verus! {

/// Top-level configuration.
#[derive(Debug)]
pub struct Config {
    pub homeassistant: Option<HomeAssistantConfig>,
    pub device: DeviceConfig,
    pub display: DisplayConfig,
    pub chromium: Option<ChromiumConfig>,
}

/// Home-automation bridge connection settings.
#[derive(Debug)]
pub struct HomeAssistantConfig {
    pub mqtt_url: String,
    pub mqtt_username: Option<String>,
    pub mqtt_password: Option<String>,
}

/// Device identity.
#[derive(Debug)]
pub struct DeviceConfig {
    pub name: String,
    pub id: String,
}

/// Display power and brightness control settings.
#[derive(Debug)]
pub struct DisplayConfig {
    pub sleep_time: Option<u32>,
    pub xrandr: Option<String>,
    pub output: Option<String>,
    pub ddcutil_display: Option<String>,
}

/// Browser session settings, with the tabs and playlists a config file
/// may seed the store with.
#[derive(Debug, Clone)]
pub struct ChromiumConfig {
    pub enabled: bool,
    pub binary_path: Option<String>,
    pub theme: Option<String>,
    pub tabs: Option<HashMap<String, ChromiumTabConfig>>,
    pub playlists: Option<HashMap<String, ChromiumPlaylistConfig>>,
}

/// One seeded tab: its URL and persistence flag.
#[derive(Debug, Clone)]
pub struct ChromiumTabConfig {
    pub url: String,
    pub persist: bool,
}

/// One seeded playlist: its tabs in order and its rotation interval.
#[derive(Debug, Clone)]
pub struct ChromiumPlaylistConfig {
    pub tabs: Vec<String>,
    pub interval: u32,
}

} // verus!
