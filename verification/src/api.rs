//! The management surface's data shapes and the conversions that fill
//! them from store rows and controller state.  The HTTP plumbing around
//! them lives outside the library.

use vstd::prelude::*;
use crate::messages::ChromeState;
use crate::records::{PlaylistWithTabs, TabWithOrder};

verus! {

/// Information about a playlist, as the management surface reports it.
#[derive(Debug, Clone)]
pub struct PlaylistInfo {
    /// Unique identifier for the playlist
    pub id: String,
    /// Display name of the playlist
    pub name: String,
    /// Number of tabs in the playlist
    pub tab_count: usize,
    /// Interval between tab switches in seconds
    pub interval_seconds: i64,
    /// Whether this playlist is currently active
    pub is_active: bool,
}

/// Information about a tab, as the management surface reports it.
#[derive(Debug, Clone)]
pub struct TabInfo {
    /// Unique identifier for the tab
    pub id: String,
    /// Display name of the tab
    pub name: String,
    /// URL the tab displays
    pub url: String,
    /// Order within the playlist (0-based index)
    pub order_index: usize,
    /// Whether this tab persists in browser memory
    pub persist: bool,
    /// Viewport width in pixels (if available)
    pub viewport_width: Option<i32>,
    /// Viewport height in pixels (if available)
    pub viewport_height: Option<i32>,
}

/// Current device status.
#[derive(Debug, Clone)]
pub struct DeviceStatus {
    /// Device unique identifier
    pub device_id: String,
    /// Device display name
    pub device_name: String,
    /// Currently active playlist ID (if any)
    pub current_playlist: Option<String>,
    /// Currently active tab ID (if any)
    pub current_tab: Option<String>,
    /// Uptime in seconds
    pub uptime_seconds: u64,
}

/// Authentication request.
#[derive(Debug, Clone)]
pub struct AuthRequest {
    /// Admin key for authentication
    pub admin_key: String,
}

/// Authentication response.
#[derive(Debug, Clone)]
pub struct AuthResponse {
    /// Whether authentication was successful
    pub success: bool,
    /// Authentication token (if successful)
    pub token: Option<String>,
    /// Error message (if failed)
    pub message: Option<String>,
}

/// Marker for admin access on the management surface.
#[derive(Debug, Clone)]
pub struct AdminAuth;

/// Validate an admin key against the configured one.  Admin keys are
/// not accepted on this surface: every key is rejected.
pub fn validate_admin_key(_key: &str, _config_key: &str) -> (r: bool)
    ensures
        !r,
{
    false
}

/// A playlist order position as a 0-based list index: negative or
/// oversized positions fall back to the start.
pub open spec fn spec_order_index_as_usize(i: i64) -> usize {
    if 0 <= i && i as int <= usize::MAX as int {
        i as usize
    } else {
        0
    }
}

/// The summary row reported for one playlist.
pub open spec fn spec_playlist_info(p: PlaylistWithTabs) -> PlaylistInfo {
    PlaylistInfo {
        id: p.id,
        name: p.name,
        tab_count: p.tabs@.len() as usize,
        interval_seconds: p.interval_seconds,
        is_active: p.is_active,
    }
}

/// The row reported for one tab of a playlist.
pub open spec fn spec_tab_info(t: TabWithOrder) -> TabInfo {
    TabInfo {
        id: t.id,
        name: t.name,
        url: t.url,
        order_index: spec_order_index_as_usize(t.order_index),
        persist: t.persist,
        viewport_width: t.viewport_width,
        viewport_height: t.viewport_height,
    }
}

/// Summarize one playlist row.
pub fn playlist_info_of(p: &PlaylistWithTabs) -> (r: PlaylistInfo)
    ensures
        r == spec_playlist_info(*p),
{
    PlaylistInfo {
        id: p.id.clone(),
        name: p.name.clone(),
        tab_count: p.tabs.len(),
        interval_seconds: p.interval_seconds,
        is_active: p.is_active,
    }
}

/// Summarize every playlist, in store order.
pub fn playlist_infos(playlists: &Vec<PlaylistWithTabs>) -> (r: Vec<PlaylistInfo>)
    ensures
        r@.len() == playlists@.len(),
        forall|i: int| 0 <= i < r@.len() ==> r@[i] == spec_playlist_info(#[trigger] playlists@[i]),
{
    let n = playlists.len();
    let mut r: Vec<PlaylistInfo> = Vec::new();
    let mut i: usize = 0;
    while i < n
        invariant
            n == playlists@.len(),
            i <= n,
            r@.len() == i,
            forall|j: int| 0 <= j < i ==> r@[j] == spec_playlist_info(#[trigger] playlists@[j]),
        decreases n - i,
    {
        r.push(playlist_info_of(&playlists[i]));
        i = i + 1;
    }
    r
}

/// Report one tab of a playlist.
pub fn tab_info_of(t: &TabWithOrder) -> (r: TabInfo)
    ensures
        r == spec_tab_info(*t),
{
    let order_index: usize = if t.order_index >= 0 && t.order_index as u64 <= usize::MAX as u64 {
        t.order_index as usize
    } else {
        0
    };
    TabInfo {
        id: t.id.clone(),
        name: t.name.clone(),
        url: t.url.clone(),
        order_index,
        persist: t.persist,
        viewport_width: t.viewport_width,
        viewport_height: t.viewport_height,
    }
}

/// Report every tab of a playlist, in playlist order.
pub fn tab_infos(tabs: &Vec<TabWithOrder>) -> (r: Vec<TabInfo>)
    ensures
        r@.len() == tabs@.len(),
        forall|i: int| 0 <= i < r@.len() ==> r@[i] == spec_tab_info(#[trigger] tabs@[i]),
{
    let n = tabs.len();
    let mut r: Vec<TabInfo> = Vec::new();
    let mut i: usize = 0;
    while i < n
        invariant
            n == tabs@.len(),
            i <= n,
            r@.len() == i,
            forall|j: int| 0 <= j < i ==> r@[j] == spec_tab_info(#[trigger] tabs@[j]),
        decreases n - i,
    {
        r.push(tab_info_of(&tabs[i]));
        i = i + 1;
    }
    r
}

/// The device status snapshot: controller state plus device identity.
/// Uptime accounting is not kept; the snapshot reports zero.
pub fn device_status_of(state: &ChromeState, device_id: String, device_name: String) -> (r:
    DeviceStatus)
    ensures
        r.device_id == device_id,
        r.device_name == device_name,
        r.current_playlist == state.current_playlist_id,
        r.current_tab == state.current_tab_id,
        r.uptime_seconds == 0,
{
    DeviceStatus {
        device_id,
        device_name,
        current_playlist: match &state.current_playlist_id {
            Some(s) => Some(s.clone()),
            None => None,
        },
        current_tab: match &state.current_tab_id {
            Some(s) => Some(s.clone()),
            None => None,
        },
        uptime_seconds: 0,
    }
}

} // verus!
