//! Rows of the playlist/tab store, as the controller sees them.  The
//! store itself lives outside the library; the runtime fetches rows and
//! hands them in as plain values.  Timestamps are milliseconds since the
//! epoch.

use vstd::prelude::*;

verus! {

/// A playlist: a named ordered set of tabs plus a rotation interval.
#[derive(Debug, Clone)]
pub struct Playlist {
    pub id: String,
    pub name: String,
    pub interval_seconds: i64,
    pub is_active: bool,
    pub created_at: u64,
    pub updated_at: u64,
}

/// A tab: one browser-displayed URL with persistence flag and a cached
/// viewport size.
#[derive(Debug, Clone)]
pub struct Tab {
    pub id: String,
    pub name: String,
    pub url: String,
    pub persist: bool,
    pub viewport_width: Option<i32>,
    pub viewport_height: Option<i32>,
    pub created_at: u64,
    pub updated_at: u64,
}

/// Membership of a tab in a playlist.
#[derive(Debug, Clone)]
pub struct PlaylistTab {
    pub playlist_id: String,
    pub tab_id: String,
    pub order_index: i64,
    pub duration_seconds: Option<i64>,
    pub enabled: bool,
    pub last_manual_activation: Option<u64>,
}

/// A key/value setting row.
#[derive(Debug, Clone)]
pub struct Setting {
    pub key: String,
    pub value: String,
    pub updated_at: u64,
}

/// A tab joined with its membership data in one playlist.
#[derive(Debug, Clone)]
pub struct TabWithOrder {
    pub id: String,
    pub name: String,
    pub url: String,
    pub persist: bool,
    pub viewport_width: Option<i32>,
    pub viewport_height: Option<i32>,
    pub order_index: i64,
    pub duration_seconds: Option<i64>,
    pub enabled: bool,
    pub last_manual_activation: Option<u64>,
    pub created_at: u64,
    pub updated_at: u64,
}

/// A playlist together with its tabs, ordered by position.
#[derive(Debug, Clone)]
pub struct PlaylistWithTabs {
    pub id: String,
    pub name: String,
    pub interval_seconds: i64,
    pub is_active: bool,
    pub created_at: u64,
    pub updated_at: u64,
    pub tabs: Vec<TabWithOrder>,
}

/// Request to create a playlist.
#[derive(Debug, Clone)]
pub struct CreatePlaylistRequest {
    pub id: String,
    pub name: String,
    pub interval_seconds: i64,
}

/// Request to update a playlist; absent fields are left as they are.
#[derive(Debug, Clone)]
pub struct UpdatePlaylistRequest {
    pub name: Option<String>,
    pub interval_seconds: Option<i64>,
    pub is_active: Option<bool>,
}

/// Request to create a tab.
#[derive(Debug, Clone)]
pub struct CreateTabRequest {
    pub id: String,
    pub name: String,
    pub url: String,
    pub persist: Option<bool>,
}

/// Request to update a tab; absent fields are left as they are.
#[derive(Debug, Clone)]
pub struct UpdateTabRequest {
    pub name: Option<String>,
    pub url: Option<String>,
    pub persist: Option<bool>,
}

/// Request to add a tab to a playlist.
#[derive(Debug, Clone)]
pub struct AddTabToPlaylistRequest {
    pub tab_id: String,
    pub order_index: i64,
    pub duration_seconds: Option<i64>,
    pub enabled: Option<bool>,
}

/// One tab's new position within a playlist.
#[derive(Debug, Clone)]
pub struct TabOrder {
    pub tab_id: String,
    pub order_index: i64,
}

/// Request to reorder the tabs of a playlist.
#[derive(Debug, Clone)]
pub struct ReorderTabsRequest {
    pub tab_orders: Vec<TabOrder>,
}

/// Request to enable or disable a tab within a playlist.
#[derive(Debug, Clone)]
pub struct ToggleTabEnabledRequest {
    pub enabled: bool,
}

/// The playlist row that a create request inserts: inactive, stamped
/// with the creation time.
pub fn playlist_from_create_request(request: CreatePlaylistRequest, now_ms: u64) -> (p: Playlist)
    ensures
        p.id == request.id,
        p.name == request.name,
        p.interval_seconds == request.interval_seconds,
        !p.is_active,
        p.created_at == now_ms,
        p.updated_at == now_ms,
{
    Playlist {
        id: request.id,
        name: request.name,
        interval_seconds: request.interval_seconds,
        is_active: false,
        created_at: now_ms,
        updated_at: now_ms,
    }
}

/// The tab row that a create request inserts: persistence defaults to
/// on, the viewport is unknown, and both timestamps are the creation
/// time.
pub fn tab_from_create_request(request: CreateTabRequest, now_ms: u64) -> (t: Tab)
    ensures
        t.id == request.id,
        t.name == request.name,
        t.url == request.url,
        t.persist == (match request.persist {
            Some(b) => b,
            None => true,
        }),
        t.viewport_width is None,
        t.viewport_height is None,
        t.created_at == now_ms,
        t.updated_at == now_ms,
{
    let persist = match request.persist {
        Some(b) => b,
        None => true,
    };
    Tab {
        id: request.id,
        name: request.name,
        url: request.url,
        persist,
        viewport_width: None,
        viewport_height: None,
        created_at: now_ms,
        updated_at: now_ms,
    }
}

/// Whether an update request carries any change at all.
pub open spec fn spec_playlist_update_changes(request: UpdatePlaylistRequest) -> bool {
    request.name is Some || request.interval_seconds is Some || request.is_active is Some
}

/// The playlist row after an update request: present fields replace the
/// old ones and the update is stamped; a request with no fields leaves
/// the row untouched.
pub fn apply_playlist_update(p: &Playlist, request: &UpdatePlaylistRequest, now_ms: u64) -> (q:
    Playlist)
    ensures
        q.id == p.id,
        q.created_at == p.created_at,
        q.name == (match request.name {
            Some(n) => n,
            None => p.name,
        }),
        q.interval_seconds == (match request.interval_seconds {
            Some(i) => i,
            None => p.interval_seconds,
        }),
        q.is_active == (match request.is_active {
            Some(a) => a,
            None => p.is_active,
        }),
        q.updated_at == (if spec_playlist_update_changes(*request) {
            now_ms
        } else {
            p.updated_at
        }),
{
    let changed = request.name.is_some() || request.interval_seconds.is_some()
        || request.is_active.is_some();
    Playlist {
        id: p.id.clone(),
        name: match &request.name {
            Some(n) => n.clone(),
            None => p.name.clone(),
        },
        interval_seconds: match request.interval_seconds {
            Some(i) => i,
            None => p.interval_seconds,
        },
        is_active: match request.is_active {
            Some(a) => a,
            None => p.is_active,
        },
        created_at: p.created_at,
        updated_at: if changed {
            now_ms
        } else {
            p.updated_at
        },
    }
}

/// Whether a tab update request carries any change at all.
pub open spec fn spec_tab_update_changes(request: UpdateTabRequest) -> bool {
    request.name is Some || request.url is Some || request.persist is Some
}

/// The tab row after an update request: present fields replace the old
/// ones and the update is stamped; a request with no fields leaves the
/// row untouched.
pub fn apply_tab_update(t: &Tab, request: &UpdateTabRequest, now_ms: u64) -> (q: Tab)
    ensures
        q.id == t.id,
        q.created_at == t.created_at,
        q.viewport_width == t.viewport_width,
        q.viewport_height == t.viewport_height,
        q.name == (match request.name {
            Some(n) => n,
            None => t.name,
        }),
        q.url == (match request.url {
            Some(u) => u,
            None => t.url,
        }),
        q.persist == (match request.persist {
            Some(b) => b,
            None => t.persist,
        }),
        q.updated_at == (if spec_tab_update_changes(*request) {
            now_ms
        } else {
            t.updated_at
        }),
{
    let changed = request.name.is_some() || request.url.is_some() || request.persist.is_some();
    Tab {
        id: t.id.clone(),
        name: match &request.name {
            Some(n) => n.clone(),
            None => t.name.clone(),
        },
        url: match &request.url {
            Some(u) => u.clone(),
            None => t.url.clone(),
        },
        persist: match request.persist {
            Some(b) => b,
            None => t.persist,
        },
        viewport_width: t.viewport_width,
        viewport_height: t.viewport_height,
        created_at: t.created_at,
        updated_at: if changed {
            now_ms
        } else {
            t.updated_at
        },
    }
}

/// True when some playlist of the list is marked active.
pub open spec fn spec_has_active(s: Seq<Playlist>) -> bool {
    exists|i: int| 0 <= i < s.len() && s[i].is_active
}

/// The position of the first playlist marked active.
pub open spec fn spec_first_active(s: Seq<Playlist>) -> int
    decreases s.len(),
{
    if s.len() == 0 {
        0
    } else if s[0].is_active {
        0
    } else {
        1 + spec_first_active(s.drop_first())
    }
}

proof fn lemma_first_active(s: Seq<Playlist>, i: int)
    requires
        0 <= i < s.len(),
        s[i].is_active,
        forall|j: int| 0 <= j < i ==> !s[j].is_active,
    ensures
        spec_has_active(s),
        spec_first_active(s) == i,
    decreases i,
{
    if i > 0 {
        let rest = s.drop_first();
        assert(rest[i - 1] == s[i]);
        assert forall|j: int| 0 <= j < i - 1 implies !rest[j].is_active by {
            assert(rest[j] == s[j + 1]);
        }
        lemma_first_active(rest, i - 1);
    }
}

/// The playlist to resume at startup: the first one the store has
/// marked active, if any.
pub fn initial_playlist(playlists: &Vec<Playlist>) -> (r: Option<String>)
    ensures
        match r {
            Some(id) => spec_has_active(playlists@) && id@
                == playlists@[spec_first_active(playlists@)].id@,
            None => !spec_has_active(playlists@),
        },
{
    let n = playlists.len();
    let mut i: usize = 0;
    while i < n
        invariant
            n == playlists@.len(),
            i <= n,
            forall|j: int| 0 <= j < i ==> !playlists@[j].is_active,
        decreases n - i,
    {
        if playlists[i].is_active {
            proof {
                lemma_first_active(playlists@, i as int);
            }
            return Some(playlists[i].id.clone());
        }
        i = i + 1;
    }
    None
}

} // verus!
