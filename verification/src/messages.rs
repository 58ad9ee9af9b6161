//! The command protocol of the controller: every external producer —
//! management API, automation bridge, rotation timer — speaks to the
//! dispatcher through `ChromeMessage`, and the dispatcher answers with a
//! `ChromeResponse`.

use vstd::prelude::*;

verus! {

/// A command for the controller.  Commands are processed serially by the
/// dispatcher; each one is handled to completion before the next.
#[derive(Debug, Clone)]
pub enum ChromeMessage {
    /// Activate a specific playlist
    ActivatePlaylist { playlist_id: String },
    /// Activate a specific tab immediately (a manual jump)
    ActivateTab { tab_id: String, playlist_id: String },
    /// Stop the current playlist
    StopPlaylist,
    /// Start automatic playlist rotation
    StartPlaylist,
    /// Update playlist interval
    UpdateInterval { playlist_id: String, interval_seconds: i64 },
    /// Reload current tab
    ReloadTab,
    /// Navigate to next tab in playlist
    NextTab,
    /// Navigate to previous tab in playlist
    PreviousTab,
    /// Update tab URL
    UpdateTabUrl { tab_id: String, url: String },
    /// Close tab
    CloseTab { tab_id: String },
    /// Refresh tab (reload page)
    RefreshTab { tab_id: String },
    /// Recreate tab (close and reopen)
    RecreateTab { tab_id: String },
    /// Check controller status
    GetStatus,
    /// Shut the controller down
    Shutdown,
}

/// The dispatcher's answer to a command.
#[derive(Debug, Clone)]
pub enum ChromeResponse {
    /// Operation completed successfully
    Success,
    /// Operation failed with error message
    Error { message: String },
    /// Controller status snapshot
    Status {
        current_playlist_id: Option<String>,
        current_tab_id: Option<String>,
        is_running: bool,
        auto_rotate: bool,
    },
}

/// The abstract value of a `ChromeResponse`: the same shape with the
/// strings as character sequences.
pub enum ResponseModel {
    Success,
    Error { message: Seq<char> },
    Status {
        current_playlist_id: Option<Seq<char>>,
        current_tab_id: Option<Seq<char>>,
        is_running: bool,
        auto_rotate: bool,
    },
}

impl View for ChromeResponse {
    type V = ResponseModel;

    open spec fn view(&self) -> ResponseModel {
        match self {
            ChromeResponse::Success => ResponseModel::Success,
            ChromeResponse::Error { message } => ResponseModel::Error { message: message@ },
            ChromeResponse::Status {
                current_playlist_id,
                current_tab_id,
                is_running,
                auto_rotate,
            } => ResponseModel::Status {
                current_playlist_id: opt_view(*current_playlist_id),
                current_tab_id: opt_view(*current_tab_id),
                is_running: *is_running,
                auto_rotate: *auto_rotate,
            },
        }
    }
}

/// The view of an optional string.
pub open spec fn opt_view(o: Option<String>) -> Option<Seq<char>> {
    match o {
        Some(s) => Some(s@),
        None => None,
    }
}

/// The dispatcher's own state: which playlist and tab are showing, and
/// whether rotation is running.  Mutated only inside the dispatcher.
#[derive(Debug, Clone)]
pub struct ChromeState {
    pub current_playlist_id: Option<String>,
    pub current_tab_id: Option<String>,
    pub is_running: bool,
    pub auto_rotate: bool,
    pub current_tab_index: usize,
    /// When the current tab was brought to front, in milliseconds since
    /// the epoch.  The clock is read by the runtime and handed in with
    /// each command.
    pub current_tab_opened_at: Option<u64>,
}

/// The abstract value of a `ChromeState`.
#[verifier::ext_equal]
pub struct StateModel {
    pub current_playlist_id: Option<Seq<char>>,
    pub current_tab_id: Option<Seq<char>>,
    pub is_running: bool,
    pub auto_rotate: bool,
    pub current_tab_index: int,
    pub current_tab_opened_at: Option<u64>,
}

impl View for ChromeState {
    type V = StateModel;

    open spec fn view(&self) -> StateModel {
        StateModel {
            current_playlist_id: opt_view(self.current_playlist_id),
            current_tab_id: opt_view(self.current_tab_id),
            is_running: self.is_running,
            auto_rotate: self.auto_rotate,
            current_tab_index: self.current_tab_index as int,
            current_tab_opened_at: self.current_tab_opened_at,
        }
    }
}

impl StateModel {
    /// The boot state: nothing selected, nothing running.
    pub open spec fn initial() -> StateModel {
        StateModel {
            current_playlist_id: None,
            current_tab_id: None,
            is_running: false,
            auto_rotate: false,
            current_tab_index: 0,
            current_tab_opened_at: None,
        }
    }
}

impl ChromeState {
    /// The state the controller boots with: nothing selected, nothing
    /// running.
    pub fn new() -> (s: ChromeState)
        ensures
            s.current_playlist_id is None,
            s.current_tab_id is None,
            !s.is_running,
            !s.auto_rotate,
            s.current_tab_index == 0,
            s.current_tab_opened_at is None,
            s@ == StateModel::initial(),
    {
        ChromeState {
            current_playlist_id: None,
            current_tab_id: None,
            is_running: false,
            auto_rotate: false,
            current_tab_index: 0,
            current_tab_opened_at: None,
        }
    }
}

impl Default for ChromeState {
    fn default() -> (s: ChromeState)
        ensures
            s.current_playlist_id is None,
            s.current_tab_id is None,
            !s.is_running,
            !s.auto_rotate,
            s.current_tab_index == 0,
            s.current_tab_opened_at is None,
            s@ == StateModel::initial(),
    {
        ChromeState::new()
    }
}

} // verus!
