//! The browser-tab orchestration controller.
//!
//! The controller is the single authority over playlist/tab state.  It
//! holds a model of the browser session — which pages are open, the
//! latest captured frame and viewport of each, and the live rotation
//! timer — and consumes one command at a time.  Each handler takes the
//! store rows its command needs as plain values, mutates the model, and
//! returns a response together with the browser/store effects to
//! perform.  The runtime around the library performs those effects; it
//! never mutates the model itself.
//!
//! Every handler's behaviour is pinned by a specification-level
//! transition function over [`ControllerModel`]; the testable laws of
//! the system are proved about those transitions at the bottom of this
//! file.

use vstd::prelude::*;
use crate::frames::{frame_map_model, CaptureSettings, FrameCache, FrameModel};
use crate::messages::{ChromeMessage, ChromeResponse, ChromeState, ResponseModel, StateModel};
use crate::records::{Playlist, Tab};
use crate::strmap::StrMap;

verus! {

/// The live rotation timer, keyed to a playlist and an interval.
#[derive(Debug, Clone)]
pub struct RotationTimer {
    pub playlist_id: String,
    pub interval_seconds: i64,
}

/// The abstract value of a `RotationTimer`.
pub struct TimerModel {
    pub playlist_id: Seq<char>,
    pub interval_seconds: i64,
}

impl View for RotationTimer {
    type V = TimerModel;

    open spec fn view(&self) -> TimerModel {
        TimerModel { playlist_id: self.playlist_id@, interval_seconds: self.interval_seconds }
    }
}

/// A browser or store effect that the runtime must perform on the
/// controller's behalf.  Effects carry plain values only.
#[derive(Debug, Clone)]
pub enum Action {
    /// Mark this playlist exclusively active in the store (deactivating
    /// all others).
    SetStoreActivePlaylist { playlist_id: String },
    /// Open a browser page for this tab at this URL; start screencast
    /// capture on it when `capture` is set.
    CreatePage { tab_id: String, url: String, capture: bool },
    /// Bring this tab's page to front.
    ActivatePage { tab_id: String },
    /// Point this tab's page at a new URL.
    NavigatePage { tab_id: String, url: String },
    /// Reload this tab's page in place.
    ReloadPage { tab_id: String },
    /// Close this tab's page.
    ClosePage { tab_id: String },
    /// Start the rotation timer for this playlist, cancelling any
    /// previous timer first.
    StartTimer { playlist_id: String, interval_seconds: i64 },
    /// Cancel the rotation timer, if one is live.
    CancelTimer,
    /// Push the current tab's name and URL to the notification bridge.
    PushTabState { name: String, url: String },
}

/// The abstract value of an `Action`.
pub enum ActionModel {
    SetStoreActivePlaylist { playlist_id: Seq<char> },
    CreatePage { tab_id: Seq<char>, url: Seq<char>, capture: bool },
    ActivatePage { tab_id: Seq<char> },
    NavigatePage { tab_id: Seq<char>, url: Seq<char> },
    ReloadPage { tab_id: Seq<char> },
    ClosePage { tab_id: Seq<char> },
    StartTimer { playlist_id: Seq<char>, interval_seconds: i64 },
    CancelTimer,
    PushTabState { name: Seq<char>, url: Seq<char> },
}

impl View for Action {
    type V = ActionModel;

    open spec fn view(&self) -> ActionModel {
        match self {
            Action::SetStoreActivePlaylist { playlist_id } => ActionModel::SetStoreActivePlaylist {
                playlist_id: playlist_id@,
            },
            Action::CreatePage { tab_id, url, capture } => ActionModel::CreatePage {
                tab_id: tab_id@,
                url: url@,
                capture: *capture,
            },
            Action::ActivatePage { tab_id } => ActionModel::ActivatePage { tab_id: tab_id@ },
            Action::NavigatePage { tab_id, url } => ActionModel::NavigatePage {
                tab_id: tab_id@,
                url: url@,
            },
            Action::ReloadPage { tab_id } => ActionModel::ReloadPage { tab_id: tab_id@ },
            Action::ClosePage { tab_id } => ActionModel::ClosePage { tab_id: tab_id@ },
            Action::StartTimer { playlist_id, interval_seconds } => ActionModel::StartTimer {
                playlist_id: playlist_id@,
                interval_seconds: *interval_seconds,
            },
            Action::CancelTimer => ActionModel::CancelTimer,
            Action::PushTabState { name, url } => ActionModel::PushTabState {
                name: name@,
                url: url@,
            },
        }
    }
}

/// The abstract values of a list of actions.
pub open spec fn action_views(s: Seq<Action>) -> Seq<ActionModel> {
    s.map_values(|a: Action| a@)
}

/// How a list of actions relates to its abstract value, element by
/// element.
pub proof fn lemma_action_views(s: Seq<Action>)
    ensures
        action_views(s).len() == s.len(),
        forall|i: int| 0 <= i < s.len() ==> #[trigger] action_views(s)[i] == s[i]@,
{
}

/// The abstract value of a page map: each stored URL replaced by its
/// character sequence.
pub open spec fn str_map_model(m: Map<Seq<char>, String>) -> Map<Seq<char>, Seq<char>> {
    Map::new(|k: Seq<char>| m.contains_key(k), |k: Seq<char>| m[k]@)
}

/// The abstract value of the whole controller.
#[verifier::ext_equal]
pub struct ControllerModel {
    pub state: StateModel,
    /// tab id → URL the page was last pointed at.
    pub pages: Map<Seq<char>, Seq<char>>,
    /// tab id → rendered document size.
    pub viewports: Map<Seq<char>, (i32, i32)>,
    /// tab id → latest accepted screencast frame.
    pub frames: Map<Seq<char>, FrameModel>,
    pub capture: CaptureSettings,
    /// The live rotation timer, if any.
    pub timer: Option<TimerModel>,
}

/// The controller invariant: at most one live timer, and a live timer
/// always targets the current playlist, with rotation on and a positive
/// interval.
pub open spec fn model_wf(c: ControllerModel) -> bool {
    c.timer matches Some(t) ==> c.state.auto_rotate && c.state.current_playlist_id == Some(
        t.playlist_id,
    ) && t.interval_seconds > 0
}

/// The message-driven controller: dispatcher state, page registry,
/// frame and viewport caches, and the rotation timer model.
pub struct ChromeController {
    pub state: ChromeState,
    pub frames: FrameCache,
    pub pages: StrMap<String>,
    pub viewports: StrMap<(i32, i32)>,
    pub timer: Option<RotationTimer>,
}

impl View for ChromeController {
    type V = ControllerModel;

    open spec fn view(&self) -> ControllerModel {
        ControllerModel {
            state: self.state@,
            pages: str_map_model(self.pages@),
            viewports: self.viewports@,
            frames: frame_map_model(self.frames@),
            capture: self.frames.spec_settings(),
            timer: match self.timer {
                Some(t) => Some(t@),
                None => None,
            },
        }
    }
}

impl ChromeController {
    /// Well-formed: the backing maps are well-formed, cached frames obey
    /// the size bound, and the timer invariant holds.
    pub open spec fn wf(&self) -> bool {
        &&& self.pages.wf()
        &&& self.viewports.wf()
        &&& self.frames.wf()
        &&& model_wf(self@)
    }

    /// A fresh controller: empty state, no pages, no cached frames, no
    /// timer.
    pub fn new(settings: CaptureSettings) -> (c: ChromeController)
        ensures
            c.wf(),
            c@.state == StateModel::initial(),
            c@.pages == Map::<Seq<char>, Seq<char>>::empty(),
            c@.viewports == Map::<Seq<char>, (i32, i32)>::empty(),
            c@.frames == Map::<Seq<char>, FrameModel>::empty(),
            c@.capture == settings,
            c@.timer is None,
    {
        let c = ChromeController {
            state: ChromeState::new(),
            frames: FrameCache::new(settings),
            pages: StrMap::new(),
            viewports: StrMap::new(),
            timer: None,
        };
        proof {
            assert(c@.pages =~= Map::<Seq<char>, Seq<char>>::empty());
            assert(c@.frames =~= Map::<Seq<char>, FrameModel>::empty());
        }
        c
    }
}

/// Replacing a stored URL commutes with taking the abstract value.
pub proof fn lemma_str_map_model_insert(m: Map<Seq<char>, String>, k: Seq<char>, v: String)
    ensures
        str_map_model(m.insert(k, v)) == str_map_model(m).insert(k, v@),
{
    assert(str_map_model(m.insert(k, v)) =~= str_map_model(m).insert(k, v@));
}

/// Dropping a stored URL commutes with taking the abstract value.
pub proof fn lemma_str_map_model_remove(m: Map<Seq<char>, String>, k: Seq<char>)
    ensures
        str_map_model(m.remove(k)) == str_map_model(m).remove(k),
{
    assert(str_map_model(m.remove(k)) =~= str_map_model(m).remove(k));
}

/// Dropping a cached frame commutes with taking the abstract value.
pub proof fn lemma_frame_map_model_remove(
    m: Map<Seq<char>, crate::frames::FrameSlot>,
    k: Seq<char>,
)
    ensures
        frame_map_model(m.remove(k)) == frame_map_model(m).remove(k),
{
    assert(frame_map_model(m.remove(k)) =~= frame_map_model(m).remove(k));
}

/// The error text for a playlist the store does not know.
pub open spec fn spec_playlist_not_found_message(id: Seq<char>) -> Seq<char> {
    "Playlist "@ + id + " not found"@
}

/// The error text for a tab the store does not know.
pub open spec fn spec_tab_not_found_message(id: Seq<char>) -> Seq<char> {
    "Tab "@ + id + " not found"@
}

fn playlist_not_found_message(id: &String) -> (r: String)
    ensures
        r@ == spec_playlist_not_found_message(id@),
{
    let r = "Playlist ".to_owned().concat(id.as_str()).concat(" not found");
    proof {
        assert(r@ =~= spec_playlist_not_found_message(id@));
    }
    r
}

fn tab_not_found_message(id: &String) -> (r: String)
    ensures
        r@ == spec_tab_not_found_message(id@),
{
    let r = "Tab ".to_owned().concat(id.as_str()).concat(" not found");
    proof {
        assert(r@ =~= spec_tab_not_found_message(id@));
    }
    r
}

fn clone_opt_string(o: &Option<String>) -> (r: Option<String>)
    ensures
        r == *o,
{
    match o {
        Some(s) => Some(s.clone()),
        None => None,
    }
}

/// Transition for `StopPlaylist`: rotation is switched off, the timer
/// is cancelled, and the controller stops running.  Nothing else moves.
pub open spec fn spec_stop_playlist(c: ControllerModel) -> (
    ControllerModel,
    ResponseModel,
    Seq<ActionModel>,
) {
    (
        ControllerModel {
            state: StateModel { auto_rotate: false, is_running: false, ..c.state },
            timer: None,
            ..c
        },
        ResponseModel::Success,
        seq![ActionModel::CancelTimer],
    )
}

/// Transition for `CloseTab`: the tab's page, cached frame and cached
/// viewport are all dropped; the page is closed if one was open.
pub open spec fn spec_close_tab(c: ControllerModel, tab_id: Seq<char>) -> (
    ControllerModel,
    ResponseModel,
    Seq<ActionModel>,
) {
    let acts = if c.pages.contains_key(tab_id) {
        seq![ActionModel::ClosePage { tab_id }]
    } else {
        Seq::<ActionModel>::empty()
    };
    (
        ControllerModel {
            pages: c.pages.remove(tab_id),
            viewports: c.viewports.remove(tab_id),
            frames: c.frames.remove(tab_id),
            ..c
        },
        ResponseModel::Success,
        acts,
    )
}

/// Transition for `RefreshTab`: reload the tab's page in place, if one
/// is open; the registry is untouched.
pub open spec fn spec_refresh_tab(c: ControllerModel, tab_id: Seq<char>) -> (
    ControllerModel,
    ResponseModel,
    Seq<ActionModel>,
) {
    let acts = if c.pages.contains_key(tab_id) {
        seq![ActionModel::ReloadPage { tab_id }]
    } else {
        Seq::<ActionModel>::empty()
    };
    (c, ResponseModel::Success, acts)
}

/// Transition for `ReloadTab`: reload the current tab's page, if a tab
/// is current and its page is open.
pub open spec fn spec_reload_current_tab(c: ControllerModel) -> (
    ControllerModel,
    ResponseModel,
    Seq<ActionModel>,
) {
    let acts = match c.state.current_tab_id {
        Some(id) => if c.pages.contains_key(id) {
            seq![ActionModel::ReloadPage { tab_id: id }]
        } else {
            Seq::<ActionModel>::empty()
        },
        None => Seq::<ActionModel>::empty(),
    };
    (c, ResponseModel::Success, acts)
}

/// Transition for `UpdateTabUrl`: the store row is updated by the
/// runtime before this runs; here the open page — if any — is pointed
/// at the new URL.
pub open spec fn spec_update_tab_url(c: ControllerModel, tab_id: Seq<char>, url: Seq<char>) -> (
    ControllerModel,
    ResponseModel,
    Seq<ActionModel>,
) {
    if c.pages.contains_key(tab_id) {
        (
            ControllerModel { pages: c.pages.insert(tab_id, url), ..c },
            ResponseModel::Success,
            seq![ActionModel::NavigatePage { tab_id, url }],
        )
    } else {
        (c, ResponseModel::Success, Seq::<ActionModel>::empty())
    }
}

/// Transition for `GetStatus`: a best-effort snapshot of the dispatcher
/// state, even mid-transition.  Nothing moves.
pub open spec fn spec_get_status(c: ControllerModel) -> (
    ControllerModel,
    ResponseModel,
    Seq<ActionModel>,
) {
    (
        c,
        ResponseModel::Status {
            current_playlist_id: c.state.current_playlist_id,
            current_tab_id: c.state.current_tab_id,
            is_running: c.state.is_running,
            auto_rotate: c.state.auto_rotate,
        },
        Seq::<ActionModel>::empty(),
    )
}

/// The store rows that one command needs, fetched by the runtime right
/// before dispatch and handed in as plain values.  Which variant a
/// command takes is fixed by [`data_matches`].
#[derive(Debug, Clone)]
pub enum StoreData {
    /// For commands that read nothing from the store.
    Nothing,
    /// For `ActivatePlaylist`: the playlist row, if present, and its
    /// ordered enabled tabs.
    PlaylistWithTabList { playlist: Option<Playlist>, tabs: Vec<Tab> },
    /// For `ActivateTab`: the tab row, if present, and the named
    /// playlist's row for the timer restart (absent also when the store
    /// read failed, which the restart treats as "do not restart").
    TabWithPlaylist { tab: Option<Tab>, playlist: Option<Playlist> },
    /// For `StartPlaylist`: the current playlist's row, if any.
    PlaylistOnly { playlist: Option<Playlist> },
    /// For `NextTab` and `PreviousTab`: the current playlist's ordered
    /// enabled tabs.
    TabList { tabs: Vec<Tab> },
    /// For `RecreateTab`: the tab row, if present.
    TabOnly { tab: Option<Tab> },
}

/// Which store data belongs to which command.
pub open spec fn data_matches(cmd: ChromeMessage, data: StoreData) -> bool {
    match cmd {
        ChromeMessage::ActivatePlaylist { .. } => data is PlaylistWithTabList,
        ChromeMessage::ActivateTab { .. } => data is TabWithPlaylist,
        ChromeMessage::StartPlaylist => data is PlaylistOnly,
        ChromeMessage::NextTab => data is TabList,
        ChromeMessage::PreviousTab => data is TabList,
        ChromeMessage::RecreateTab { .. } => data is TabOnly,
        _ => data is Nothing,
    }
}

/// How a store lookup made by the rotation timer ended.
#[derive(Debug, Clone)]
pub enum PlaylistLookup {
    /// The row was read.
    Found(Playlist),
    /// The store answered: no such playlist.
    Absent,
    /// The store call itself failed.
    Failed,
}

/// What the rotation timer does after one interval elapses.
#[derive(Debug, Clone, Copy, PartialEq, Eq, Structural)]
pub enum TickOutcome {
    /// Terminate without effect: the timer is stale or its playlist is
    /// gone.
    Stop,
    /// Enqueue a `NextTab` command and sleep again for this many
    /// seconds.
    Advance { interval_seconds: i64 },
}

/// (Re)start rotation for a playlist: the model's timer is replaced and
/// the runtime is told to start a fresh timer, cancelling any previous
/// one first.  Meaningful only when the playlist is current and the
/// interval positive, which every caller establishes.
pub open spec fn spec_start_rotation(
    c: ControllerModel,
    playlist_id: Seq<char>,
    interval_seconds: i64,
) -> (ControllerModel, Seq<ActionModel>) {
    (
        ControllerModel {
            state: StateModel { auto_rotate: true, ..c.state },
            timer: Some(TimerModel { playlist_id, interval_seconds }),
            ..c
        },
        seq![ActionModel::StartTimer { playlist_id, interval_seconds }],
    )
}

/// Transition for `StartPlaylist`: resume rotation of the current
/// playlist at its stored interval.  With no current playlist, no store
/// row, or a non-positive interval there is nothing to rotate and
/// nothing moves.
pub open spec fn spec_start_playlist(c: ControllerModel, playlist: Option<Playlist>) -> (
    ControllerModel,
    ResponseModel,
    Seq<ActionModel>,
) {
    match c.state.current_playlist_id {
        Some(pid) => match playlist {
            Some(p) => if p.interval_seconds > 0 {
                let (m, acts) = spec_start_rotation(c, pid, p.interval_seconds);
                (m, ResponseModel::Success, acts)
            } else {
                (c, ResponseModel::Success, Seq::<ActionModel>::empty())
            },
            None => (c, ResponseModel::Success, Seq::<ActionModel>::empty()),
        },
        None => (c, ResponseModel::Success, Seq::<ActionModel>::empty()),
    }
}

/// Transition for `UpdateInterval`: the store row is updated by the
/// runtime before this runs.  When the edited playlist is the current
/// one, rotation restarts at the new interval — or stops altogether if
/// the new interval is not positive.  Other playlists' edits change
/// nothing here.
pub open spec fn spec_update_interval(
    c: ControllerModel,
    playlist_id: Seq<char>,
    interval_seconds: i64,
) -> (ControllerModel, ResponseModel, Seq<ActionModel>) {
    if c.state.current_playlist_id == Some(playlist_id) {
        if interval_seconds > 0 {
            let (m, acts) = spec_start_rotation(c, playlist_id, interval_seconds);
            (m, ResponseModel::Success, acts)
        } else {
            (
                ControllerModel {
                    state: StateModel { auto_rotate: false, ..c.state },
                    timer: None,
                    ..c
                },
                ResponseModel::Success,
                seq![ActionModel::CancelTimer],
            )
        }
    } else {
        (c, ResponseModel::Success, Seq::<ActionModel>::empty())
    }
}

/// The decision a live timer takes when its interval elapses.  The
/// timer advances only while rotation is still on and still targets its
/// playlist; before advancing it re-reads the authoritative interval
/// from the store and adopts it, so interval edits converge without a
/// restart.  A failed store read keeps the interval the timer already
/// had; a vanished playlist stops the timer.
pub open spec fn spec_tick(
    c: ControllerModel,
    timer_playlist: Seq<char>,
    current_interval: i64,
    lookup: PlaylistLookup,
) -> TickOutcome {
    if c.state.auto_rotate && c.state.current_playlist_id == Some(timer_playlist) {
        match lookup {
            PlaylistLookup::Found(p) => TickOutcome::Advance {
                interval_seconds: p.interval_seconds,
            },
            PlaylistLookup::Absent => TickOutcome::Stop,
            PlaylistLookup::Failed => TickOutcome::Advance { interval_seconds: current_interval },
        }
    } else {
        TickOutcome::Stop
    }
}

/// Transition for `RecreateTab`: resolve the tab row, close the tab's
/// page and drop its cache entries, then open a fresh page at the
/// stored URL.  The new page is not brought to front.  An unknown tab
/// is an error and nothing moves.
pub open spec fn spec_recreate_tab(c: ControllerModel, tab_id: Seq<char>, tab: Option<Tab>) -> (
    ControllerModel,
    ResponseModel,
    Seq<ActionModel>,
) {
    match tab {
        None => (
            c,
            ResponseModel::Error { message: spec_tab_not_found_message(tab_id) },
            Seq::<ActionModel>::empty(),
        ),
        Some(t) => {
            let close_acts = if c.pages.contains_key(tab_id) {
                seq![ActionModel::ClosePage { tab_id }]
            } else {
                Seq::<ActionModel>::empty()
            };
            (
                ControllerModel {
                    pages: c.pages.insert(tab_id, t.url@),
                    viewports: c.viewports.remove(tab_id),
                    frames: c.frames.remove(tab_id),
                    ..c
                },
                ResponseModel::Success,
                close_acts + seq![
                    ActionModel::CreatePage { tab_id, url: t.url@, capture: c.capture.enabled },
                ],
            )
        },
    }
}

/// True when some tab of the list carries the id.
pub open spec fn spec_has_tab(tabs: Seq<Tab>, id: Seq<char>) -> bool {
    exists|i: int| 0 <= i < tabs.len() && tabs[i].id@ == id
}

/// The first position of the tab with this id in the list.
pub open spec fn spec_first_tab_index(tabs: Seq<Tab>, id: Seq<char>) -> int
    decreases tabs.len(),
{
    if tabs.len() == 0 {
        0
    } else if tabs[0].id@ == id {
        0
    } else {
        1 + spec_first_tab_index(tabs.drop_first(), id)
    }
}

/// The authoritative index of the current tab in the (possibly edited)
/// tab list: the current tab id's position when it is still in the
/// list, else the index the state already holds.
pub open spec fn spec_authoritative_index(s: StateModel, tabs: Seq<Tab>) -> int {
    match s.current_tab_id {
        Some(id) => if spec_has_tab(tabs, id) {
            spec_first_tab_index(tabs, id)
        } else {
            s.current_tab_index
        },
        None => s.current_tab_index,
    }
}

/// The index after `i` in a cycle of `n` tabs: `(i + 1) % n`.
pub open spec fn spec_next_index(i: int, n: int) -> int {
    if i % n == n - 1 {
        0
    } else {
        i % n + 1
    }
}

/// The index before `i` in a cycle of `n` tabs: `(i + n - 1) % n`.
pub open spec fn spec_prev_index(i: int, n: int) -> int {
    if i % n == 0 {
        n - 1
    } else {
        i % n - 1
    }
}

proof fn lemma_first_tab_index(tabs: Seq<Tab>, id: Seq<char>, i: int)
    requires
        0 <= i < tabs.len(),
        tabs[i].id@ == id,
        forall|j: int| 0 <= j < i ==> tabs[j].id@ != id,
    ensures
        spec_has_tab(tabs, id),
        spec_first_tab_index(tabs, id) == i,
    decreases i,
{
    assert(spec_has_tab(tabs, id));
    if i > 0 {
        let rest = tabs.drop_first();
        assert(rest[i - 1] == tabs[i]);
        assert forall|j: int| 0 <= j < i - 1 implies rest[j].id@ != id by {
            assert(rest[j] == tabs[j + 1]);
        }
        lemma_first_tab_index(rest, id, i - 1);
    }
}

/// Activate a tab whose row is already in hand: open its page if none
/// is open, bring it to front, make it current, and push its name and
/// URL to the notification bridge.  Shared by the next/previous
/// navigation transitions; the timer is left untouched (a scheduled
/// advance never restarts it).
pub open spec fn spec_activate_resolved(
    c: ControllerModel,
    pid: Seq<char>,
    t: Tab,
    new_index: int,
    now_ms: u64,
) -> (ControllerModel, Seq<ActionModel>) {
    let create = !c.pages.contains_key(t.id@);
    let pages2 = if create {
        c.pages.insert(t.id@, t.url@)
    } else {
        c.pages
    };
    let state2 = StateModel {
        current_tab_id: Some(t.id@),
        current_playlist_id: Some(pid),
        current_tab_opened_at: Some(now_ms),
        current_tab_index: new_index,
        ..c.state
    };
    let create_acts = if create {
        seq![ActionModel::CreatePage { tab_id: t.id@, url: t.url@, capture: c.capture.enabled }]
    } else {
        Seq::<ActionModel>::empty()
    };
    (
        ControllerModel { state: state2, pages: pages2, ..c },
        create_acts + seq![
            ActionModel::ActivatePage { tab_id: t.id@ },
            ActionModel::PushTabState { name: t.name@, url: t.url@ },
        ],
    )
}

/// The page map after pre-warming: walking the playlist's tabs in
/// order, a page is opened for every tab flagged `persist` that has
/// none yet.
pub open spec fn spec_pages_after_prewarm(
    m: Map<Seq<char>, Seq<char>>,
    tabs: Seq<Tab>,
) -> Map<Seq<char>, Seq<char>>
    decreases tabs.len(),
{
    if tabs.len() == 0 {
        m
    } else {
        let m2 = spec_pages_after_prewarm(m, tabs.drop_last());
        let t = tabs.last();
        if t.persist && !m2.contains_key(t.id@) {
            m2.insert(t.id@, t.url@)
        } else {
            m2
        }
    }
}

/// The page-creation effects of pre-warming, in tab order.
pub open spec fn spec_prewarm_actions(
    m: Map<Seq<char>, Seq<char>>,
    tabs: Seq<Tab>,
    capture: bool,
) -> Seq<ActionModel>
    decreases tabs.len(),
{
    if tabs.len() == 0 {
        Seq::<ActionModel>::empty()
    } else {
        let pre = spec_prewarm_actions(m, tabs.drop_last(), capture);
        let m2 = spec_pages_after_prewarm(m, tabs.drop_last());
        let t = tabs.last();
        if t.persist && !m2.contains_key(t.id@) {
            pre.push(ActionModel::CreatePage { tab_id: t.id@, url: t.url@, capture })
        } else {
            pre
        }
    }
}

/// Transition for `ActivatePlaylist`: resolve the playlist and its
/// ordered enabled tabs; an unknown playlist is an error and an empty
/// tab list a logged no-op, with nothing moved either way.  Otherwise:
/// the playlist is marked exclusively active in the store; pages are
/// pre-warmed for its `persist` tabs; rotation starts when the stored
/// interval is positive — unless a timer for this exact playlist is
/// already live with rotation on, which is kept as is — and stops when
/// it is not; and the first tab is activated.
pub open spec fn spec_activate_playlist(
    c: ControllerModel,
    playlist_id: Seq<char>,
    playlist: Option<Playlist>,
    tabs: Seq<Tab>,
    now_ms: u64,
) -> (ControllerModel, ResponseModel, Seq<ActionModel>) {
    match playlist {
        None => (
            c,
            ResponseModel::Error { message: spec_playlist_not_found_message(playlist_id) },
            Seq::<ActionModel>::empty(),
        ),
        Some(p) => if tabs.len() == 0 {
            (c, ResponseModel::Success, Seq::<ActionModel>::empty())
        } else {
            let pages_pre = spec_pages_after_prewarm(c.pages, tabs);
            let pre_acts = spec_prewarm_actions(c.pages, tabs, c.capture.enabled);
            let keep = c.timer matches Some(tm) && tm.playlist_id == playlist_id
                && c.state.auto_rotate;
            let (timer2, auto2, timer_acts) = if p.interval_seconds > 0 {
                if keep {
                    (c.timer, true, Seq::<ActionModel>::empty())
                } else {
                    (
                        Some(TimerModel { playlist_id, interval_seconds: p.interval_seconds }),
                        true,
                        seq![
                            ActionModel::StartTimer {
                                playlist_id,
                                interval_seconds: p.interval_seconds,
                            },
                        ],
                    )
                }
            } else {
                (
                    None,
                    false,
                    if c.timer is Some {
                        seq![ActionModel::CancelTimer]
                    } else {
                        Seq::<ActionModel>::empty()
                    },
                )
            };
            let first = tabs[0];
            let create_first = !pages_pre.contains_key(first.id@);
            let pages2 = if create_first {
                pages_pre.insert(first.id@, first.url@)
            } else {
                pages_pre
            };
            let first_acts = (if create_first {
                seq![
                    ActionModel::CreatePage {
                        tab_id: first.id@,
                        url: first.url@,
                        capture: c.capture.enabled,
                    },
                ]
            } else {
                Seq::<ActionModel>::empty()
            }) + seq![
                ActionModel::ActivatePage { tab_id: first.id@ },
                ActionModel::PushTabState { name: first.name@, url: first.url@ },
            ];
            let state2 = StateModel {
                current_playlist_id: Some(playlist_id),
                current_tab_id: Some(first.id@),
                current_tab_index: 0,
                is_running: true,
                auto_rotate: auto2,
                current_tab_opened_at: Some(now_ms),
            };
            (
                ControllerModel { state: state2, pages: pages2, timer: timer2, ..c },
                ResponseModel::Success,
                seq![ActionModel::SetStoreActivePlaylist { playlist_id }] + pre_acts + timer_acts
                    + first_acts,
            )
        },
    }
}

/// What becomes of the live timer when activation moves the controller
/// to `playlist_id` without restarting rotation: a timer already
/// targeting that playlist keeps running untouched, while a timer
/// targeting another playlist is now stale and is cancelled
/// deterministically (left alone it would terminate without effect at
/// its next tick anyway).
pub open spec fn spec_retarget_timer(c: ControllerModel, playlist_id: Seq<char>) -> (
    Option<TimerModel>,
    Seq<ActionModel>,
) {
    match c.timer {
        Some(tm) => if tm.playlist_id == playlist_id {
            (Some(tm), Seq::<ActionModel>::empty())
        } else {
            (None, seq![ActionModel::CancelTimer])
        },
        None => (None, Seq::<ActionModel>::empty()),
    }
}

/// Transition for `ActivateTab`: resolve the tab row, open its page if
/// none is open, bring it to front, make it and its playlist current,
/// and push its name and URL to the notification bridge.  The timer
/// policy is explicit: a manual jump restarts rotation at the
/// playlist's stored interval, so a user-triggered jump is not
/// immediately overridden by a stale timer; a scheduled advance never
/// restarts it.  An unknown tab is an error and nothing moves.
pub open spec fn spec_activate_tab(
    c: ControllerModel,
    tab_id: Seq<char>,
    playlist_id: Seq<char>,
    manual: bool,
    tab: Option<Tab>,
    playlist: Option<Playlist>,
    now_ms: u64,
) -> (ControllerModel, ResponseModel, Seq<ActionModel>) {
    match tab {
        None => (
            c,
            ResponseModel::Error { message: spec_tab_not_found_message(tab_id) },
            Seq::<ActionModel>::empty(),
        ),
        Some(t) => {
            let create = !c.pages.contains_key(tab_id);
            let pages2 = if create {
                c.pages.insert(tab_id, t.url@)
            } else {
                c.pages
            };
            let create_acts = if create {
                seq![
                    ActionModel::CreatePage { tab_id, url: t.url@, capture: c.capture.enabled },
                ]
            } else {
                Seq::<ActionModel>::empty()
            };
            let base_acts = create_acts + seq![
                ActionModel::ActivatePage { tab_id },
                ActionModel::PushTabState { name: t.name@, url: t.url@ },
            ];
            let restart_interval: Option<i64> = if manual {
                match playlist {
                    Some(p) => if p.interval_seconds > 0 {
                        Some(p.interval_seconds)
                    } else {
                        None
                    },
                    None => None,
                }
            } else {
                None
            };
            match restart_interval {
                Some(iv) => (
                    ControllerModel {
                        state: StateModel {
                            current_tab_id: Some(tab_id),
                            current_playlist_id: Some(playlist_id),
                            current_tab_opened_at: Some(now_ms),
                            auto_rotate: true,
                            ..c.state
                        },
                        pages: pages2,
                        timer: Some(TimerModel { playlist_id, interval_seconds: iv }),
                        ..c
                    },
                    ResponseModel::Success,
                    base_acts + seq![
                        ActionModel::StartTimer { playlist_id, interval_seconds: iv },
                    ],
                ),
                None => {
                    let (timer2, timer_acts) = spec_retarget_timer(c, playlist_id);
                    (
                        ControllerModel {
                            state: StateModel {
                                current_tab_id: Some(tab_id),
                                current_playlist_id: Some(playlist_id),
                                current_tab_opened_at: Some(now_ms),
                                ..c.state
                            },
                            pages: pages2,
                            timer: timer2,
                            ..c
                        },
                        ResponseModel::Success,
                        base_acts + timer_acts,
                    )
                },
            }
        },
    }
}

/// Transition for `NextTab`: reconcile the current tab against the
/// playlist's ordered enabled tab list, advance one position with
/// wrap-around, and activate that tab.  With no current playlist or an
/// empty list, nothing moves.
pub open spec fn spec_next_tab(c: ControllerModel, tabs: Seq<Tab>, now_ms: u64) -> (
    ControllerModel,
    ResponseModel,
    Seq<ActionModel>,
) {
    match c.state.current_playlist_id {
        Some(pid) => if tabs.len() == 0 {
            (c, ResponseModel::Success, Seq::<ActionModel>::empty())
        } else {
            let idx = spec_authoritative_index(c.state, tabs);
            let next = spec_next_index(idx, tabs.len() as int);
            let (m, acts) = spec_activate_resolved(c, pid, tabs[next], next, now_ms);
            (m, ResponseModel::Success, acts)
        },
        None => (c, ResponseModel::Success, Seq::<ActionModel>::empty()),
    }
}

/// Transition for `PreviousTab`: as `NextTab`, one position backwards.
pub open spec fn spec_previous_tab(c: ControllerModel, tabs: Seq<Tab>, now_ms: u64) -> (
    ControllerModel,
    ResponseModel,
    Seq<ActionModel>,
) {
    match c.state.current_playlist_id {
        Some(pid) => if tabs.len() == 0 {
            (c, ResponseModel::Success, Seq::<ActionModel>::empty())
        } else {
            let idx = spec_authoritative_index(c.state, tabs);
            let prev = spec_prev_index(idx, tabs.len() as int);
            let (m, acts) = spec_activate_resolved(c, pid, tabs[prev], prev, now_ms);
            (m, ResponseModel::Success, acts)
        },
        None => (c, ResponseModel::Success, Seq::<ActionModel>::empty()),
    }
}

impl ChromeController {
    /// The authoritative index of the current tab in `tabs`.
    fn find_authoritative_index(&self, tabs: &Vec<Tab>) -> (idx: usize)
        ensures
            idx as int == spec_authoritative_index(self.state@, tabs@),
    {
        match &self.state.current_tab_id {
            Some(id) => {
                let n = tabs.len();
                let mut i: usize = 0;
                while i < n
                    invariant
                        n == tabs@.len(),
                        i <= n,
                        self.state@.current_tab_id == Some(id@),
                        forall|j: int| 0 <= j < i ==> tabs@[j].id@ != id@,
                    decreases n - i,
                {
                    if tabs[i].id.eq(id) {
                        proof {
                            lemma_first_tab_index(tabs@, id@, i as int);
                        }
                        return i;
                    }
                    i = i + 1;
                }
                proof {
                    assert(!spec_has_tab(tabs@, id@));
                }
                self.state.current_tab_index
            },
            None => self.state.current_tab_index,
        }
    }

    /// Activate the tab at `new_index` of `tabs`, which must belong to
    /// the current playlist `pid`.
    fn activate_resolved(
        &mut self,
        pid: String,
        tabs: &Vec<Tab>,
        new_index: usize,
        now_ms: u64,
    ) -> (actions: Vec<Action>)
        requires
            old(self).wf(),
            new_index < tabs@.len(),
            old(self)@.state.current_playlist_id == Some(pid@),
        ensures
            final(self).wf(),
            ({
                let (m, acts) = spec_activate_resolved(
                    old(self)@,
                    pid@,
                    tabs@[new_index as int],
                    new_index as int,
                    now_ms,
                );
                &&& final(self)@ == m
                &&& action_views(actions@) == acts
            }),
    {
        let t = &tabs[new_index];
        let mut actions: Vec<Action> = Vec::new();
        if !self.pages.contains_key(&t.id) {
            self.pages.insert(t.id.clone(), t.url.clone());
            proof {
                lemma_str_map_model_insert(old(self).pages@, t.id@, t.url);
            }
            actions.push(
                Action::CreatePage {
                    tab_id: t.id.clone(),
                    url: t.url.clone(),
                    capture: self.frames.capture_enabled(),
                },
            );
        }
        actions.push(Action::ActivatePage { tab_id: t.id.clone() });
        self.state.current_tab_id = Some(t.id.clone());
        self.state.current_playlist_id = Some(pid);
        self.state.current_tab_opened_at = Some(now_ms);
        self.state.current_tab_index = new_index;
        actions.push(Action::PushTabState { name: t.name.clone(), url: t.url.clone() });
        proof {
            let (m, acts) = spec_activate_resolved(
                old(self)@,
                pid@,
                tabs@[new_index as int],
                new_index as int,
                now_ms,
            );
            assert(self@ =~= m);
            assert(action_views(actions@) =~= acts);
        }
        actions
    }

    /// Activate a playlist: mark it exclusively active in the store,
    /// pre-warm its `persist` tabs, start (or stop) rotation per its
    /// stored interval, and activate its first tab.
    pub fn activate_playlist(
        &mut self,
        playlist_id: String,
        playlist: Option<Playlist>,
        tabs: Vec<Tab>,
        now_ms: u64,
    ) -> (r: (ChromeResponse, Vec<Action>))
        requires
            old(self).wf(),
        ensures
            final(self).wf(),
            ({
                let (m, resp, acts) = spec_activate_playlist(
                    old(self)@,
                    playlist_id@,
                    playlist,
                    tabs@,
                    now_ms,
                );
                &&& final(self)@ == m
                &&& r.0@ == resp
                &&& action_views(r.1@) == acts
            }),
    {
        let ghost gpid = playlist_id@;
        let ghost m0 = old(self)@.pages;
        let p = match playlist {
            Some(p) => p,
            None => {
                let msg = playlist_not_found_message(&playlist_id);
                let actions: Vec<Action> = Vec::new();
                proof {
                    assert(action_views(actions@) =~= Seq::<ActionModel>::empty());
                }
                return (ChromeResponse::Error { message: msg }, actions);
            },
        };
        let n = tabs.len();
        if n == 0 {
            let actions: Vec<Action> = Vec::new();
            proof {
                assert(action_views(actions@) =~= Seq::<ActionModel>::empty());
            }
            return (ChromeResponse::Success, actions);
        }
        let mut actions: Vec<Action> = Vec::new();
        actions.push(Action::SetStoreActivePlaylist { playlist_id: playlist_id.clone() });
        let capture = self.frames.capture_enabled();
        let mut i: usize = 0;
        while i < n
            invariant
                i <= n,
                n == tabs@.len(),
                self.pages.wf(),
                self.state == old(self).state,
                self.timer == old(self).timer,
                self.viewports == old(self).viewports,
                self.frames == old(self).frames,
                capture == old(self)@.capture.enabled,
                str_map_model(self.pages@) == spec_pages_after_prewarm(
                    old(self)@.pages,
                    tabs@.take(i as int),
                ),
                action_views(actions@) == seq![
                    ActionModel::SetStoreActivePlaylist { playlist_id: gpid },
                ] + spec_prewarm_actions(old(self)@.pages, tabs@.take(i as int), capture),
            decreases n - i,
        {
            let ghost mi = str_map_model(self.pages@);
            let ghost acts_i = action_views(actions@);
            let t = &tabs[i];
            if t.persist && !self.pages.contains_key(&t.id) {
                let ghost prev = self.pages@;
                self.pages.insert(t.id.clone(), t.url.clone());
                proof {
                    lemma_str_map_model_insert(prev, t.id@, t.url);
                }
                actions.push(
                    Action::CreatePage { tab_id: t.id.clone(), url: t.url.clone(), capture },
                );
            }
            proof {
                assert(tabs@.take(i as int + 1).drop_last() =~= tabs@.take(i as int));
                assert(tabs@.take(i as int + 1).last() == tabs@[i as int]);
                if t.persist && !mi.contains_key(t.id@) {
                    assert(str_map_model(self.pages@) == mi.insert(t.id@, t.url@));
                    assert(action_views(actions@) =~= acts_i.push(
                        ActionModel::CreatePage { tab_id: t.id@, url: t.url@, capture },
                    ));
                }
            }
            i = i + 1;
        }
        proof {
            assert(tabs@.take(n as int) =~= tabs@);
        }
        let keep = self.state.auto_rotate && (match &self.timer {
            Some(tm) => tm.playlist_id.eq(&playlist_id),
            None => false,
        });
        if p.interval_seconds > 0 {
            if !keep {
                self.timer = Some(
                    RotationTimer {
                        playlist_id: playlist_id.clone(),
                        interval_seconds: p.interval_seconds,
                    },
                );
                actions.push(
                    Action::StartTimer {
                        playlist_id: playlist_id.clone(),
                        interval_seconds: p.interval_seconds,
                    },
                );
            }
            self.state.auto_rotate = true;
        } else {
            match &self.timer {
                Some(_) => {
                    actions.push(Action::CancelTimer);
                },
                None => {},
            }
            self.timer = None;
            self.state.auto_rotate = false;
        }
        let ghost m_pre = str_map_model(self.pages@);
        let first = &tabs[0];
        self.state.current_playlist_id = Some(playlist_id);
        self.state.current_tab_index = 0;
        self.state.is_running = true;
        if !self.pages.contains_key(&first.id) {
            let ghost prev = self.pages@;
            self.pages.insert(first.id.clone(), first.url.clone());
            proof {
                lemma_str_map_model_insert(prev, first.id@, first.url);
            }
            actions.push(
                Action::CreatePage { tab_id: first.id.clone(), url: first.url.clone(), capture },
            );
        }
        actions.push(Action::ActivatePage { tab_id: first.id.clone() });
        self.state.current_tab_id = Some(first.id.clone());
        self.state.current_tab_opened_at = Some(now_ms);
        actions.push(Action::PushTabState { name: first.name.clone(), url: first.url.clone() });
        proof {
            let (m, resp, acts) = spec_activate_playlist(old(self)@, gpid, playlist, tabs@, now_ms);
            assert(self@ =~= m);
            assert(action_views(actions@) =~= acts);
        }
        (ChromeResponse::Success, actions)
    }

    /// Activate one tab immediately.  `manual` marks a user-triggered
    /// jump, which restarts the rotation timer at the playlist's stored
    /// interval; scheduled advances pass `false` and leave the timer
    /// untouched.
    pub fn activate_tab(
        &mut self,
        tab_id: String,
        playlist_id: String,
        manual: bool,
        tab: Option<Tab>,
        playlist: Option<Playlist>,
        now_ms: u64,
    ) -> (r: (ChromeResponse, Vec<Action>))
        requires
            old(self).wf(),
        ensures
            final(self).wf(),
            ({
                let (m, resp, acts) = spec_activate_tab(
                    old(self)@,
                    tab_id@,
                    playlist_id@,
                    manual,
                    tab,
                    playlist,
                    now_ms,
                );
                &&& final(self)@ == m
                &&& r.0@ == resp
                &&& action_views(r.1@) == acts
            }),
    {
        let ghost gtab = tab_id@;
        let ghost gpl = playlist_id@;
        let t = match tab {
            Some(t) => t,
            None => {
                let msg = tab_not_found_message(&tab_id);
                let actions: Vec<Action> = Vec::new();
                proof {
                    assert(action_views(actions@) =~= Seq::<ActionModel>::empty());
                }
                return (ChromeResponse::Error { message: msg }, actions);
            },
        };
        let mut actions: Vec<Action> = Vec::new();
        if !self.pages.contains_key(&tab_id) {
            self.pages.insert(tab_id.clone(), t.url.clone());
            proof {
                lemma_str_map_model_insert(old(self).pages@, gtab, t.url);
            }
            actions.push(
                Action::CreatePage {
                    tab_id: tab_id.clone(),
                    url: t.url.clone(),
                    capture: self.frames.capture_enabled(),
                },
            );
        }
        actions.push(Action::ActivatePage { tab_id: tab_id.clone() });
        self.state.current_tab_id = Some(tab_id);
        self.state.current_playlist_id = Some(playlist_id.clone());
        self.state.current_tab_opened_at = Some(now_ms);
        actions.push(Action::PushTabState { name: t.name.clone(), url: t.url.clone() });
        let restart_interval: Option<i64> = if manual {
            match &playlist {
                Some(p) => if p.interval_seconds > 0 {
                    Some(p.interval_seconds)
                } else {
                    None
                },
                None => None,
            }
        } else {
            None
        };
        match restart_interval {
            Some(iv) => {
                self.state.auto_rotate = true;
                self.timer = Some(
                    RotationTimer { playlist_id: playlist_id.clone(), interval_seconds: iv },
                );
                actions.push(Action::StartTimer { playlist_id, interval_seconds: iv });
            },
            None => {
                let stale = match &self.timer {
                    Some(tm) => !tm.playlist_id.eq(&playlist_id),
                    None => false,
                };
                if stale {
                    self.timer = None;
                    actions.push(Action::CancelTimer);
                }
            },
        }
        proof {
            let (m, resp, acts) = spec_activate_tab(
                old(self)@,
                gtab,
                gpl,
                manual,
                tab,
                playlist,
                now_ms,
            );
            assert(self@ =~= m);
            assert(action_views(actions@) =~= acts);
        }
        (ChromeResponse::Success, actions)
    }

    /// Advance to the next tab of the current playlist.
    pub fn next_tab(&mut self, tabs: Vec<Tab>, now_ms: u64) -> (r: (ChromeResponse, Vec<Action>))
        requires
            old(self).wf(),
        ensures
            final(self).wf(),
            ({
                let (m, resp, acts) = spec_next_tab(old(self)@, tabs@, now_ms);
                &&& final(self)@ == m
                &&& r.0@ == resp
                &&& action_views(r.1@) == acts
            }),
    {
        match clone_opt_string(&self.state.current_playlist_id) {
            Some(pid) => {
                let n = tabs.len();
                if n == 0 {
                    let actions: Vec<Action> = Vec::new();
                    proof {
                        assert(action_views(actions@) =~= spec_next_tab(old(self)@, tabs@,
                        now_ms).2);
                    }
                    return (ChromeResponse::Success, actions);
                }
                let idx = self.find_authoritative_index(&tabs);
                let cur = idx % n;
                let next = if cur == n - 1 {
                    0
                } else {
                    cur + 1
                };
                let actions = self.activate_resolved(pid, &tabs, next, now_ms);
                (ChromeResponse::Success, actions)
            },
            None => {
                let actions: Vec<Action> = Vec::new();
                proof {
                    assert(action_views(actions@) =~= spec_next_tab(old(self)@, tabs@, now_ms).2);
                }
                (ChromeResponse::Success, actions)
            },
        }
    }

    /// Step back to the previous tab of the current playlist.
    pub fn previous_tab(&mut self, tabs: Vec<Tab>, now_ms: u64) -> (r: (
        ChromeResponse,
        Vec<Action>,
    ))
        requires
            old(self).wf(),
        ensures
            final(self).wf(),
            ({
                let (m, resp, acts) = spec_previous_tab(old(self)@, tabs@, now_ms);
                &&& final(self)@ == m
                &&& r.0@ == resp
                &&& action_views(r.1@) == acts
            }),
    {
        match clone_opt_string(&self.state.current_playlist_id) {
            Some(pid) => {
                let n = tabs.len();
                if n == 0 {
                    let actions: Vec<Action> = Vec::new();
                    proof {
                        assert(action_views(actions@) =~= spec_previous_tab(old(self)@, tabs@,
                        now_ms).2);
                    }
                    return (ChromeResponse::Success, actions);
                }
                let idx = self.find_authoritative_index(&tabs);
                let cur = idx % n;
                let prev = if cur == 0 {
                    n - 1
                } else {
                    cur - 1
                };
                let actions = self.activate_resolved(pid, &tabs, prev, now_ms);
                (ChromeResponse::Success, actions)
            },
            None => {
                let actions: Vec<Action> = Vec::new();
                proof {
                    assert(action_views(actions@) =~= spec_previous_tab(old(self)@, tabs@,
                    now_ms).2);
                }
                (ChromeResponse::Success, actions)
            },
        }
    }

    /// Resume rotation of the current playlist at its stored interval.
    pub fn start_playlist(&mut self, playlist: Option<Playlist>) -> (r: (
        ChromeResponse,
        Vec<Action>,
    ))
        requires
            old(self).wf(),
        ensures
            final(self).wf(),
            ({
                let (m, resp, acts) = spec_start_playlist(old(self)@, playlist);
                &&& final(self)@ == m
                &&& r.0@ == resp
                &&& action_views(r.1@) == acts
            }),
    {
        let mut actions: Vec<Action> = Vec::new();
        let pid = clone_opt_string(&self.state.current_playlist_id);
        match (pid, playlist) {
            (Some(pid), Some(p)) => {
                if p.interval_seconds > 0 {
                    self.state.auto_rotate = true;
                    self.timer = Some(
                        RotationTimer {
                            playlist_id: pid.clone(),
                            interval_seconds: p.interval_seconds,
                        },
                    );
                    actions.push(
                        Action::StartTimer {
                            playlist_id: pid,
                            interval_seconds: p.interval_seconds,
                        },
                    );
                }
            },
            _ => {},
        }
        proof {
            let (m, resp, acts) = spec_start_playlist(old(self)@, playlist);
            assert(self@ =~= m);
            assert(action_views(actions@) =~= acts);
        }
        (ChromeResponse::Success, actions)
    }

    /// React to an interval edit: restart (or stop) rotation when the
    /// edit concerns the current playlist.
    pub fn update_interval(&mut self, playlist_id: String, interval_seconds: i64) -> (r: (
        ChromeResponse,
        Vec<Action>,
    ))
        requires
            old(self).wf(),
        ensures
            final(self).wf(),
            ({
                let (m, resp, acts) = spec_update_interval(old(self)@, playlist_id@,
                interval_seconds);
                &&& final(self)@ == m
                &&& r.0@ == resp
                &&& action_views(r.1@) == acts
            }),
    {
        let ghost gpid = playlist_id@;
        let mut actions: Vec<Action> = Vec::new();
        let is_current = match &self.state.current_playlist_id {
            Some(cur) => cur.eq(&playlist_id),
            None => false,
        };
        if is_current {
            if interval_seconds > 0 {
                self.state.auto_rotate = true;
                self.timer = Some(
                    RotationTimer { playlist_id: playlist_id.clone(), interval_seconds },
                );
                actions.push(Action::StartTimer { playlist_id, interval_seconds });
            } else {
                self.state.auto_rotate = false;
                self.timer = None;
                actions.push(Action::CancelTimer);
            }
        }
        proof {
            let (m, resp, acts) = spec_update_interval(old(self)@, gpid, interval_seconds);
            assert(self@ =~= m);
            assert(action_views(actions@) =~= acts);
        }
        (ChromeResponse::Success, actions)
    }

    /// The decision taken when the rotation timer's interval elapses.
    /// Read-only: advancing happens by enqueuing a `NextTab` command,
    /// never by mutating state here.
    pub fn handle_tick(
        &self,
        timer_playlist: &String,
        current_interval: i64,
        lookup: &PlaylistLookup,
    ) -> (r: TickOutcome)
        ensures
            r == spec_tick(self@, timer_playlist@, current_interval, *lookup),
    {
        let live = self.state.auto_rotate && (match &self.state.current_playlist_id {
            Some(cur) => cur.eq(timer_playlist),
            None => false,
        });
        if !live {
            return TickOutcome::Stop;
        }
        match lookup {
            PlaylistLookup::Found(p) => TickOutcome::Advance {
                interval_seconds: p.interval_seconds,
            },
            PlaylistLookup::Absent => TickOutcome::Stop,
            PlaylistLookup::Failed => TickOutcome::Advance { interval_seconds: current_interval },
        }
    }

    /// Stop the current playlist: cancel the timer and switch rotation
    /// off.
    pub fn stop_playlist(&mut self) -> (r: (ChromeResponse, Vec<Action>))
        requires
            old(self).wf(),
        ensures
            final(self).wf(),
            ({
                let (m, resp, acts) = spec_stop_playlist(old(self)@);
                &&& final(self)@ == m
                &&& r.0@ == resp
                &&& action_views(r.1@) == acts
            }),
    {
        self.state.auto_rotate = false;
        self.state.is_running = false;
        self.timer = None;
        let mut actions: Vec<Action> = Vec::new();
        actions.push(Action::CancelTimer);
        proof {
            assert(self@ =~= spec_stop_playlist(old(self)@).0);
            assert(action_views(actions@) =~= spec_stop_playlist(old(self)@).2);
        }
        (ChromeResponse::Success, actions)
    }

    /// Close a tab: its page, cached frame and cached viewport go away
    /// together.
    pub fn close_tab(&mut self, tab_id: String) -> (r: (ChromeResponse, Vec<Action>))
        requires
            old(self).wf(),
        ensures
            final(self).wf(),
            ({
                let (m, resp, acts) = spec_close_tab(old(self)@, tab_id@);
                &&& final(self)@ == m
                &&& r.0@ == resp
                &&& action_views(r.1@) == acts
            }),
    {
        let mut actions: Vec<Action> = Vec::new();
        if self.pages.contains_key(&tab_id) {
            actions.push(Action::ClosePage { tab_id: tab_id.clone() });
        }
        self.pages.remove(&tab_id);
        self.viewports.remove(&tab_id);
        self.frames.remove(&tab_id);
        proof {
            lemma_str_map_model_remove(old(self).pages@, tab_id@);
            lemma_frame_map_model_remove(old(self).frames@, tab_id@);
            assert(self@ =~= spec_close_tab(old(self)@, tab_id@).0);
            assert(action_views(actions@) =~= spec_close_tab(old(self)@, tab_id@).2);
        }
        (ChromeResponse::Success, actions)
    }

    /// Reload a tab's page in place, without touching the registry.
    pub fn refresh_tab(&self, tab_id: String) -> (r: (ChromeResponse, Vec<Action>))
        requires
            self.wf(),
        ensures
            ({
                let (m, resp, acts) = spec_refresh_tab(self@, tab_id@);
                &&& r.0@ == resp
                &&& action_views(r.1@) == acts
            }),
    {
        let mut actions: Vec<Action> = Vec::new();
        if self.pages.contains_key(&tab_id) {
            actions.push(Action::ReloadPage { tab_id });
        }
        proof {
            assert(action_views(actions@) =~= spec_refresh_tab(self@, tab_id@).2);
        }
        (ChromeResponse::Success, actions)
    }

    /// Reload the current tab's page, if a tab is current.
    pub fn reload_current_tab(&self) -> (r: (ChromeResponse, Vec<Action>))
        requires
            self.wf(),
        ensures
            ({
                let (m, resp, acts) = spec_reload_current_tab(self@);
                &&& r.0@ == resp
                &&& action_views(r.1@) == acts
            }),
    {
        let mut actions: Vec<Action> = Vec::new();
        match &self.state.current_tab_id {
            Some(id) => {
                if self.pages.contains_key(id) {
                    actions.push(Action::ReloadPage { tab_id: id.clone() });
                }
            },
            None => {},
        }
        proof {
            assert(action_views(actions@) =~= spec_reload_current_tab(self@).2);
        }
        (ChromeResponse::Success, actions)
    }

    /// Point an open page at a new URL.  The store row was already
    /// updated by the runtime; a tab with no open page needs nothing
    /// here.
    pub fn update_tab_url(&mut self, tab_id: String, url: String) -> (r: (
        ChromeResponse,
        Vec<Action>,
    ))
        requires
            old(self).wf(),
        ensures
            final(self).wf(),
            ({
                let (m, resp, acts) = spec_update_tab_url(old(self)@, tab_id@, url@);
                &&& final(self)@ == m
                &&& r.0@ == resp
                &&& action_views(r.1@) == acts
            }),
    {
        let mut actions: Vec<Action> = Vec::new();
        if self.pages.contains_key(&tab_id) {
            self.pages.insert(tab_id.clone(), url.clone());
            proof {
                lemma_str_map_model_insert(old(self).pages@, tab_id@, url);
            }
            actions.push(Action::NavigatePage { tab_id, url });
        }
        proof {
            assert(self@ =~= spec_update_tab_url(old(self)@, tab_id@, url@).0);
            assert(action_views(actions@) =~= spec_update_tab_url(old(self)@, tab_id@, url@).2);
        }
        (ChromeResponse::Success, actions)
    }

    /// The dispatcher: process one command to completion.  The runtime
    /// fetches the store rows the command needs (per [`data_matches`]),
    /// performs any store write the command asks for (`UpdateInterval`,
    /// `UpdateTabUrl`), then dispatches here; the returned actions are
    /// the browser/store/bridge effects to perform, in order.  A store
    /// read that fails is reported by the runtime as `Response::Error`
    /// without dispatching.
    pub fn handle_message(&mut self, message: ChromeMessage, data: StoreData, now_ms: u64) -> (r: (
        ChromeResponse,
        Vec<Action>,
    ))
        requires
            old(self).wf(),
            data_matches(message, data),
        ensures
            final(self).wf(),
            (message, data) matches (
                ChromeMessage::ActivatePlaylist { playlist_id },
                StoreData::PlaylistWithTabList { playlist, tabs },
            ) ==> ({
                let (m, resp, acts) = spec_activate_playlist(
                    old(self)@,
                    playlist_id@,
                    playlist,
                    tabs@,
                    now_ms,
                );
                &&& final(self)@ == m
                &&& r.0@ == resp
                &&& action_views(r.1@) == acts
            }),
            (message, data) matches (
                ChromeMessage::ActivateTab { tab_id, playlist_id },
                StoreData::TabWithPlaylist { tab, playlist },
            ) ==> ({
                let (m, resp, acts) = spec_activate_tab(
                    old(self)@,
                    tab_id@,
                    playlist_id@,
                    true,
                    tab,
                    playlist,
                    now_ms,
                );
                &&& final(self)@ == m
                &&& r.0@ == resp
                &&& action_views(r.1@) == acts
            }),
            message is StopPlaylist ==> ({
                let (m, resp, acts) = spec_stop_playlist(old(self)@);
                &&& final(self)@ == m
                &&& r.0@ == resp
                &&& action_views(r.1@) == acts
            }),
            (message, data) matches (
                ChromeMessage::StartPlaylist,
                StoreData::PlaylistOnly { playlist },
            ) ==> ({
                let (m, resp, acts) = spec_start_playlist(old(self)@, playlist);
                &&& final(self)@ == m
                &&& r.0@ == resp
                &&& action_views(r.1@) == acts
            }),
            message matches ChromeMessage::UpdateInterval { playlist_id, interval_seconds } ==> ({
                let (m, resp, acts) = spec_update_interval(
                    old(self)@,
                    playlist_id@,
                    interval_seconds,
                );
                &&& final(self)@ == m
                &&& r.0@ == resp
                &&& action_views(r.1@) == acts
            }),
            message is ReloadTab ==> ({
                let (m, resp, acts) = spec_reload_current_tab(old(self)@);
                &&& final(self)@ == m
                &&& r.0@ == resp
                &&& action_views(r.1@) == acts
            }),
            (message, data) matches (ChromeMessage::NextTab, StoreData::TabList { tabs }) ==> ({
                let (m, resp, acts) = spec_next_tab(old(self)@, tabs@, now_ms);
                &&& final(self)@ == m
                &&& r.0@ == resp
                &&& action_views(r.1@) == acts
            }),
            (message, data) matches (
                ChromeMessage::PreviousTab,
                StoreData::TabList { tabs },
            ) ==> ({
                let (m, resp, acts) = spec_previous_tab(old(self)@, tabs@, now_ms);
                &&& final(self)@ == m
                &&& r.0@ == resp
                &&& action_views(r.1@) == acts
            }),
            message matches ChromeMessage::UpdateTabUrl { tab_id, url } ==> ({
                let (m, resp, acts) = spec_update_tab_url(old(self)@, tab_id@, url@);
                &&& final(self)@ == m
                &&& r.0@ == resp
                &&& action_views(r.1@) == acts
            }),
            message matches ChromeMessage::CloseTab { tab_id } ==> ({
                let (m, resp, acts) = spec_close_tab(old(self)@, tab_id@);
                &&& final(self)@ == m
                &&& r.0@ == resp
                &&& action_views(r.1@) == acts
            }),
            message matches ChromeMessage::RefreshTab { tab_id } ==> ({
                let (m, resp, acts) = spec_refresh_tab(old(self)@, tab_id@);
                &&& final(self)@ == m
                &&& r.0@ == resp
                &&& action_views(r.1@) == acts
            }),
            (message, data) matches (
                ChromeMessage::RecreateTab { tab_id },
                StoreData::TabOnly { tab },
            ) ==> ({
                let (m, resp, acts) = spec_recreate_tab(old(self)@, tab_id@, tab);
                &&& final(self)@ == m
                &&& r.0@ == resp
                &&& action_views(r.1@) == acts
            }),
            message is GetStatus ==> ({
                &&& final(self)@ == old(self)@
                &&& r.0@ == spec_get_status(old(self)@).1
                &&& action_views(r.1@) == Seq::<ActionModel>::empty()
            }),
            message is Shutdown ==> ({
                &&& final(self)@ == (ControllerModel {
                    state: StateModel {
                        auto_rotate: false,
                        is_running: false,
                        ..old(self)@.state
                    },
                    timer: None,
                    ..old(self)@
                })
                &&& r.0@ == ResponseModel::Success
                &&& r.1@.len() >= 1 && r.1@[0]@ == ActionModel::CancelTimer
                &&& forall|j: int| 1 <= j < r.1@.len() ==> ((#[trigger] r.1@[j]@) matches
                    ActionModel::ClosePage { tab_id } && old(self)@.pages.contains_key(tab_id))
                &&& forall|k: Seq<char>| old(self)@.pages.contains_key(k) ==> exists|j: int|
                    1 <= j < r.1@.len() && #[trigger] r.1@[j]@ == (ActionModel::ClosePage {
                        tab_id: k,
                    })
            }),
    {
        match (message, data) {
            (
                ChromeMessage::ActivatePlaylist { playlist_id },
                StoreData::PlaylistWithTabList { playlist, tabs },
            ) => self.activate_playlist(playlist_id, playlist, tabs, now_ms),
            (
                ChromeMessage::ActivateTab { tab_id, playlist_id },
                StoreData::TabWithPlaylist { tab, playlist },
            ) => self.activate_tab(tab_id, playlist_id, true, tab, playlist, now_ms),
            (ChromeMessage::StopPlaylist, StoreData::Nothing) => self.stop_playlist(),
            (ChromeMessage::StartPlaylist, StoreData::PlaylistOnly { playlist }) => self
                .start_playlist(playlist),
            (
                ChromeMessage::UpdateInterval { playlist_id, interval_seconds },
                StoreData::Nothing,
            ) => self.update_interval(playlist_id, interval_seconds),
            (ChromeMessage::ReloadTab, StoreData::Nothing) => self.reload_current_tab(),
            (ChromeMessage::NextTab, StoreData::TabList { tabs }) => self.next_tab(tabs, now_ms),
            (ChromeMessage::PreviousTab, StoreData::TabList { tabs }) => self.previous_tab(
                tabs,
                now_ms,
            ),
            (ChromeMessage::UpdateTabUrl { tab_id, url }, StoreData::Nothing) => self
                .update_tab_url(tab_id, url),
            (ChromeMessage::CloseTab { tab_id }, StoreData::Nothing) => self.close_tab(tab_id),
            (ChromeMessage::RefreshTab { tab_id }, StoreData::Nothing) => self.refresh_tab(tab_id),
            (ChromeMessage::RecreateTab { tab_id }, StoreData::TabOnly { tab }) => self
                .recreate_tab(tab_id, tab),
            (ChromeMessage::GetStatus, StoreData::Nothing) => (self.get_status(), Vec::new()),
            (ChromeMessage::Shutdown, StoreData::Nothing) => self.shutdown(),
            _ => {
                proof {
                    assert(false);
                }
                unreached()
            },
        }
    }

    /// Close and reopen a tab's page at its stored URL.
    pub fn recreate_tab(&mut self, tab_id: String, tab: Option<Tab>) -> (r: (
        ChromeResponse,
        Vec<Action>,
    ))
        requires
            old(self).wf(),
        ensures
            final(self).wf(),
            ({
                let (m, resp, acts) = spec_recreate_tab(old(self)@, tab_id@, tab);
                &&& final(self)@ == m
                &&& r.0@ == resp
                &&& action_views(r.1@) == acts
            }),
    {
        let ghost gtab = tab_id@;
        let t = match tab {
            Some(t) => t,
            None => {
                let msg = tab_not_found_message(&tab_id);
                let actions: Vec<Action> = Vec::new();
                proof {
                    assert(action_views(actions@) =~= Seq::<ActionModel>::empty());
                }
                return (ChromeResponse::Error { message: msg }, actions);
            },
        };
        let mut actions: Vec<Action> = Vec::new();
        if self.pages.contains_key(&tab_id) {
            actions.push(Action::ClosePage { tab_id: tab_id.clone() });
        }
        self.pages.remove(&tab_id);
        self.viewports.remove(&tab_id);
        self.frames.remove(&tab_id);
        let ghost prev = self.pages@;
        self.pages.insert(tab_id.clone(), t.url.clone());
        let capture = self.frames.capture_enabled();
        actions.push(Action::CreatePage { tab_id, url: t.url.clone(), capture });
        proof {
            lemma_str_map_model_remove(old(self).pages@, gtab);
            lemma_str_map_model_insert(prev, gtab, t.url);
            lemma_frame_map_model_remove(old(self).frames@, gtab);
            let (m, resp, acts) = spec_recreate_tab(old(self)@, gtab, tab);
            assert(self@.pages =~= m.pages);
            assert(self@ =~= m);
            assert(action_views(actions@) =~= acts);
        }
        (ChromeResponse::Success, actions)
    }

    /// Shut the controller down: stop rotation and close every open
    /// page.  The registry itself is left in place; the process is
    /// expected to exit after this.
    pub fn shutdown(&mut self) -> (r: (ChromeResponse, Vec<Action>))
        requires
            old(self).wf(),
        ensures
            final(self).wf(),
            final(self)@ == (ControllerModel {
                state: StateModel { auto_rotate: false, is_running: false, ..old(self)@.state },
                timer: None,
                ..old(self)@
            }),
            r.0@ == ResponseModel::Success,
            r.1@.len() >= 1 && r.1@[0]@ == ActionModel::CancelTimer,
            forall|j: int| 1 <= j < r.1@.len() ==> ((#[trigger] r.1@[j]@) matches
                ActionModel::ClosePage { tab_id } && old(self)@.pages.contains_key(tab_id)),
            forall|k: Seq<char>| old(self)@.pages.contains_key(k) ==> exists|j: int|
                1 <= j < r.1@.len() && #[trigger] r.1@[j]@ == (ActionModel::ClosePage { tab_id: k }),
    {
        self.state.auto_rotate = false;
        self.state.is_running = false;
        self.timer = None;
        let mut actions: Vec<Action> = Vec::new();
        actions.push(Action::CancelTimer);
        let keys = self.pages.keys();
        let n = keys.len();
        let mut i: usize = 0;
        while i < n
            invariant
                i <= n,
                n == keys@.len(),
                self.pages == old(self).pages,
                forall|j: int| 0 <= j < keys@.len() ==> old(self)@.pages.contains_key(
                    #[trigger] keys@[j]@,
                ),
                actions@.len() == 1 + i,
                actions@[0]@ == ActionModel::CancelTimer,
                forall|j: int| 1 <= j < actions@.len() ==> (#[trigger] actions@[j]@)
                    == (ActionModel::ClosePage { tab_id: keys@[j - 1]@ }),
            decreases n - i,
        {
            actions.push(Action::ClosePage { tab_id: keys[i].clone() });
            i = i + 1;
        }
        proof {
            assert(self@ =~= ControllerModel {
                state: StateModel { auto_rotate: false, is_running: false, ..old(self)@.state },
                timer: None,
                ..old(self)@
            });
            assert forall|k: Seq<char>| old(self)@.pages.contains_key(k) implies exists|j: int|
                1 <= j < actions@.len() && #[trigger] actions@[j]@ == (ActionModel::ClosePage {
                    tab_id: k,
                }) by {
                let w = choose|w: int| 0 <= w < keys@.len() && #[trigger] keys@[w]@ == k;
                assert(actions@[w + 1]@ == (ActionModel::ClosePage { tab_id: k }));
            }
        }
        (ChromeResponse::Success, actions)
    }

    /// A best-effort status snapshot.
    pub fn get_status(&self) -> (r: ChromeResponse)
        ensures
            r@ == spec_get_status(self@).1,
    {
        ChromeResponse::Status {
            current_playlist_id: clone_opt_string(&self.state.current_playlist_id),
            current_tab_id: clone_opt_string(&self.state.current_tab_id),
            is_running: self.state.is_running,
            auto_rotate: self.state.auto_rotate,
        }
    }

    /// Record the rendered document size read for a tab.  The runtime
    /// persists it to the store as well, best-effort.
    pub fn record_viewport(&mut self, tab_id: String, width: i32, height: i32)
        requires
            old(self).wf(),
        ensures
            final(self).wf(),
            final(self)@ == (ControllerModel {
                viewports: old(self)@.viewports.insert(tab_id@, (width, height)),
                ..old(self)@
            }),
    {
        self.viewports.insert(tab_id, (width, height));
        proof {
            assert(self@ =~= ControllerModel {
                viewports: old(self)@.viewports.insert(tab_id@, (width, height)),
                ..old(self)@
            });
        }
    }

    /// The cached viewport of a tab, if any.
    pub fn get_viewport_dimensions(&self, tab_id: &String) -> (r: Option<(i32, i32)>)
        requires
            self.wf(),
        ensures
            match r {
                Some(d) => self@.viewports.contains_key(tab_id@) && d == self@.viewports[tab_id@],
                None => !self@.viewports.contains_key(tab_id@),
            },
    {
        match self.viewports.get(tab_id) {
            Some(d) => Some(*d),
            None => None,
        }
    }
}

// ---------------------------------------------------------------------
// Laws: the behavioural guarantees of the controller, proved about the
// transition functions above.
// ---------------------------------------------------------------------

/// The controller after `k` consecutive scheduled advances over an
/// unchanged tab list.
pub open spec fn spec_next_tab_iter(
    c: ControllerModel,
    tabs: Seq<Tab>,
    now_ms: u64,
    k: nat,
) -> ControllerModel
    decreases k,
{
    if k == 0 {
        c
    } else {
        spec_next_tab(spec_next_tab_iter(c, tabs, now_ms, (k - 1) as nat), tabs, now_ms).0
    }
}

/// The tab ids of a playlist's tab list are pairwise distinct (the
/// store keys memberships by playlist and tab).
pub open spec fn spec_distinct_tab_ids(tabs: Seq<Tab>) -> bool {
    forall|p: int, q: int| 0 <= p < q < tabs.len() ==> tabs[p].id@ != tabs[q].id@
}

/// After a successful playlist activation, the playlist is current,
/// the tab index is reset to the start, and rotation is on exactly when
/// the stored interval is positive.
pub proof fn lemma_activate_playlist_resets(
    c: ControllerModel,
    playlist_id: Seq<char>,
    p: Playlist,
    tabs: Seq<Tab>,
    now_ms: u64,
)
    requires
        tabs.len() > 0,
    ensures
        ({
            let (m, resp, acts) = spec_activate_playlist(c, playlist_id, Some(p), tabs, now_ms);
            &&& m.state.current_playlist_id == Some(playlist_id)
            &&& m.state.current_tab_id == Some(tabs[0].id@)
            &&& m.state.current_tab_index == 0
            &&& m.state.is_running
            &&& m.state.auto_rotate == (p.interval_seconds > 0)
            &&& resp == ResponseModel::Success
        }),
{
}

/// A playlist the store does not know is rejected with a not-found
/// error and the controller is left exactly as it was.
pub proof fn lemma_activate_missing_playlist_unchanged(
    c: ControllerModel,
    playlist_id: Seq<char>,
    tabs: Seq<Tab>,
    now_ms: u64,
)
    ensures
        ({
            let (m, resp, acts) = spec_activate_playlist(c, playlist_id, None, tabs, now_ms);
            &&& m == c
            &&& resp == (ResponseModel::Error {
                message: spec_playlist_not_found_message(playlist_id),
            })
            &&& acts == Seq::<ActionModel>::empty()
        }),
{
}

/// One scheduled advance from the tab at position `i` moves to the tab
/// at the next position, with wrap-around, leaving the playlist as it
/// was.
proof fn lemma_next_tab_step(c: ControllerModel, tabs: Seq<Tab>, now_ms: u64, i: int)
    requires
        c.state.current_playlist_id is Some,
        0 <= i < tabs.len(),
        c.state.current_tab_id == Some(tabs[i].id@),
        spec_distinct_tab_ids(tabs),
    ensures
        ({
            let m = spec_next_tab(c, tabs, now_ms).0;
            let j = if i == tabs.len() - 1 {
                0
            } else {
                i + 1
            };
            &&& m.state.current_tab_id == Some(tabs[j].id@)
            &&& m.state.current_tab_index == j
            &&& m.state.current_playlist_id == c.state.current_playlist_id
        }),
{
    let n = tabs.len() as int;
    assert forall|q: int| 0 <= q < i implies tabs[q].id@ != tabs[i].id@ by {}
    lemma_first_tab_index(tabs, tabs[i].id@, i);
    vstd::arithmetic::div_mod::lemma_small_mod(i as nat, tabs.len());
    assert(spec_authoritative_index(c.state, tabs) == i);
    assert(spec_next_index(i, n) == (if i == n - 1 {
        0int
    } else {
        i + 1
    }));
}

proof fn lemma_rotation_cycles_aux(c: ControllerModel, tabs: Seq<Tab>, now_ms: u64, k: nat)
    requires
        c.state.current_playlist_id is Some,
        tabs.len() > 0,
        c.state.current_tab_id == Some(tabs[0].id@),
        spec_distinct_tab_ids(tabs),
        k <= tabs.len(),
    ensures
        ({
            let m = spec_next_tab_iter(c, tabs, now_ms, k);
            let j = if k == tabs.len() {
                0int
            } else {
                k as int
            };
            &&& m.state.current_tab_id == Some(tabs[j].id@)
            &&& (k > 0 ==> m.state.current_tab_index == j)
            &&& m.state.current_playlist_id == c.state.current_playlist_id
        }),
    decreases k,
{
    if k > 0 {
        lemma_rotation_cycles_aux(c, tabs, now_ms, (k - 1) as nat);
        let m1 = spec_next_tab_iter(c, tabs, now_ms, (k - 1) as nat);
        lemma_next_tab_step(m1, tabs, now_ms, k - 1);
    }
}

/// For `n` enabled tabs, `n` consecutive scheduled advances starting
/// from the first tab at index 0 return to the first tab at index 0.
pub proof fn lemma_rotation_cycles(c: ControllerModel, tabs: Seq<Tab>, now_ms: u64)
    requires
        c.state.current_playlist_id is Some,
        tabs.len() > 0,
        c.state.current_tab_id == Some(tabs[0].id@),
        spec_distinct_tab_ids(tabs),
    ensures
        ({
            let m = spec_next_tab_iter(c, tabs, now_ms, tabs.len());
            &&& m.state.current_tab_id == Some(tabs[0].id@)
            &&& m.state.current_tab_index == 0
        }),
{
    lemma_rotation_cycles_aux(c, tabs, now_ms, tabs.len());
}

/// A `PreviousTab` right after a `NextTab`, with the tab list
/// unchanged, restores the prior tab and its index.
pub proof fn lemma_previous_undoes_next(c: ControllerModel, tabs: Seq<Tab>, now_ms: u64, i: int)
    requires
        c.state.current_playlist_id is Some,
        0 <= i < tabs.len(),
        c.state.current_tab_id == Some(tabs[i].id@),
        spec_distinct_tab_ids(tabs),
    ensures
        ({
            let m1 = spec_next_tab(c, tabs, now_ms).0;
            let m2 = spec_previous_tab(m1, tabs, now_ms).0;
            &&& m2.state.current_tab_id == Some(tabs[i].id@)
            &&& m2.state.current_tab_index == i
        }),
{
    let n = tabs.len() as int;
    lemma_next_tab_step(c, tabs, now_ms, i);
    let m1 = spec_next_tab(c, tabs, now_ms).0;
    let j = if i == n - 1 {
        0int
    } else {
        i + 1
    };
    assert forall|q: int| 0 <= q < j implies tabs[q].id@ != tabs[j].id@ by {}
    lemma_first_tab_index(tabs, tabs[j].id@, j);
    vstd::arithmetic::div_mod::lemma_small_mod(j as nat, tabs.len());
    assert(spec_authoritative_index(m1.state, tabs) == j);
    assert(spec_prev_index(j, n) == i);
}

/// An interval edit is adopted at the very next tick without a manual
/// restart: while rotation still targets the timer's playlist, the
/// tick re-reads the store row and advances with the interval that row
/// now holds.
pub proof fn lemma_tick_adopts_interval(
    c: ControllerModel,
    target: Seq<char>,
    current_interval: i64,
    p: Playlist,
)
    requires
        c.state.auto_rotate,
        c.state.current_playlist_id == Some(target),
    ensures
        spec_tick(c, target, current_interval, PlaylistLookup::Found(p)) == (TickOutcome::Advance {
            interval_seconds: p.interval_seconds,
        }),
{
}

/// After `StopPlaylist`, rotation is over: every tick decision on the
/// stopped controller is `Stop`, whatever the timer's target and
/// whatever the store answers.  A tick decision mutates nothing, so any
/// number of elapsed ticks emits no advance.
pub proof fn lemma_stop_halts_rotation(c: ControllerModel)
    ensures
        forall|target: Seq<char>, iv: i64, lookup: PlaylistLookup|
            #[trigger] spec_tick(spec_stop_playlist(c).0, target, iv, lookup)
                == TickOutcome::Stop,
{
}

/// `CloseTab` clears the tab's page, frame and viewport entries
/// together, and a subsequent `ActivateTab` of the same tab opens a
/// fresh page: its first effect is `CreatePage`.
pub proof fn lemma_close_then_activate_creates(
    c: ControllerModel,
    tab_id: Seq<char>,
    playlist_id: Seq<char>,
    manual: bool,
    t: Tab,
    playlist: Option<Playlist>,
    now_ms: u64,
)
    ensures
        ({
            let c1 = spec_close_tab(c, tab_id).0;
            &&& !c1.pages.contains_key(tab_id)
            &&& !c1.frames.contains_key(tab_id)
            &&& !c1.viewports.contains_key(tab_id)
            &&& ({
                let (m2, resp2, acts2) = spec_activate_tab(
                    c1,
                    tab_id,
                    playlist_id,
                    manual,
                    Some(t),
                    playlist,
                    now_ms,
                );
                &&& acts2.len() > 0
                &&& acts2[0] == (ActionModel::CreatePage {
                    tab_id,
                    url: t.url@,
                    capture: c1.capture.enabled,
                })
                &&& m2.pages.contains_key(tab_id)
                &&& resp2 == ResponseModel::Success
            })
        }),
{
}

} // verus!
