use mission_control::controller::{
    Action, ChromeController, PlaylistLookup, StoreData, TickOutcome,
};
use mission_control::frames::CaptureSettings;
use mission_control::messages::{ChromeMessage, ChromeResponse};
use mission_control::records::{Playlist, Tab};

fn settings() -> CaptureSettings {
    CaptureSettings { enabled: true, min_frame_spacing_ms: 100, max_frame_bytes: 1 << 20 }
}

fn mk_tab(id: &str, url: &str, persist: bool) -> Tab {
    Tab {
        id: id.to_string(),
        name: format!("{} name", id),
        url: url.to_string(),
        persist,
        viewport_width: None,
        viewport_height: None,
        created_at: 1,
        updated_at: 1,
    }
}

fn mk_playlist(id: &str, interval_seconds: i64) -> Playlist {
    Playlist {
        id: id.to_string(),
        name: format!("{} name", id),
        interval_seconds,
        is_active: false,
        created_at: 1,
        updated_at: 1,
    }
}

fn abc() -> Vec<Tab> {
    vec![
        mk_tab("a", "https://example.com/a", true),
        mk_tab("b", "https://example.com/b", false),
        mk_tab("c", "https://example.com/c", true),
    ]
}

fn activate_abc(c: &mut ChromeController, interval: i64) -> (ChromeResponse, Vec<Action>) {
    c.handle_message(
        ChromeMessage::ActivatePlaylist { playlist_id: "p".to_string() },
        StoreData::PlaylistWithTabList {
            playlist: Some(mk_playlist("p", interval)),
            tabs: abc(),
        },
        1_000,
    )
}

fn status_of(c: &ChromeController) -> (Option<String>, Option<String>, bool, bool) {
    match c.get_status() {
        ChromeResponse::Status { current_playlist_id, current_tab_id, is_running, auto_rotate } => {
            (current_playlist_id, current_tab_id, is_running, auto_rotate)
        }
        other => panic!("expected a status response, got {:?}", other),
    }
}

fn dispatch_next(c: &mut ChromeController, now: u64) -> (ChromeResponse, Vec<Action>) {
    c.handle_message(ChromeMessage::NextTab, StoreData::TabList { tabs: abc() }, now)
}

#[test]
fn activate_playlist_resets_state() {
    let mut c = ChromeController::new(settings());
    let (resp, actions) = activate_abc(&mut c, 30);
    assert!(matches!(resp, ChromeResponse::Success));
    let (pl, tab, running, rotate) = status_of(&c);
    assert_eq!(pl.as_deref(), Some("p"));
    assert_eq!(tab.as_deref(), Some("a"));
    assert!(running);
    assert!(rotate);
    assert!(matches!(
        &actions[0],
        Action::SetStoreActivePlaylist { playlist_id } if playlist_id == "p"
    ));
    // pre-warm creates pages for the persist-flagged tabs "a" and "c"
    let created: Vec<&str> = actions
        .iter()
        .filter_map(|a| match a {
            Action::CreatePage { tab_id, .. } => Some(tab_id.as_str()),
            _ => None,
        })
        .collect();
    assert_eq!(created, vec!["a", "c"]);
    assert!(actions.iter().any(|a| matches!(
        a,
        Action::StartTimer { playlist_id, interval_seconds: 30 } if playlist_id == "p"
    )));
    assert!(actions.iter().any(|a| matches!(
        a,
        Action::ActivatePage { tab_id } if tab_id == "a"
    )));
}

#[test]
fn activate_playlist_zero_interval_stops_rotation() {
    let mut c = ChromeController::new(settings());
    let (resp, actions) = activate_abc(&mut c, 0);
    assert!(matches!(resp, ChromeResponse::Success));
    let (_, _, running, rotate) = status_of(&c);
    assert!(running);
    assert!(!rotate);
    assert!(!actions.iter().any(|a| matches!(a, Action::StartTimer { .. })));
}

#[test]
fn activate_missing_playlist_is_error_and_unchanged() {
    let mut c = ChromeController::new(settings());
    let (resp, actions) = c.handle_message(
        ChromeMessage::ActivatePlaylist { playlist_id: "missing".to_string() },
        StoreData::PlaylistWithTabList { playlist: None, tabs: Vec::new() },
        1_000,
    );
    match resp {
        ChromeResponse::Error { message } => {
            assert_eq!(message, "Playlist missing not found");
            assert!(message.contains("not found"));
        }
        other => panic!("expected an error, got {:?}", other),
    }
    assert!(actions.is_empty());
    let (pl, tab, running, rotate) = status_of(&c);
    assert_eq!(pl, None);
    assert_eq!(tab, None);
    assert!(!running);
    assert!(!rotate);
}

#[test]
fn activate_empty_playlist_is_noop() {
    let mut c = ChromeController::new(settings());
    let (resp, actions) = c.handle_message(
        ChromeMessage::ActivatePlaylist { playlist_id: "p".to_string() },
        StoreData::PlaylistWithTabList { playlist: Some(mk_playlist("p", 30)), tabs: Vec::new() },
        1_000,
    );
    assert!(matches!(resp, ChromeResponse::Success));
    assert!(actions.is_empty());
    let (pl, _, _, _) = status_of(&c);
    assert_eq!(pl, None);
}

#[test]
fn three_next_tab_calls_cycle_back() {
    let mut c = ChromeController::new(settings());
    activate_abc(&mut c, 30);
    let expected = ["b", "c", "a"];
    for (k, want) in expected.iter().enumerate() {
        dispatch_next(&mut c, 2_000 + k as u64);
        let (_, tab, _, _) = status_of(&c);
        assert_eq!(tab.as_deref(), Some(*want));
    }
}

#[test]
fn previous_after_next_restores_prior_tab() {
    let mut c = ChromeController::new(settings());
    activate_abc(&mut c, 30);
    dispatch_next(&mut c, 2_000);
    let (_, tab, _, _) = status_of(&c);
    assert_eq!(tab.as_deref(), Some("b"));
    c.handle_message(ChromeMessage::PreviousTab, StoreData::TabList { tabs: abc() }, 3_000);
    let (_, tab, _, _) = status_of(&c);
    assert_eq!(tab.as_deref(), Some("a"));
}

#[test]
fn previous_tab_wraps_from_start() {
    let mut c = ChromeController::new(settings());
    activate_abc(&mut c, 30);
    c.handle_message(ChromeMessage::PreviousTab, StoreData::TabList { tabs: abc() }, 2_000);
    let (_, tab, _, _) = status_of(&c);
    assert_eq!(tab.as_deref(), Some("c"));
}

#[test]
fn rotation_scenario_with_manual_jump() {
    let mut c = ChromeController::new(settings());
    let (resp, _) = activate_abc(&mut c, 30);
    assert!(matches!(resp, ChromeResponse::Success));
    let (_, tab, _, _) = status_of(&c);
    assert_eq!(tab.as_deref(), Some("a"));

    // a simulated 30 s elapse: the timer decides to advance ...
    let outcome = c.handle_tick(
        &"p".to_string(),
        30,
        &PlaylistLookup::Found(mk_playlist("p", 30)),
    );
    assert_eq!(outcome, TickOutcome::Advance { interval_seconds: 30 });
    // ... by enqueuing NextTab, which the dispatcher then processes
    dispatch_next(&mut c, 31_000);
    let (_, tab, _, _) = status_of(&c);
    assert_eq!(tab.as_deref(), Some("b"));

    // a manual jump back to "a" restarts the timer window
    let (resp, actions) = c.handle_message(
        ChromeMessage::ActivateTab { tab_id: "a".to_string(), playlist_id: "p".to_string() },
        StoreData::TabWithPlaylist {
            tab: Some(mk_tab("a", "https://example.com/a", true)),
            playlist: Some(mk_playlist("p", 30)),
        },
        40_000,
    );
    assert!(matches!(resp, ChromeResponse::Success));
    let (_, tab, _, _) = status_of(&c);
    assert_eq!(tab.as_deref(), Some("a"));
    assert!(actions.iter().any(|a| matches!(
        a,
        Action::StartTimer { playlist_id, interval_seconds: 30 } if playlist_id == "p"
    )));
}

#[test]
fn stop_playlist_halts_all_ticks() {
    let mut c = ChromeController::new(settings());
    activate_abc(&mut c, 30);
    let (resp, actions) = c.handle_message(ChromeMessage::StopPlaylist, StoreData::Nothing, 2_000);
    assert!(matches!(resp, ChromeResponse::Success));
    assert!(matches!(actions[0], Action::CancelTimer));
    let (_, _, running, rotate) = status_of(&c);
    assert!(!running);
    assert!(!rotate);
    // however many intervals elapse, the timer never advances again
    for _ in 0..5 {
        let outcome = c.handle_tick(
            &"p".to_string(),
            30,
            &PlaylistLookup::Found(mk_playlist("p", 30)),
        );
        assert_eq!(outcome, TickOutcome::Stop);
    }
}

#[test]
fn interval_edit_changes_next_wait_without_restart() {
    let mut c = ChromeController::new(settings());
    activate_abc(&mut c, 30);
    // the store row now says 10 s; the very next tick adopts it
    let outcome = c.handle_tick(
        &"p".to_string(),
        30,
        &PlaylistLookup::Found(mk_playlist("p", 10)),
    );
    assert_eq!(outcome, TickOutcome::Advance { interval_seconds: 10 });
}

#[test]
fn update_interval_command_restarts_current_playlist_timer() {
    let mut c = ChromeController::new(settings());
    activate_abc(&mut c, 30);
    let (resp, actions) = c.handle_message(
        ChromeMessage::UpdateInterval { playlist_id: "p".to_string(), interval_seconds: 10 },
        StoreData::Nothing,
        2_000,
    );
    assert!(matches!(resp, ChromeResponse::Success));
    assert!(matches!(
        &actions[0],
        Action::StartTimer { playlist_id, interval_seconds: 10 } if playlist_id == "p"
    ));
}

#[test]
fn update_interval_for_other_playlist_is_noop() {
    let mut c = ChromeController::new(settings());
    activate_abc(&mut c, 30);
    let (resp, actions) = c.handle_message(
        ChromeMessage::UpdateInterval { playlist_id: "q".to_string(), interval_seconds: 10 },
        StoreData::Nothing,
        2_000,
    );
    assert!(matches!(resp, ChromeResponse::Success));
    assert!(actions.is_empty());
}

#[test]
fn tick_stops_when_playlist_vanished() {
    let mut c = ChromeController::new(settings());
    activate_abc(&mut c, 30);
    let outcome = c.handle_tick(&"p".to_string(), 30, &PlaylistLookup::Absent);
    assert_eq!(outcome, TickOutcome::Stop);
}

#[test]
fn tick_keeps_interval_when_store_read_fails() {
    let mut c = ChromeController::new(settings());
    activate_abc(&mut c, 30);
    let outcome = c.handle_tick(&"p".to_string(), 30, &PlaylistLookup::Failed);
    assert_eq!(outcome, TickOutcome::Advance { interval_seconds: 30 });
}

#[test]
fn tick_stops_for_stale_playlist() {
    let mut c = ChromeController::new(settings());
    activate_abc(&mut c, 30);
    let outcome = c.handle_tick(
        &"old".to_string(),
        30,
        &PlaylistLookup::Found(mk_playlist("old", 30)),
    );
    assert_eq!(outcome, TickOutcome::Stop);
}

#[test]
fn close_tab_clears_entries_and_activate_creates_fresh_page() {
    let mut c = ChromeController::new(settings());
    activate_abc(&mut c, 30);
    c.frames.offer_frame(&"a".to_string(), b"ZnJhbWU=".to_vec(), 5_000);
    c.record_viewport("a".to_string(), 1920, 1080);
    assert!(c.frames.get_screenshot(&"a".to_string()).is_some());
    assert_eq!(c.get_viewport_dimensions(&"a".to_string()), Some((1920, 1080)));

    let (resp, actions) = c.handle_message(
        ChromeMessage::CloseTab { tab_id: "a".to_string() },
        StoreData::Nothing,
        6_000,
    );
    assert!(matches!(resp, ChromeResponse::Success));
    assert!(matches!(&actions[0], Action::ClosePage { tab_id } if tab_id == "a"));
    assert!(c.frames.get_screenshot(&"a".to_string()).is_none());
    assert_eq!(c.get_viewport_dimensions(&"a".to_string()), None);

    let (_, actions) = c.handle_message(
        ChromeMessage::ActivateTab { tab_id: "a".to_string(), playlist_id: "p".to_string() },
        StoreData::TabWithPlaylist {
            tab: Some(mk_tab("a", "https://example.com/a", true)),
            playlist: None,
        },
        7_000,
    );
    assert!(matches!(&actions[0], Action::CreatePage { tab_id, .. } if tab_id == "a"));
}

#[test]
fn activate_unknown_tab_is_error() {
    let mut c = ChromeController::new(settings());
    let (resp, actions) = c.handle_message(
        ChromeMessage::ActivateTab { tab_id: "ghost".to_string(), playlist_id: "p".to_string() },
        StoreData::TabWithPlaylist { tab: None, playlist: None },
        1_000,
    );
    match resp {
        ChromeResponse::Error { message } => assert_eq!(message, "Tab ghost not found"),
        other => panic!("expected an error, got {:?}", other),
    }
    assert!(actions.is_empty());
}

#[test]
fn recreate_unknown_tab_is_error() {
    let mut c = ChromeController::new(settings());
    let (resp, _) = c.handle_message(
        ChromeMessage::RecreateTab { tab_id: "ghost".to_string() },
        StoreData::TabOnly { tab: None },
        1_000,
    );
    assert!(matches!(resp, ChromeResponse::Error { .. }));
}

#[test]
fn recreate_tab_closes_then_creates() {
    let mut c = ChromeController::new(settings());
    activate_abc(&mut c, 30);
    c.frames.offer_frame(&"a".to_string(), b"ZnJhbWU=".to_vec(), 5_000);
    let (resp, actions) = c.handle_message(
        ChromeMessage::RecreateTab { tab_id: "a".to_string() },
        StoreData::TabOnly { tab: Some(mk_tab("a", "https://example.com/a", true)) },
        6_000,
    );
    assert!(matches!(resp, ChromeResponse::Success));
    assert!(matches!(&actions[0], Action::ClosePage { tab_id } if tab_id == "a"));
    assert!(matches!(&actions[1], Action::CreatePage { tab_id, .. } if tab_id == "a"));
    assert!(c.frames.get_screenshot(&"a".to_string()).is_none());
}

#[test]
fn refresh_tab_reloads_only_open_pages() {
    let mut c = ChromeController::new(settings());
    activate_abc(&mut c, 30);
    let (_, actions) = c.handle_message(
        ChromeMessage::RefreshTab { tab_id: "a".to_string() },
        StoreData::Nothing,
        2_000,
    );
    assert!(matches!(&actions[0], Action::ReloadPage { tab_id } if tab_id == "a"));
    let (_, actions) = c.handle_message(
        ChromeMessage::RefreshTab { tab_id: "ghost".to_string() },
        StoreData::Nothing,
        2_000,
    );
    assert!(actions.is_empty());
}

#[test]
fn reload_tab_without_current_tab_is_noop() {
    let mut c = ChromeController::new(settings());
    let (resp, actions) = c.handle_message(ChromeMessage::ReloadTab, StoreData::Nothing, 1_000);
    assert!(matches!(resp, ChromeResponse::Success));
    assert!(actions.is_empty());
}

#[test]
fn reload_tab_reloads_current_page() {
    let mut c = ChromeController::new(settings());
    activate_abc(&mut c, 30);
    let (_, actions) = c.handle_message(ChromeMessage::ReloadTab, StoreData::Nothing, 2_000);
    assert!(matches!(&actions[0], Action::ReloadPage { tab_id } if tab_id == "a"));
}

#[test]
fn update_tab_url_navigates_open_page() {
    let mut c = ChromeController::new(settings());
    activate_abc(&mut c, 30);
    let (_, actions) = c.handle_message(
        ChromeMessage::UpdateTabUrl {
            tab_id: "a".to_string(),
            url: "https://example.com/new".to_string(),
        },
        StoreData::Nothing,
        2_000,
    );
    assert!(matches!(
        &actions[0],
        Action::NavigatePage { tab_id, url } if tab_id == "a" && url == "https://example.com/new"
    ));
    let (_, actions) = c.handle_message(
        ChromeMessage::UpdateTabUrl {
            tab_id: "ghost".to_string(),
            url: "https://example.com/new".to_string(),
        },
        StoreData::Nothing,
        2_000,
    );
    assert!(actions.is_empty());
}

#[test]
fn start_playlist_resumes_rotation() {
    let mut c = ChromeController::new(settings());
    activate_abc(&mut c, 30);
    c.handle_message(ChromeMessage::StopPlaylist, StoreData::Nothing, 2_000);
    let (resp, actions) = c.handle_message(
        ChromeMessage::StartPlaylist,
        StoreData::PlaylistOnly { playlist: Some(mk_playlist("p", 30)) },
        3_000,
    );
    assert!(matches!(resp, ChromeResponse::Success));
    assert!(matches!(
        &actions[0],
        Action::StartTimer { playlist_id, interval_seconds: 30 } if playlist_id == "p"
    ));
    let (_, _, _, rotate) = status_of(&c);
    assert!(rotate);
}

#[test]
fn start_playlist_without_current_is_noop() {
    let mut c = ChromeController::new(settings());
    let (resp, actions) = c.handle_message(
        ChromeMessage::StartPlaylist,
        StoreData::PlaylistOnly { playlist: None },
        1_000,
    );
    assert!(matches!(resp, ChromeResponse::Success));
    assert!(actions.is_empty());
}

#[test]
fn shutdown_cancels_timer_and_closes_pages() {
    let mut c = ChromeController::new(settings());
    activate_abc(&mut c, 30);
    let (resp, actions) = c.handle_message(ChromeMessage::Shutdown, StoreData::Nothing, 2_000);
    assert!(matches!(resp, ChromeResponse::Success));
    assert!(matches!(actions[0], Action::CancelTimer));
    let mut closed: Vec<String> = actions[1..]
        .iter()
        .map(|a| match a {
            Action::ClosePage { tab_id } => tab_id.clone(),
            other => panic!("expected only page closures, got {:?}", other),
        })
        .collect();
    closed.sort();
    assert_eq!(closed, vec!["a".to_string(), "c".to_string()]);
    let (_, _, running, rotate) = status_of(&c);
    assert!(!running);
    assert!(!rotate);
}
