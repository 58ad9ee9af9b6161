use mission_control::api::{
    device_status_of, playlist_infos, tab_infos, validate_admin_key,
};
use mission_control::messages::ChromeState;
use mission_control::records::{PlaylistWithTabs, TabWithOrder};

fn tab_with_order(id: &str, order_index: i64) -> TabWithOrder {
    TabWithOrder {
        id: id.to_string(),
        name: format!("{} name", id),
        url: format!("https://example.com/{}", id),
        persist: true,
        viewport_width: Some(800),
        viewport_height: Some(600),
        order_index,
        duration_seconds: None,
        enabled: true,
        last_manual_activation: None,
        created_at: 1,
        updated_at: 1,
    }
}

#[test]
fn playlist_infos_summarize_rows() {
    let rows = vec![PlaylistWithTabs {
        id: "p".to_string(),
        name: "P".to_string(),
        interval_seconds: 30,
        is_active: true,
        created_at: 1,
        updated_at: 1,
        tabs: vec![tab_with_order("a", 0), tab_with_order("b", 1)],
    }];
    let infos = playlist_infos(&rows);
    assert_eq!(infos.len(), 1);
    assert_eq!(infos[0].id, "p");
    assert_eq!(infos[0].name, "P");
    assert_eq!(infos[0].tab_count, 2);
    assert_eq!(infos[0].interval_seconds, 30);
    assert!(infos[0].is_active);
}

#[test]
fn tab_infos_keep_order_and_viewport() {
    let rows = vec![tab_with_order("a", 0), tab_with_order("b", 3)];
    let infos = tab_infos(&rows);
    assert_eq!(infos.len(), 2);
    assert_eq!(infos[0].id, "a");
    assert_eq!(infos[0].order_index, 0);
    assert_eq!(infos[1].order_index, 3);
    assert_eq!(infos[1].viewport_width, Some(800));
    assert_eq!(infos[1].viewport_height, Some(600));
}

#[test]
fn negative_order_index_falls_back_to_start() {
    let rows = vec![tab_with_order("a", -5)];
    let infos = tab_infos(&rows);
    assert_eq!(infos[0].order_index, 0);
}

#[test]
fn device_status_snapshots_controller_state() {
    let mut state = ChromeState::new();
    state.current_playlist_id = Some("p".to_string());
    state.current_tab_id = Some("a".to_string());
    let status = device_status_of(&state, "dev-1".to_string(), "Lobby".to_string());
    assert_eq!(status.device_id, "dev-1");
    assert_eq!(status.device_name, "Lobby");
    assert_eq!(status.current_playlist, Some("p".to_string()));
    assert_eq!(status.current_tab, Some("a".to_string()));
    assert_eq!(status.uptime_seconds, 0);
}

#[test]
fn admin_keys_are_rejected() {
    assert!(!validate_admin_key("secret", "secret"));
    assert!(!validate_admin_key("", ""));
}
