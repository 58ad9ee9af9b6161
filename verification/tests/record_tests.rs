use mission_control::records::{
    apply_playlist_update, apply_tab_update, initial_playlist, playlist_from_create_request,
    tab_from_create_request, CreatePlaylistRequest, CreateTabRequest, Playlist,
    UpdatePlaylistRequest, UpdateTabRequest,
};

fn playlist(id: &str, active: bool) -> Playlist {
    Playlist {
        id: id.to_string(),
        name: id.to_string(),
        interval_seconds: 30,
        is_active: active,
        created_at: 10,
        updated_at: 10,
    }
}

#[test]
fn created_playlist_row_is_inactive_and_stamped() {
    let p = playlist_from_create_request(
        CreatePlaylistRequest { id: "p".to_string(), name: "P".to_string(), interval_seconds: 45 },
        999,
    );
    assert_eq!(p.id, "p");
    assert_eq!(p.name, "P");
    assert_eq!(p.interval_seconds, 45);
    assert!(!p.is_active);
    assert_eq!(p.created_at, 999);
    assert_eq!(p.updated_at, 999);
}

#[test]
fn created_tab_row_persists_by_default() {
    let t = tab_from_create_request(
        CreateTabRequest {
            id: "t".to_string(),
            name: "T".to_string(),
            url: "https://example.com".to_string(),
            persist: None,
        },
        7,
    );
    assert!(t.persist);
    assert_eq!(t.viewport_width, None);
    assert_eq!(t.viewport_height, None);
    let t2 = tab_from_create_request(
        CreateTabRequest {
            id: "t".to_string(),
            name: "T".to_string(),
            url: "https://example.com".to_string(),
            persist: Some(false),
        },
        7,
    );
    assert!(!t2.persist);
}

#[test]
fn playlist_update_replaces_present_fields_and_stamps() {
    let p = playlist("p", false);
    let q = apply_playlist_update(
        &p,
        &UpdatePlaylistRequest {
            name: Some("New".to_string()),
            interval_seconds: Some(60),
            is_active: None,
        },
        99,
    );
    assert_eq!(q.id, "p");
    assert_eq!(q.name, "New");
    assert_eq!(q.interval_seconds, 60);
    assert!(!q.is_active);
    assert_eq!(q.created_at, 10);
    assert_eq!(q.updated_at, 99);
}

#[test]
fn empty_playlist_update_leaves_row_untouched() {
    let p = playlist("p", true);
    let q = apply_playlist_update(
        &p,
        &UpdatePlaylistRequest { name: None, interval_seconds: None, is_active: None },
        99,
    );
    assert_eq!(q.name, "p");
    assert_eq!(q.interval_seconds, 30);
    assert!(q.is_active);
    assert_eq!(q.updated_at, 10);
}

#[test]
fn tab_update_replaces_present_fields_and_stamps() {
    let t = tab_from_create_request(
        CreateTabRequest {
            id: "t".to_string(),
            name: "T".to_string(),
            url: "https://example.com/old".to_string(),
            persist: Some(true),
        },
        7,
    );
    let q = apply_tab_update(
        &t,
        &UpdateTabRequest {
            name: None,
            url: Some("https://example.com/new".to_string()),
            persist: Some(false),
        },
        99,
    );
    assert_eq!(q.id, "t");
    assert_eq!(q.name, "T");
    assert_eq!(q.url, "https://example.com/new");
    assert!(!q.persist);
    assert_eq!(q.updated_at, 99);

    let same = apply_tab_update(
        &t,
        &UpdateTabRequest { name: None, url: None, persist: None },
        99,
    );
    assert_eq!(same.updated_at, 7);
}

#[test]
fn initial_playlist_picks_first_active() {
    let playlists = vec![playlist("one", false), playlist("two", true), playlist("three", true)];
    assert_eq!(initial_playlist(&playlists), Some("two".to_string()));
}

#[test]
fn initial_playlist_none_when_nothing_active() {
    let playlists = vec![playlist("one", false), playlist("two", false)];
    assert_eq!(initial_playlist(&playlists), None);
}
