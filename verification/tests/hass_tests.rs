use mission_control::hass::{
    availability_topic, entity_object_id, entity_state_reaction, hass_chrome_message, hass_topic,
    tab_option_ids,
};
use mission_control::messages::ChromeMessage;
use mission_control::records::TabWithOrder;

#[test]
fn topics_have_the_discovery_shape() {
    assert_eq!(
        hass_topic("switch", "dev1_backlight", "state"),
        "homeassistant/switch/dev1_backlight/state"
    );
    assert_eq!(
        hass_topic("select", "dev1_playlist", "set"),
        "homeassistant/select/dev1_playlist/set"
    );
    assert_eq!(entity_object_id("dev1", "backlight"), "dev1_backlight");
    assert_eq!(availability_topic("dev1"), "homeassistant/device/dev1/availability");
}

#[test]
fn switch_entities_echo_only_on_off() {
    let switch = "switch".to_string();
    assert_eq!(
        entity_state_reaction(&switch, &"ON".to_string()),
        Some("ON".to_string())
    );
    assert_eq!(
        entity_state_reaction(&switch, &"OFF".to_string()),
        Some("OFF".to_string())
    );
    assert_eq!(entity_state_reaction(&switch, &"DIM".to_string()), None);
}

#[test]
fn number_and_select_entities_echo_payload() {
    assert_eq!(
        entity_state_reaction(&"number".to_string(), &"0.5".to_string()),
        Some("0.5".to_string())
    );
    assert_eq!(
        entity_state_reaction(&"select".to_string(), &"p".to_string()),
        Some("p".to_string())
    );
    assert_eq!(entity_state_reaction(&"text".to_string(), &"x".to_string()), None);
}

#[test]
fn playlist_topic_routes_to_activate_playlist() {
    let r = hass_chrome_message(
        &"homeassistant/select/dev1_playlist/set".to_string(),
        "p".to_string(),
        &"homeassistant/select/dev1_playlist/set".to_string(),
        &"homeassistant/select/dev1_tab/set".to_string(),
        Some("q".to_string()),
    );
    match r {
        Some(ChromeMessage::ActivatePlaylist { playlist_id }) => assert_eq!(playlist_id, "p"),
        other => panic!("expected a playlist activation, got {:?}", other),
    }
}

#[test]
fn tab_topic_routes_to_activate_tab_in_current_playlist() {
    let r = hass_chrome_message(
        &"homeassistant/select/dev1_tab/set".to_string(),
        "a".to_string(),
        &"homeassistant/select/dev1_playlist/set".to_string(),
        &"homeassistant/select/dev1_tab/set".to_string(),
        Some("p".to_string()),
    );
    match r {
        Some(ChromeMessage::ActivateTab { tab_id, playlist_id }) => {
            assert_eq!(tab_id, "a");
            assert_eq!(playlist_id, "p");
        }
        other => panic!("expected a tab activation, got {:?}", other),
    }
}

#[test]
fn tab_topic_without_current_playlist_routes_nowhere() {
    let r = hass_chrome_message(
        &"homeassistant/select/dev1_tab/set".to_string(),
        "a".to_string(),
        &"homeassistant/select/dev1_playlist/set".to_string(),
        &"homeassistant/select/dev1_tab/set".to_string(),
        None,
    );
    assert!(r.is_none());
}

#[test]
fn unknown_topic_routes_nowhere() {
    let r = hass_chrome_message(
        &"homeassistant/switch/dev1_backlight/set".to_string(),
        "ON".to_string(),
        &"homeassistant/select/dev1_playlist/set".to_string(),
        &"homeassistant/select/dev1_tab/set".to_string(),
        Some("p".to_string()),
    );
    assert!(r.is_none());
}

#[test]
fn tab_options_are_the_ids_in_order() {
    let tabs: Vec<TabWithOrder> = ["a", "b"]
        .iter()
        .enumerate()
        .map(|(i, id)| TabWithOrder {
            id: id.to_string(),
            name: id.to_string(),
            url: format!("https://example.com/{}", id),
            persist: false,
            viewport_width: None,
            viewport_height: None,
            order_index: i as i64,
            duration_seconds: None,
            enabled: true,
            last_manual_activation: None,
            created_at: 1,
            updated_at: 1,
        })
        .collect();
    assert_eq!(tab_option_ids(&tabs), vec!["a".to_string(), "b".to_string()]);
}
