//! Decision logic of the home-automation bridge: discovery topic
//! construction, the reaction of an entity to an inbound command, and
//! the routing of bridge commands to controller messages.  The MQTT
//! plumbing itself lives outside the library.

use vstd::prelude::*;
use crate::messages::ChromeMessage;
use crate::records::TabWithOrder;

verus! {

/// The device block of a discovery payload.
#[derive(Debug, Clone)]
pub struct HassDevice {
    pub identifiers: Vec<String>,
    pub name: String,
    pub configuration_url: String,
    pub serial_number: String,
}

/// A discovery topic: `homeassistant/<component>/<object id>/<leaf>`.
pub open spec fn spec_hass_topic(component: Seq<char>, object_id: Seq<char>, leaf: Seq<char>)
    -> Seq<char> {
    "homeassistant/"@ + component + "/"@ + object_id + "/"@ + leaf
}

/// The object id of one entity of a device: `<unique id>_<suffix>`.
pub open spec fn spec_entity_object_id(unique_id: Seq<char>, suffix: Seq<char>) -> Seq<char> {
    unique_id + "_"@ + suffix
}

/// Build a discovery topic.
pub fn hass_topic(component: &str, object_id: &str, leaf: &str) -> (r: String)
    ensures
        r@ == spec_hass_topic(component@, object_id@, leaf@),
{
    let r = "homeassistant/".to_owned().concat(component).concat("/").concat(object_id).concat(
        "/",
    ).concat(leaf);
    proof {
        assert(r@ =~= spec_hass_topic(component@, object_id@, leaf@));
    }
    r
}

/// Build an entity's object id.
pub fn entity_object_id(unique_id: &str, suffix: &str) -> (r: String)
    ensures
        r@ == spec_entity_object_id(unique_id@, suffix@),
{
    let r = unique_id.to_owned().concat("_").concat(suffix);
    proof {
        assert(r@ =~= spec_entity_object_id(unique_id@, suffix@));
    }
    r
}

/// The availability topic of a device.
pub fn availability_topic(device_id: &str) -> (r: String)
    ensures
        r@ == spec_hass_topic("device"@, device_id@, "availability"@),
{
    hass_topic("device", device_id, "availability")
}

/// What state an entity publishes back after an inbound command, by
/// device class: a switch echoes `ON`/`OFF` and ignores anything else;
/// numbers and selects echo the payload; other classes publish nothing.
pub open spec fn spec_entity_state_reaction(device_class: Seq<char>, payload: Seq<char>) -> Option<
    Seq<char>,
> {
    if device_class == "switch"@ {
        if payload == "ON"@ || payload == "OFF"@ {
            Some(payload)
        } else {
            None
        }
    } else if device_class == "number"@ || device_class == "select"@ {
        Some(payload)
    } else {
        None
    }
}

/// The state an entity publishes back after an inbound command.
pub fn entity_state_reaction(device_class: &String, payload: &String) -> (r: Option<String>)
    ensures
        match r {
            Some(s) => spec_entity_state_reaction(device_class@, payload@) == Some(s@),
            None => spec_entity_state_reaction(device_class@, payload@) is None,
        },
{
    proof {
        reveal_strlit("switch");
        reveal_strlit("number");
        reveal_strlit("select");
        reveal_strlit("ON");
        reveal_strlit("OFF");
    }
    if device_class.eq(&"switch".to_owned()) {
        if payload.eq(&"ON".to_owned()) || payload.eq(&"OFF".to_owned()) {
            Some(payload.clone())
        } else {
            None
        }
    } else if device_class.eq(&"number".to_owned()) || device_class.eq(&"select".to_owned()) {
        Some(payload.clone())
    } else {
        None
    }
}

/// Route an inbound bridge command to a controller message: a publish
/// on the playlist entity's command topic activates that playlist; one
/// on the tab entity's command topic activates that tab within the
/// current playlist, when one is current; anything else drives no
/// controller command.
pub fn hass_chrome_message(
    topic: &String,
    payload: String,
    playlist_topic: &String,
    tab_topic: &String,
    current_playlist_id: Option<String>,
) -> (r: Option<ChromeMessage>)
    ensures
        topic@ == playlist_topic@ ==> (r matches Some(m) && m matches
            ChromeMessage::ActivatePlaylist { playlist_id } && playlist_id@ == payload@),
        topic@ != playlist_topic@ && topic@ == tab_topic@ ==> (match current_playlist_id {
            Some(pid) => r matches Some(m) && (m matches ChromeMessage::ActivateTab {
                tab_id,
                playlist_id,
            } && tab_id@ == payload@ && playlist_id@ == pid@),
            None => r is None,
        }),
        topic@ != playlist_topic@ && topic@ != tab_topic@ ==> r is None,
{
    if topic.eq(playlist_topic) {
        Some(ChromeMessage::ActivatePlaylist { playlist_id: payload })
    } else if topic.eq(tab_topic) {
        match current_playlist_id {
            Some(pid) => Some(ChromeMessage::ActivateTab { tab_id: payload, playlist_id: pid }),
            None => None,
        }
    } else {
        None
    }
}

/// The option list published for the tab select entity: the tab ids, in
/// playlist order.
pub fn tab_option_ids(tabs: &Vec<TabWithOrder>) -> (r: Vec<String>)
    ensures
        r@.len() == tabs@.len(),
        forall|i: int| 0 <= i < r@.len() ==> r@[i]@ == (#[trigger] tabs@[i]).id@,
{
    let n = tabs.len();
    let mut r: Vec<String> = Vec::new();
    let mut i: usize = 0;
    while i < n
        invariant
            n == tabs@.len(),
            i <= n,
            r@.len() == i,
            forall|j: int| 0 <= j < i ==> r@[j]@ == (#[trigger] tabs@[j]).id@,
        decreases n - i,
    {
        r.push(tabs[i].id.clone());
        i = i + 1;
    }
    r
}

} // verus!
