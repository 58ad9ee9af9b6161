//! The screencast frame cache.  Each open page has a capture listener
//! that offers every incoming frame to this cache; storage is gated by a
//! minimum spacing between accepted frames and by a maximum frame size.
//! Acknowledging a frame to the browser is flow control and is never
//! gated — the listener always acks, whatever `offer_frame` decides.
//!
//! The browser delivers frame payloads base64-encoded; the cache stores
//! them as delivered and decodes on demand for the preview surface.

use vstd::prelude::*;
use crate::strmap::StrMap;

verus! {

/// Capture configuration: whether capture runs at all, and the two
/// acceptance filters of the cache.
#[derive(Debug, Clone)]
pub struct CaptureSettings {
    /// Screencast capture is started for newly created pages only when
    /// this is set.
    pub enabled: bool,
    /// Minimum milliseconds between two accepted frames of one tab,
    /// derived from the configured maximum frames per second.
    pub min_frame_spacing_ms: u64,
    /// Frames larger than this many bytes are dropped silently.
    pub max_frame_bytes: usize,
}

/// The latest accepted frame of one tab.
#[derive(Debug, Clone)]
pub struct FrameSlot {
    /// The frame payload as the browser delivered it (base64 bytes).
    pub data: Vec<u8>,
    /// When the frame was accepted, in milliseconds since the epoch.
    pub accepted_at: u64,
}

/// The abstract value of a `FrameSlot`.
pub struct FrameModel {
    pub data: Seq<u8>,
    pub accepted_at: u64,
}

impl View for FrameSlot {
    type V = FrameModel;

    open spec fn view(&self) -> FrameModel {
        FrameModel { data: self.data@, accepted_at: self.accepted_at }
    }
}

/// The abstract value of a frame map: each slot replaced by its view.
pub open spec fn frame_map_model(m: Map<Seq<char>, FrameSlot>) -> Map<Seq<char>, FrameModel> {
    Map::new(|k: Seq<char>| m.contains_key(k), |k: Seq<char>| m[k]@)
}

/// What the standard base64 engine decodes a byte string to, if it
/// decodes at all.  The result depends on the input alone.
pub uninterp spec fn base64_decoded(s: Seq<u8>) -> Option<Seq<u8>>;

/// Relies on base64's `Engine::decode` with the `STANDARD` engine: the
/// result is a function of the input bytes alone — `Ok` with the decoded
/// bytes exactly when the input is valid standard base64.
#[verifier::external_body]
fn base64_decode(data: &Vec<u8>) -> (r: Option<Vec<u8>>)
    ensures
        r matches Some(v) ==> base64_decoded(data@) == Some(v@),
        r is None ==> base64_decoded(data@) is None,
{
    base64::Engine::decode(&base64::engine::general_purpose::STANDARD, data.as_slice()).ok()
}

/// tab id → latest accepted frame, with the acceptance filters.
pub struct FrameCache {
    settings: CaptureSettings,
    slots: StrMap<FrameSlot>,
}

impl FrameCache {
    /// Every stored frame respects the size bound.
    pub open spec fn wf(&self) -> bool {
        &&& self.spec_slots().wf()
        &&& forall|k: Seq<char>| self.spec_slots()@.contains_key(k)
            ==> #[trigger] self.spec_slots()@[k].data@.len() <= self.spec_settings().max_frame_bytes
    }

    pub closed spec fn spec_settings(&self) -> CaptureSettings {
        self.settings
    }

    pub closed spec fn spec_slots(&self) -> StrMap<FrameSlot> {
        self.slots
    }

    /// The cache contents as a map from tab id to its latest frame.
    pub open spec fn view(&self) -> Map<Seq<char>, FrameSlot> {
        self.spec_slots()@
    }

    /// Whether a frame of `len` bytes offered for `tab` at `now` passes
    /// both acceptance filters: it fits the size bound, and it is not
    /// closer than the minimum spacing to the previously accepted frame
    /// of the same tab.
    pub open spec fn accepts(&self, tab: Seq<char>, len: nat, now: u64) -> bool {
        &&& len <= self.spec_settings().max_frame_bytes
        &&& (self@.contains_key(tab) ==> now >= self@[tab].accepted_at
            + self.spec_settings().min_frame_spacing_ms)
    }

    /// An empty cache with the given settings.
    pub fn new(settings: CaptureSettings) -> (c: FrameCache)
        ensures
            c.wf(),
            c.spec_settings() == settings,
            c@ == Map::<Seq<char>, FrameSlot>::empty(),
    {
        FrameCache { settings, slots: StrMap::new() }
    }

    /// Whether capture should be started for newly created pages.
    pub fn capture_enabled(&self) -> (r: bool)
        ensures
            r == self.spec_settings().enabled,
    {
        self.settings.enabled
    }

    /// Offer an incoming frame.  It is stored — replacing the tab's
    /// previous frame — exactly when both filters pass; otherwise the
    /// cache is left as it was.  The caller acks the frame to the
    /// browser either way.
    pub fn offer_frame(&mut self, tab_id: &String, data: Vec<u8>, now_ms: u64) -> (accepted: bool)
        requires
            old(self).wf(),
        ensures
            final(self).wf(),
            final(self).spec_settings() == old(self).spec_settings(),
            accepted == old(self).accepts(tab_id@, data@.len() as nat, now_ms),
            accepted ==> final(self)@ == old(self)@.insert(
                tab_id@,
                FrameSlot { data, accepted_at: now_ms },
            ),
            !accepted ==> final(self)@ == old(self)@,
    {
        if data.len() > self.settings.max_frame_bytes {
            return false;
        }
        match self.slots.get(tab_id) {
            Some(slot) => {
                if !(now_ms >= slot.accepted_at && now_ms - slot.accepted_at
                    >= self.settings.min_frame_spacing_ms) {
                    return false;
                }
            },
            None => {},
        }
        self.slots.insert(tab_id.clone(), FrameSlot { data, accepted_at: now_ms });
        true
    }

    /// The latest accepted frame bytes of a tab, as stored.
    pub fn get_screenshot(&self, tab_id: &String) -> (r: Option<Vec<u8>>)
        requires
            self.wf(),
        ensures
            match r {
                Some(v) => self@.contains_key(tab_id@) && v@ == self@[tab_id@].data@,
                None => !self@.contains_key(tab_id@),
            },
    {
        match self.slots.get(tab_id) {
            Some(slot) => {
                let v = slot.data.clone();
                proof {
                    assert(v@ =~= slot.data@);
                }
                Some(v)
            },
            None => None,
        }
    }

    /// The latest accepted frame of a tab, decoded from base64 for the
    /// preview surface.  `None` when the tab has no frame or its payload
    /// is not valid base64.
    pub fn decoded_frame(&self, tab_id: &String) -> (r: Option<Vec<u8>>)
        requires
            self.wf(),
        ensures
            match r {
                Some(v) => self@.contains_key(tab_id@) && base64_decoded(self@[tab_id@].data@)
                    == Some(v@),
                None => !self@.contains_key(tab_id@) || base64_decoded(self@[tab_id@].data@)
                    is None,
            },
    {
        match self.slots.get(tab_id) {
            Some(slot) => base64_decode(&slot.data),
            None => None,
        }
    }

    /// The acceptance filters, as one law: a stored frame never exceeds
    /// the configured size bound, and a further frame for the same tab
    /// passes the filters only when at least the configured spacing has
    /// elapsed since the stored frame was accepted.  Under a flood of
    /// offers, the cache therefore never updates a tab more often than
    /// the minimum spacing allows.
    pub proof fn lemma_frame_rate_and_size(&self, tab: Seq<char>, len: nat, now: u64)
        requires
            self.wf(),
            self@.contains_key(tab),
        ensures
            self@[tab].data@.len() <= self.spec_settings().max_frame_bytes,
            self.accepts(tab, len, now) ==> now >= self@[tab].accepted_at
                + self.spec_settings().min_frame_spacing_ms,
    {
    }

    /// Drop the cached frame of a tab, if any.
    pub fn remove(&mut self, tab_id: &String)
        requires
            old(self).wf(),
        ensures
            final(self).wf(),
            final(self).spec_settings() == old(self).spec_settings(),
            final(self)@ == old(self)@.remove(tab_id@),
    {
        self.slots.remove(tab_id);
    }
}

} // verus!
