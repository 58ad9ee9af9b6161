use mission_control::frames::{CaptureSettings, FrameCache};

fn cache(min_spacing: u64, max_bytes: usize) -> FrameCache {
    FrameCache::new(CaptureSettings {
        enabled: true,
        min_frame_spacing_ms: min_spacing,
        max_frame_bytes: max_bytes,
    })
}

#[test]
fn flood_is_throttled_by_spacing_and_size() {
    let mut c = cache(100, 8);
    let tab = "a".to_string();
    // a flood of offers every 25 ms: only those at least 100 ms after
    // the previously accepted frame are stored
    let mut accepted_times = Vec::new();
    for k in 0..20u64 {
        let t = k * 25;
        if c.offer_frame(&tab, b"abcd".to_vec(), t) {
            accepted_times.push(t);
        }
    }
    assert_eq!(accepted_times, vec![0, 100, 200, 300, 400]);
    // an oversized frame is dropped silently, whatever the time
    assert!(!c.offer_frame(&tab, b"123456789".to_vec(), 10_000));
    // and the cache still holds the last accepted frame
    assert_eq!(c.get_screenshot(&tab), Some(b"abcd".to_vec()));
}

#[test]
fn frame_at_exactly_the_size_bound_is_accepted() {
    let mut c = cache(0, 4);
    let tab = "a".to_string();
    assert!(c.offer_frame(&tab, b"1234".to_vec(), 0));
    assert!(!c.offer_frame(&tab, b"12345".to_vec(), 100));
    assert_eq!(c.get_screenshot(&tab), Some(b"1234".to_vec()));
}

#[test]
fn frames_of_different_tabs_do_not_throttle_each_other() {
    let mut c = cache(100, 8);
    assert!(c.offer_frame(&"a".to_string(), b"1".to_vec(), 0));
    assert!(c.offer_frame(&"b".to_string(), b"2".to_vec(), 10));
    assert_eq!(c.get_screenshot(&"a".to_string()), Some(b"1".to_vec()));
    assert_eq!(c.get_screenshot(&"b".to_string()), Some(b"2".to_vec()));
}

#[test]
fn accepted_frame_replaces_previous_one() {
    let mut c = cache(100, 64);
    let tab = "a".to_string();
    assert!(c.offer_frame(&tab, b"first".to_vec(), 0));
    assert!(!c.offer_frame(&tab, b"early".to_vec(), 50));
    assert_eq!(c.get_screenshot(&tab), Some(b"first".to_vec()));
    assert!(c.offer_frame(&tab, b"later".to_vec(), 150));
    assert_eq!(c.get_screenshot(&tab), Some(b"later".to_vec()));
}

#[test]
fn decoded_frame_decodes_base64_payload() {
    let mut c = cache(0, 64);
    let tab = "a".to_string();
    assert!(c.offer_frame(&tab, b"aGVsbG8=".to_vec(), 0));
    // the stored payload is the base64 text; the preview is the decoded bytes
    assert_eq!(c.get_screenshot(&tab), Some(b"aGVsbG8=".to_vec()));
    assert_eq!(c.decoded_frame(&tab), Some(b"hello".to_vec()));
}

#[test]
fn decoded_frame_rejects_invalid_base64() {
    let mut c = cache(0, 64);
    let tab = "a".to_string();
    assert!(c.offer_frame(&tab, b"!!!".to_vec(), 0));
    assert_eq!(c.decoded_frame(&tab), None);
}

#[test]
fn decoded_frame_of_unknown_tab_is_none() {
    let c = cache(0, 64);
    assert_eq!(c.decoded_frame(&"ghost".to_string()), None);
}

#[test]
fn removed_tab_has_no_frame() {
    let mut c = cache(0, 64);
    let tab = "a".to_string();
    assert!(c.offer_frame(&tab, b"YQ==".to_vec(), 0));
    c.remove(&tab);
    assert_eq!(c.get_screenshot(&tab), None);
}
