use rigela_core::capture::{CaptureDecision, HotkeysCapture};
use rigela_core::event_core::{text_unit_for_key, Event, EventCore, TextUnitKind};
use rigela_core::keys::Keys;

#[test]
fn dedup_suppresses_within_window() {
    let mut core = EventCore::new();
    // First sighting of a fingerprint passes through.
    assert!(!core.should_ignore_at("focus:btnOK", 0, 1000));
    // The same fingerprint inside the window is suppressed.
    assert!(core.should_ignore_at("focus:btnOK", 500, 1000));
    // At or past the window's edge it passes through again.
    assert!(!core.should_ignore_at("focus:btnOK", 1000, 1000));
    // And the allowed pass refreshed the record.
    assert!(core.should_ignore_at("focus:btnOK", 1500, 1000));
}

#[test]
fn dedup_tracks_fingerprints_independently() {
    let mut core = EventCore::new();
    assert!(!core.should_ignore_at("focus:btnOK", 0, 1000));
    // A different fingerprint is not affected.
    assert!(!core.should_ignore_at("focus:btnCancel", 10, 1000));
    assert!(core.should_ignore_at("focus:btnOK", 20, 1000));
    assert!(core.should_ignore_at("focus:btnCancel", 30, 1000));
    // A zero-width window suppresses nothing.
    let mut strict = EventCore::new();
    assert!(!strict.should_ignore_at("x", 100, 0));
    assert!(!strict.should_ignore_at("x", 100, 0));
}

#[test]
fn dedup_against_the_wall_clock() {
    let mut core = EventCore::new();
    // A fresh fingerprint passes; repeating it within a generous window is
    // suppressed whatever instant the clock hands back.
    assert!(!core.should_ignore("live:evt", 600_000));
    assert!(core.should_ignore("live:evt", 600_000));
    core.shutdown();
}

#[test]
fn cursor_keys_read_by_line() {
    assert_eq!(text_unit_for_key(Keys::VkUp), TextUnitKind::Line);
    assert_eq!(text_unit_for_key(Keys::VkDown), TextUnitKind::Line);
    assert_eq!(text_unit_for_key(Keys::VkLeft), TextUnitKind::Character);
    assert_eq!(text_unit_for_key(Keys::VkA), TextUnitKind::Character);
    let e = Event::CursorKey(Keys::VkUp);
    assert_eq!(e, Event::CursorKey(Keys::VkUp));
    assert_ne!(e, Event::LockKey(20));
}

#[test]
fn hotkey_capture_replaces_chord() {
    let mut cap = HotkeysCapture::new();
    // Without capture enabled everything passes through.
    assert_eq!(cap.process_key_event(0x41, false, true), CaptureDecision::PassThrough);
    assert_eq!(cap.process_key_event(0x41, false, false), CaptureDecision::PassThrough);
    cap.set_capture(true);
    // A pressed chord replaces the captured keys.
    assert_eq!(cap.process_key_event(0xA2, false, true), CaptureDecision::NewHotkeys);
    assert_eq!(cap.process_key_event(0x41, false, true), CaptureDecision::NewHotkeys);
    assert_eq!(cap.hotkeys(), &vec![Keys::VkA, Keys::VkCtrl]);
    // Releases pass through and leave the capture alone.
    assert_eq!(cap.process_key_event(0x41, false, false), CaptureDecision::PassThrough);
    assert_eq!(cap.process_key_event(0xA2, false, false), CaptureDecision::PassThrough);
    assert_eq!(cap.hotkeys(), &vec![Keys::VkA, Keys::VkCtrl]);
    // Tab pressed alone steps to the next control instead of capturing.
    assert_eq!(cap.process_key_event(0x09, false, true), CaptureDecision::NextControl);
    assert_eq!(cap.hotkeys(), &vec![Keys::VkA, Keys::VkCtrl]);
    // Tab together with another key is an ordinary chord.
    assert_eq!(cap.process_key_event(0x41, false, true), CaptureDecision::NewHotkeys);
    assert_eq!(cap.hotkeys(), &vec![Keys::VkA, Keys::VkTab]);
}
