use rigela_core::combo::{ComboKey, State};
use rigela_core::commander::{match_cmd_list, match_keys, match_talents, Commander, KeyDecision,
    MouseDecision};
use rigela_core::configs::{ConfigManager, ConfigRoot, HotKeysConfig, MouseConfig, TtsConfig};
use rigela_core::keys::Keys;
use rigela_core::modifiers::ModifierKeys;
use rigela_core::talent::{CommandType, TalentAccessor, TalentEntry};
use rigela_core::tracker::KeyStateTracker;

fn entry(id: &str, main_key: Keys, modifiers: &[Keys]) -> TalentEntry {
    let mut mods = ModifierKeys::empty();
    for k in modifiers {
        mods = mods.union(ModifierKeys::from_key(*k));
    }
    TalentEntry {
        id: String::from(id),
        doc: String::from(id),
        cmd_list: vec![CommandType::Key(ComboKey::new(main_key, mods, State::SinglePress))],
    }
}

#[test]
fn superset_matching() {
    // Chord {Ctrl, A} against tracker {Ctrl, Shift, A}: the extra Shift
    // does not invalidate the match.
    let mut tracker = KeyStateTracker::new();
    tracker.set_key(Keys::VkCtrl, true);
    tracker.set_key(Keys::VkShift, true);
    tracker.set_key(Keys::VkA, true);
    assert!(match_keys(&[Keys::VkCtrl, Keys::VkA], &tracker));
    // The full chord still has to be down.
    tracker.set_key(Keys::VkCtrl, false);
    assert!(!match_keys(&[Keys::VkCtrl, Keys::VkA], &tracker));
    // The empty chord is satisfied by anything.
    assert!(match_keys(&[], &tracker));
}

#[test]
fn cmd_list_matches_any_alternative() {
    let mut tracker = KeyStateTracker::new();
    tracker.set_key(Keys::VkB, true);
    let talent = TalentEntry {
        id: String::from("either"),
        doc: String::from("either"),
        cmd_list: vec![
            CommandType::Key(ComboKey::new(Keys::VkA, ModifierKeys::empty(),
                State::SinglePress)),
            CommandType::Key(ComboKey::new(Keys::VkB, ModifierKeys::empty(),
                State::SinglePress)),
            CommandType::Touch,
        ],
    };
    // Any one of multiple alternative chords suffices.
    assert!(match_cmd_list(&talent, &tracker));
    tracker.set_key(Keys::VkB, false);
    assert!(!match_cmd_list(&talent, &tracker));
}

#[test]
fn registration_order_breaks_ties() {
    // Two capabilities whose default chords are satisfied at once resolve
    // to the earlier-registered one, even though the later chord is more
    // specific.
    let accessor = TalentAccessor {
        talents: vec![
            entry("first", Keys::VkA, &[Keys::VkCtrl]),
            entry("second", Keys::VkA, &[Keys::VkCtrl, Keys::VkShift]),
        ],
    };
    let overrides = HotKeysConfig::new();
    let mut tracker = KeyStateTracker::new();
    tracker.set_key(Keys::VkCtrl, true);
    tracker.set_key(Keys::VkShift, true);
    tracker.set_key(Keys::VkA, true);
    assert_eq!(match_talents(&accessor, &overrides, &tracker), Some(0));
}

#[test]
fn override_takes_precedence() {
    // A capability with a configured override is matched solely against
    // the override, even while its default chord is satisfied.
    let accessor = TalentAccessor { talents: vec![entry("cap", Keys::VkA, &[Keys::VkCtrl])] };
    let mut overrides = HotKeysConfig::new();
    overrides.set(String::from("cap"), vec![Keys::VkRigelA, Keys::VkB]);
    let mut tracker = KeyStateTracker::new();
    tracker.set_key(Keys::VkCtrl, true);
    tracker.set_key(Keys::VkA, true);
    assert_eq!(match_talents(&accessor, &overrides, &tracker), None);
    // Once the override chord is down, the capability matches.
    tracker.set_key(Keys::VkRigelA, true);
    tracker.set_key(Keys::VkB, true);
    assert_eq!(match_talents(&accessor, &overrides, &tracker), Some(0));
}

#[test]
fn malformed_override_of_other_capability_is_inert() {
    // An override recorded under an unknown identity changes nothing for
    // registered capabilities: they fall back to their defaults.
    let accessor = TalentAccessor { talents: vec![entry("cap", Keys::VkA, &[])] };
    let mut overrides = HotKeysConfig::new();
    overrides.set(String::from("someone_else"), vec![Keys::VkZ]);
    let mut tracker = KeyStateTracker::new();
    tracker.set_key(Keys::VkA, true);
    assert_eq!(match_talents(&accessor, &overrides, &tracker), Some(0));
}

#[test]
fn mouse_distance_gating() {
    let mut c = Commander::new();
    // The first sample is far from the origin and is accepted.
    assert_eq!(c.process_mouse_move(100, 100, true, true), MouseDecision::Read);
    assert_eq!(c.get_old_point(), (100, 100));
    // Samples within ten pixels of the last accepted one are suppressed
    // and do not move the reference point.
    assert_eq!(c.process_mouse_move(105, 104, true, true), MouseDecision::Ignore);
    assert_eq!(c.process_mouse_move(105, 104, true, true), MouseDecision::Ignore);
    assert_eq!(c.get_old_point(), (100, 100));
    // A sample at distance ten or more is forwarded.
    assert_eq!(c.process_mouse_move(111, 100, true, true), MouseDecision::Read);
    assert_eq!(c.get_old_point(), (111, 100));
    // Nothing is read while the flag is off or for non-movement events.
    assert_eq!(c.process_mouse_move(500, 500, true, false), MouseDecision::Ignore);
    assert_eq!(c.process_mouse_move(500, 500, false, true), MouseDecision::Ignore);
}

#[test]
fn primary_chord_dispatches_once_while_held() {
    let mut c = Commander::new();
    let talents = TalentAccessor::new();
    let mut config = ConfigManager::new(String::from("config.toml"));
    let mut dispatches = 0u32;

    // Hold the primary modifier, then press M: exactly one dispatch of the
    // mouse-read capability, which toggles the flag.
    let events: [(u32, bool, bool); 6] = [
        (0x2D, false, true),  // primary modifier goes down
        (0x4D, false, true),  // M goes down: the chord activates
        (0x4D, false, true),  // M repeats while held
        (0x4D, false, true),  // and repeats again
        (0x4D, false, false), // M released
        (0x2D, false, false), // primary modifier released
    ];
    for (code, ext, pressed) in events {
        let overrides = HotKeysConfig { keys: Vec::new() };
        match c.process_key_event(&talents, &overrides, code, ext, pressed) {
            KeyDecision::Dispatch(i) => {
                dispatches += 1;
                assert_eq!(i, 2);
                assert_eq!(talents.talents[i].id, String::from("read_mouse"));
                // What the dispatched capability does: toggle the flag.
                let is_read = config.get_config().mouse_config.is_read;
                config.apply_mouse_config(!is_read);
            },
            KeyDecision::PassThrough => {},
        }
    }
    assert_eq!(dispatches, 1);
    assert!(config.get_config().mouse_config.is_read);

    // Press the chord a second time: a fresh transition dispatches again
    // and toggles the flag back off.
    let overrides = HotKeysConfig { keys: Vec::new() };
    assert_eq!(c.process_key_event(&talents, &overrides, 0x2D, false, true),
        KeyDecision::PassThrough);
    match c.process_key_event(&talents, &overrides, 0x4D, false, true) {
        KeyDecision::Dispatch(_) => {
            let is_read = config.get_config().mouse_config.is_read;
            config.apply_mouse_config(!is_read);
        },
        KeyDecision::PassThrough => panic!("the chord should have matched"),
    }
    assert!(!config.get_config().mouse_config.is_read);
}

#[test]
fn last_pressed_key_records_unmatched_non_modifiers() {
    let mut c = Commander::new();
    let talents = TalentAccessor::new();
    let overrides = HotKeysConfig::new();
    assert_eq!(c.get_last_pressed_key(), Keys::VkNone);
    // A modifier alone is not recorded.
    c.process_key_event(&talents, &overrides, 0xA2, false, true);
    assert_eq!(c.get_last_pressed_key(), Keys::VkNone);
    // An unmatched non-modifier is.
    c.process_key_event(&talents, &overrides, 0x26, true, true);
    assert_eq!(c.get_last_pressed_key(), Keys::VkUp);
    // A matched chord is consumed without touching the record.
    c.process_key_event(&talents, &overrides, 0x6F, true, true);
    assert_eq!(c.get_last_pressed_key(), Keys::VkUp);
    c.set_last_pressed_key(Keys::VkB);
    assert_eq!(c.get_last_pressed_key(), Keys::VkB);
}

#[test]
fn hook_lifecycle_and_listeners() {
    let mut c = Commander::new();
    assert!(!c.keyboard_hook && !c.mouse_hook);
    c.apply();
    assert!(c.keyboard_hook && c.mouse_hook);
    c.add_key_event_listener(&[Keys::VkRigelA, Keys::VkF12], 7);
    c.add_key_event_listener(&[Keys::VkEscape], 8);
    let fns = c.get_key_callback_fns();
    assert_eq!(fns.len(), 2);
    assert_eq!(fns[0].0, vec![Keys::VkRigelA, Keys::VkF12]);
    assert_eq!(fns[0].1, 7);
    assert_eq!(fns[1].1, 8);
    c.dispose();
    assert!(!c.keyboard_hook && !c.mouse_hook);
}

#[test]
fn config_manager_defaults_and_updates() {
    let mut m = ConfigManager::new(String::from("rigela.toml"));
    assert_eq!(m.path, String::from("rigela.toml"));
    assert_eq!(m.get_config().tts_config.speed, 50);
    assert!(!m.get_config().mouse_config.is_read);
    // A failed load falls back to the default configuration.
    let fallback = m.read(None);
    assert_eq!(fallback.tts_config.pitch, 50);
    // A successful load is taken as it is.
    let loaded = ConfigRoot {
        tts_config: TtsConfig { speed: 80, pitch: 40, volume: 60 },
        mouse_config: MouseConfig { is_read: true },
        hotkeys_config: HotKeysConfig::new(),
    };
    m.apply(Some(loaded));
    assert_eq!(m.get_config().tts_config.speed, 80);
    assert!(m.get_config().mouse_config.is_read);
    let mut root = m.read(None);
    root.tts_config.volume = 10;
    m.set_config(root);
    assert_eq!(m.get_config().tts_config.volume, 10);
    // Override lookup finds the first entry for an identity.
    let mut hk = HotKeysConfig::new();
    hk.set(String::from("cap"), vec![Keys::VkA]);
    assert_eq!(hk.get("cap"), Some(vec![Keys::VkA]));
    assert_eq!(hk.get("other"), None);
}
