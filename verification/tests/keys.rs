use rigela_core::combo::{ComboKey, ComboKeyExt, ComboKeysManage, State, DOUBLE_PRESS_WINDOW_MS,
    LONG_PRESS_THRESHOLD_MS};
use rigela_core::keys::Keys;
use rigela_core::modifiers::{ModifierKeys, MOD_ALT, MOD_CTRL, MOD_RIGELA, MOD_SHIFT};

#[test]
fn test_vk_from_num() {
    let key: Keys = Keys::from_code(27, false);
    assert_eq!(key, Keys::VkEscape);
}

#[test]
fn test_vk_from_str() {
    let key: Keys = Keys::from_name("A");
    assert_eq!(key, Keys::VkA);
}

#[test]
fn test_vk_to_str() {
    let key: Keys = Keys::VkA;
    let key_str: String = key.name();
    assert_eq!(key_str, String::from("A"));
}

#[test]
fn decode_is_total_and_deterministic() {
    // An unmapped pair resolves to the sentinel, never to an error.
    assert_eq!(Keys::from_code(0xFFFF_FFFF, true), Keys::VkNone);
    assert_eq!(Keys::from_code(7, false), Keys::VkNone);
    // The same pair always decodes to the same key.
    for code in 0..300u32 {
        for ext in [false, true] {
            assert_eq!(Keys::from_code(code, ext), Keys::from_code(code, ext));
        }
    }
}

#[test]
fn decode_deliberate_collisions() {
    // Insert (both plain and extended) and Caps Lock all read as the
    // primary key.
    assert_eq!(Keys::from_code(0x2D, false), Keys::VkRigelA);
    assert_eq!(Keys::from_code(0x2D, true), Keys::VkRigelA);
    assert_eq!(Keys::from_code(0x14, false), Keys::VkRigelA);
    // Left and right Control collapse to one symbolic key.
    assert_eq!(Keys::from_code(0xA2, false), Keys::VkCtrl);
    assert_eq!(Keys::from_code(0xA3, true), Keys::VkCtrl);
    // Extended-flag numeric-keypad codes remap onto dedicated numpad
    // symbols distinct from the top-row digits.
    assert_eq!(Keys::from_code(0x23, false), Keys::VkNumPad1);
    assert_eq!(Keys::from_code(0x23, true), Keys::VkEnd);
    assert_eq!(Keys::from_code(0x31, false), Keys::Vk1);
}

#[test]
fn name_round_trip_is_fixed_point() {
    let nameable = [
        Keys::VkRigelA,
        Keys::Vk0,
        Keys::Vk9,
        Keys::VkA,
        Keys::VkM,
        Keys::VkZ,
    ];
    for k in nameable {
        assert_eq!(Keys::from_name(&k.name()), k);
    }
    // Keys without a short name read `NoneKey`, which decodes to the
    // sentinel.
    assert_eq!(Keys::VkF1.name(), String::from("NoneKey"));
    assert_eq!(Keys::from_name("NoneKey"), Keys::VkNone);
    assert_eq!(Keys::VkNone.name(), String::from("None"));
}

#[test]
fn modifier_sets_combine_by_union() {
    let m = ModifierKeys::from_key(Keys::VkCtrl).union(ModifierKeys::from_key(Keys::VkShift));
    assert!(m.has(MOD_CTRL));
    assert!(m.has(MOD_SHIFT));
    assert!(!m.has(MOD_ALT));
    // Left/right variants contribute the same bit.
    assert_eq!(ModifierKeys::from_key(Keys::VkLshift).bits, MOD_SHIFT);
    assert_eq!(ModifierKeys::from_key(Keys::VkRshift).bits, MOD_SHIFT);
    // A non-modifier key contributes nothing.
    assert_eq!(ModifierKeys::from_key(Keys::VkA).bits, 0);
    assert!(Keys::VkRigelA.is_modifier());
    assert!(!Keys::VkA.is_modifier());
}

#[test]
fn combo_key_from_ordered_key_list() {
    let combo = ComboKey::from_keys(&[Keys::VkRigelA, Keys::VkCtrl, Keys::VkM]);
    assert_eq!(combo.main_key, Keys::VkM);
    assert!(combo.modify_keys.has(MOD_RIGELA));
    assert!(combo.modify_keys.has(MOD_CTRL));
    assert_eq!(combo.state, State::SinglePress);
    // Back to a key list: modifiers in canonical order, then the main key.
    let keys = combo.to_keys();
    assert_eq!(keys, vec![Keys::VkRigelA, Keys::VkCtrl, Keys::VkM]);
    // The last non-modifier key wins as the main key.
    let combo2 = ComboKey::from_keys(&[Keys::VkA, Keys::VkB]);
    assert_eq!(combo2.main_key, Keys::VkB);
}

#[test]
fn combo_key_display() {
    let combo = ComboKey::new(
        Keys::VkM,
        ModifierKeys::from_key(Keys::VkRigelA),
        State::SinglePress,
    );
    assert_eq!(combo.display_string(), String::from("RigelA+M"));
    let double = ComboKey::new(Keys::VkF12, ModifierKeys::empty(), State::DoublePress);
    assert_eq!(double.display_string(), String::from("NoneKey(Double)"));
}

#[test]
fn press_pattern_classification() {
    let mut manager = ComboKeysManage::new();
    let combo = ComboKey::new(
        Keys::VkM,
        ModifierKeys::from_key(Keys::VkRigelA),
        State::SinglePress,
    );
    // First activation: single press.
    assert_eq!(manager.process_combo_key(combo, 1000), State::SinglePress);
    // Again inside the window: double press.
    assert_eq!(
        manager.process_combo_key(combo, 1000 + DOUBLE_PRESS_WINDOW_MS - 1),
        State::DoublePress
    );
    // After the window elapsed: single press again.
    assert_eq!(
        manager.process_combo_key(combo, 1000 + 2 * DOUBLE_PRESS_WINDOW_MS),
        State::SinglePress
    );
    // A different chord never escalates.
    let other = ComboKey::new(Keys::VkA, ModifierKeys::empty(), State::SinglePress);
    assert_eq!(manager.process_combo_key(other, 1000 + 2 * DOUBLE_PRESS_WINDOW_MS + 1),
        State::SinglePress);
    // Held beyond the threshold: long press.
    let at = 1000 + 2 * DOUBLE_PRESS_WINDOW_MS + 1;
    assert!(!manager.check_long_press(other, at + LONG_PRESS_THRESHOLD_MS - 1));
    assert!(manager.check_long_press(other, at + LONG_PRESS_THRESHOLD_MS));
    // After a dispatch the pattern returns to idle.
    manager.reset();
    assert!(!manager.check_long_press(other, at + LONG_PRESS_THRESHOLD_MS));
    let wrapped = ComboKeyExt::from_combo(combo);
    assert_eq!(wrapped.timestamp, 0);
    assert_eq!(wrapped.count, 0);
}
