use vstd::prelude::*;
use crate::keys::{Keys, spec_is_modifier, spec_key_name};
use crate::modifiers::{ModifierKeys, spec_mod_mask, MOD_RIGELA, MOD_CTRL, MOD_SHIFT, MOD_ALT,
    MOD_WIN};

verus! {

/// How many milliseconds after an activation a second activation of the same
/// chord still counts as a double press.
pub const DOUBLE_PRESS_WINDOW_MS: u64 = 500;

/// How many milliseconds a chord must be held without release before the
/// activation counts as a long press.
pub const LONG_PRESS_THRESHOLD_MS: u64 = 1000;

/// Classification of a chord activation by its press pattern.
#[derive(Debug, Clone, Copy, PartialEq, Eq, Structural, Hash)]
pub enum State {
    Idle,
    SinglePress,
    DoublePress,
    LongPress,
}

impl Default for State {
    fn default() -> (r: Self)
        ensures
            r == State::Idle,
    {
        State::Idle
    }
}

/// The modifier bits accumulated over a key list.
pub open spec fn spec_mods_of(keys: Seq<Keys>) -> u8
    decreases keys.len(),
{
    if keys.len() == 0 {
        0u8
    } else {
        spec_mods_of(keys.drop_last()) | spec_mod_mask(keys.last())
    }
}

/// The main key of a key list: the last non-modifier key, or the sentinel
/// when the list holds none.
pub open spec fn spec_main_of(keys: Seq<Keys>) -> Keys
    decreases keys.len(),
{
    if keys.len() == 0 {
        Keys::VkNone
    } else if !spec_is_modifier(keys.last()) {
        keys.last()
    } else {
        spec_main_of(keys.drop_last())
    }
}

/// An immutable chord: a main key, a set of modifiers that must be held with
/// it, and the press pattern under which it is declared.
#[derive(Debug, Clone, Copy, PartialEq, Eq, Structural, Hash)]
pub struct ComboKey {
    pub main_key: Keys,
    pub modify_keys: ModifierKeys,
    pub state: State,
}

impl ComboKey {
    pub fn new(main_key: Keys, modify_keys: ModifierKeys, state: State) -> (r: ComboKey)
        ensures
            r.main_key == main_key,
            r.modify_keys == modify_keys,
            r.state == state,
    {
        ComboKey { main_key, modify_keys, state }
    }

    /// Build a chord from an ordered key list: modifier keys accumulate into
    /// the modifier set, the last non-modifier key becomes the main key, and
    /// the pattern is a single press.
    pub fn from_keys(keys: &[Keys]) -> (r: ComboKey)
        ensures
            r.main_key == spec_main_of(keys@),
            r.modify_keys.bits == spec_mods_of(keys@),
            r.state == State::SinglePress,
    {
        let mut mdf = ModifierKeys::empty();
        let mut main = Keys::VkNone;
        let n = keys.len();
        let mut i: usize = 0;
        while i < n
            invariant
                n == keys@.len(),
                0 <= i <= n,
                mdf.bits == spec_mods_of(keys@.take(i as int)),
                main == spec_main_of(keys@.take(i as int)),
            decreases n - i,
        {
            let k = keys[i];
            proof {
                let t = keys@.take(i + 1);
                assert(t.drop_last() =~= keys@.take(i as int));
                assert(t.last() == keys@[i as int]);
            }
            if k.is_modifier() {
                mdf = mdf.union(ModifierKeys::from_key(k));
            } else {
                main = k;
                proof {
                    assert(spec_mod_mask(k) == 0);
                    assert(mdf.bits | 0u8 == mdf.bits) by (bit_vector);
                }
            }
            i = i + 1;
        }
        proof {
            assert(keys@.take(n as int) =~= keys@);
        }
        ComboKey::new(main, mdf, State::SinglePress)
    }

    /// The ordered key list of this chord: the canonical modifier keys, then
    /// the main key.
    pub fn to_keys(&self) -> (r: Vec<Keys>)
        ensures
            r@ == self.modify_keys.spec_keys().push(self.main_key),
    {
        let mut keys: Vec<Keys> = self.modify_keys.to_keys();
        keys.push(self.main_key);
        keys
    }

    /// The display label of this chord, such as `RigelA+M` or `F12(Double)`.
    pub fn display_string(&self) -> (r: String)
        ensures
            r@ == spec_mods_label(self.modify_keys) + spec_key_name(self.main_key)
                + spec_state_label(self.state),
    {
        let mods = mods_label(self.modify_keys);
        let with_main = mods.concat(self.main_key.name().as_str());
        with_main.concat(state_label(self.state))
    }
}

/// The display suffix of a press pattern.
pub open spec fn spec_state_label(s: State) -> Seq<char> {
    match s {
        State::DoublePress => "(Double)"@,
        State::LongPress => "(Long)"@,
        _ => ""@,
    }
}

fn state_label(s: State) -> (r: &'static str)
    ensures
        r@ == spec_state_label(s),
{
    match s {
        State::DoublePress => "(Double)",
        State::LongPress => "(Long)",
        _ => "",
    }
}

/// The display prefix listing each present modifier followed by `+`.
pub open spec fn spec_mods_label(m: ModifierKeys) -> Seq<char> {
    let a: Seq<char> = if m.bits & MOD_RIGELA == MOD_RIGELA { "RigelA+"@ } else { ""@ };
    let b: Seq<char> = if m.bits & MOD_CTRL == MOD_CTRL { "Ctrl+"@ } else { ""@ };
    let c: Seq<char> = if m.bits & MOD_SHIFT == MOD_SHIFT { "Shift+"@ } else { ""@ };
    let d: Seq<char> = if m.bits & MOD_ALT == MOD_ALT { "Alt+"@ } else { ""@ };
    let e: Seq<char> = if m.bits & MOD_WIN == MOD_WIN { "Win+"@ } else { ""@ };
    a + b + c + d + e
}

fn mods_label(m: ModifierKeys) -> (r: String)
    ensures
        r@ == spec_mods_label(m),
{
    let mut s = String::new();
    if m.has(MOD_RIGELA) {
        s = s.concat("RigelA+");
    }
    if m.has(MOD_CTRL) {
        s = s.concat("Ctrl+");
    }
    if m.has(MOD_SHIFT) {
        s = s.concat("Shift+");
    }
    if m.has(MOD_ALT) {
        s = s.concat("Alt+");
    }
    if m.has(MOD_WIN) {
        s = s.concat("Win+");
    }
    proof {
        reveal_strlit("");
        reveal_strlit("RigelA+");
        reveal_strlit("Ctrl+");
        reveal_strlit("Shift+");
        reveal_strlit("Alt+");
        reveal_strlit("Win+");
        assert(s@ =~= spec_mods_label(m));
    }
    s
}

/// A chord together with its last activation timestamp and activation count,
/// used to classify double and long presses.
#[derive(Debug, Clone, Copy, PartialEq, Eq, Structural, Hash)]
pub struct ComboKeyExt {
    pub combokey: ComboKey,
    pub timestamp: u64,
    pub count: u32,
}

impl ComboKeyExt {
    /// Wrap a chord that has not been activated yet.
    pub fn from_combo(combokey: ComboKey) -> (r: ComboKeyExt)
        ensures
            r.combokey == combokey,
            r.timestamp == 0,
            r.count == 0,
    {
        ComboKeyExt { combokey, timestamp: 0, count: 0 }
    }
}

/// Whether two chords press the same keys, whatever pattern they declare.
pub open spec fn spec_same_chord(a: ComboKey, b: ComboKey) -> bool {
    a.main_key == b.main_key && a.modify_keys == b.modify_keys
}

/// Press-pattern tracking for chord activations.
///
/// The tracked pattern starts idle; a first activation of a chord counts as
/// a single press; a second activation of the identical chord within the
/// double-press window escalates to a double press; holding a chord beyond
/// the long-press threshold without release escalates to a long press.  All
/// windows are evaluated lazily against the timestamps handed in: no timer
/// runs.
pub struct ComboKeysManage {
    pub current: Option<ComboKeyExt>,
}

impl ComboKeysManage {
    pub fn new() -> (r: ComboKeysManage)
        ensures
            r.current is None,
    {
        ComboKeysManage { current: None }
    }

    /// Whether this activation repeats the chord of the previous activation
    /// within the double-press window.
    pub open spec fn spec_is_double(self, combo: ComboKey, now_ms: u64) -> bool {
        match self.current {
            Some(e) => spec_same_chord(e.combokey, combo) && e.timestamp <= now_ms
                < e.timestamp + DOUBLE_PRESS_WINDOW_MS,
            None => false,
        }
    }

    /// Classify an activation of `combo` at `now_ms` and record it.
    pub fn process_combo_key(&mut self, combo: ComboKey, now_ms: u64) -> (r: State)
        ensures
            r == if old(self).spec_is_double(combo, now_ms) {
                State::DoublePress
            } else {
                State::SinglePress
            },
            final(self).current matches Some(e) && e.combokey == combo && e.timestamp == now_ms,
            final(self).current matches Some(e) && e.count == (
                if old(self).spec_is_double(combo, now_ms) {
                    let p = old(self).current.unwrap().count;
                    if p < u32::MAX { (p + 1) as u32 } else { p }
                } else {
                    1u32
                }
            ),
    {
        match self.current {
            Some(e) if e.combokey.main_key == combo.main_key && e.combokey.modify_keys
                == combo.modify_keys && e.timestamp <= now_ms && now_ms - e.timestamp
                < DOUBLE_PRESS_WINDOW_MS => {
                let count = if e.count < u32::MAX {
                    e.count + 1
                } else {
                    e.count
                };
                self.current = Some(ComboKeyExt { combokey: combo, timestamp: now_ms, count });
                State::DoublePress
            },
            _ => {
                self.current = Some(ComboKeyExt { combokey: combo, timestamp: now_ms, count: 1 });
                State::SinglePress
            },
        }
    }

    /// Whether the chord of the last activation, still held at `now_ms`, has
    /// crossed the long-press threshold.
    pub fn check_long_press(&self, combo: ComboKey, now_ms: u64) -> (r: bool)
        ensures
            r == match self.current {
                Some(e) => spec_same_chord(e.combokey, combo) && e.timestamp <= now_ms
                    && now_ms - e.timestamp >= LONG_PRESS_THRESHOLD_MS,
                None => false,
            },
    {
        match self.current {
            Some(e) => e.combokey.main_key == combo.main_key && e.combokey.modify_keys
                == combo.modify_keys && e.timestamp <= now_ms && now_ms - e.timestamp
                >= LONG_PRESS_THRESHOLD_MS,
            None => false,
        }
    }

    /// Forget the tracked activation: the pattern returns to idle, as after a
    /// dispatch or an elapsed window.
    pub fn reset(&mut self)
        ensures
            final(self).current is None,
    {
        self.current = None;
    }
}

} // verus!
