use vstd::prelude::*;
use crate::combo::{ComboKey, ComboKeysManage};
use crate::configs::{HotKeysConfig, spec_override_for};
use crate::keys::{Keys, spec_is_modifier, spec_key_from_code};
use crate::talent::{CommandType, TalentAccessor, TalentEntry};
use crate::tracker::{KeyStateTracker, spec_pressed};

verus! {

/// What the keyboard interceptor does with a raw key event.
#[derive(Debug, Clone, Copy, PartialEq, Eq, Structural)]
pub enum KeyDecision {
    /// The event is consumed, and the capability at this registration index
    /// is handed to the task runtime; nothing else in the system sees the
    /// event.
    Dispatch(usize),
    /// The event is handed on to the rest of the interception chain.
    PassThrough,
}

/// What the mouse interceptor does with a movement sample.
#[derive(Debug, Clone, Copy, PartialEq, Eq, Structural)]
pub enum MouseDecision {
    /// The sample was accepted: the element under it is read out.  The
    /// event itself still passes through.
    Read,
    /// The sample is dropped and the event passes through untouched.
    Ignore,
}

/// Permissive superset matching: a chord is satisfied when every key of it
/// reads as pressed; keys pressed beyond the chord do not invalidate it.
pub open spec fn spec_chord_satisfied(s: Seq<(Keys, bool)>, keys: Seq<Keys>) -> bool {
    forall|i: int| 0 <= i < keys.len() ==> spec_pressed(s, keys[i])
}

/// The key list a declared chord demands: its canonical modifier keys, then
/// its main key.
pub open spec fn spec_combo_keys(c: ComboKey) -> Seq<Keys> {
    c.modify_keys.spec_keys().push(c.main_key)
}

/// Whether any keyboard chord declared by `t` is satisfied; declarations of
/// other kinds never match a key event.
pub open spec fn spec_default_match(t: TalentEntry, s: Seq<(Keys, bool)>) -> bool {
    exists|i: int|
        0 <= i < t.cmd_list@.len() && (#[trigger] t.cmd_list@[i] matches CommandType::Key(c)
            && spec_chord_satisfied(s, spec_combo_keys(c)))
}

/// Whether `t` matches the tracked state `s` under the overrides `o`: a
/// capability with a configured override is matched solely against the
/// override; only without one do its own declarations count.
pub open spec fn spec_effective_match(
    t: TalentEntry,
    o: Seq<(Seq<char>, Seq<Keys>)>,
    s: Seq<(Keys, bool)>,
) -> bool {
    match spec_override_for(o, t.id@) {
        Some(keys) => spec_chord_satisfied(s, keys),
        None => spec_default_match(t, s),
    }
}

/// The first index at or after `i` whose capability matches.
pub open spec fn spec_first_match_from(
    ts: Seq<TalentEntry>,
    o: Seq<(Seq<char>, Seq<Keys>)>,
    s: Seq<(Keys, bool)>,
    i: int,
) -> Option<int>
    decreases ts.len() - i,
{
    if i < 0 || i >= ts.len() {
        None
    } else if spec_effective_match(ts[i], o, s) {
        Some(i)
    } else {
        spec_first_match_from(ts, o, s, i + 1)
    }
}

/// The capability that wins a key event: the first one, in registration
/// order, whose effective chord is satisfied.
pub open spec fn spec_winner(
    ts: Seq<TalentEntry>,
    o: Seq<(Seq<char>, Seq<Keys>)>,
    s: Seq<(Keys, bool)>,
) -> Option<int> {
    spec_first_match_from(ts, o, s, 0)
}

/// Whether every key of `keys` currently reads as pressed.
pub fn match_keys(keys: &[Keys], tracker: &KeyStateTracker) -> (r: bool)
    ensures
        r == spec_chord_satisfied(tracker@, keys@),
{
    let n = keys.len();
    let mut i: usize = 0;
    while i < n
        invariant
            n == keys@.len(),
            0 <= i <= n,
            forall|j: int| 0 <= j < i ==> spec_pressed(tracker@, keys@[j]),
        decreases n - i,
    {
        if !tracker.is_pressed(keys[i]) {
            return false;
        }
        i = i + 1;
    }
    true
}

/// Whether any keyboard chord declared by `talent` is satisfied.
pub fn match_cmd_list(talent: &TalentEntry, tracker: &KeyStateTracker) -> (r: bool)
    ensures
        r == spec_default_match(*talent, tracker@),
{
    let n = talent.cmd_list.len();
    let mut i: usize = 0;
    while i < n
        invariant
            n == talent.cmd_list@.len(),
            0 <= i <= n,
            forall|j: int|
                0 <= j < i ==> !(#[trigger] talent.cmd_list@[j] matches CommandType::Key(c)
                    && spec_chord_satisfied(tracker@, spec_combo_keys(c))),
        decreases n - i,
    {
        let cmd = talent.cmd_list[i];
        if let CommandType::Key(c) = cmd {
            let keys = c.to_keys();
            if match_keys(keys.as_slice(), tracker) {
                return true;
            }
        }
        i = i + 1;
    }
    false
}

/// The first registered capability whose effective chord is satisfied.
pub fn match_talents(
    talents: &TalentAccessor,
    overrides: &HotKeysConfig,
    tracker: &KeyStateTracker,
) -> (r: Option<usize>)
    ensures
        r matches Some(i) ==> spec_winner(
            talents.talents@,
            overrides@,
            tracker@,
        ) == Some(i as int),
        r is None ==> spec_winner(talents.talents@, overrides@, tracker@) is None,
{
    let ghost ts = talents.talents@;
    let ghost o = overrides@;
    let ghost s = tracker@;
    let n = talents.talents.len();
    let mut i: usize = 0;
    while i < n
        invariant
            n == talents.talents@.len(),
            ts == talents.talents@,
            o == overrides@,
            s == tracker@,
            0 <= i <= n,
            spec_winner(ts, o, s) == spec_first_match_from(ts, o, s, i as int),
        decreases n - i,
    {
        let t = &talents.talents[i];
        let matched = match overrides.get(t.id.as_str()) {
            Some(keys) => match_keys(keys.as_slice(), tracker),
            None => match_cmd_list(t, tracker),
        };
        if matched {
            proof {
                assert(spec_effective_match(ts[i as int], o, s));
                assert(spec_first_match_from(ts, o, s, i as int) == Some(i as int));
            }
            return Some(i);
        }
        proof {
            assert(!spec_effective_match(ts[i as int], o, s));
            assert(spec_first_match_from(ts, o, s, i as int) == spec_first_match_from(
                ts,
                o,
                s,
                i + 1,
            ));
        }
        i = i + 1;
    }
    None
}

/// The squared Euclidean distance between two samples.
pub open spec fn spec_dist2(a: (i32, i32), b: (i32, i32)) -> int {
    (b.0 - a.0) * (b.0 - a.0) + (b.1 - a.1) * (b.1 - a.1)
}

/// The decision a key event gets, given the capability list, the overrides
/// and the tracked state after the event was folded in.  Only a fresh "key
/// went down" transition can dispatch: releases, and repeats of a key that
/// already reads as pressed, pass through.
pub open spec fn spec_key_decision(
    ts: Seq<TalentEntry>,
    o: Seq<(Seq<char>, Seq<Keys>)>,
    s1: Seq<(Keys, bool)>,
    was_pressed: bool,
    pressed: bool,
) -> KeyDecision {
    if !pressed || was_pressed {
        KeyDecision::PassThrough
    } else {
        match spec_winner(ts, o, s1) {
            Some(i) => KeyDecision::Dispatch(i as usize),
            None => KeyDecision::PassThrough,
        }
    }
}

/// The input-capture front end: tracks key state, owns the interceptor
/// lifecycle, selects the winning capability for each key transition, and
/// gates mouse samples by distance.
///
/// The caller runs the OS interception loop and the task runtime: it hands
/// every raw event in and acts on the decision handed back, so that nothing
/// here ever blocks the input-dispatch chain.
pub struct Commander {
    /// Whether the keyboard interceptor is installed.
    pub keyboard_hook: bool,
    /// Whether the mouse interceptor is installed.
    pub mouse_hook: bool,
    /// The last non-modifier key that was pressed without activating a
    /// capability; consulted by unrelated subsystems.
    pub last_pressed_key: Keys,
    /// Raw chord subscriptions: each key list is watched on behalf of the
    /// listener registered under the token.
    pub key_callback_fns: Vec<(Vec<Keys>, u64)>,
    /// Press-pattern state for chord activations.
    pub combo_key_manager: ComboKeysManage,
    /// Live pressed state per key.
    pub tracker: KeyStateTracker,
    /// The last accepted mouse sample.
    pub old_point: (i32, i32),
}

impl Commander {
    /// A commander with no interceptor installed and nothing tracked yet.
    pub fn new() -> (r: Commander)
        ensures
            !r.keyboard_hook,
            !r.mouse_hook,
            r.last_pressed_key == Keys::VkNone,
            r.key_callback_fns@.len() == 0,
            r.combo_key_manager.current is None,
            r.tracker.wf(),
            forall|k: Keys| !spec_pressed(r.tracker@, k),
            r.old_point == (0i32, 0i32),
    {
        Commander {
            keyboard_hook: false,
            mouse_hook: false,
            last_pressed_key: Keys::VkNone,
            key_callback_fns: Vec::new(),
            combo_key_manager: ComboKeysManage::new(),
            tracker: KeyStateTracker::new(),
            old_point: (0, 0),
        }
    }

    /// Install both interceptors.  Installing again changes nothing: each
    /// hook is created once at startup.
    pub fn apply(&mut self)
        ensures
            final(self).keyboard_hook,
            final(self).mouse_hook,
            final(self).last_pressed_key == old(self).last_pressed_key,
            final(self).key_callback_fns == old(self).key_callback_fns,
            final(self).combo_key_manager == old(self).combo_key_manager,
            final(self).tracker == old(self).tracker,
            final(self).old_point == old(self).old_point,
    {
        self.keyboard_hook = true;
        self.mouse_hook = true;
    }

    /// Remove both interceptors.  Calling without installed interceptors is
    /// a programming error: callers guard with a presence check.
    pub fn dispose(&mut self)
        requires
            old(self).keyboard_hook,
            old(self).mouse_hook,
        ensures
            !final(self).keyboard_hook,
            !final(self).mouse_hook,
            final(self).last_pressed_key == old(self).last_pressed_key,
            final(self).key_callback_fns == old(self).key_callback_fns,
            final(self).combo_key_manager == old(self).combo_key_manager,
            final(self).tracker == old(self).tracker,
            final(self).old_point == old(self).old_point,
    {
        self.keyboard_hook = false;
        self.mouse_hook = false;
    }

    /// The last non-modifier key pressed without activating a capability.
    pub fn get_last_pressed_key(&self) -> (r: Keys)
        ensures
            r == self.last_pressed_key,
    {
        self.last_pressed_key
    }

    /// Record a key as the last one pressed.
    pub fn set_last_pressed_key(&mut self, key: Keys)
        ensures
            final(self).last_pressed_key == key,
            final(self).keyboard_hook == old(self).keyboard_hook,
            final(self).mouse_hook == old(self).mouse_hook,
            final(self).key_callback_fns == old(self).key_callback_fns,
            final(self).combo_key_manager == old(self).combo_key_manager,
            final(self).tracker == old(self).tracker,
            final(self).old_point == old(self).old_point,
    {
        self.last_pressed_key = key;
    }

    /// Subscribe the listener registered under `listener_id` to raw
    /// activity of the chord `keys`, without registering a capability.
    pub fn add_key_event_listener(&mut self, keys: &[Keys], listener_id: u64)
        ensures
            final(self).key_callback_fns@.len() == old(self).key_callback_fns@.len() + 1,
            final(self).key_callback_fns@.last().0@ == keys@,
            final(self).key_callback_fns@.last().1 == listener_id,
            forall|j: int|
                0 <= j < old(self).key_callback_fns@.len() ==> final(self).key_callback_fns@[j]
                    == old(self).key_callback_fns@[j],
            final(self).keyboard_hook == old(self).keyboard_hook,
            final(self).mouse_hook == old(self).mouse_hook,
            final(self).last_pressed_key == old(self).last_pressed_key,
            final(self).combo_key_manager == old(self).combo_key_manager,
            final(self).tracker == old(self).tracker,
            final(self).old_point == old(self).old_point,
    {
        let list = crate::configs::copy_keys_slice(keys);
        self.key_callback_fns.push((list, listener_id));
    }

    /// Every raw chord subscription, in registration order.
    pub fn get_key_callback_fns(&self) -> (r: &Vec<(Vec<Keys>, u64)>)
        ensures
            r@ == self.key_callback_fns@,
    {
        &self.key_callback_fns
    }

    /// The last accepted mouse sample.
    pub fn get_old_point(&self) -> (r: (i32, i32))
        ensures
            r == self.old_point,
    {
        self.old_point
    }

    /// Fold a raw keyboard transition into the tracked state and decide
    /// what happens to the event.
    ///
    /// The tracked state is updated first; a release or a repeat of an
    /// already-pressed key then passes through.  On a fresh press, the
    /// first capability in registration order whose effective chord is
    /// satisfied wins and is dispatched; with no winner the key is recorded
    /// as the last pressed key (unless it is a modifier) and the event
    /// passes through.  The caller invokes the continuation only after this
    /// returns, so no shared state is held across that call.
    pub fn process_key_event(
        &mut self,
        talents: &TalentAccessor,
        overrides: &HotKeysConfig,
        code: u32,
        ext: bool,
        pressed: bool,
    ) -> (r: KeyDecision)
        requires
            old(self).tracker.wf(),
        ensures
            final(self).tracker.wf(),
            forall|k2: Keys|
                spec_pressed(final(self).tracker@, k2) == (if k2 == spec_key_from_code(
                    code,
                    ext,
                ) {
                    pressed
                } else {
                    spec_pressed(old(self).tracker@, k2)
                }),
            r == spec_key_decision(
                talents.talents@,
                overrides@,
                final(self).tracker@,
                spec_pressed(old(self).tracker@, spec_key_from_code(code, ext)),
                pressed,
            ),
            final(self).last_pressed_key == (if pressed && !spec_pressed(
                old(self).tracker@,
                spec_key_from_code(code, ext),
            ) && spec_winner(talents.talents@, overrides@, final(self).tracker@) is None
                && !spec_is_modifier(spec_key_from_code(code, ext)) {
                spec_key_from_code(code, ext)
            } else {
                old(self).last_pressed_key
            }),
            final(self).keyboard_hook == old(self).keyboard_hook,
            final(self).mouse_hook == old(self).mouse_hook,
            final(self).key_callback_fns == old(self).key_callback_fns,
            final(self).combo_key_manager == old(self).combo_key_manager,
            final(self).old_point == old(self).old_point,
    {
        let k = Keys::from_code(code, ext);
        let was_pressed = self.tracker.is_pressed(k);
        self.tracker.set_key(k, pressed);
        if !pressed || was_pressed {
            return KeyDecision::PassThrough;
        }
        match match_talents(talents, overrides, &self.tracker) {
            Some(i) => KeyDecision::Dispatch(i),
            None => {
                if !k.is_modifier() {
                    self.last_pressed_key = k;
                }
                KeyDecision::PassThrough
            },
        }
    }

    /// Gate a mouse sample by squared distance from the last accepted one.
    ///
    /// Samples arrive only while mouse reading is on and the event is a
    /// movement; a sample closer than ten pixels to the last accepted one
    /// is dropped without touching it.  Every event passes through either
    /// way.
    pub fn process_mouse_move(
        &mut self,
        x: i32,
        y: i32,
        is_mouse_move: bool,
        is_read: bool,
    ) -> (r: MouseDecision)
        ensures
            r == (if is_read && is_mouse_move && spec_dist2(old(self).old_point, (x, y))
                >= 100 {
                MouseDecision::Read
            } else {
                MouseDecision::Ignore
            }),
            final(self).old_point == (if r == MouseDecision::Read {
                (x, y)
            } else {
                old(self).old_point
            }),
            final(self).keyboard_hook == old(self).keyboard_hook,
            final(self).mouse_hook == old(self).mouse_hook,
            final(self).last_pressed_key == old(self).last_pressed_key,
            final(self).key_callback_fns == old(self).key_callback_fns,
            final(self).combo_key_manager == old(self).combo_key_manager,
            final(self).tracker == old(self).tracker,
    {
        if !is_read || !is_mouse_move {
            return MouseDecision::Ignore;
        }
        let (old_x, old_y) = self.old_point;
        let dx: i64 = x as i64 - old_x as i64;
        let dy: i64 = y as i64 - old_y as i64;
        let dxl: i128 = dx as i128;
        let dyl: i128 = dy as i128;
        proof {
            assert(dxl * dxl <= 0x10000000000000000i128 && dxl * dxl >= 0) by (nonlinear_arith)
                requires -0x100000000i128 <= dxl <= 0x100000000i128;
            assert(dyl * dyl <= 0x10000000000000000i128 && dyl * dyl >= 0) by (nonlinear_arith)
                requires -0x100000000i128 <= dyl <= 0x100000000i128;
        }
        let d2: i128 = dxl * dxl + dyl * dyl;
        if d2 < 100 {
            return MouseDecision::Ignore;
        }
        self.old_point = (x, y);
        MouseDecision::Read
    }
}


/// Superset matching is monotone: a chord satisfied under one tracked state
/// stays satisfied under any state where at least the same keys read as
/// pressed, whatever else is pressed besides.
pub proof fn lemma_superset_match(
    s1: Seq<(Keys, bool)>,
    s2: Seq<(Keys, bool)>,
    keys: Seq<Keys>,
)
    requires
        spec_chord_satisfied(s1, keys),
        forall|k: Keys| spec_pressed(s1, k) ==> spec_pressed(s2, k),
    ensures
        spec_chord_satisfied(s2, keys),
{
    assert forall|i: int| 0 <= i < keys.len() implies spec_pressed(s2, keys[i]) by {
        assert(spec_pressed(s1, keys[i]));
    }
}

/// The winner starting from `start` is no later than any matching index.
proof fn lemma_first_match_le(
    ts: Seq<TalentEntry>,
    o: Seq<(Seq<char>, Seq<Keys>)>,
    s: Seq<(Keys, bool)>,
    start: int,
    i: int,
)
    requires
        0 <= start <= i < ts.len(),
        spec_effective_match(ts[i], o, s),
    ensures
        spec_first_match_from(ts, o, s, start) matches Some(w) && start <= w <= i,
    decreases i - start,
{
    if !spec_effective_match(ts[start], o, s) {
        lemma_first_match_le(ts, o, s, start + 1, i);
    }
}

/// Registration order breaks ties: when two capabilities match at once, the
/// winner is never the later one, whatever the chords' specificity.
pub proof fn lemma_registration_order_tie_break(
    ts: Seq<TalentEntry>,
    o: Seq<(Seq<char>, Seq<Keys>)>,
    s: Seq<(Keys, bool)>,
    i: int,
    j: int,
)
    requires
        0 <= i < j < ts.len(),
        spec_effective_match(ts[i], o, s),
        spec_effective_match(ts[j], o, s),
    ensures
        spec_winner(ts, o, s) matches Some(w) && w <= i,
        spec_winner(ts, o, s) != Some(j),
{
    lemma_first_match_le(ts, o, s, 0, i);
}

/// Override precedence: a capability with a configured override is matched
/// solely against it.  While the override is unsatisfied the capability
/// never matches, even when one of its own declared chords is satisfied.
pub proof fn lemma_override_precedence(
    t: TalentEntry,
    o: Seq<(Seq<char>, Seq<Keys>)>,
    s: Seq<(Keys, bool)>,
)
    requires
        spec_override_for(o, t.id@) matches Some(keys) && !spec_chord_satisfied(s, keys),
    ensures
        !spec_effective_match(t, o, s),
{
}


/// What the winner means: a winning index is in range, matches, and nothing
/// registered earlier matches; and there is no winner exactly when no
/// registered capability matches at all.
pub proof fn lemma_winner_characterization(
    ts: Seq<TalentEntry>,
    o: Seq<(Seq<char>, Seq<Keys>)>,
    s: Seq<(Keys, bool)>,
)
    ensures
        match spec_winner(ts, o, s) {
            Some(w) => 0 <= w < ts.len() && spec_effective_match(ts[w], o, s) && forall|j: int|
                0 <= j < w ==> !spec_effective_match(ts[j], o, s),
            None => forall|i: int| 0 <= i < ts.len() ==> !spec_effective_match(ts[i], o, s),
        },
{
    lemma_winner_characterization_from(ts, o, s, 0);
}

/// The scan from `start` finds the first match at or after `start`.
proof fn lemma_winner_characterization_from(
    ts: Seq<TalentEntry>,
    o: Seq<(Seq<char>, Seq<Keys>)>,
    s: Seq<(Keys, bool)>,
    start: int,
)
    requires
        0 <= start,
    ensures
        match spec_first_match_from(ts, o, s, start) {
            Some(w) => start <= w < ts.len() && spec_effective_match(ts[w], o, s) && forall|
                j: int,
            | start <= j < w ==> !spec_effective_match(ts[j], o, s),
            None => forall|i: int| start <= i < ts.len() ==> !spec_effective_match(ts[i], o, s),
        },
    decreases ts.len() - start,
{
    if start < ts.len() && !spec_effective_match(ts[start], o, s) {
        lemma_winner_characterization_from(ts, o, s, start + 1);
    }
}

} // verus!
