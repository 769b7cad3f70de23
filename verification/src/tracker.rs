use vstd::prelude::*;
use crate::keys::Keys;

verus! {

/// Whether some entry of `s` tracks the key `k`.
pub open spec fn spec_tracked(s: Seq<(Keys, bool)>, k: Keys) -> bool {
    exists|i: int| 0 <= i < s.len() && s[i].0 == k
}

/// Whether `k` currently reads as pressed in `s`; an untracked key reads as
/// released.
pub open spec fn spec_pressed(s: Seq<(Keys, bool)>, k: Keys) -> bool {
    exists|i: int| 0 <= i < s.len() && s[i].0 == k && s[i].1
}

/// Each key occurs in at most one entry of `s`.
pub open spec fn spec_keys_unique(s: Seq<(Keys, bool)>) -> bool {
    forall|i: int, j: int| 0 <= i < j < s.len() ==> s[i].0 != s[j].0
}

/// Live pressed/released state per key, built from raw hook transitions.
///
/// Entries persist for the lifetime of the tracker: a release updates the
/// entry to `false`, it never removes it.  The tracker carries no ordering
/// semantics among keys.
pub struct KeyStateTracker {
    entries: Vec<(Keys, bool)>,
}

impl KeyStateTracker {
    /// Each key is tracked by at most one entry.
    pub closed spec fn wf(self) -> bool {
        spec_keys_unique(self.entries@)
    }

    pub closed spec fn view(self) -> Seq<(Keys, bool)> {
        self.entries@
    }

    /// A tracker with no key pressed.
    pub fn new() -> (r: KeyStateTracker)
        ensures
            r.wf(),
            r@.len() == 0,
            forall|k: Keys| !spec_pressed(r@, k),
    {
        KeyStateTracker { entries: Vec::new() }
    }

    /// Record a raw transition: `k` now reads as `pressed`; every other key
    /// keeps its state.
    pub fn set_key(&mut self, k: Keys, pressed: bool)
        requires
            old(self).wf(),
        ensures
            final(self).wf(),
            spec_pressed(final(self)@, k) == pressed,
            spec_tracked(final(self)@, k),
            forall|k2: Keys|
                k2 != k ==> spec_pressed(final(self)@, k2) == spec_pressed(old(self)@, k2),
            forall|k2: Keys|
                k2 != k ==> spec_tracked(final(self)@, k2) == spec_tracked(old(self)@, k2),
    {
        let ghost s0 = self.entries@;
        proof {
            assert(spec_keys_unique(s0));
        }
        let n = self.entries.len();
        let mut i: usize = 0;
        while i < n
            invariant
                n == self.entries.len(),
                self.entries@ == s0,
                s0 == old(self)@,
                spec_keys_unique(s0),
                0 <= i <= n,
                forall|j: int| 0 <= j < i ==> s0[j].0 != k,
            decreases n - i,
        {
            if self.entries[i].0 == k {
                self.entries[i] = (k, pressed);
                proof {
                    let s1 = self.entries@;
                    assert(s1 =~= s0.update(i as int, (k, pressed)));
                    assert(s0[i as int].0 == k);
                    assert forall|w: int| 0 <= w < s1.len() implies s1[w].0 == s0[w].0 by {}
                    assert forall|w: int|
                        0 <= w < s0.len() && s0[w].0 == k implies w == i as int by {}
                    assert(spec_keys_unique(s1)) by {
                        assert forall|a: int, b: int|
                            0 <= a < b < s1.len() implies s1[a].0 != s1[b].0 by {
                            assert(s0[a].0 != s0[b].0);
                        }
                    }
                    assert(spec_pressed(s1, k) == pressed) by {
                        assert(s1[i as int].0 == k && s1[i as int].1 == pressed);
                        if !pressed {
                            assert forall|w: int|
                                0 <= w < s1.len() && s1[w].0 == k implies !s1[w].1 by {
                                assert(s0[w].0 == k);
                            }
                        }
                    }
                    assert forall|k2: Keys| k2 != k implies
                        spec_pressed(s1, k2) == spec_pressed(s0, k2)
                            && spec_tracked(s1, k2) == spec_tracked(s0, k2) by {
                        if spec_pressed(s0, k2) {
                            let w = choose|w: int|
                                0 <= w < s0.len() && s0[w].0 == k2 && s0[w].1;
                            assert(s1[w].0 == k2 && s1[w].1);
                        }
                        if spec_pressed(s1, k2) {
                            let w = choose|w: int|
                                0 <= w < s1.len() && s1[w].0 == k2 && s1[w].1;
                            assert(s0[w].0 == k2 && s0[w].1);
                        }
                        if spec_tracked(s0, k2) {
                            let w = choose|w: int| 0 <= w < s0.len() && s0[w].0 == k2;
                            assert(s1[w].0 == k2);
                        }
                        if spec_tracked(s1, k2) {
                            let w = choose|w: int| 0 <= w < s1.len() && s1[w].0 == k2;
                            assert(s0[w].0 == k2);
                        }
                    }
                }
                return;
            }
            i = i + 1;
        }
        self.entries.push((k, pressed));
        proof {
            let s1 = self.entries@;
            assert(s1 =~= s0.push((k, pressed)));
            assert(s1[s1.len() - 1].0 == k);
            assert(spec_keys_unique(s1)) by {
                assert forall|a: int, b: int|
                    0 <= a < b < s1.len() implies s1[a].0 != s1[b].0 by {
                    if b < s0.len() {
                        assert(s0[a].0 != s0[b].0);
                    } else {
                        assert(s0[a].0 != k);
                    }
                }
            }
            assert(spec_pressed(s1, k) == pressed) by {
                if !pressed {
                    assert forall|w: int|
                        0 <= w < s1.len() && s1[w].0 == k implies !s1[w].1 by {
                        if w < s0.len() {
                            assert(s0[w].0 != k);
                        }
                    }
                }
            }
            assert forall|k2: Keys| k2 != k implies
                spec_pressed(s1, k2) == spec_pressed(s0, k2)
                    && spec_tracked(s1, k2) == spec_tracked(s0, k2) by {
                if spec_pressed(s0, k2) {
                    let w = choose|w: int| 0 <= w < s0.len() && s0[w].0 == k2 && s0[w].1;
                    assert(s1[w].0 == k2 && s1[w].1);
                }
                if spec_pressed(s1, k2) {
                    let w = choose|w: int| 0 <= w < s1.len() && s1[w].0 == k2 && s1[w].1;
                    assert(w < s0.len());
                    assert(s0[w].0 == k2 && s0[w].1);
                }
                if spec_tracked(s0, k2) {
                    let w = choose|w: int| 0 <= w < s0.len() && s0[w].0 == k2;
                    assert(s1[w].0 == k2);
                }
                if spec_tracked(s1, k2) {
                    let w = choose|w: int| 0 <= w < s1.len() && s1[w].0 == k2;
                    assert(w < s0.len());
                    assert(s0[w].0 == k2);
                }
            }
        }
    }

    /// Current pressed state of `k`.
    pub fn is_pressed(&self, k: Keys) -> (r: bool)
        ensures
            r == spec_pressed(self@, k),
    {
        let n = self.entries.len();
        let mut i: usize = 0;
        while i < n
            invariant
                n == self.entries.len(),
                0 <= i <= n,
                forall|j: int| 0 <= j < i ==> !(self.entries@[j].0 == k && self.entries@[j].1),
            decreases n - i,
        {
            let (key, pressed) = self.entries[i];
            if key == k && pressed {
                return true;
            }
            i = i + 1;
        }
        false
    }

    /// The keys that currently read as pressed, in tracking order.
    pub fn pressed_keys(&self) -> (r: Vec<Keys>)
        ensures
            r@ == self@.filter(|e: (Keys, bool)| e.1).map_values(|e: (Keys, bool)| e.0),
    {
        let ghost pred = |e: (Keys, bool)| e.1;
        let ghost f = |e: (Keys, bool)| e.0;
        let n = self.entries.len();
        let mut out: Vec<Keys> = Vec::new();
        let mut i: usize = 0;
        while i < n
            invariant
                n == self.entries.len(),
                0 <= i <= n,
                pred == (|e: (Keys, bool)| e.1),
                f == (|e: (Keys, bool)| e.0),
                out@ == self@.take(i as int).filter(pred).map_values(f),
            decreases n - i,
        {
            let (key, pressed) = self.entries[i];
            let ghost out0 = out@;
            if pressed {
                out.push(key);
            }
            i = i + 1;
            proof {
                let t = self@.take(i - 1);
                let p = self@.take(i as int);
                let e = self@[i - 1];
                assert(p =~= t.push(e));
                assert(p.drop_last() =~= t);
                assert(p.last() == e);
                reveal(Seq::filter);
                if pred(e) {
                    assert(p.filter(pred) == t.filter(pred).push(e));
                    t.filter(pred).lemma_push_map_commute(f, e);
                    assert(out@ =~= out0.push(key));
                } else {
                    assert(p.filter(pred) == t.filter(pred));
                }
            }
        }
        proof {
            assert(self@.take(n as int) =~= self@);
        }
        out
    }
}

} // verus!
