use vstd::prelude::*;
use crate::keys::Keys;

verus! {

/// A semantic event published into the hub, distinct from raw input.
#[derive(Debug, Clone, Copy, PartialEq, Eq, Structural)]
pub enum Event {
    CursorKey(Keys),
    LockKey(u16),
}

/// The text unit a caret movement is read in.
#[derive(Debug, Clone, Copy, PartialEq, Eq, Structural)]
pub enum TextUnitKind {
    Line,
    Character,
}

/// The unit caret navigation is read in: whole lines after a vertical cursor
/// key, single characters after anything else.
pub fn text_unit_for_key(last_key: Keys) -> (r: TextUnitKind)
    ensures
        r == if last_key == Keys::VkUp || last_key == Keys::VkDown {
            TextUnitKind::Line
        } else {
            TextUnitKind::Character
        },
{
    match last_key {
        Keys::VkUp | Keys::VkDown => TextUnitKind::Line,
        _ => TextUnitKind::Character,
    }
}

/// A recency record: an event fingerprint and when it last passed through.
pub struct EventItem {
    pub same: String,
    pub time: u64,
}

/// Whether a record made at `time` still counts as recent at `now_ms`.  A
/// record from the future counts as recent.
pub open spec fn spec_recent(time: u64, now_ms: u64, interval_ms: u64) -> bool {
    if now_ms >= time {
        now_ms - time < interval_ms
    } else {
        true
    }
}

/// Whether a fingerprint equal to `same` was recorded in `s` and is still
/// recent at `now_ms`.
pub open spec fn spec_should_ignore(
    s: Seq<(Seq<char>, u64)>,
    same: Seq<char>,
    now_ms: u64,
    interval_ms: u64,
) -> bool {
    exists|i: int|
        0 <= i < s.len() && s[i].0 == same && spec_recent(s[i].1, now_ms, interval_ms)
}

/// The recency list after an allowed event: every record of `same` is gone
/// and a fresh record is appended.
pub open spec fn spec_after_allow(
    s: Seq<(Seq<char>, u64)>,
    same: Seq<char>,
    now_ms: u64,
) -> Seq<(Seq<char>, u64)> {
    s.filter(|e: (Seq<char>, u64)| e.0 != same).push((same, now_ms))
}

/// Publish/subscribe hub for semantic events, with time-windowed
/// de-duplication by fingerprint.
///
/// The recency list holds one record per distinct fingerprint ever seen; it
/// is never trimmed, so it grows with the number of distinct fingerprints,
/// by design.
pub struct EventCore {
    filter: Vec<EventItem>,
}

impl EventCore {
    /// Each fingerprint has at most one record.
    pub closed spec fn wf(self) -> bool {
        forall|i: int, j: int|
            0 <= i < j < self.filter@.len() ==> self.filter@[i].same@ != self.filter@[j].same@
    }

    pub closed spec fn view(self) -> Seq<(Seq<char>, u64)> {
        self.filter@.map_values(|e: EventItem| (e.same@, e.time))
    }

    /// A hub that has seen no event.
    pub fn new() -> (r: EventCore)
        ensures
            r.wf(),
            r@.len() == 0,
    {
        EventCore { filter: Vec::new() }
    }

    /// Given an event's fingerprint at time `now_ms`, decide whether the
    /// event repeats a recent one and should be ignored.
    ///
    /// When the event is suppressed the recency list stays as it was; when
    /// it is allowed through, the old record of this fingerprint is evicted
    /// and a fresh one is appended.
    pub fn should_ignore_at(&mut self, same: &str, now_ms: u64, interval_ms: u64) -> (r: bool)
        requires
            old(self).wf(),
        ensures
            final(self).wf(),
            r == spec_should_ignore(old(self)@, same@, now_ms, interval_ms),
            r ==> final(self)@ == old(self)@,
            !r ==> final(self)@ == spec_after_allow(old(self)@, same@, now_ms),
    {
        let t: String = same.to_owned();
        let ghost v0 = self@;
        let n = self.filter.len();
        let mut i: usize = 0;
        while i < n
            invariant
                n == self.filter@.len(),
                0 <= i <= n,
                t@ == same@,
                v0 == self@,
                v0 == old(self)@,
                self.filter@ == old(self).filter@,
                old(self).wf(),
                forall|j: int|
                    0 <= j < i ==> !(v0[j].0 == same@ && spec_recent(
                        v0[j].1,
                        now_ms,
                        interval_ms,
                    )),
            decreases n - i,
        {
            let recent = if now_ms >= self.filter[i].time {
                now_ms - self.filter[i].time < interval_ms
            } else {
                true
            };
            if self.filter[i].same == t && recent {
                proof {
                    assert(v0[i as int] == (self.filter@[i as int].same@,
                        self.filter@[i as int].time));
                    assert(spec_should_ignore(v0, same@, now_ms, interval_ms));
                }
                return true;
            }
            i = i + 1;
        }
        let ghost pred = |e: (Seq<char>, u64)| e.0 != same@;
        let mut kept: Vec<EventItem> = Vec::new();
        let mut j: usize = 0;
        while j < n
            invariant
                n == self.filter@.len(),
                0 <= j <= n,
                t@ == same@,
                v0 == self@,
                v0 == old(self)@,
                self.filter@ == old(self).filter@,
                pred == (|e: (Seq<char>, u64)| e.0 != same@),
                kept@.map_values(|e: EventItem| (e.same@, e.time)) == v0.take(j as int).filter(
                    pred,
                ),
            decreases n - j,
        {
            let item_same = self.filter[j].same.clone();
            let item_time = self.filter[j].time;
            let ghost kept0 = kept@.map_values(|e: EventItem| (e.same@, e.time));
            if !(item_same == t) {
                kept.push(EventItem { same: item_same, time: item_time });
            }
            j = j + 1;
            proof {
                let tk = v0.take(j - 1);
                let p = v0.take(j as int);
                let e = v0[j - 1];
                assert(p =~= tk.push(e));
                assert(p.drop_last() =~= tk);
                reveal(Seq::filter);
                if pred(e) {
                    assert(p.filter(pred) == tk.filter(pred).push(e));
                    assert(kept@.map_values(|x: EventItem| (x.same@, x.time)) =~= kept0.push(e));
                } else {
                    assert(p.filter(pred) == tk.filter(pred));
                    assert(kept@.map_values(|x: EventItem| (x.same@, x.time)) =~= kept0);
                }
            }
        }
        kept.push(EventItem { same: t, time: now_ms });
        self.filter = kept;
        proof {
            assert(v0.take(n as int) =~= v0);
            assert(self@ =~= v0.filter(pred).push((same@, now_ms)));
            let f = v0.filter(pred);
            assert forall|a: int, b: int| 0 <= a < b < v0.len() implies v0[a].0 != v0[b].0 by {
                assert(old(self).filter@[a].same@ != old(self).filter@[b].same@);
            }
            lemma_filter_keeps_distinct(v0, pred);
            let s1 = self.filter@;
            let m = s1.map_values(|e: EventItem| (e.same@, e.time));
            assert(m =~= f.push((same@, now_ms)));
            assert forall|a: int, b: int|
                0 <= a < b < s1.len() implies s1[a].same@ != s1[b].same@ by {
                assert(m[a].0 == s1[a].same@ && m[b].0 == s1[b].same@);
                if b < f.len() {
                    assert(f[a].0 != f[b].0);
                } else {
                    v0.lemma_filter_pred(pred, a);
                    assert(pred(f[a]));
                }
            }
        }
        false
    }

    /// Given an event's fingerprint, decide against the wall clock whether
    /// the event repeats a recent one and should be ignored.
    ///
    /// Whatever instant the clock hands back, the decision and the new
    /// recency list are those of `should_ignore_at` for that instant.
    pub fn should_ignore(&mut self, same: &str, interval_ms: u64) -> (r: bool)
        requires
            old(self).wf(),
        ensures
            final(self).wf(),
            exists|now_ms: u64|
                {
                    &&& r == #[trigger] spec_should_ignore(old(self)@, same@, now_ms, interval_ms)
                    &&& (r ==> final(self)@ == old(self)@)
                    &&& (!r ==> final(self)@ == spec_after_allow(old(self)@, same@, now_ms))
                },
    {
        let now_ms = now_millis();
        let r = self.should_ignore_at(same, now_ms, interval_ms);
        proof {
            assert(r == spec_should_ignore(old(self)@, same@, now_ms, interval_ms));
        }
        r
    }

    /// Stop event handling.  This hub schedules no timers and owns no
    /// subscriptions, so there is nothing to release.
    pub fn shutdown(&self) {
    }
}

/// Relies on std::time::SystemTime::now: the wall clock, read as whole
/// milliseconds since the Unix epoch; zero when the clock reads earlier
/// than the epoch.
#[verifier::external_body]
fn now_millis() -> u64 {
    match std::time::SystemTime::now().duration_since(std::time::UNIX_EPOCH) {
        Ok(d) => d.as_millis() as u64,
        Err(_) => 0,
    }
}

/// A fingerprint-distinct list stays fingerprint-distinct under filtering.
proof fn lemma_filter_keeps_distinct(
    s: Seq<(Seq<char>, u64)>,
    pred: spec_fn((Seq<char>, u64)) -> bool,
)
    requires
        forall|i: int, j: int| 0 <= i < j < s.len() ==> s[i].0 != s[j].0,
    ensures
        forall|i: int, j: int|
            0 <= i < j < s.filter(pred).len() ==> s.filter(pred)[i].0 != s.filter(pred)[j].0,
    decreases s.len(),
{
    reveal(Seq::filter);
    if s.len() > 0 {
        let d = s.drop_last();
        assert forall|i: int, j: int| 0 <= i < j < d.len() implies d[i].0 != d[j].0 by {
            assert(s[i].0 != s[j].0);
        }
        lemma_filter_keeps_distinct(d, pred);
        let f = d.filter(pred);
        if pred(s.last()) {
            assert(s.filter(pred) == f.push(s.last()));
            assert forall|i: int, j: int|
                0 <= i < j < s.filter(pred).len() implies s.filter(pred)[i].0 != s.filter(
                pred,
            )[j].0 by {
                if j < f.len() {
                    assert(f[i].0 != f[j].0);
                } else {
                    lemma_filter_element_in(d, pred, i);
                    let w = choose|w: int| 0 <= w < d.len() && d[w] == f[i];
                    assert(s[w].0 != s[s.len() - 1].0);
                }
            }
        } else {
            assert(s.filter(pred) == f);
        }
    }
}

/// Each element of a filtered list occurs in the original list.
proof fn lemma_filter_element_in(
    s: Seq<(Seq<char>, u64)>,
    pred: spec_fn((Seq<char>, u64)) -> bool,
    i: int,
)
    requires
        0 <= i < s.filter(pred).len(),
    ensures
        exists|w: int| 0 <= w < s.len() && s[w] == s.filter(pred)[i],
    decreases s.len(),
{
    reveal(Seq::filter);
    if s.len() > 0 {
        let d = s.drop_last();
        if pred(s.last()) && i == s.filter(pred).len() - 1 {
            assert(s[s.len() - 1] == s.filter(pred)[i]);
        } else {
            lemma_filter_element_in(d, pred, i);
            let w = choose|w: int| 0 <= w < d.len() && d[w] == d.filter(pred)[i];
            assert(s[w] == s.filter(pred)[i]);
        }
    }
}

} // verus!
