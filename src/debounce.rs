//! Coalescing of rapid selection changes into one deferred log fetch.

use vstd::prelude::*;

verus! {

/// How long the selection must rest before its logs are fetched, in
/// milliseconds.
pub const DEBOUNCE_MS: u64 = 400;

/// State of the log-fetch debounce: the row last seen selected and the time
/// at which its fetch is due.
#[derive(Clone, Copy, Debug, PartialEq, Eq, Structural)]
pub struct Debounce {
    pub last_index: Option<usize>,
    pub deadline: Option<u64>,
}

/// `a + b`, or the largest `u64` where that overflows.
pub open spec fn sat_add(a: u64, b: u64) -> u64 {
    if a + b <= u64::MAX {
        (a + b) as u64
    } else {
        u64::MAX
    }
}

/// Whether selecting `sel` in a view of `len` rows changes the selection.
pub open spec fn is_change(d: Debounce, sel: Option<usize>, len: usize) -> bool {
    match sel {
        Some(i) => d.last_index != Some(i) && i < len,
        None => false,
    }
}

/// The state once `sel` is seen selected at `now`: a change re-arms the
/// deadline at `now` plus the rest period.
pub open spec fn after_select(d: Debounce, sel: Option<usize>, len: usize, now: u64) -> Debounce {
    if is_change(d, sel, len) {
        Debounce { last_index: sel, deadline: Some(sat_add(now, DEBOUNCE_MS)) }
    } else {
        d
    }
}

/// Whether the fetch is due at `now`.
pub open spec fn fires(d: Debounce, now: u64) -> bool {
    match d.deadline {
        Some(t) => now >= t,
        None => false,
    }
}

/// The state after checking the deadline at `now`: a due fetch disarms it.
pub open spec fn after_poll(d: Debounce, now: u64) -> Debounce {
    if fires(d, now) {
        Debounce { deadline: None, ..d }
    } else {
        d
    }
}

impl Debounce {
    /// Nothing seen selected, nothing due.
    pub fn new() -> (r: Debounce)
        ensures
            r.last_index is None,
            r.deadline is None,
    {
        Debounce { last_index: None, deadline: None }
    }

    /// Notes that `sel` is selected at `now` in a view of `len` rows; says
    /// whether this is a change, which (re)arms the deadline.
    pub fn on_selection(&mut self, sel: Option<usize>, len: usize, now: u64) -> (r: bool)
        ensures
            r == is_change(*old(self), sel, len),
            *final(self) == after_select(*old(self), sel, len, now),
    {
        match sel {
            Some(i) => {
                let same = match self.last_index {
                    Some(j) => i == j,
                    None => false,
                };
                if !same && i < len {
                    self.last_index = Some(i);
                    self.deadline = Some(now.saturating_add(DEBOUNCE_MS));
                    true
                } else {
                    false
                }
            },
            None => false,
        }
    }

    /// Checks the deadline at `now`; says whether the fetch is due, and
    /// disarms it if so.
    pub fn poll(&mut self, now: u64) -> (r: bool)
        ensures
            r == fires(*old(self), now),
            *final(self) == after_poll(*old(self), now),
    {
        match self.deadline {
            Some(t) => if now >= t {
                self.deadline = None;
                true
            } else {
                false
            },
            None => false,
        }
    }
}

/// The state after a run of frames, frame `i` seeing row `sels[i]` selected
/// at `ts[i]` and then checking the deadline at `qs[i]`.
pub open spec fn burst(d: Debounce, sels: Seq<usize>, ts: Seq<u64>, qs: Seq<u64>, len: usize) -> Debounce
    decreases sels.len(),
{
    if sels.len() == 0 || ts.len() != sels.len() || qs.len() != sels.len() {
        d
    } else {
        let p = burst(d, sels.drop_last(), ts.drop_last(), qs.drop_last(), len);
        after_poll(after_select(p, Some(sels.last()), len, ts.last()), qs.last())
    }
}

/// Whether a fetch came due in any frame of the run.
pub open spec fn burst_fired(d: Debounce, sels: Seq<usize>, ts: Seq<u64>, qs: Seq<u64>, len: usize) -> bool
    decreases sels.len(),
{
    if sels.len() == 0 || ts.len() != sels.len() || qs.len() != sels.len() {
        false
    } else {
        let p = burst(d, sels.drop_last(), ts.drop_last(), qs.drop_last(), len);
        burst_fired(d, sels.drop_last(), ts.drop_last(), qs.drop_last(), len)
            || fires(after_select(p, Some(sels.last()), len, ts.last()), qs.last())
    }
}

/// Debounce coalescing: a run of selection changes, each followed by checks
/// of the deadline that all come before the rest period after that change
/// has passed, fetches nothing while it lasts; afterwards exactly one fetch
/// comes due, at the first check a full rest period after the last change,
/// for the row selected last, and none after it until the selection changes
/// again. (A rest period that would end past the largest time ends there.)
pub proof fn lemma_debounce_coalescing(d: Debounce, sels: Seq<usize>, ts: Seq<u64>, qs: Seq<u64>, len: usize)
    requires
        sels.len() > 0,
        ts.len() == sels.len(),
        qs.len() == sels.len(),
        forall|i: int| 0 <= i < sels.len() ==> sels[i] < len,
        d.last_index != Some(sels[0]),
        forall|i: int| 0 < i < sels.len() ==> #[trigger] sels[i] != sels[i - 1],
        forall|i: int| 0 <= i < sels.len() ==> #[trigger] ts[i] <= qs[i] && qs[i] < sat_add(ts[i], DEBOUNCE_MS),
    ensures
        !burst_fired(d, sels, ts, qs, len),
        burst(d, sels, ts, qs, len).last_index == Some(sels.last()),
        burst(d, sels, ts, qs, len).deadline == Some(sat_add(ts.last(), DEBOUNCE_MS)),
        forall|q: u64| fires(burst(d, sels, ts, qs, len), q) <==> q >= sat_add(ts.last(), DEBOUNCE_MS),
        forall|q: u64, q2: u64|
            fires(burst(d, sels, ts, qs, len), q) ==> !fires(
                after_poll(burst(d, sels, ts, qs, len), q),
                q2,
            ),
    decreases sels.len(),
{
    let (s0, t0, u0) = (sels.drop_last(), ts.drop_last(), qs.drop_last());
    let n = sels.len() - 1;
    if sels.len() > 1 {
        assert forall|i: int| 0 < i < s0.len() implies #[trigger] s0[i] != s0[i - 1] by {
            assert(s0[i] == sels[i] && s0[i - 1] == sels[i - 1]);
        }
        assert forall|i: int| 0 <= i < s0.len() implies #[trigger] t0[i] <= u0[i] && u0[i] < sat_add(t0[i], DEBOUNCE_MS) by {
            assert(t0[i] == ts[i] && u0[i] == qs[i]);
        }
        assert forall|i: int| 0 <= i < s0.len() implies s0[i] < len by {
            assert(s0[i] == sels[i]);
        }
        assert(s0[0] == sels[0]);
        lemma_debounce_coalescing(d, s0, t0, u0, len);
        assert(sels[n] != sels[n - 1]);
    } else {
        assert(burst(d, s0, t0, u0, len) == d);
        assert(!burst_fired(d, s0, t0, u0, len));
    }
    let p = burst(d, s0, t0, u0, len);
    assert(sels[n] < len);
    assert(ts[n] <= qs[n] && qs[n] < sat_add(ts[n], DEBOUNCE_MS));
    assert(is_change(p, Some(sels.last()), len));
    let a = after_select(p, Some(sels.last()), len, ts.last());
    assert(a.deadline == Some(sat_add(ts.last(), DEBOUNCE_MS)));
    assert(!fires(a, qs.last()));
}

} // verus!
