use vstd::prelude::*;

verus! {

/// Whether a match at `now` may be reported, given the time of the last
/// reported one. Time never runs backwards for this decision: a match
/// stamped before the last report counts as no time elapsed.
pub open spec fn cooldown_allows(last: Option<u64>, now: u64, cooldown: u64) -> bool {
    match last {
        None => true,
        Some(t) => now >= t && now - t >= cooldown,
    }
}

/// The match times that get reported, in order, when matches arrive at
/// `times` and the last report was at `last`.
pub open spec fn reported_times(last: Option<u64>, cooldown: u64, times: Seq<u64>) -> Seq<u64>
    decreases times.len(),
{
    if times.len() == 0 {
        Seq::empty()
    } else if cooldown_allows(last, times[0], cooldown) {
        seq![times[0]] + reported_times(Some(times[0]), cooldown, times.drop_first())
    } else {
        reported_times(last, cooldown, times.drop_first())
    }
}

/// Cooldown bookkeeping of the detection loop.
pub struct DetectionState {
    last_detection_ms: Option<u64>,
    cooldown_ms: u64,
}

impl DetectionState {
    /// Time of the last reported detection, if any.
    pub closed spec fn last(&self) -> Option<u64> {
        self.last_detection_ms
    }

    /// The cooldown in force.
    pub closed spec fn cooldown(&self) -> u64 {
        self.cooldown_ms
    }

    /// No detection reported yet.
    pub fn new(cooldown_ms: u64) -> (r: DetectionState)
        ensures
            r.last() == None::<u64>,
            r.cooldown() == cooldown_ms,
    {
        DetectionState { last_detection_ms: None, cooldown_ms }
    }

    /// Time of the last reported detection, if any.
    pub fn last_detection_ms(&self) -> (r: Option<u64>)
        ensures
            r == self.last(),
    {
        self.last_detection_ms
    }

    /// Decides on a match at `now_ms`: reported (and remembered) when the
    /// cooldown has run out since the last report, dropped otherwise.
    pub fn try_accept(&mut self, now_ms: u64) -> (r: bool)
        ensures
            r == cooldown_allows(old(self).last(), now_ms, old(self).cooldown()),
            final(self).cooldown() == old(self).cooldown(),
            final(self).last() == (if r { Some(now_ms) } else { old(self).last() }),
    {
        let allowed = match self.last_detection_ms {
            None => true,
            Some(t) => now_ms >= t && now_ms - t >= self.cooldown_ms,
        };
        if allowed {
            self.last_detection_ms = Some(now_ms);
        }
        allowed
    }
}

proof fn lemma_reported_after(l: u64, cooldown: u64, times: Seq<u64>)
    ensures
        forall|i: int| 0 <= i < reported_times(Some(l), cooldown, times).len()
            ==> #[trigger] reported_times(Some(l), cooldown, times)[i] >= l + cooldown,
    decreases times.len(),
{
    if times.len() > 0 {
        let rest = times.drop_first();
        let t0 = times[0];
        let out = reported_times(Some(l), cooldown, times);
        if cooldown_allows(Some(l), t0, cooldown) {
            lemma_reported_after(t0, cooldown, rest);
            assert(out == seq![t0] + reported_times(Some(t0), cooldown, rest));
            assert forall|i: int| 0 <= i < out.len() implies #[trigger] out[i] >= l + cooldown by {
                if i == 0 {
                    assert(out[0] == t0);
                } else {
                    assert(out[i] == reported_times(Some(t0), cooldown, rest)[i - 1]);
                }
            }
        } else {
            lemma_reported_after(l, cooldown, rest);
            assert(out == reported_times(Some(l), cooldown, rest));
        }
    }
}

/// Reported detections are spaced by at least the cooldown: whatever the
/// match times, consecutive reported times differ by the cooldown or more,
/// each reported time is one of the match times, the first is no sooner
/// than a cooldown after the previous report, and with no previous report
/// the first match is always reported.
pub proof fn lemma_cooldown_spacing(last: Option<u64>, cooldown: u64, times: Seq<u64>)
    ensures
        forall|i: int| 0 <= i < reported_times(last, cooldown, times).len() - 1
            ==> #[trigger] reported_times(last, cooldown, times)[i + 1]
                >= reported_times(last, cooldown, times)[i] + cooldown,
        forall|i: int| 0 <= i < reported_times(last, cooldown, times).len()
            ==> times.contains(#[trigger] reported_times(last, cooldown, times)[i]),
        last is Some && reported_times(last, cooldown, times).len() > 0
            ==> reported_times(last, cooldown, times)[0] >= last->0 + cooldown,
        last is None && times.len() > 0 ==> reported_times(last, cooldown, times)[0] == times[0],
    decreases times.len(),
{
    if times.len() > 0 {
        let rest = times.drop_first();
        let t0 = times[0];
        let out = reported_times(last, cooldown, times);
        if cooldown_allows(last, t0, cooldown) {
            let tail = reported_times(Some(t0), cooldown, rest);
            lemma_cooldown_spacing(Some(t0), cooldown, rest);
            lemma_reported_after(t0, cooldown, rest);
            assert(out == seq![t0] + tail);
            assert forall|i: int| 0 <= i < out.len() - 1 implies #[trigger] out[i + 1] >= out[i] + cooldown by {
                assert(out[i + 1] == tail[i]);
                assert(tail[i] >= t0 + cooldown);
                if i == 0 {
                    assert(out[0] == t0);
                } else {
                    assert(out[i] == tail[i - 1]);
                    assert(tail[(i - 1) + 1] >= tail[i - 1] + cooldown);
                }
            }
            assert forall|i: int| 0 <= i < out.len() implies times.contains(#[trigger] out[i]) by {
                if i == 0 {
                    assert(times[0] == out[0]);
                } else {
                    assert(out[i] == tail[i - 1]);
                    assert(rest.contains(tail[i - 1]));
                    let j = choose|j: int| 0 <= j < rest.len() && rest[j] == tail[i - 1];
                    assert(times[j + 1] == rest[j]);
                }
            }
        } else {
            lemma_cooldown_spacing(last, cooldown, rest);
            assert(out == reported_times(last, cooldown, rest));
            assert forall|i: int| 0 <= i < out.len() implies times.contains(#[trigger] out[i]) by {
                assert(rest.contains(out[i]));
                let j = choose|j: int| 0 <= j < rest.len() && rest[j] == out[i];
                assert(times[j + 1] == rest[j]);
            }
        }
    }
}

} // verus!
