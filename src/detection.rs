use vstd::prelude::*;
use crate::config::{keyword_label, WakeWordKeyword};
use crate::cooldown::{cooldown_allows, reported_times, DetectionState};

verus! {

/// What the worker observed since its last step.
#[derive(Debug, Clone, Copy, PartialEq, Eq, Structural)]
pub enum LoopEvent {
    /// The one-shot stop notification arrived.
    Stop,
    /// The frame channel's sender is gone: capture has ended.
    Disconnected,
    /// The bounded wait on the frame channel ran out; `running` is the
    /// shared running flag as read afterwards.
    Idle { running: bool },
    /// The engine processed a frame and returned `keyword_index` (negative
    /// for no match) at `now_ms`; `running` is the flag as read afterwards.
    Processed { running: bool, keyword_index: i32, now_ms: u64 },
    /// The engine failed on a frame; the frame is skipped.
    EngineFailed { running: bool },
}

/// A detection to report to the host.
#[derive(Debug, Clone, PartialEq, Eq)]
pub struct DetectionEvent {
    pub keyword: String,
    pub timestamp_ms: u64,
}

/// What the worker does next.
#[derive(Debug, Clone, PartialEq, Eq)]
pub enum LoopAction {
    /// Keep waiting for frames.
    Continue,
    /// Report a detection, then keep waiting.
    Emit(DetectionEvent),
    /// Finalise the debug recording, drop the stream, clear the running
    /// flag and return.
    Finish,
}

/// The loop's decision state.
pub struct LoopModel {
    pub stopped: bool,
    pub last: Option<u64>,
    pub cooldown: u64,
}

/// Whether an event ends the session.
pub open spec fn ends_session(e: LoopEvent) -> bool {
    match e {
        LoopEvent::Stop => true,
        LoopEvent::Disconnected => true,
        LoopEvent::Idle { running } => !running,
        LoopEvent::Processed { running, .. } => !running,
        LoopEvent::EngineFailed { running } => !running,
    }
}

/// Whether an event is a match that the cooldown lets through.
pub open spec fn step_emits(m: LoopModel, e: LoopEvent) -> bool {
    !m.stopped && !ends_session(e) && match e {
        LoopEvent::Processed { keyword_index, now_ms, .. } =>
            keyword_index >= 0 && cooldown_allows(m.last, now_ms, m.cooldown),
        _ => false,
    }
}

/// The decision state after an event.
pub open spec fn step_model(m: LoopModel, e: LoopEvent) -> LoopModel {
    if m.stopped {
        m
    } else if ends_session(e) {
        LoopModel { stopped: true, ..m }
    } else if step_emits(m, e) {
        match e {
            LoopEvent::Processed { now_ms, .. } => LoopModel { last: Some(now_ms), ..m },
            _ => m,
        }
    } else {
        m
    }
}

/// Whether any event of a run is reported.
pub open spec fn run_emits(m: LoopModel, events: Seq<LoopEvent>) -> bool
    decreases events.len(),
{
    if events.len() == 0 {
        false
    } else {
        step_emits(m, events[0]) || run_emits(step_model(m, events[0]), events.drop_first())
    }
}

/// The times of the detections reported over a run, in order.
pub open spec fn run_reported(m: LoopModel, events: Seq<LoopEvent>) -> Seq<u64>
    decreases events.len(),
{
    if events.len() == 0 {
        Seq::empty()
    } else {
        let rest = run_reported(step_model(m, events[0]), events.drop_first());
        if step_emits(m, events[0]) {
            seq![events[0]->now_ms] + rest
        } else {
            rest
        }
    }
}

/// The events of a run in which every frame matched, at the given times,
/// while the loop kept running.
pub open spec fn match_events(times: Seq<u64>) -> Seq<LoopEvent> {
    times.map_values(|t: u64| LoopEvent::Processed { running: true, keyword_index: 0, now_ms: t })
}

/// The loop applies the cooldown to raw matches exactly: when frames match
/// at the given times, the reported detections are those the cooldown
/// policy lets through, so consecutive reports are at least a cooldown apart.
pub proof fn lemma_loop_applies_cooldown(m: LoopModel, times: Seq<u64>)
    requires
        !m.stopped,
    ensures
        run_reported(m, match_events(times)) == reported_times(m.last, m.cooldown, times),
    decreases times.len(),
{
    if times.len() > 0 {
        let events = match_events(times);
        let next = step_model(m, events[0]);
        assert(events.drop_first() =~= match_events(times.drop_first()));
        lemma_loop_applies_cooldown(next, times.drop_first());
    }
}

/// The detection worker's decisions: stop handling, the cooldown and the
/// label of reported detections.
pub struct DetectionLoop {
    stopped: bool,
    state: DetectionState,
    keyword: WakeWordKeyword,
}

impl DetectionLoop {
    pub closed spec fn view(&self) -> LoopModel {
        LoopModel { stopped: self.stopped, last: self.state.last(), cooldown: self.state.cooldown() }
    }

    /// The keyword whose label detections carry.
    pub closed spec fn keyword(&self) -> WakeWordKeyword {
        self.keyword
    }

    /// A listening loop with no detection reported yet.
    pub fn new(keyword: WakeWordKeyword, cooldown_ms: u64) -> (r: DetectionLoop)
        ensures
            r.view() == (LoopModel { stopped: false, last: None, cooldown: cooldown_ms }),
            r.keyword() == keyword,
    {
        DetectionLoop { stopped: false, state: DetectionState::new(cooldown_ms), keyword }
    }

    /// Whether the loop has finished.
    pub fn is_stopped(&self) -> (r: bool)
        ensures
            r == self.view().stopped,
    {
        self.stopped
    }

    /// Decides what to do after an event. A finished loop only finishes
    /// again; a stop, a disconnect or a cleared running flag finishes it; a
    /// match is reported, labelled with the keyword and stamped with its
    /// time, when the cooldown allows it; everything else continues.
    pub fn step(&mut self, event: LoopEvent) -> (r: LoopAction)
        ensures
            final(self).view() == step_model(old(self).view(), event),
            final(self).keyword() == old(self).keyword(),
            (r is Finish) == (old(self).view().stopped || ends_session(event)),
            (r is Emit) == step_emits(old(self).view(), event),
            r is Emit ==> r->Emit_0.keyword@ == keyword_label(old(self).keyword()),
            r is Emit ==> event is Processed && r->Emit_0.timestamp_ms == event->now_ms,
    {
        if self.stopped {
            return LoopAction::Finish;
        }
        match event {
            LoopEvent::Stop | LoopEvent::Disconnected => {
                self.stopped = true;
                LoopAction::Finish
            },
            LoopEvent::Idle { running } | LoopEvent::EngineFailed { running } => {
                if running {
                    LoopAction::Continue
                } else {
                    self.stopped = true;
                    LoopAction::Finish
                }
            },
            LoopEvent::Processed { running, keyword_index, now_ms } => {
                if !running {
                    self.stopped = true;
                    LoopAction::Finish
                } else if keyword_index < 0 {
                    LoopAction::Continue
                } else if self.state.try_accept(now_ms) {
                    LoopAction::Emit(DetectionEvent { keyword: self.keyword.label(), timestamp_ms: now_ms })
                } else {
                    LoopAction::Continue
                }
            },
        }
    }
}

/// Once stopped, the loop stays stopped and reports nothing, whatever
/// events follow.
pub proof fn lemma_silent_when_stopped(m: LoopModel, events: Seq<LoopEvent>)
    requires
        m.stopped,
    ensures
        !run_emits(m, events),
        step_model(m, events.first()) == m,
    decreases events.len(),
{
    if events.len() > 0 {
        lemma_silent_when_stopped(step_model(m, events[0]), events.drop_first());
    }
}

/// After the stop signal, a disconnect, or any event that finds the running
/// flag cleared, no further detection is reported, even if frames are still
/// queued and processed.
pub proof fn lemma_silent_after_stop(m: LoopModel, e: LoopEvent, later: Seq<LoopEvent>)
    requires
        ends_session(e),
    ensures
        !step_emits(m, e),
        step_model(m, e).stopped,
        !run_emits(step_model(m, e), later),
{
    lemma_silent_when_stopped(step_model(m, e), later);
}

} // verus!
