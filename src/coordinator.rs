//! The decisions of the coordinator loop.
//!
//! A worker's cycles run one at a time, forever. A cycle that succeeds is
//! followed at once by the next; one that fails is logged and followed by a
//! fixed backoff before the next may start. Failures never end the loop.
//! The loop itself (running the cycle, logging, sleeping) is driven by the
//! caller, which asks a `Runtime` what to do at each point.
use vstd::prelude::*;

verus! {

/// The pause after a failed cycle, in seconds.
pub const ERROR_BACKOFF_SECS: u64 = 1;

/// How one cycle ended.
#[derive(Clone, Debug)]
pub enum CycleOutcome {
    Success,
    Failure { cause: String },
}

/// Where the loop stands.
#[derive(Clone, Copy, Debug, PartialEq, Eq, Structural)]
pub enum LoopPhase {
    /// Between cycles: the next one may start.
    Idle,
    /// A cycle is in progress.
    Running,
    /// A cycle failed; the backoff has not yet passed.
    BackingOff,
}

/// What the caller does once a cycle has ended.
#[derive(Clone, Copy, Debug, PartialEq, Eq, Structural)]
pub enum LoopAction {
    /// Log the completion and start the next cycle.
    Continue,
    /// Log the failure at error level and sleep `secs` seconds.
    BackOff { secs: u64 },
}

/// One event in the life of the loop.
pub enum LoopEvent {
    Started,
    Finished { ok: bool },
    Slept { secs: u64 },
}

/// The loop of one worker, identified in all its logs by `name`.
pub struct Runtime {
    pub name: String,
    pub backoff_secs: u64,
    pub phase: LoopPhase,
    /// Every event so far, oldest first.
    pub trace: Ghost<Seq<LoopEvent>>,
}

/// Whether event `i` of `trace` may follow what precedes it: a cycle
/// starts first or after a success or a backoff; it finishes right after it
/// started; a backoff follows a failure and lasts at least `backoff_secs`.
pub open spec fn event_ok(trace: Seq<LoopEvent>, i: int, backoff_secs: u64) -> bool {
    match trace[i] {
        LoopEvent::Started => i == 0 || trace[i - 1] == (LoopEvent::Finished { ok: true })
            || trace[i - 1] is Slept,
        LoopEvent::Finished { .. } => i > 0 && trace[i - 1] is Started,
        LoopEvent::Slept { secs } => i > 0 && trace[i - 1] == (LoopEvent::Finished { ok: false })
            && secs >= backoff_secs,
    }
}

/// The order of events of a loop.
pub open spec fn trace_ok(trace: Seq<LoopEvent>, backoff_secs: u64) -> bool {
    forall|i: int| 0 <= i < trace.len() ==> #[trigger] event_ok(trace, i, backoff_secs)
}

/// The phase that a trace leaves the loop in.
pub open spec fn phase_after(trace: Seq<LoopEvent>) -> LoopPhase {
    if trace.len() == 0 {
        LoopPhase::Idle
    } else {
        match trace.last() {
            LoopEvent::Started => LoopPhase::Running,
            LoopEvent::Finished { ok } => if ok {
                LoopPhase::Idle
            } else {
                LoopPhase::BackingOff
            },
            LoopEvent::Slept { .. } => LoopPhase::Idle,
        }
    }
}

impl Runtime {
    pub open spec fn wf(&self) -> bool {
        &&& trace_ok(self.trace@, self.backoff_secs)
        &&& self.phase == phase_after(self.trace@)
    }

    /// A loop for the worker `name` that has run no cycle yet.
    pub fn new(name: String, backoff_secs: u64) -> (r: Runtime)
        ensures
            r.wf(),
            r.name == name,
            r.backoff_secs == backoff_secs,
            r.phase == LoopPhase::Idle,
            r.trace@.len() == 0,
    {
        Runtime { name, backoff_secs, phase: LoopPhase::Idle, trace: Ghost(Seq::empty()) }
    }

    /// The worker's name.
    pub fn get_name(&self) -> (r: &String)
        ensures
            r == &self.name,
    {
        &self.name
    }

    /// Starts a cycle if none is running and no backoff is pending; returns
    /// whether it did.
    pub fn begin_cycle(&mut self) -> (started: bool)
        requires
            old(self).wf(),
        ensures
            final(self).wf(),
            final(self).name == old(self).name,
            final(self).backoff_secs == old(self).backoff_secs,
            started == (old(self).phase == LoopPhase::Idle),
            started ==> final(self).phase == LoopPhase::Running && final(self).trace@ == old(
                self,
            ).trace@.push(LoopEvent::Started),
            !started ==> final(self).phase == old(self).phase && final(self).trace@ == old(
                self,
            ).trace@,
    {
        match self.phase {
            LoopPhase::Idle => {
                let ghost t = self.trace@;
                self.trace = Ghost(self.trace@.push(LoopEvent::Started));
                self.phase = LoopPhase::Running;
                proof {
                    assert forall|i: int| 0 <= i < self.trace@.len() implies #[trigger] event_ok(
                        self.trace@,
                        i,
                        self.backoff_secs,
                    ) by {
                        if i < t.len() {
                            assert(event_ok(t, i, self.backoff_secs));
                        } else if t.len() > 0 {
                            assert(event_ok(t, t.len() - 1, self.backoff_secs));
                        }
                    }
                }
                true
            },
            _ => false,
        }
    }

    /// Ends the running cycle with `outcome` and says what comes next: the
    /// next cycle at once after a success, a backoff after a failure.
    /// Returns `None`, changing nothing, when no cycle is running.
    pub fn end_cycle(&mut self, outcome: &CycleOutcome) -> (action: Option<LoopAction>)
        requires
            old(self).wf(),
        ensures
            final(self).wf(),
            final(self).name == old(self).name,
            final(self).backoff_secs == old(self).backoff_secs,
            old(self).phase != LoopPhase::Running ==> action is None && final(self).phase == old(
                self,
            ).phase && final(self).trace@ == old(self).trace@,
            old(self).phase == LoopPhase::Running ==> match outcome {
                CycleOutcome::Success => action == Some(LoopAction::Continue) && final(self).phase
                    == LoopPhase::Idle && final(self).trace@ == old(self).trace@.push(
                    LoopEvent::Finished { ok: true },
                ),
                CycleOutcome::Failure { .. } => action == Some(
                    LoopAction::BackOff { secs: old(self).backoff_secs },
                ) && final(self).phase == LoopPhase::BackingOff && final(self).trace@ == old(
                    self,
                ).trace@.push(LoopEvent::Finished { ok: false }),
            },
    {
        match self.phase {
            LoopPhase::Running => {
                let ok = match outcome {
                    CycleOutcome::Success => true,
                    CycleOutcome::Failure { .. } => false,
                };
                let ghost t = self.trace@;
                self.trace = Ghost(self.trace@.push(LoopEvent::Finished { ok }));
                proof {
                    assert forall|i: int| 0 <= i < self.trace@.len() implies #[trigger] event_ok(
                        self.trace@,
                        i,
                        self.backoff_secs,
                    ) by {
                        if i < t.len() {
                            assert(event_ok(t, i, self.backoff_secs));
                        }
                    }
                }
                if ok {
                    self.phase = LoopPhase::Idle;
                    Some(LoopAction::Continue)
                } else {
                    self.phase = LoopPhase::BackingOff;
                    Some(LoopAction::BackOff { secs: self.backoff_secs })
                }
            },
            _ => None,
        }
    }

    /// Reports that the loop slept `slept_secs` seconds after a failure.
    /// The next cycle may start once the sleep has lasted the whole backoff;
    /// returns whether it may.
    pub fn backoff_elapsed(&mut self, slept_secs: u64) -> (ready: bool)
        requires
            old(self).wf(),
        ensures
            final(self).wf(),
            final(self).name == old(self).name,
            final(self).backoff_secs == old(self).backoff_secs,
            ready == (old(self).phase == LoopPhase::BackingOff && slept_secs
                >= old(self).backoff_secs),
            ready ==> final(self).phase == LoopPhase::Idle && final(self).trace@ == old(
                self,
            ).trace@.push(LoopEvent::Slept { secs: slept_secs }),
            !ready ==> final(self).phase == old(self).phase && final(self).trace@ == old(
                self,
            ).trace@,
    {
        match self.phase {
            LoopPhase::BackingOff => {
                if slept_secs >= self.backoff_secs {
                    let ghost t = self.trace@;
                    self.trace = Ghost(self.trace@.push(LoopEvent::Slept { secs: slept_secs }));
                    self.phase = LoopPhase::Idle;
                    proof {
                        assert forall|i: int| 0 <= i < self.trace@.len() implies #[trigger] event_ok(
                            self.trace@,
                            i,
                            self.backoff_secs,
                        ) by {
                            if i < t.len() {
                                assert(event_ok(t, i, self.backoff_secs));
                            }
                        }
                    }
                    true
                } else {
                    false
                }
            },
            _ => false,
        }
    }
}

/// Cycles never overlap: between any two cycle starts of one loop, the
/// earlier cycle has finished.
pub proof fn lemma_cycles_never_overlap(rt: &Runtime, i: int, j: int)
    requires
        rt.wf(),
        0 <= i < j < rt.trace@.len(),
        rt.trace@[i] is Started,
        rt.trace@[j] is Started,
    ensures
        exists|k: int| i < k < j && #[trigger] rt.trace@[k] is Finished,
{
    let t = rt.trace@;
    assert(event_ok(t, j, rt.backoff_secs));
    if t[j - 1] is Slept {
        assert(event_ok(t, j - 1, rt.backoff_secs));
        assert(t[j - 2] is Finished);
    } else {
        assert(t[j - 1] is Finished);
    }
}

/// Each cycle that finishes is the one that started just before: one cycle
/// per loop iteration.
pub proof fn lemma_one_cycle_per_iteration(rt: &Runtime, k: int)
    requires
        rt.wf(),
        0 <= k < rt.trace@.len(),
        rt.trace@[k] is Finished,
    ensures
        k > 0 && rt.trace@[k - 1] is Started,
{
    assert(event_ok(rt.trace@, k, rt.backoff_secs));
}

/// A failed cycle is followed by a sleep of at least the backoff before
/// anything else happens; a successful one is followed by the next start,
/// with no sleep in between.
pub proof fn lemma_backoff_only_after_failure(rt: &Runtime, k: int)
    requires
        rt.wf(),
        0 <= k,
        k + 1 < rt.trace@.len(),
        rt.trace@[k] is Finished,
    ensures
        rt.trace@[k] == (LoopEvent::Finished { ok: false }) ==> (rt.trace@[k
            + 1] matches LoopEvent::Slept { secs } && secs >= rt.backoff_secs),
        rt.trace@[k] == (LoopEvent::Finished { ok: true }) ==> rt.trace@[k + 1] is Started,
{
    assert(event_ok(rt.trace@, k + 1, rt.backoff_secs));
}

} // verus!
