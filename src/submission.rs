//! The submit-then-confirm protocol that every chain action goes through.
//!
//! A submission first sends its call; the transaction handle that comes back
//! is then polled until the transaction is included, rejected, or the polling
//! budget runs out. Control returns to the caller only once one of these is
//! known, so that a single account never has two submissions in flight.
//! The network work is done by the caller: it performs the step that a
//! `Submission` hands out and feeds the result back in.
use vstd::prelude::*;
use crate::actions::ChainAction;

verus! {

/// Why a chain action did not take effect. Callers need not tell the kinds
/// apart: any of them means the action may be retried.
#[derive(Clone, Debug)]
pub enum SubmissionError {
    /// The call could not be built or sent.
    Transport { cause: String },
    /// The chain refused or reverted the transaction.
    Rejected { cause: String },
    /// The transaction was not seen included within the polling budget.
    InclusionTimeout,
}

/// What one inclusion poll reported.
#[derive(Clone, Debug)]
pub enum PollStatus {
    Included,
    Rejected { cause: String },
    Pending,
}

/// Where a submission stands.
#[derive(Debug)]
pub enum SubmitPhase {
    ReadyToSubmit,
    AwaitingInclusion { handle: String },
    Finished { outcome: Result<(), SubmissionError> },
}

/// What the caller is to do next.
#[derive(Debug)]
pub enum SubmitStep {
    /// Poll the transaction with this handle once.
    Poll { handle: String },
    /// Stop: the action's result is known, and `finish` hands it out.
    Done,
}

/// One chain action on its way through submission and confirmation.
pub struct Submission {
    pub contract: String,
    pub action: ChainAction,
    pub phase: SubmitPhase,
    /// How many polls were allowed in all.
    pub poll_budget: u64,
    /// How many polls may still be made.
    pub polls_left: u64,
    /// The poll results received so far, oldest first.
    pub polled: Ghost<Seq<PollStatus>>,
}

/// The verdict that a run of poll results gives with `polls_left` polls
/// allowed, or `None` while it is still open.
pub open spec fn confirm_verdict(polls_left: nat, statuses: Seq<PollStatus>) -> Option<
    Result<(), SubmissionError>,
>
    decreases statuses.len(),
{
    if polls_left == 0 {
        Some(Err(SubmissionError::InclusionTimeout))
    } else if statuses.len() == 0 {
        None
    } else {
        match statuses[0] {
            PollStatus::Included => Some(Ok(())),
            PollStatus::Rejected { cause } => Some(Err(SubmissionError::Rejected { cause })),
            PollStatus::Pending => confirm_verdict(
                (polls_left - 1) as nat,
                statuses.subrange(1, statuses.len() as int),
            ),
        }
    }
}

/// The verdict of a single poll with `polls_left` polls allowed.
pub open spec fn poll_verdict(polls_left: nat, status: PollStatus) -> Option<
    Result<(), SubmissionError>,
> {
    confirm_verdict(polls_left, seq![status])
}

/// Feeding results in one at a time gives the verdict of the whole run.
proof fn lemma_verdict_push(budget: nat, statuses: Seq<PollStatus>, next: PollStatus)
    requires
        confirm_verdict(budget, statuses) is None,
    ensures
        statuses.len() < budget,
        confirm_verdict(budget, statuses.push(next)) == poll_verdict(
            (budget - statuses.len()) as nat,
            next,
        ),
    decreases statuses.len(),
{
    reveal_with_fuel(confirm_verdict, 2);
    if statuses.len() == 0 {
        assert(statuses.push(next) =~= seq![next]);
    } else {
        let tail = statuses.subrange(1, statuses.len() as int);
        assert(statuses[0] is Pending);
        lemma_verdict_push((budget - 1) as nat, tail, next);
        assert(statuses.push(next).subrange(1, statuses.len() as int + 1) =~= tail.push(next));
    }
}

/// Polls that never resolve end in a timeout once the budget is spent:
/// confirmation never waits past its budget.
pub proof fn lemma_pending_polls_time_out(budget: nat, statuses: Seq<PollStatus>)
    requires
        statuses.len() >= budget,
        forall|i: int| 0 <= i < statuses.len() ==> #[trigger] statuses[i] is Pending,
    ensures
        confirm_verdict(budget, statuses) == Some(
            Err::<(), SubmissionError>(SubmissionError::InclusionTimeout),
        ),
    decreases statuses.len(),
{
    if budget > 0 {
        let tail = statuses.subrange(1, statuses.len() as int);
        assert forall|i: int| 0 <= i < tail.len() implies #[trigger] tail[i] is Pending by {
            assert(tail[i] == statuses[i + 1]);
        }
        lemma_pending_polls_time_out((budget - 1) as nat, tail);
    }
}

/// Whatever the polls report, the verdict is known after at most `budget`
/// of them.
pub proof fn lemma_confirmation_is_bounded(budget: nat, statuses: Seq<PollStatus>)
    requires
        statuses.len() >= budget,
    ensures
        confirm_verdict(budget, statuses) is Some,
    decreases statuses.len(),
{
    if budget > 0 {
        lemma_confirmation_is_bounded(
            (budget - 1) as nat,
            statuses.subrange(1, statuses.len() as int),
        );
    }
}

impl Submission {
    /// The protocol's invariant: the polls made and the polls left add up to
    /// the budget, and the phase agrees with the verdict of the polls made.
    pub open spec fn wf(&self) -> bool {
        &&& self.polls_left <= self.poll_budget
        &&& self.polled@.len() + self.polls_left == self.poll_budget
        &&& match self.phase {
            SubmitPhase::ReadyToSubmit => self.polled@.len() == 0,
            SubmitPhase::AwaitingInclusion { .. } => self.polls_left > 0 && confirm_verdict(
                self.poll_budget as nat,
                self.polled@,
            ) is None,
            SubmitPhase::Finished { outcome } => self.polled@.len() > 0 ==> Some(outcome)
                == confirm_verdict(self.poll_budget as nat, self.polled@),
        }
    }

    /// Starts a submission of `action` to `contract` that may poll for
    /// inclusion at most `poll_budget` times.
    pub fn new(contract: String, action: ChainAction, poll_budget: u64) -> (r: Submission)
        ensures
            r.wf(),
            r.contract == contract,
            r.action == action,
            r.phase is ReadyToSubmit,
            r.poll_budget == poll_budget,
    {
        Submission {
            contract,
            action,
            phase: SubmitPhase::ReadyToSubmit,
            poll_budget,
            polls_left: poll_budget,
            polled: Ghost(Seq::empty()),
        }
    }

    /// Takes the result of sending the call: a transaction handle, or the
    /// error that kept it from being sent.
    pub fn on_sent(&mut self, sent: Result<String, SubmissionError>) -> (step: SubmitStep)
        requires
            old(self).wf(),
            old(self).phase is ReadyToSubmit,
        ensures
            final(self).wf(),
            final(self).contract == old(self).contract,
            final(self).action == old(self).action,
            final(self).poll_budget == old(self).poll_budget,
            final(self).polled@ == old(self).polled@,
            match sent {
                Ok(h) => if old(self).poll_budget == 0 {
                    step is Done && final(self).phase == (SubmitPhase::Finished {
                        outcome: Err(SubmissionError::InclusionTimeout),
                    })
                } else {
                    step == (SubmitStep::Poll { handle: h }) && final(self).phase == (
                    SubmitPhase::AwaitingInclusion { handle: h })
                },
                Err(e) => step is Done && final(self).phase == (SubmitPhase::Finished {
                    outcome: Err(e),
                }),
            },
    {
        match sent {
            Ok(handle) => {
                if self.polls_left == 0 {
                    self.phase = SubmitPhase::Finished {
                        outcome: Err(SubmissionError::InclusionTimeout),
                    };
                    SubmitStep::Done
                } else {
                    self.phase = SubmitPhase::AwaitingInclusion { handle: handle.clone() };
                    proof {
                        assert(confirm_verdict(self.poll_budget as nat, Seq::empty()) is None);
                    }
                    SubmitStep::Poll { handle }
                }
            },
            Err(e) => {
                self.phase = SubmitPhase::Finished { outcome: Err(e) };
                SubmitStep::Done
            },
        }
    }

    /// Takes the result of one inclusion poll. A pending transaction uses up
    /// one poll of the budget; when none is left the submission times out.
    pub fn on_polled(&mut self, status: PollStatus) -> (step: SubmitStep)
        requires
            old(self).wf(),
            old(self).phase is AwaitingInclusion,
        ensures
            final(self).wf(),
            final(self).contract == old(self).contract,
            final(self).action == old(self).action,
            final(self).poll_budget == old(self).poll_budget,
            final(self).polled@ == old(self).polled@.push(status),
            final(self).polls_left == old(self).polls_left - 1,
            match poll_verdict(old(self).polls_left as nat, status) {
                Some(outcome) => step is Done && final(self).phase == (SubmitPhase::Finished {
                    outcome,
                }),
                None => step == (SubmitStep::Poll {
                    handle: old(self).phase->AwaitingInclusion_handle,
                }) && final(self).phase == old(self).phase,
            },
    {
        proof {
            lemma_verdict_push(self.poll_budget as nat, self.polled@, status);
            reveal_with_fuel(confirm_verdict, 2);
        }
        self.polls_left = self.polls_left - 1;
        self.polled = Ghost(self.polled@.push(status));
        match status {
            PollStatus::Included => {
                self.phase = SubmitPhase::Finished { outcome: Ok(()) };
                SubmitStep::Done
            },
            PollStatus::Rejected { cause } => {
                self.phase = SubmitPhase::Finished {
                    outcome: Err(SubmissionError::Rejected { cause }),
                };
                SubmitStep::Done
            },
            PollStatus::Pending => {
                if self.polls_left == 0 {
                    self.phase = SubmitPhase::Finished {
                        outcome: Err(SubmissionError::InclusionTimeout),
                    };
                    SubmitStep::Done
                } else {
                    match &self.phase {
                        SubmitPhase::AwaitingInclusion { handle } => SubmitStep::Poll {
                            handle: handle.clone(),
                        },
                        _ => SubmitStep::Done,
                    }
                }
            },
        }
    }

    /// The result of the action, once it is known.
    pub fn finish(self) -> (r: Option<Result<(), SubmissionError>>)
        ensures
            match self.phase {
                SubmitPhase::Finished { outcome } => r == Some(outcome),
                _ => r is None,
            },
    {
        match self.phase {
            SubmitPhase::Finished { outcome } => Some(outcome),
            _ => None,
        }
    }
}

} // verus!
