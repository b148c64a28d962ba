use valence_coordinator::actions::tick_action;
use valence_coordinator::submission::{
    PollStatus, SubmissionError, Submission, SubmitPhase, SubmitStep,
};

fn submission(budget: u64) -> Submission {
    Submission::new("neutron1processor".to_string(), tick_action(), budget)
}

#[test]
fn included_transaction_succeeds() {
    let mut s = submission(3);
    match s.on_sent(Ok("ABC".to_string())) {
        SubmitStep::Poll { handle } => assert_eq!(handle, "ABC"),
        other => panic!("unexpected {:?}", other),
    }
    assert!(matches!(s.on_polled(PollStatus::Pending), SubmitStep::Poll { .. }));
    assert!(matches!(s.on_polled(PollStatus::Included), SubmitStep::Done));
    assert!(matches!(s.finish(), Some(Ok(()))));
}

#[test]
fn never_included_times_out() {
    let mut s = submission(3);
    assert!(matches!(s.on_sent(Ok("H".to_string())), SubmitStep::Poll { .. }));
    assert!(matches!(s.on_polled(PollStatus::Pending), SubmitStep::Poll { .. }));
    assert!(matches!(s.on_polled(PollStatus::Pending), SubmitStep::Poll { .. }));
    assert!(matches!(s.on_polled(PollStatus::Pending), SubmitStep::Done));
    assert_eq!(s.polls_left, 0);
    assert!(matches!(s.finish(), Some(Err(SubmissionError::InclusionTimeout))));
}

#[test]
fn rejected_transaction_fails() {
    let mut s = submission(5);
    s.on_sent(Ok("H".to_string()));
    let step = s.on_polled(PollStatus::Rejected { cause: "out of gas".to_string() });
    assert!(matches!(step, SubmitStep::Done));
    match s.finish() {
        Some(Err(SubmissionError::Rejected { cause })) => assert_eq!(cause, "out of gas"),
        other => panic!("unexpected {:?}", other),
    }
}

#[test]
fn send_failure_is_reported() {
    let mut s = submission(5);
    let step = s.on_sent(Err(SubmissionError::Transport { cause: "no route".to_string() }));
    assert!(matches!(step, SubmitStep::Done));
    assert!(matches!(s.phase, SubmitPhase::Finished { .. }));
    assert!(matches!(s.finish(), Some(Err(SubmissionError::Transport { .. }))));
}

#[test]
fn zero_budget_times_out_at_once() {
    let mut s = submission(0);
    assert!(matches!(s.on_sent(Ok("H".to_string())), SubmitStep::Done));
    assert!(matches!(s.finish(), Some(Err(SubmissionError::InclusionTimeout))));
}

#[test]
fn unfinished_submission_has_no_result() {
    let mut s = submission(2);
    assert!(submission(2).finish().is_none());
    s.on_sent(Ok("H".to_string()));
    assert!(s.finish().is_none());
}
