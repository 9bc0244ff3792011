use meteostation_pi::poller::{poll_step, stop_step, PollDecision, PollEvent};

#[test]
fn worker_exits_exactly_on_a_stop_signal() {
    assert_eq!(poll_step(PollEvent::StopRequested), PollDecision::Exit);
    assert_eq!(poll_step(PollEvent::IntervalElapsed), PollDecision::RunAgain);
    assert_eq!(poll_step(PollEvent::SenderGone), PollDecision::RunAgain);
}

#[test]
fn shutdown_joins_only_a_signalled_worker() {
    assert!(stop_step(true));
    assert!(!stop_step(false));
}
