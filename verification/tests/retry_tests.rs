use libingest::retry::{default_policy, BatchEvent, BatchRun, BatchState};

#[test]
fn policy_constants() {
    let p = default_policy();
    assert_eq!(p.initial_interval_ms, 15_000);
    assert_eq!(p.max_interval_ms, 900_000);
    assert_eq!(p.max_elapsed_ms, 1_800_000);
}

fn wait_of(b: &BatchRun) -> u64 {
    match b.state {
        BatchState::BackoffWait { wait_ms } => wait_ms,
        _ => panic!("expected a backoff wait"),
    }
}

#[test]
fn two_transients_then_accepted() {
    let mut b = BatchRun::new(default_policy());
    assert_eq!(b.state, BatchState::Pending);
    b.step(BatchEvent::Submit);
    assert_eq!(b.state, BatchState::Sent);
    b.step(BatchEvent::TransientFailure { elapsed_ms: 1_000, jitter_ms: 0 });
    assert_eq!(wait_of(&b), 7_500);
    assert_eq!(b.retry.current_interval_ms, 22_500);
    b.step(BatchEvent::WaitDone);
    b.step(BatchEvent::Submit);
    b.step(BatchEvent::TransientFailure { elapsed_ms: 9_000, jitter_ms: 22_500 });
    assert_eq!(wait_of(&b), 33_750);
    b.step(BatchEvent::WaitDone);
    b.step(BatchEvent::Submit);
    b.step(BatchEvent::Accept { items: 42 });
    assert_eq!(b.state, BatchState::Accepted { items: 42 });
    assert_eq!(b.waits, 2);
}

#[test]
fn stops_past_elapsed_ceiling() {
    let mut b = BatchRun::new(default_policy());
    b.step(BatchEvent::Submit);
    b.step(BatchEvent::TransientFailure { elapsed_ms: 1_800_001, jitter_ms: 0 });
    assert_eq!(b.state, BatchState::TerminalFailure);
    assert_eq!(b.waits, 0);
}

#[test]
fn ceiling_is_inclusive() {
    let mut b = BatchRun::new(default_policy());
    b.step(BatchEvent::Submit);
    b.step(BatchEvent::TransientFailure { elapsed_ms: 1_800_000, jitter_ms: 0 });
    assert_eq!(wait_of(&b), 7_500);
}

#[test]
fn wait_never_exceeds_max_interval() {
    let mut b = BatchRun::new(default_policy());
    for _ in 0..30 {
        b.step(BatchEvent::Submit);
        let jitter = b.retry.current_interval_ms;
        b.step(BatchEvent::TransientFailure { elapsed_ms: 0, jitter_ms: jitter });
        assert!(wait_of(&b) <= 900_000);
        assert!(b.retry.current_interval_ms <= 900_000);
        b.step(BatchEvent::WaitDone);
    }
    assert_eq!(b.retry.current_interval_ms, 900_000);
    assert_eq!(b.waits, 30);
}
