//! Exponential-backoff retry for bulk submissions: the policy constants, the
//! per-batch lifecycle (pending, sent, accepted, backoff wait, terminal
//! failure) and the decision that stops retrying once the elapsed-time
//! ceiling is passed.
use vstd::prelude::*;

verus! {

/// Backoff policy in milliseconds. The growth factor is fixed at three
/// halves, and each granted wait is the current interval shifted by a jitter
/// of up to half of it in either direction.
#[derive(Clone, Copy, PartialEq, Eq, Structural, Debug)]
pub struct RetryPolicy {
    pub initial_interval_ms: u64,
    pub max_interval_ms: u64,
    pub max_elapsed_ms: u64,
}

impl RetryPolicy {
    pub open spec fn wf(self) -> bool {
        &&& 0 < self.initial_interval_ms
        &&& self.initial_interval_ms <= self.max_interval_ms
        &&& self.max_interval_ms <= u64::MAX as int / 2
    }
}

/// The loader's policy: first interval 15 s, growth one half per attempt,
/// intervals capped at 900 s, total elapsed time capped at 1800 s.
pub fn default_policy() -> (r: RetryPolicy)
    ensures
        r == (RetryPolicy {
            initial_interval_ms: 15_000,
            max_interval_ms: 900_000,
            max_elapsed_ms: 1_800_000,
        }),
        r.wf(),
{
    RetryPolicy { initial_interval_ms: 15_000, max_interval_ms: 900_000, max_elapsed_ms: 1_800_000 }
}

/// The stored interval after one growth step: half again as much, capped at
/// the maximum interval.
pub open spec fn spec_next_interval(p: RetryPolicy, cur: int) -> int {
    if cur + cur / 2 <= p.max_interval_ms {
        cur + cur / 2
    } else {
        p.max_interval_ms as int
    }
}

/// The wait granted for one retry: half the current interval plus the jitter,
/// never above the maximum interval.
pub open spec fn spec_wait(p: RetryPolicy, cur: int, jitter: int) -> int {
    let w = cur - cur / 2 + jitter;
    if w <= p.max_interval_ms {
        w
    } else {
        p.max_interval_ms as int
    }
}

#[derive(Clone, Copy, PartialEq, Eq, Structural, Debug)]
pub struct RetryState {
    pub policy: RetryPolicy,
    pub current_interval_ms: u64,
}

impl RetryState {
    pub open spec fn wf(self) -> bool {
        &&& self.policy.wf()
        &&& 0 < self.current_interval_ms
        &&& self.current_interval_ms <= self.policy.max_interval_ms
    }
}

/// One batch's lifecycle under the loader. A batch is pending, is sent, and
/// is then either accepted, or transiently failed and waited out before the
/// next attempt, or terminally failed once the elapsed ceiling is passed.
#[derive(Clone, Copy, PartialEq, Eq, Structural, Debug)]
pub enum BatchState {
    Pending,
    Sent,
    Accepted { items: usize },
    BackoffWait { wait_ms: u64 },
    TerminalFailure,
}

/// What the surrounding loop reports back to the machine: the batch was
/// handed to the transport, was accepted with a per-item count, failed
/// transiently (with the elapsed time so far and the drawn jitter), or the
/// granted wait has passed.
#[derive(Clone, Copy, PartialEq, Eq, Structural, Debug)]
pub enum BatchEvent {
    Submit,
    Accept { items: usize },
    TransientFailure { elapsed_ms: u64, jitter_ms: u64 },
    WaitDone,
}

/// The retry machine for one batch: its state, the backoff bookkeeping, and
/// how many backoff waits it has granted.
#[derive(Clone, Copy, PartialEq, Eq, Structural, Debug)]
pub struct BatchRun {
    pub retry: RetryState,
    pub state: BatchState,
    pub waits: u64,
}

impl BatchRun {
    pub open spec fn wf(self) -> bool {
        &&& self.retry.wf()
        &&& (self.state matches BatchState::BackoffWait { wait_ms } ==> wait_ms
            <= self.retry.policy.max_interval_ms)
    }

    /// Which events the current state admits.
    pub open spec fn event_enabled(self, ev: BatchEvent) -> bool {
        match ev {
            BatchEvent::Submit => self.state is Pending,
            BatchEvent::Accept { .. } => self.state is Sent,
            BatchEvent::TransientFailure { elapsed_ms, jitter_ms } => self.state is Sent
                && jitter_ms <= self.retry.current_interval_ms,
            BatchEvent::WaitDone => self.state is BackoffWait,
        }
    }

    /// The machine's transition relation, as a function of state and event.
    pub open spec fn spec_step(self, ev: BatchEvent) -> BatchRun {
        match ev {
            BatchEvent::Submit => BatchRun { state: BatchState::Sent, ..self },
            BatchEvent::Accept { items } => BatchRun { state: BatchState::Accepted { items }, ..self },
            BatchEvent::WaitDone => BatchRun { state: BatchState::Pending, ..self },
            BatchEvent::TransientFailure { elapsed_ms, jitter_ms } => {
                if elapsed_ms > self.retry.policy.max_elapsed_ms {
                    BatchRun { state: BatchState::TerminalFailure, ..self }
                } else {
                    BatchRun {
                        retry: RetryState {
                            policy: self.retry.policy,
                            current_interval_ms: spec_next_interval(
                                self.retry.policy,
                                self.retry.current_interval_ms as int,
                            ) as u64,
                        },
                        state: BatchState::BackoffWait {
                            wait_ms: spec_wait(
                                self.retry.policy,
                                self.retry.current_interval_ms as int,
                                jitter_ms as int,
                            ) as u64,
                        },
                        waits: if self.waits == u64::MAX {
                            u64::MAX
                        } else {
                            (self.waits + 1) as u64
                        },
                    }
                }
            },
        }
    }

    /// A fresh machine for one batch, with the interval reset to the policy's
    /// initial value.
    pub fn new(policy: RetryPolicy) -> (r: BatchRun)
        requires
            policy.wf(),
        ensures
            r == (BatchRun {
                retry: RetryState { policy, current_interval_ms: policy.initial_interval_ms },
                state: BatchState::Pending,
                waits: 0,
            }),
            r.wf(),
    {
        BatchRun {
            retry: RetryState { policy, current_interval_ms: policy.initial_interval_ms },
            state: BatchState::Pending,
            waits: 0,
        }
    }

    /// Takes one step of the lifecycle. On a transient failure past the
    /// elapsed ceiling the batch fails terminally; before the ceiling a wait
    /// no longer than the maximum interval is granted and the interval grows.
    pub fn step(&mut self, ev: BatchEvent)
        requires
            old(self).wf(),
            old(self).event_enabled(ev),
        ensures
            *final(self) == old(self).spec_step(ev),
            final(self).wf(),
    {
        match ev {
            BatchEvent::Submit => {
                self.state = BatchState::Sent;
            },
            BatchEvent::Accept { items } => {
                self.state = BatchState::Accepted { items };
            },
            BatchEvent::WaitDone => {
                self.state = BatchState::Pending;
            },
            BatchEvent::TransientFailure { elapsed_ms, jitter_ms } => {
                if elapsed_ms > self.retry.policy.max_elapsed_ms {
                    self.state = BatchState::TerminalFailure;
                } else {
                    let cur = self.retry.current_interval_ms;
                    let half = cur / 2;
                    let w0 = cur - half + jitter_ms;
                    let w = if w0 <= self.retry.policy.max_interval_ms {
                        w0
                    } else {
                        self.retry.policy.max_interval_ms
                    };
                    let grown = cur + half;
                    let next = if grown <= self.retry.policy.max_interval_ms {
                        grown
                    } else {
                        self.retry.policy.max_interval_ms
                    };
                    self.retry.current_interval_ms = next;
                    self.state = BatchState::BackoffWait { wait_ms: w };
                    self.waits = if self.waits == u64::MAX {
                        u64::MAX
                    } else {
                        self.waits + 1
                    };
                }
            },
        }
    }
}

/// Law: past the elapsed-time ceiling, a transient failure ends the batch
/// terminally; no further wait is granted.
pub proof fn lemma_retry_stops_at_ceiling(b: BatchRun, elapsed_ms: u64, jitter_ms: u64)
    requires
        b.wf(),
        elapsed_ms > b.retry.policy.max_elapsed_ms,
    ensures
        b.spec_step(BatchEvent::TransientFailure { elapsed_ms, jitter_ms }).state
            is TerminalFailure,
{
}

/// Law: a granted backoff wait never exceeds the policy's maximum interval.
pub proof fn lemma_wait_bounded(b: BatchRun, elapsed_ms: u64, jitter_ms: u64)
    requires
        b.wf(),
        jitter_ms <= b.retry.current_interval_ms,
    ensures
        (b.spec_step(BatchEvent::TransientFailure { elapsed_ms, jitter_ms }).state matches
            BatchState::BackoffWait { wait_ms } ==> wait_ms <= b.retry.policy.max_interval_ms),
{
}

} // verus!
