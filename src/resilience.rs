//! Connection resilience: a bounded retry budget with fixed backoff, and the
//! health-check probe that gates readiness.
use vstd::prelude::*;

verus! {

/// Attempts allowed before giving up, by default.
pub const DEFAULT_MAX_ATTEMPTS: u32 = 10;

/// Pause between two attempts, by default, in seconds.
pub const DEFAULT_BACKOFF_SECS: u64 = 1;

/// How long the health check waits for a publish or an acknowledgement, in seconds.
pub const HEALTH_CHECK_TIMEOUT_SECS: u64 = 5;

/// A retry budget and the pause between attempts.
#[derive(PartialEq, Eq, Structural, Clone, Copy, Debug)]
pub struct RetryPolicy {
    pub max_attempts: u32,
    pub backoff_secs: u64,
}

impl RetryPolicy {
    /// Ten attempts, one second apart.
    pub fn standard() -> (r: RetryPolicy)
        ensures
            r.max_attempts == DEFAULT_MAX_ATTEMPTS,
            r.backoff_secs == DEFAULT_BACKOFF_SECS,
    {
        RetryPolicy { max_attempts: DEFAULT_MAX_ATTEMPTS, backoff_secs: DEFAULT_BACKOFF_SECS }
    }
}

/// What to do after an attempt.
#[derive(PartialEq, Eq, Structural, Clone, Copy, Debug)]
pub enum RetryStep {
    /// The attempt succeeded: go on.
    Proceed,
    /// The attempt failed: wait this many seconds and try again.
    Backoff { secs: u64 },
    /// The budget is spent: give up.
    Exhausted,
}

/// The state of a retry loop: the attempts still allowed.
#[derive(PartialEq, Eq, Structural, Clone, Copy, Debug)]
pub struct Retry {
    pub attempts_left: u32,
    pub backoff_secs: u64,
}

/// One step of the retry machine: attempts left afterwards, and the decision.
pub open spec fn retry_step(left: nat, backoff: u64, succeeded: bool) -> (nat, RetryStep) {
    if left == 0 {
        (0, RetryStep::Exhausted)
    } else if succeeded {
        (left, RetryStep::Proceed)
    } else if left == 1 {
        (0, RetryStep::Exhausted)
    } else {
        ((left - 1) as nat, RetryStep::Backoff { secs: backoff })
    }
}

/// Where a run of attempt outcomes leads from `left` attempts: `None` while it
/// is still retrying when the outcomes run out.
pub open spec fn retry_run(left: nat, backoff: u64, outcomes: Seq<bool>) -> Option<RetryStep>
    decreases outcomes.len(),
{
    if left == 0 {
        Some(RetryStep::Exhausted)
    } else if outcomes.len() == 0 {
        None
    } else {
        let (next, step) = retry_step(left, backoff, outcomes[0]);
        match step {
            RetryStep::Backoff { .. } => retry_run(next, backoff, outcomes.drop_first()),
            _ => Some(step),
        }
    }
}

impl Retry {
    /// A fresh loop with the policy's whole budget.
    pub fn new(policy: RetryPolicy) -> (r: Retry)
        ensures
            r.attempts_left == policy.max_attempts,
            r.backoff_secs == policy.backoff_secs,
    {
        Retry { attempts_left: policy.max_attempts, backoff_secs: policy.backoff_secs }
    }

    /// Whether another attempt is allowed.
    pub fn may_attempt(&self) -> (r: bool)
        ensures
            r == (self.attempts_left > 0),
    {
        self.attempts_left > 0
    }

    /// Records the outcome of an attempt and decides what comes next.
    pub fn record(&mut self, succeeded: bool) -> (r: RetryStep)
        ensures
            (final(self).attempts_left as nat, r) == retry_step(
                old(self).attempts_left as nat,
                old(self).backoff_secs,
                succeeded,
            ),
            final(self).backoff_secs == old(self).backoff_secs,
    {
        if self.attempts_left == 0 {
            RetryStep::Exhausted
        } else if succeeded {
            RetryStep::Proceed
        } else {
            self.attempts_left = self.attempts_left - 1;
            if self.attempts_left == 0 {
                RetryStep::Exhausted
            } else {
                RetryStep::Backoff { secs: self.backoff_secs }
            }
        }
    }
}

/// With a budget of `n` attempts, the loop goes on exactly when one of the
/// first `n` attempts succeeds, and gives up exactly when all `n` fail.
pub proof fn lemma_retry_budget(n: nat, backoff: u64, outcomes: Seq<bool>)
    requires
        n > 0,
        outcomes.len() >= n,
    ensures
        retry_run(n, backoff, outcomes) == Some(RetryStep::Proceed) <==> exists|i: int|
            0 <= i < n && outcomes[i],
        retry_run(n, backoff, outcomes) == Some(RetryStep::Exhausted) <==> forall|i: int|
            0 <= i < n ==> !outcomes[i],
    decreases n,
{
    if outcomes[0] {
    } else if n == 1 {
        assert forall|i: int| 0 <= i < n implies !outcomes[i] by {
            assert(i == 0);
        }
    } else {
        let rest = outcomes.drop_first();
        lemma_retry_budget((n - 1) as nat, backoff, rest);
        assert((exists|i: int| 0 <= i < n && outcomes[i]) <==> (exists|i: int|
            0 <= i < n - 1 && rest[i])) by {
            if exists|i: int| 0 <= i < n && outcomes[i] {
                let i = choose|i: int| 0 <= i < n && outcomes[i];
                assert(rest[i - 1] == outcomes[i]);
            }
            if exists|i: int| 0 <= i < n - 1 && rest[i] {
                let i = choose|i: int| 0 <= i < n - 1 && rest[i];
                assert(outcomes[i + 1] == rest[i]);
            }
        }
        assert((forall|i: int| 0 <= i < n ==> !outcomes[i]) <==> (forall|i: int|
            0 <= i < n - 1 ==> !rest[i])) by {
            if forall|i: int| 0 <= i < n - 1 ==> !rest[i] {
                assert forall|i: int| 0 <= i < n implies !outcomes[i] by {
                    if i > 0 {
                        assert(outcomes[i] == rest[i - 1]);
                    }
                }
            }
            if forall|i: int| 0 <= i < n ==> !outcomes[i] {
                assert forall|i: int| 0 <= i < n - 1 implies !rest[i] by {
                    assert(outcomes[i + 1] == rest[i]);
                }
            }
        }
    }
}

/// Where a health-check probe stands.
#[derive(PartialEq, Eq, Structural, Clone, Copy, Debug)]
pub enum ProbePhase {
    /// The probe message is being published.
    Publishing,
    /// The probe went out; waiting for any inbound event.
    AwaitingAck,
    Healthy,
    Unhealthy,
}

/// What the bus reported while probing.
#[derive(PartialEq, Eq, Structural, Clone, Copy, Debug)]
pub enum ProbeEvent {
    /// The probe was handed to the bus.
    Published,
    /// Publishing the probe failed.
    PublishFailed,
    /// The timeout ran out on the step being awaited.
    TimedOut,
    /// An inbound event arrived: an acknowledgement.
    Incoming,
    /// An outbound event, which is no acknowledgement.
    Outgoing,
    /// Polling the event stream failed.
    PollFailed,
}

/// The health-check transition.
pub open spec fn probe_transition(phase: ProbePhase, event: ProbeEvent) -> ProbePhase {
    match phase {
        ProbePhase::Publishing => match event {
            ProbeEvent::Published => ProbePhase::AwaitingAck,
            ProbeEvent::PublishFailed | ProbeEvent::TimedOut => ProbePhase::Unhealthy,
            _ => ProbePhase::Publishing,
        },
        ProbePhase::AwaitingAck => match event {
            ProbeEvent::Incoming => ProbePhase::Healthy,
            ProbeEvent::TimedOut | ProbeEvent::PollFailed => ProbePhase::Unhealthy,
            _ => ProbePhase::AwaitingAck,
        },
        _ => phase,
    }
}

/// The phase after a sequence of events.
pub open spec fn probe_run(phase: ProbePhase, events: Seq<ProbeEvent>) -> ProbePhase
    decreases events.len(),
{
    if events.len() == 0 {
        phase
    } else {
        probe_run(probe_transition(phase, events[0]), events.drop_first())
    }
}

impl ProbePhase {
    /// Whether the probe has reached a verdict.
    pub fn is_settled(&self) -> (r: bool)
        ensures
            r == (*self == ProbePhase::Healthy || *self == ProbePhase::Unhealthy),
    {
        match self {
            ProbePhase::Healthy | ProbePhase::Unhealthy => true,
            _ => false,
        }
    }
}

/// Advances a health-check probe by one event.
pub fn check_mqtt_connection(phase: ProbePhase, event: ProbeEvent) -> (r: ProbePhase)
    ensures
        r == probe_transition(phase, event),
{
    match phase {
        ProbePhase::Publishing => match event {
            ProbeEvent::Published => ProbePhase::AwaitingAck,
            ProbeEvent::PublishFailed | ProbeEvent::TimedOut => ProbePhase::Unhealthy,
            _ => ProbePhase::Publishing,
        },
        ProbePhase::AwaitingAck => match event {
            ProbeEvent::Incoming => ProbePhase::Healthy,
            ProbeEvent::TimedOut | ProbeEvent::PollFailed => ProbePhase::Unhealthy,
            _ => ProbePhase::AwaitingAck,
        },
        _ => phase,
    }
}

/// A probe is judged healthy only after an inbound event; and once judged,
/// the verdict never changes.
pub proof fn lemma_probe_needs_ack(phase: ProbePhase, events: Seq<ProbeEvent>)
    ensures
        phase != ProbePhase::Healthy && !events.contains(ProbeEvent::Incoming) ==> probe_run(
            phase,
            events,
        ) != ProbePhase::Healthy,
        phase == ProbePhase::Healthy || phase == ProbePhase::Unhealthy ==> probe_run(phase, events)
            == phase,
    decreases events.len(),
{
    if events.len() > 0 {
        let rest = events.drop_first();
        if !events.contains(ProbeEvent::Incoming) {
            assert(!rest.contains(ProbeEvent::Incoming)) by {
                if rest.contains(ProbeEvent::Incoming) {
                    let i = choose|i: int| 0 <= i < rest.len() && rest[i] == ProbeEvent::Incoming;
                    assert(events[i + 1] == rest[i]);
                }
            }
            assert(events[0] != ProbeEvent::Incoming);
        }
        lemma_probe_needs_ack(probe_transition(phase, events[0]), rest);
    }
}

} // verus!
