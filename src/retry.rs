use vstd::prelude::*;
use crate::errors::{ProviderError, ProviderErrorView};

verus! {

/// Bounds on how often and how patiently a request is repeated.
#[derive(Clone, Copy, Debug, PartialEq, Eq, Structural)]
pub struct RetryPolicy {
    pub max_attempts: u32,
    pub initial_delay_ms: u64,
    pub multiplier: u64,
    pub max_delay_ms: u64,
}

impl RetryPolicy {
    /// Three attempts, waiting one second, then two, never more than thirty.
    pub fn standard() -> (r: RetryPolicy)
        ensures
            r.max_attempts == 3,
            r.initial_delay_ms == 1000,
            r.multiplier == 2,
            r.max_delay_ms == 30000,
    {
        RetryPolicy { max_attempts: 3, initial_delay_ms: 1000, multiplier: 2, max_delay_ms: 30000 }
    }
}

/// The outcome of one physical attempt.
#[derive(Debug)]
pub enum AttemptOutcome {
    Response { status: u16, body: String },
    TransportError(String),
}

pub enum AttemptOutcomeView {
    Response { status: u16, body: Seq<char> },
    TransportError(Seq<char>),
}

impl View for AttemptOutcome {
    type V = AttemptOutcomeView;

    open spec fn view(&self) -> AttemptOutcomeView {
        match self {
            AttemptOutcome::Response { status, body } => AttemptOutcomeView::Response {
                status: *status,
                body: body@,
            },
            AttemptOutcome::TransportError(m) => AttemptOutcomeView::TransportError(m@),
        }
    }
}

/// What the caller does next.
#[derive(Debug)]
pub enum RetryAction {
    /// Wait this long, then make another attempt.
    Retry { delay_ms: u64 },
    /// The call is over: the successful body, or the last failure.
    Finish(Result<String, ProviderError>),
}

pub enum RetryActionView {
    Retry { delay_ms: u64 },
    Finish(Result<Seq<char>, ProviderErrorView>),
}

impl View for RetryAction {
    type V = RetryActionView;

    open spec fn view(&self) -> RetryActionView {
        match self {
            RetryAction::Retry { delay_ms } => RetryActionView::Retry { delay_ms: *delay_ms },
            RetryAction::Finish(Ok(b)) => RetryActionView::Finish(Ok(b@)),
            RetryAction::Finish(Err(e)) => RetryActionView::Finish(Err(e@)),
        }
    }
}

pub open spec fn is_success_status(status: u16) -> bool {
    200 <= status <= 299
}

/// Statuses that may clear up on their own: rate limiting and server errors.
pub open spec fn is_transient_status(status: u16) -> bool {
    status == 429 || (500 <= status <= 599)
}

pub open spec fn is_retryable(o: AttemptOutcomeView) -> bool {
    match o {
        AttemptOutcomeView::Response { status, .. } => !is_success_status(status) && is_transient_status(status),
        AttemptOutcomeView::TransportError(_) => true,
    }
}

/// The result that an attempt stands for.
pub open spec fn result_of(o: AttemptOutcomeView) -> Result<Seq<char>, ProviderErrorView> {
    match o {
        AttemptOutcomeView::Response { status, body } => if is_success_status(status) {
            Ok(body)
        } else {
            Err(ProviderErrorView::Http { status, body })
        },
        AttemptOutcomeView::TransportError(m) => Err(ProviderErrorView::Transport(m)),
    }
}

/// The wait after the `k`-th failed attempt: the initial delay, multiplied after
/// each further failure, never above the cap.
pub open spec fn backoff(p: RetryPolicy, k: nat) -> u64
    decreases k,
{
    if k <= 1 {
        if p.initial_delay_ms <= p.max_delay_ms { p.initial_delay_ms } else { p.max_delay_ms }
    } else {
        let prev = backoff(p, (k - 1) as nat);
        let grown = prev * p.multiplier;
        if grown <= p.max_delay_ms { grown as u64 } else { p.max_delay_ms }
    }
}

/// The decision after the `attempts`-th attempt (counted from one) ended in `o`.
pub open spec fn decide(p: RetryPolicy, attempts: nat, o: AttemptOutcomeView) -> RetryActionView {
    if is_retryable(o) && attempts < p.max_attempts {
        RetryActionView::Retry { delay_ms: backoff(p, attempts) }
    } else {
        RetryActionView::Finish(result_of(o))
    }
}

/// The attempts of one logical call, as they happen.
#[derive(Clone, Copy, Debug, PartialEq, Eq, Structural)]
pub struct RetryState {
    pub attempts: u32,
}

/// Counts the attempts made under a policy and decides after each whether to
/// try again.
impl RetryState {
    pub fn new() -> (r: RetryState)
        ensures
            r.attempts == 0,
    {
        RetryState { attempts: 0 }
    }

    /// Records one attempt and its outcome, and says what comes next.
    pub fn record(&mut self, policy: &RetryPolicy, outcome: AttemptOutcome) -> (r: RetryAction)
        requires
            old(self).attempts < policy.max_attempts,
        ensures
            final(self).attempts == old(self).attempts + 1,
            r@ == decide(*policy, final(self).attempts as nat, outcome@),
    {
        self.attempts = self.attempts + 1;
        let retryable = match &outcome {
            AttemptOutcome::Response { status, .. } => !(200 <= *status && *status <= 299) && (*status
                == 429 || (500 <= *status && *status <= 599)),
            AttemptOutcome::TransportError(_) => true,
        };
        if retryable && self.attempts < policy.max_attempts {
            RetryAction::Retry { delay_ms: backoff_delay(policy, self.attempts) }
        } else {
            match outcome {
                AttemptOutcome::Response { status, body } => if 200 <= status && status <= 299 {
                    RetryAction::Finish(Ok(body))
                } else {
                    RetryAction::Finish(Err(ProviderError::Http { status, body }))
                },
                AttemptOutcome::TransportError(m) => RetryAction::Finish(Err(ProviderError::Transport(m))),
            }
        }
    }
}

/// The wait after the `k`-th failed attempt.
pub fn backoff_delay(policy: &RetryPolicy, k: u32) -> (r: u64)
    ensures
        r == backoff(*policy, k as nat),
{
    let mut d: u64 = if policy.initial_delay_ms <= policy.max_delay_ms {
        policy.initial_delay_ms
    } else {
        policy.max_delay_ms
    };
    let mut i: u32 = 1;
    while i < k
        invariant
            1 <= i,
            i <= k || (k == 0 && i == 1),
            d == backoff(*policy, i as nat),
        decreases k - i,
    {
        d = match d.checked_mul(policy.multiplier) {
            Some(g) => if g <= policy.max_delay_ms { g } else { policy.max_delay_ms },
            None => policy.max_delay_ms,
        };
        i = i + 1;
    }
    assert(backoff(*policy, 0) == backoff(*policy, 1));
    d
}

/// Runs the decisions over the outcomes of successive attempts, from the
/// `done`-th attempt on: how many attempts were made, and how the call ended
/// (`None` if the outcomes ran out first).
pub open spec fn run(p: RetryPolicy, outcomes: Seq<AttemptOutcomeView>, done: nat) -> (nat, Option<Result<Seq<char>, ProviderErrorView>>)
    decreases outcomes.len(),
{
    if outcomes.len() == 0 {
        (done, None)
    } else {
        match decide(p, done + 1, outcomes[0]) {
            RetryActionView::Retry { .. } => run(p, outcomes.drop_first(), done + 1),
            RetryActionView::Finish(res) => (done + 1, Some(res)),
        }
    }
}

/// When every attempt fails in a way that may clear up, exactly `max_attempts`
/// attempts are made, and the call ends with the failure of the last one.
pub proof fn retries_stop_at_max_attempts(p: RetryPolicy, outcomes: Seq<AttemptOutcomeView>)
    requires
        p.max_attempts >= 1,
        outcomes.len() >= p.max_attempts,
        forall|i: int| 0 <= i < outcomes.len() ==> is_retryable(#[trigger] outcomes[i]),
    ensures
        run(p, outcomes, 0) == (p.max_attempts as nat, Some(result_of(outcomes[p.max_attempts - 1]))),
{
    run_from(p, outcomes, 0);
}

proof fn run_from(p: RetryPolicy, outcomes: Seq<AttemptOutcomeView>, done: nat)
    requires
        done < p.max_attempts,
        outcomes.len() + done >= p.max_attempts,
        forall|i: int| 0 <= i < outcomes.len() ==> is_retryable(#[trigger] outcomes[i]),
    ensures
        run(p, outcomes, done) == (p.max_attempts as nat, Some(result_of(outcomes[p.max_attempts - 1 - done]))),
    decreases outcomes.len(),
{
    assert(is_retryable(outcomes[0]));
    if done + 1 < p.max_attempts {
        let rest = outcomes.drop_first();
        assert forall|i: int| 0 <= i < rest.len() implies is_retryable(#[trigger] rest[i]) by {
            assert(rest[i] == outcomes[i + 1]);
        }
        run_from(p, rest, done + 1);
        assert(rest[p.max_attempts - 1 - (done + 1)] == outcomes[p.max_attempts - 1 - done]);
    }
}

} // verus!
