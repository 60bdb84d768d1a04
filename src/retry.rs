//! Retry policy of the chat request: up to three attempts, with an exponential
//! pause after each failed one but the last.
//!
//! The sending itself (an HTTP round trip and a sleep) is done by the caller;
//! this module decides, after each attempt, what comes next.
use vstd::prelude::*;
use crate::error::ChatError;

verus! {

/// How many times one request is tried at most.
pub const MAX_ATTEMPTS: u32 = 3;

/// `2^n`.
pub open spec fn two_pow(n: nat) -> nat
    decreases n,
{
    if n == 0 {
        1
    } else {
        2 * two_pow((n - 1) as nat)
    }
}

/// Seconds to wait after failed attempt number `attempt` (counted from 1).
pub open spec fn backoff_secs(attempt: nat) -> nat {
    two_pow(attempt)
}

/// Whether an HTTP status counts as success.
pub open spec fn is_success(status: u16) -> bool {
    200 <= status <= 299
}

/// Success of an attempt is decided by the status alone: any 2xx.
pub fn is_success_status(status: u16) -> (r: bool)
    ensures
        r == is_success(status),
{
    200 <= status && status <= 299
}

/// What the caller does after an attempt.
pub enum RetryStep {
    /// The attempt succeeded: read its body.
    Deliver,
    /// Sleep this many seconds, then send again.
    Retry { wait_secs: u64 },
    /// Attempts are exhausted: report this error.
    Fail { error: ChatError },
}

/// The next step after attempt number `attempt`, as a mathematical value:
/// `None` to deliver, `Some(Some(s))` to wait `s` seconds and retry,
/// `Some(None)` to give up.
pub open spec fn step_after(attempt: nat, succeeded: bool) -> Option<Option<nat>> {
    if succeeded {
        None
    } else if attempt < MAX_ATTEMPTS {
        Some(Some(backoff_secs(attempt)))
    } else {
        Some(None)
    }
}

/// Whether an exec step is the mathematical one.
pub open spec fn step_matches(r: RetryStep, s: Option<Option<nat>>) -> bool {
    match r {
        RetryStep::Deliver => s is None,
        RetryStep::Retry { wait_secs } => s == Some(Some(wait_secs as nat)),
        RetryStep::Fail { .. } => s == Some(None::<nat>),
    }
}

proof fn lemma_two_pow_monotonic(n: nat, m: nat)
    requires
        n <= m,
    ensures
        two_pow(n) <= two_pow(m),
    decreases m,
{
    if n < m {
        lemma_two_pow_monotonic(n, (m - 1) as nat);
    }
}

fn backoff(attempt: u32) -> (r: u64)
    requires
        attempt < 32,
    ensures
        r == backoff_secs(attempt as nat),
{
    proof {
        reveal_with_fuel(two_pow, 32);
        assert(two_pow(31) == 0x8000_0000);
    }
    let mut r: u64 = 1;
    let mut i: u32 = 0;
    while i < attempt
        invariant
            i <= attempt < 32,
            r == two_pow(i as nat),
            two_pow(31) == 0x8000_0000,
        decreases attempt - i,
    {
        proof {
            lemma_two_pow_monotonic((i + 1) as nat, 31);
        }
        r = r * 2;
        i = i + 1;
    }
    r
}

/// Decides what follows attempt number `attempt` (counted from 1), given its
/// outcome: deliver on success; after a failure, wait `2^attempt` seconds and
/// retry while attempts remain, else fail with that attempt's error.
pub fn after_attempt(attempt: u32, outcome: Result<(), ChatError>) -> (r: RetryStep)
    requires
        1 <= attempt <= MAX_ATTEMPTS,
    ensures
        step_matches(r, step_after(attempt as nat, outcome is Ok)),
        outcome is Err && attempt == MAX_ATTEMPTS ==> r == (RetryStep::Fail {
            error: outcome->Err_0,
        }),
{
    match outcome {
        Ok(()) => RetryStep::Deliver,
        Err(error) => {
            if attempt < MAX_ATTEMPTS {
                RetryStep::Retry { wait_secs: backoff(attempt) }
            } else {
                RetryStep::Fail { error }
            }
        },
    }
}

/// Summary of a whole run of the policy.
pub struct RunSummary {
    pub delivered: bool,
    pub attempts: nat,
    pub waited_secs: nat,
}

/// Runs the policy from attempt number `attempt` against a transport whose
/// successive attempts succeed or fail as `outcomes` says.
pub open spec fn run_from(attempt: nat, outcomes: Seq<bool>) -> RunSummary
    decreases outcomes.len(),
{
    if outcomes.len() == 0 {
        RunSummary { delivered: false, attempts: (attempt - 1) as nat, waited_secs: 0 }
    } else {
        match step_after(attempt, outcomes[0]) {
            None => RunSummary { delivered: true, attempts: attempt, waited_secs: 0 },
            Some(None) => RunSummary { delivered: false, attempts: attempt, waited_secs: 0 },
            Some(Some(s)) => {
                let rest = run_from(attempt + 1, outcomes.drop_first());
                RunSummary { waited_secs: rest.waited_secs + s, ..rest }
            },
        }
    }
}

/// A run of the policy from the first attempt.
pub open spec fn run(outcomes: Seq<bool>) -> RunSummary {
    run_from(1, outcomes)
}

/// A transport that fails twice and then succeeds is delivered from on the
/// third attempt, after 2 + 4 = 6 seconds of waiting.
pub proof fn lemma_two_failures_then_success(outcomes: Seq<bool>)
    requires
        outcomes.len() >= 3,
        !outcomes[0],
        !outcomes[1],
        outcomes[2],
    ensures
        run(outcomes) == (RunSummary { delivered: true, attempts: 3, waited_secs: 6 }),
{
    reveal_with_fuel(two_pow, 3);
    let o1 = outcomes.drop_first();
    let o2 = o1.drop_first();
    assert(o1[0] == outcomes[1]);
    assert(o2[0] == outcomes[2]);
    assert(run_from(3, o2) == (RunSummary { delivered: true, attempts: 3, waited_secs: 0 }));
    assert(run_from(2, o1) == (RunSummary { delivered: true, attempts: 3, waited_secs: 4 }));
}

/// A transport that always fails is given up on after exactly the maximum
/// number of attempts.
pub proof fn lemma_always_failing(outcomes: Seq<bool>)
    requires
        outcomes.len() >= MAX_ATTEMPTS,
        forall|i: int| 0 <= i < outcomes.len() ==> !outcomes[i],
    ensures
        run(outcomes) == (RunSummary {
            delivered: false,
            attempts: MAX_ATTEMPTS as nat,
            waited_secs: 6,
        }),
{
    reveal_with_fuel(two_pow, 3);
    let o1 = outcomes.drop_first();
    let o2 = o1.drop_first();
    assert(o1[0] == outcomes[1]);
    assert(o2[0] == outcomes[2]);
    assert(run_from(3, o2) == (RunSummary { delivered: false, attempts: 3, waited_secs: 0 }));
    assert(run_from(2, o1) == (RunSummary { delivered: false, attempts: 3, waited_secs: 4 }));
}

/// Whatever the transport does, no run makes more than the maximum number of
/// attempts.
pub proof fn lemma_attempts_bounded(outcomes: Seq<bool>)
    ensures
        run(outcomes).attempts <= MAX_ATTEMPTS,
{
    lemma_attempts_bounded_from(1, outcomes);
}

proof fn lemma_attempts_bounded_from(attempt: nat, outcomes: Seq<bool>)
    requires
        1 <= attempt <= MAX_ATTEMPTS,
    ensures
        run_from(attempt, outcomes).attempts <= MAX_ATTEMPTS,
    decreases outcomes.len(),
{
    if outcomes.len() > 0 && !outcomes[0] && attempt < MAX_ATTEMPTS {
        lemma_attempts_bounded_from(attempt + 1, outcomes.drop_first());
    }
}

} // verus!
