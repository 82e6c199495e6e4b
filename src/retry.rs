//! The decisions of the retrying fetcher, as a state machine from the outcome
//! of one attempt to the next action. The caller performs the requests and the
//! waits; this module decides.
use vstd::prelude::*;

verus! {

/// Retries allowed after the first attempt.
pub const MAX_RETRIES: u32 = 2;

/// Delay before each retry, in milliseconds.
pub const RETRY_DELAY_MS: u64 = 5000;

/// Timeout of one attempt, in seconds.
pub const ATTEMPT_TIMEOUT_SECS: u64 = 15;

/// How one attempt ended.
#[derive(Clone, Copy, Debug, PartialEq, Eq, Structural)]
pub enum AttemptOutcome {
    /// A response came back (whatever its status code).
    Responded,
    /// The transport reported a timeout.
    TimedOut,
    /// Any other transport failure.
    Failed,
}

/// What the fetcher does next.
#[derive(Clone, Copy, Debug, PartialEq, Eq, Structural)]
pub enum FetchAction {
    /// Hand the response to the caller.
    Deliver,
    /// Wait this many milliseconds, then make another attempt.
    RetryAfter(u64),
    /// Stop and report the failure of the last attempt.
    GiveUp,
}

/// The fixed retry rules: how many retries, and the wait before each.
#[derive(Clone, Copy, Debug, PartialEq, Eq, Structural)]
pub struct RetryPolicy {
    pub max_retries: u32,
    pub delay_ms: u64,
}

/// The action after attempt number `attempt` (counted from 1) ended with `outcome`.
pub open spec fn next_action(policy: RetryPolicy, attempt: int, outcome: AttemptOutcome) -> FetchAction {
    match outcome {
        AttemptOutcome::Responded => FetchAction::Deliver,
        AttemptOutcome::TimedOut => if attempt <= policy.max_retries {
            FetchAction::RetryAfter(policy.delay_ms)
        } else {
            FetchAction::GiveUp
        },
        AttemptOutcome::Failed => FetchAction::GiveUp,
    }
}

/// The number of attempts a fetch makes when attempt `i + 1` ends with
/// `outcomes[i]`, counting on from `done` attempts already made that all
/// asked for a retry. Stops at the first action that is not a retry, or when
/// the outcomes run out.
pub open spec fn attempts_from(policy: RetryPolicy, outcomes: Seq<AttemptOutcome>, done: nat) -> nat
    decreases outcomes.len() - done,
{
    if done >= outcomes.len() {
        done
    } else if next_action(policy, done + 1 as int, outcomes[done as int]) is RetryAfter {
        attempts_from(policy, outcomes, done + 1)
    } else {
        done + 1
    }
}

/// The number of attempts of a whole fetch.
pub open spec fn attempts_made(policy: RetryPolicy, outcomes: Seq<AttemptOutcome>) -> nat {
    attempts_from(policy, outcomes, 0)
}

/// The action that ends a fetch of `n` attempts.
pub open spec fn final_action(policy: RetryPolicy, outcomes: Seq<AttemptOutcome>) -> FetchAction {
    let n = attempts_made(policy, outcomes);
    next_action(policy, n as int, outcomes[n - 1])
}

impl RetryPolicy {
    /// Two retries, five seconds apart.
    pub fn standard() -> (p: RetryPolicy)
        ensures
            p.max_retries == 2,
            p.delay_ms == 5000,
    {
        RetryPolicy { max_retries: MAX_RETRIES, delay_ms: RETRY_DELAY_MS }
    }

    /// The policy with another delay, for callers that simulate time.
    pub fn with_delay_ms(self, delay_ms: u64) -> (p: RetryPolicy)
        ensures
            p.max_retries == self.max_retries,
            p.delay_ms == delay_ms,
    {
        RetryPolicy { max_retries: self.max_retries, delay_ms }
    }
}

/// The state of one fetch: its policy and the number of the attempt in flight.
#[derive(Clone, Copy, Debug, PartialEq, Eq, Structural)]
pub struct FetchSession {
    pub policy: RetryPolicy,
    pub attempt: u64,
}

impl FetchSession {
    pub open spec fn wf(self) -> bool {
        1 <= self.attempt <= self.policy.max_retries + 1
    }

    /// A fetch whose first attempt is about to be made.
    pub fn start(policy: RetryPolicy) -> (s: FetchSession)
        ensures
            s.wf(),
            s.policy == policy,
            s.attempt == 1,
    {
        FetchSession { policy, attempt: 1 }
    }

    /// Records how the attempt in flight ended and says what to do next. On a
    /// retry the next attempt becomes the one in flight.
    pub fn on_outcome(&mut self, outcome: AttemptOutcome) -> (action: FetchAction)
        requires
            old(self).wf(),
        ensures
            action == next_action(old(self).policy, old(self).attempt as int, outcome),
            final(self).wf(),
            final(self).policy == old(self).policy,
            final(self).attempt == if action is RetryAfter {
                old(self).attempt + 1
            } else {
                old(self).attempt as int
            },
    {
        match outcome {
            AttemptOutcome::Responded => FetchAction::Deliver,
            AttemptOutcome::TimedOut => {
                if self.attempt <= self.policy.max_retries as u64 {
                    self.attempt = self.attempt + 1;
                    FetchAction::RetryAfter(self.policy.delay_ms)
                } else {
                    FetchAction::GiveUp
                }
            },
            AttemptOutcome::Failed => FetchAction::GiveUp,
        }
    }

    /// Runs a whole fetch on scripted outcomes (attempt `i + 1` ends with
    /// `outcomes[i]`) and returns the number of attempts made and the action
    /// that ended it. When the outcomes run out before the fetch ends, the
    /// last action is the pending retry.
    pub fn replay(policy: RetryPolicy, outcomes: &Vec<AttemptOutcome>) -> (r: (u64, FetchAction))
        requires
            outcomes.len() >= 1,
        ensures
            r.0 == attempts_made(policy, outcomes@),
            r.1 == final_action(policy, outcomes@),
    {
        let mut s = FetchSession::start(policy);
        let mut i: usize = 0;
        proof {
            lemma_attempts_bounds(policy, outcomes@, 0);
        }
        loop
            invariant
                s.wf(),
                s.policy == policy,
                i < outcomes.len(),
                s.attempt == i + 1,
                attempts_made(policy, outcomes@) == attempts_from(policy, outcomes@, i as nat),
            decreases outcomes.len() - i,
        {
            let action = s.on_outcome(outcomes[i]);
            proof {
                assert(attempts_from(policy, outcomes@, (i + 1) as nat) == i + 1 || i + 1 < outcomes.len());
            }
            if matches!(action, FetchAction::RetryAfter(_)) && i + 1 < outcomes.len() {
                i = i + 1;
            } else {
                return ((i + 1) as u64, action);
            }
        }
    }
}

proof fn lemma_attempts_bounds(policy: RetryPolicy, outcomes: Seq<AttemptOutcome>, done: nat)
    requires
        done <= outcomes.len(),
    ensures
        done <= attempts_from(policy, outcomes, done) <= outcomes.len(),
        outcomes.len() > done ==> attempts_from(policy, outcomes, done) > done,
    decreases outcomes.len() - done,
{
    if done < outcomes.len() && next_action(policy, done + 1 as int, outcomes[done as int]) is RetryAfter {
        lemma_attempts_bounds(policy, outcomes, done + 1);
    }
}

proof fn lemma_attempts_at_most(policy: RetryPolicy, outcomes: Seq<AttemptOutcome>, done: nat)
    requires
        done <= policy.max_retries,
    ensures
        attempts_from(policy, outcomes, done) <= policy.max_retries + 1,
    decreases outcomes.len() - done,
{
    if done < outcomes.len() && next_action(policy, done + 1 as int, outcomes[done as int]) is RetryAfter {
        lemma_attempts_at_most(policy, outcomes, done + 1);
    }
}

proof fn lemma_waits_between(policy: RetryPolicy, outcomes: Seq<AttemptOutcome>, done: nat)
    ensures
        forall|a: int|
            done < a < attempts_from(policy, outcomes, done) ==> next_action(
                policy,
                a,
                #[trigger] outcomes[a - 1],
            ) == FetchAction::RetryAfter(policy.delay_ms),
    decreases outcomes.len() - done,
{
    if done < outcomes.len() && next_action(policy, done + 1 as int, outcomes[done as int]) is RetryAfter {
        lemma_waits_between(policy, outcomes, done + 1);
    }
}

proof fn lemma_timeouts_carry_on(policy: RetryPolicy, outcomes: Seq<AttemptOutcome>, done: nat, last: nat)
    requires
        done <= last,
        last <= policy.max_retries,
        last < outcomes.len(),
        forall|i: int| done <= i < last ==> outcomes[i] == AttemptOutcome::TimedOut,
    ensures
        attempts_from(policy, outcomes, done) == attempts_from(policy, outcomes, last),
    decreases last - done,
{
    if done < last {
        assert(outcomes[done as int] == AttemptOutcome::TimedOut);
        lemma_timeouts_carry_on(policy, outcomes, done + 1, last);
    }
}

/// A fetch whose first attempt fails with anything but a timeout makes that
/// one attempt only, waits for nothing, and gives up.
pub proof fn other_failure_is_not_retried(policy: RetryPolicy, outcomes: Seq<AttemptOutcome>)
    requires
        outcomes.len() >= 1,
        outcomes[0] == AttemptOutcome::Failed,
    ensures
        attempts_made(policy, outcomes) == 1,
        final_action(policy, outcomes) == FetchAction::GiveUp,
{
}

/// Under the fixed policy a fetch makes at most three attempts, whatever the
/// outcomes, and waits at least five seconds before each attempt after the
/// first; when every attempt times out it makes all three and gives up.
pub proof fn timeouts_are_retried_boundedly(policy: RetryPolicy, outcomes: Seq<AttemptOutcome>)
    requires
        policy.max_retries == MAX_RETRIES,
        policy.delay_ms >= RETRY_DELAY_MS,
        outcomes.len() >= 1,
    ensures
        attempts_made(policy, outcomes) <= 3,
        forall|a: int|
            1 <= a < attempts_made(policy, outcomes) ==> (#[trigger] next_action(policy, a, outcomes[a - 1]) matches FetchAction::RetryAfter(ms) && ms >= 5000),
        (forall|i: int| 0 <= i < outcomes.len() ==> outcomes[i] == AttemptOutcome::TimedOut) && outcomes.len() >= 3 ==> attempts_made(policy, outcomes) == 3 && final_action(policy, outcomes) == FetchAction::GiveUp,
{
    lemma_attempts_at_most(policy, outcomes, 0);
    lemma_waits_between(policy, outcomes, 0);
    assert forall|a: int|
        1 <= a < attempts_made(policy, outcomes) implies (#[trigger] next_action(policy, a, outcomes[a - 1]) matches FetchAction::RetryAfter(ms) && ms >= 5000) by {
        assert(next_action(policy, a, outcomes[a - 1]) == FetchAction::RetryAfter(policy.delay_ms));
    }
    if (forall|i: int| 0 <= i < outcomes.len() ==> outcomes[i] == AttemptOutcome::TimedOut) && outcomes.len() >= 3 {
        lemma_timeouts_carry_on(policy, outcomes, 0, 2);
        assert(outcomes[2] == AttemptOutcome::TimedOut);
    }
}

/// A fetch whose attempt number `n` (at most the allowed retries plus one)
/// gets a response after `n - 1` timeouts makes exactly `n` attempts and
/// delivers that response.
pub proof fn response_ends_the_fetch(policy: RetryPolicy, outcomes: Seq<AttemptOutcome>, n: nat)
    requires
        1 <= n <= policy.max_retries + 1,
        n <= outcomes.len(),
        forall|i: int| 0 <= i < n - 1 ==> outcomes[i] == AttemptOutcome::TimedOut,
        outcomes[n - 1] == AttemptOutcome::Responded,
    ensures
        attempts_made(policy, outcomes) == n,
        final_action(policy, outcomes) == FetchAction::Deliver,
{
    lemma_timeouts_carry_on(policy, outcomes, 0, (n - 1) as nat);
}

} // verus!
