//! The retry policy: a strategy for the wait between attempts and a bound on their
//! number, kept as a small state machine. Whoever performs the attempts reports each
//! failure and is told whether to wait and try again, or to stop.

use vstd::prelude::*;

verus! {

/// How long to wait before each retry. Delays are in milliseconds.
#[derive(Debug, Clone, Copy, PartialEq, Eq, Structural)]
pub enum RetryStrategy {
    /// One attempt only, whatever the bound on retries.
    NoRetry,
    /// The same delay before every retry.
    Constant(u64),
    /// `d × (i + 1)` before retry number `i` (counted from 0).
    Linear(u64),
    /// `d × 2^i` before retry number `i` (counted from 0).
    Exponential(u64),
}

impl Default for RetryStrategy {
    fn default() -> (r: Self)
        ensures
            r == RetryStrategy::NoRetry,
    {
        RetryStrategy::NoRetry
    }
}

/// Two to the power `n`.
pub open spec fn two_to(n: nat) -> nat
    decreases n,
{
    if n == 0 {
        1
    } else {
        2 * two_to((n - 1) as nat)
    }
}

/// The wait, in milliseconds, before retry number `i` (counted from 0).
pub open spec fn backoff(strategy: RetryStrategy, i: nat) -> nat {
    match strategy {
        RetryStrategy::NoRetry => 0,
        RetryStrategy::Constant(d) => d as nat,
        RetryStrategy::Linear(d) => (d * (i + 1)) as nat,
        RetryStrategy::Exponential(d) => (d * two_to(i)) as nat,
    }
}

/// A number of milliseconds held in a `u64`, the largest one standing for any longer wait.
pub open spec fn capped(x: nat) -> u64 {
    if x > u64::MAX {
        u64::MAX
    } else {
        x as u64
    }
}

proof fn lemma_two_to_grows(a: nat, b: nat)
    requires
        a <= b,
    ensures
        two_to(a) <= two_to(b),
    decreases b,
{
    if a < b {
        lemma_two_to_grows(a, (b - 1) as nat);
    }
}

/// The wait before retry number `i` (counted from 0), as a `u64`.
pub fn retry_delay(strategy: RetryStrategy, i: usize) -> (r: u64)
    ensures
        r == capped(backoff(strategy, i as nat)),
{
    match strategy {
        RetryStrategy::NoRetry => 0,
        RetryStrategy::Constant(d) => d,
        RetryStrategy::Linear(d) => {
            let n = i as u64;
            match n.checked_add(1) {
                Some(k) => match d.checked_mul(k) {
                    Some(p) => p,
                    None => u64::MAX,
                },
                None => {
                    assert(d * (i + 1) >= i + 1 || d == 0) by (nonlinear_arith);
                    if d == 0 {
                        0
                    } else {
                        u64::MAX
                    }
                },
            }
        },
        RetryStrategy::Exponential(d) => {
            let mut v: u64 = d;
            let mut k: usize = 0;
            assert(d * two_to(0) == d) by {
                assert(two_to(0) == 1);
            }
            while k < i
                invariant
                    strategy == RetryStrategy::Exponential(d),
                    k <= i,
                    v == d * two_to(k as nat),
                decreases i - k,
            {
                let ghost t = two_to(k as nat);
                assert(two_to((k + 1) as nat) == 2 * t) by {
                    assert(((k + 1) as nat - 1) as nat == k as nat);
                }
                assert(d * (2 * t) == 2 * (d * t)) by (nonlinear_arith);
                match v.checked_mul(2) {
                    Some(w) => {
                        v = w;
                    },
                    None => {
                        proof {
                            lemma_two_to_grows((k + 1) as nat, i as nat);
                            let a = two_to((k + 1) as nat);
                            let b = two_to(i as nat);
                            assert(d * a <= d * b) by (nonlinear_arith)
                                requires
                                    a <= b,
                            ;
                            assert(v * 2 > u64::MAX);
                            assert(d * a == 2 * v);
                            assert(d * b > u64::MAX);
                            assert(backoff(strategy, i as nat) == d * b);
                        }
                        return u64::MAX;
                    },
                }
                k = k + 1;
            }
            v
        },
    }
}

/// Where a logical call stands in its retries.
#[derive(Debug, Clone, Copy)]
pub struct RetryState {
    strategy: RetryStrategy,
    max_retries: usize,
    retries_done: usize,
}

/// What to do after a failed attempt.
#[derive(Debug, Clone, Copy, PartialEq, Eq, Structural)]
pub enum RetryDecision {
    /// Wait this many milliseconds, then attempt again.
    Retry { delay_ms: u64 },
    /// Stop: the failure just seen is the outcome of the call.
    GiveUp,
}

impl RetryState {
    pub closed spec fn spec_strategy(self) -> RetryStrategy {
        self.strategy
    }

    pub closed spec fn spec_max_retries(self) -> nat {
        self.max_retries as nat
    }

    pub closed spec fn spec_retries_done(self) -> nat {
        self.retries_done as nat
    }

    /// The state before the first attempt.
    pub closed spec fn spec_new(strategy: RetryStrategy, max_retries: usize) -> RetryState {
        RetryState { strategy, max_retries, retries_done: 0 }
    }

    /// Retries taken never pass the bound.
    pub open spec fn wf(self) -> bool {
        self.spec_retries_done() <= self.spec_max_retries()
    }

    #[verifier::type_invariant]
    spec fn within_bound(self) -> bool {
        self.wf()
    }

    /// How many more retries the policy allows: none under `RetryStrategy::NoRetry`.
    pub open spec fn retries_left(self) -> nat {
        match self.spec_strategy() {
            RetryStrategy::NoRetry => 0,
            _ => (self.spec_max_retries() - self.spec_retries_done()) as nat,
        }
    }

    /// The state once one more retry is granted.
    pub closed spec fn after_retry(self) -> RetryState {
        RetryState { retries_done: (self.retries_done + 1) as usize, ..self }
    }

    /// The decision after a failure in this state.
    pub open spec fn decision(self) -> RetryDecision {
        if self.retries_left() > 0 {
            RetryDecision::Retry {
                delay_ms: capped(backoff(self.spec_strategy(), self.spec_retries_done())),
            }
        } else {
            RetryDecision::GiveUp
        }
    }

    /// The state before the first attempt of a call.
    pub fn new(strategy: RetryStrategy, max_retries: usize) -> (r: Self)
        ensures
            r == Self::spec_new(strategy, max_retries),
            r.wf(),
            r.spec_strategy() == strategy,
            r.spec_max_retries() == max_retries,
            r.spec_retries_done() == 0,
    {
        RetryState { strategy, max_retries, retries_done: 0 }
    }

    pub fn strategy(&self) -> (r: RetryStrategy)
        ensures
            r == self.spec_strategy(),
    {
        self.strategy
    }

    pub fn max_retries(&self) -> (r: usize)
        ensures
            r == self.spec_max_retries(),
    {
        self.max_retries
    }

    /// Retries granted so far.
    pub fn retries_done(&self) -> (r: usize)
        ensures
            r == self.spec_retries_done(),
    {
        self.retries_done
    }

    /// Reports a failed attempt. While retries are left the answer is to wait the
    /// strategy's delay for this retry and try again; after that, to give up.
    pub fn on_failure(&mut self) -> (d: RetryDecision)
        ensures
            final(self).wf(),
            d == old(self).decision(),
            d is Retry ==> *final(self) == old(self).after_retry()
                && final(self).spec_retries_done() == old(self).spec_retries_done() + 1,
            d is GiveUp ==> *final(self) == *old(self),
            old(self).retries_left() > 0 <==> d is Retry,
            final(self).spec_strategy() == old(self).spec_strategy(),
            final(self).spec_max_retries() == old(self).spec_max_retries(),
    {
        proof {
            use_type_invariant(&*self);
        }
        let allowed = match self.strategy {
            RetryStrategy::NoRetry => false,
            _ => self.retries_done < self.max_retries,
        };
        if allowed {
            let delay_ms = retry_delay(self.strategy, self.retries_done);
            self.retries_done = self.retries_done + 1;
            RetryDecision::Retry { delay_ms }
        } else {
            RetryDecision::GiveUp
        }
    }
}

/// The state before the first attempt holds the policy and no retry taken.
pub proof fn fresh_state_fields(strategy: RetryStrategy, max_retries: usize)
    ensures
        RetryState::spec_new(strategy, max_retries).spec_strategy() == strategy,
        RetryState::spec_new(strategy, max_retries).spec_max_retries() == max_retries,
        RetryState::spec_new(strategy, max_retries).spec_retries_done() == 0,
        RetryState::spec_new(strategy, max_retries).wf(),
{
}

/// How many times an operation is invoked from state `s`, when its successive attempts
/// succeed or fail as `outcomes` says (`true` for success; attempts past the end of
/// `outcomes` fail).
pub open spec fn attempts(s: RetryState, outcomes: Seq<bool>) -> nat
    decreases s.retries_left(),
{
    if outcomes.len() > 0 && outcomes[0] {
        1
    } else if s.wf() && s.retries_left() > 0 {
        let rest = if outcomes.len() > 0 {
            outcomes.drop_first()
        } else {
            outcomes
        };
        1 + attempts(s.after_retry(), rest)
    } else {
        1
    }
}

proof fn lemma_attempts_bound(s: RetryState, outcomes: Seq<bool>)
    requires
        s.wf(),
    ensures
        attempts(s, outcomes) <= s.retries_left() + 1,
    decreases s.retries_left(),
{
    if s.retries_left() > 0 {
        let rest = if outcomes.len() > 0 {
            outcomes.drop_first()
        } else {
            outcomes
        };
        lemma_attempts_bound(s.after_retry(), rest);
    }
}

proof fn lemma_failing_attempts(s: RetryState)
    requires
        s.wf(),
    ensures
        attempts(s, Seq::empty()) == s.retries_left() + 1,
    decreases s.retries_left(),
{
    if s.retries_left() > 0 {
        lemma_failing_attempts(s.after_retry());
    }
}

/// A call makes at most `max_retries + 1` attempts, whatever its outcomes.
pub proof fn attempts_at_most_bound(strategy: RetryStrategy, max_retries: usize, outcomes: Seq<bool>)
    ensures
        attempts(RetryState::spec_new(strategy, max_retries), outcomes) <= max_retries + 1,
{
    lemma_attempts_bound(RetryState::spec_new(strategy, max_retries), outcomes);
}

/// Under `RetryStrategy::NoRetry` the operation is invoked exactly once, whatever the
/// bound on retries and whatever its outcome.
pub proof fn no_strategy_attempts_once(max_retries: usize, outcomes: Seq<bool>)
    ensures
        attempts(RetryState::spec_new(RetryStrategy::NoRetry, max_retries), outcomes) == 1,
{
}

/// Under any other strategy, an operation that always fails is invoked exactly
/// `max_retries + 1` times: the first attempt and every retry.
pub proof fn failing_operation_attempts(strategy: RetryStrategy, max_retries: usize)
    requires
        !(strategy is NoRetry),
    ensures
        attempts(RetryState::spec_new(strategy, max_retries), Seq::empty()) == max_retries + 1,
{
    lemma_failing_attempts(RetryState::spec_new(strategy, max_retries));
}

} // verus!
