//! The decisions of a bounded retry: after each attempt, whether to try
//! once more. The attempts themselves are made by the caller.
use vstd::prelude::*;

verus! {

/// What to do after an attempt.
#[derive(Debug, Clone, Copy, PartialEq, Eq, Structural)]
pub enum RetryAction {
    /// Keep the attempt's outcome, success or failure.
    Finish,
    /// Attempt once more with a fresh copy of the input.
    Again,
}

/// A bounded retry: `counter` retries spent of `limit`.
#[derive(Debug, Clone, Copy, PartialEq, Eq, Structural)]
pub struct RetryState {
    pub limit: u8,
    pub counter: u8,
}

/// The state and action after an attempt that `failed` or succeeded.
pub open spec fn retry_step(s: RetryState, failed: bool) -> (RetryState, RetryAction) {
    if failed && s.counter < s.limit {
        (RetryState { limit: s.limit, counter: (s.counter + 1) as u8 }, RetryAction::Again)
    } else {
        (s, RetryAction::Finish)
    }
}

/// The number of attempts made from `s` when the attempts fail as
/// `failures` says, in order, until the retry finishes or the outcomes run
/// out.
pub open spec fn attempts(s: RetryState, failures: Seq<bool>) -> nat
    decreases failures.len(),
{
    if failures.len() == 0 {
        0
    } else {
        let (next, action) = retry_step(s, failures[0]);
        if action == RetryAction::Finish {
            1
        } else {
            1 + attempts(next, failures.drop_first())
        }
    }
}

impl RetryState {
    /// No more retries are spent than the limit allows.
    pub open spec fn wf(self) -> bool {
        self.counter <= self.limit
    }

    /// A retry allowing `limit` retries after the first attempt.
    pub fn new(limit: u8) -> (r: RetryState)
        ensures
            r.limit == limit,
            r.counter == 0,
            r.wf(),
    {
        RetryState { limit, counter: 0 }
    }

    /// The decision after an attempt: try again only after a failure, and
    /// only while retries are left.
    pub fn next(&mut self, failed: bool) -> (a: RetryAction)
        requires
            old(self).wf(),
        ensures
            (*final(self), a) == retry_step(*old(self), failed),
            final(self).wf(),
    {
        if failed && self.counter < self.limit {
            self.counter = self.counter + 1;
            RetryAction::Again
        } else {
            RetryAction::Finish
        }
    }
}

/// A retry from a fresh state makes at most `limit + 1` attempts, and
/// exactly that many when every attempt fails; with a limit of zero it
/// makes exactly one.
pub proof fn lemma_attempt_bound(limit: u8, failures: Seq<bool>)
    ensures
        attempts(RetryState { limit, counter: 0 }, failures) <= limit + 1,
        failures.len() > limit && (forall|i: int| 0 <= i < failures.len() ==> #[trigger] failures[i])
            ==> attempts(RetryState { limit, counter: 0 }, failures) == limit + 1,
        failures.len() > 0 && limit == 0 ==> attempts(RetryState { limit, counter: 0 }, failures) == 1,
{
    lemma_attempts_from(RetryState { limit, counter: 0 }, failures);
}

/// From any well-formed state, at most the retries left plus one attempts
/// are made, and exactly that many when every attempt fails.
proof fn lemma_attempts_from(s: RetryState, failures: Seq<bool>)
    requires
        s.wf(),
    ensures
        attempts(s, failures) <= s.limit - s.counter + 1,
        failures.len() > s.limit - s.counter && (forall|i: int| 0 <= i < failures.len() ==> #[trigger] failures[i])
            ==> attempts(s, failures) == s.limit - s.counter + 1,
        failures.len() > 0 && s.counter == s.limit ==> attempts(s, failures) == 1,
    decreases failures.len(),
{
    if failures.len() > 0 {
        let (next, action) = retry_step(s, failures[0]);
        if action == RetryAction::Again {
            lemma_attempts_from(next, failures.drop_first());
            if forall|i: int| 0 <= i < failures.len() ==> #[trigger] failures[i] {
                assert forall|i: int| 0 <= i < failures.drop_first().len() implies #[trigger] failures.drop_first()[i] by {
                    assert(failures[i + 1]);
                }
            }
        }
    }
}

} // verus!
