//! Bounded retry with a fixed pause, applied around the whole build of one
//! challenge.

use crate::error::Error;
use crate::error::ErrorModel;
use vstd::prelude::*;

verus! {

/// How often the build of one challenge is attempted at most.
pub const MAX_BUILD_ATTEMPTS: u32 = 3;

/// The pause between two attempts of a build, in seconds.
pub const BUILD_RETRY_DELAY_SECS: u64 = 2;

/// A fixed-interval retry policy.
#[derive(Debug, Clone, Copy, PartialEq, Eq, Structural)]
pub struct RetryPolicy {
    /// Attempts in total, the first one included.
    pub max_attempts: u32,
    /// Pause between two attempts, in seconds.
    pub delay_secs: u64,
}

/// What to do after an attempt has failed.
#[derive(Debug, Clone, Copy, PartialEq, Eq, Structural)]
pub enum RetryDecision {
    /// Pause, then attempt again.
    Retry { delay_secs: u64 },
    /// No attempt is left.
    GiveUp,
}

/// The decision after the attempt number `attempts_made` has failed:
/// another attempt follows while fewer than the permitted number were made.
pub open spec fn decide(policy: RetryPolicy, attempts_made: int) -> RetryDecision {
    if attempts_made < policy.max_attempts {
        RetryDecision::Retry { delay_secs: policy.delay_secs }
    } else {
        RetryDecision::GiveUp
    }
}

impl RetryPolicy {
    /// The policy of challenge builds: three attempts, two seconds apart.
    pub fn for_challenges() -> (r: Self)
        ensures
            r == (RetryPolicy {
                max_attempts: MAX_BUILD_ATTEMPTS,
                delay_secs: BUILD_RETRY_DELAY_SECS,
            }),
    {
        RetryPolicy { max_attempts: MAX_BUILD_ATTEMPTS, delay_secs: BUILD_RETRY_DELAY_SECS }
    }

    /// The decision after the attempt number `attempts_made` has failed.
    pub fn after_failure(&self, attempts_made: u32) -> (r: RetryDecision)
        ensures
            r == decide(*self, attempts_made as int),
    {
        if attempts_made < self.max_attempts {
            RetryDecision::Retry { delay_secs: self.delay_secs }
        } else {
            RetryDecision::GiveUp
        }
    }
}

/// What the retry wrapper tells its driver after an attempt.
#[derive(Debug, PartialEq, Eq)]
pub enum RetryOutcome<T> {
    /// The attempt succeeded with this value.
    Done(T),
    /// The attempt failed; pause this long, then run the operation again.
    RetryAfter { seconds: u64 },
    /// The last attempt failed; this is its error, tagged with the label.
    Failed(Error),
}

/// The retry wrapper around one labelled operation: it counts the failed
/// attempts and decides after each outcome.
#[derive(Debug)]
pub struct RetryWrapper {
    policy: RetryPolicy,
    label: String,
    failures: u32,
}

impl RetryWrapper {
    /// The policy in force.
    pub closed spec fn policy(&self) -> RetryPolicy {
        self.policy
    }

    /// The label that tags the final error.
    pub closed spec fn label(&self) -> Seq<char> {
        self.label@
    }

    /// How many attempts have failed so far.
    pub closed spec fn failures(&self) -> u32 {
        self.failures
    }

    /// A wrapper that has seen no attempt yet.
    pub fn new(policy: RetryPolicy, label: String) -> (r: Self)
        ensures
            r.policy() == policy,
            r.label() == label@,
            r.failures() == 0,
    {
        RetryWrapper { policy, label, failures: 0 }
    }

    /// How many attempts have failed so far.
    pub fn failed_attempts(&self) -> (r: u32)
        ensures
            r == self.failures(),
    {
        self.failures
    }

    /// Takes the outcome of an attempt. A success is handed through. A
    /// failure is counted; it leads to another attempt after the pause
    /// while the policy permits one, and else surfaces as the final error,
    /// tagged with the label.
    pub fn on_result<T>(&mut self, result: Result<T, Error>) -> (r: RetryOutcome<T>)
        ensures
            final(self).policy() == old(self).policy(),
            final(self).label() == old(self).label(),
            match result {
                Ok(value) => r == RetryOutcome::Done(value) && final(self).failures() == old(
                    self,
                ).failures(),
                Err(error) => final(self).failures() == counted_failure(old(self).failures())
                    && match decide(old(self).policy(), final(self).failures() as int) {
                    RetryDecision::Retry { delay_secs } => r == (RetryOutcome::<T>::RetryAfter {
                        seconds: delay_secs,
                    }),
                    RetryDecision::GiveUp => r matches RetryOutcome::Failed(tagged) && tagged@
                        == (ErrorModel::Challenge {
                        difficulty: old(self).label(),
                        cause: Box::new(error@),
                    }),
                },
            },
    {
        match result {
            Ok(value) => RetryOutcome::Done(value),
            Err(error) => {
                if self.failures < u32::MAX {
                    self.failures = self.failures + 1;
                }
                match self.policy.after_failure(self.failures) {
                    RetryDecision::Retry { delay_secs } => RetryOutcome::RetryAfter {
                        seconds: delay_secs,
                    },
                    RetryDecision::GiveUp => RetryOutcome::Failed(
                        Error::Challenge { difficulty: self.label.clone(), cause: Box::new(error) },
                    ),
                }
            },
        }
    }
}

/// One more failed attempt, unless the counter is at its limit already.
pub open spec fn counted_failure(failures: u32) -> u32 {
    if failures < u32::MAX {
        (failures + 1) as u32
    } else {
        failures
    }
}

/// The attempts of a retried operation are bounded by the policy. After a
/// failure another attempt follows exactly while fewer than the permitted
/// attempts were made; under the challenge policy the first two failures
/// are followed by a pause of two seconds, and the third is final.
pub proof fn lemma_attempts_are_bounded(policy: RetryPolicy, attempts_made: int)
    ensures
        decide(policy, attempts_made) is GiveUp <==> attempts_made >= policy.max_attempts,
        decide(policy, attempts_made) matches RetryDecision::Retry { delay_secs } ==> delay_secs
            == policy.delay_secs,
        policy.max_attempts == MAX_BUILD_ATTEMPTS && policy.delay_secs == BUILD_RETRY_DELAY_SECS
            ==> decide(policy, 1) == (RetryDecision::Retry { delay_secs: 2 }) && decide(policy, 2)
            == (RetryDecision::Retry { delay_secs: 2 }) && decide(policy, 3)
            == RetryDecision::GiveUp,
{
}

} // verus!
