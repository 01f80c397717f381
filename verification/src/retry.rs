//! Bounded retries with a constant pause between attempts.
//!
//! A [`RetrySession`] accompanies one operation. Its caller executes the
//! operation and hands each outcome to [`RetrySession::settle`], which answers
//! whether the operation is done, is to be executed again after a pause, or has
//! failed for good. The pauses come from `backon`'s constant backoff.

use crate::backoff::constant_backoff;
use crate::backoff::delays_ahead;
use crate::backoff::is_steady;
use crate::backoff::next_delay;
use crate::backoff::RETRY_DELAY_NANOS;
use backon::ConstantBackoff;
use vstd::prelude::*;

verus! {

/// How often an operation may be executed before its failure is final.
#[derive(Clone, Copy, Debug, PartialEq, Eq)]
pub struct RetryPolicy {
    max_attempts: usize,
}

impl RetryPolicy {
    /// At least one execution is allowed.
    #[verifier::type_invariant]
    pub closed spec fn well_formed(self) -> bool {
        self.max_attempts >= 1
    }

    /// The number of attempts that a configured count of retries stands for:
    /// the count itself, and one where the count is zero.
    pub open spec fn attempts_for(retries: nat) -> nat {
        if retries >= 1 {
            retries
        } else {
            1
        }
    }

    /// The largest number of executions that the policy allows.
    pub closed spec fn limit(self) -> nat {
        self.max_attempts as nat
    }

    /// The policy for a configured count of retries.
    pub fn new(retries: usize) -> (policy: Self)
        ensures
            policy.well_formed(),
            policy.limit() == Self::attempts_for(retries as nat),
    {
        if retries >= 1 {
            RetryPolicy { max_attempts: retries }
        } else {
            RetryPolicy { max_attempts: 1 }
        }
    }

    /// The largest number of executions that the policy allows.
    pub fn max_attempts(&self) -> (n: usize)
        ensures
            n == self.limit(),
            n >= 1,
    {
        proof {
            use_type_invariant(self);
        }
        self.max_attempts
    }

    /// A policy allows at least one execution, and no more than a machine
    /// word counts.
    pub proof fn lemma_limit_bounds(self)
        requires
            self.well_formed(),
        ensures
            1 <= self.limit() <= usize::MAX,
    {
    }
}

/// What a retry session is, mathematically: the number of the execution that is
/// due or in flight, counted from one, and the number of executions allowed.
pub struct RetryModel {
    pub attempt: nat,
    pub max_attempts: nat,
}

impl RetryModel {
    /// The model of a session whose first execution is due.
    pub open spec fn start(max_attempts: nat) -> RetryModel {
        RetryModel { attempt: 1, max_attempts }
    }

    /// No more executions were begun than are allowed.
    pub open spec fn valid(self) -> bool {
        1 <= self.attempt <= self.max_attempts
    }

    /// Whether a failure of the execution in flight is followed by another
    /// execution.
    pub open spec fn may_retry(self) -> bool {
        self.attempt < self.max_attempts
    }

    /// The model once the next execution is due.
    pub open spec fn next(self) -> RetryModel {
        RetryModel { attempt: self.attempt + 1, max_attempts: self.max_attempts }
    }

    /// The number of executions begun by the time the session comes to rest,
    /// where `succeeded` tells how the executions from the one in flight on
    /// end, in order.
    pub open spec fn executions(self, succeeded: Seq<bool>) -> nat
        decreases succeeded.len(),
    {
        if succeeded.len() == 0 || succeeded[0] || !self.may_retry() {
            self.attempt
        } else {
            self.next().executions(succeeded.drop_first())
        }
    }
}

/// The retry budget of one operation.
#[derive(Debug)]
pub struct RetrySession {
    backoff: ConstantBackoff,
    attempt: usize,
    max_attempts: usize,
}

/// What follows from the outcome of one execution.
#[derive(Debug)]
pub enum Verdict<T, E> {
    /// The execution succeeded; this is its value.
    Done(T),
    /// The execution failed and another is due: report `error`, pause for
    /// `delay_nanos` nanoseconds, execute again and settle the new outcome with
    /// `session`.
    Retry { error: E, delay_nanos: u128, session: RetrySession },
    /// The execution failed and none is left: its error is final.
    Exhausted(E),
}

impl RetrySession {
    /// The counters are within bounds, and the backoff holds one pause of one
    /// second for each execution that is still allowed after the one in flight.
    #[verifier::type_invariant]
    pub closed spec fn well_formed(self) -> bool {
        &&& 1 <= self.attempt <= self.max_attempts
        &&& is_steady(self.backoff)
        &&& delays_ahead(self.backoff) =~= Seq::new(
            (self.max_attempts - self.attempt) as nat,
            |i: int| RETRY_DELAY_NANOS,
        )
    }

    /// The session's model.
    pub closed spec fn view(self) -> RetryModel {
        RetryModel { attempt: self.attempt as nat, max_attempts: self.max_attempts as nat }
    }

    /// A session for an operation whose first execution is due.
    pub fn start(policy: RetryPolicy) -> (session: Self)
        ensures
            session.well_formed(),
            session@ == RetryModel::start(policy.limit()),
            session@.valid(),
    {
        let max_attempts = policy.max_attempts();
        RetrySession { backoff: constant_backoff(max_attempts - 1), attempt: 1, max_attempts }
    }

    /// The number of the execution that is due or in flight, counted from one.
    pub fn attempt(&self) -> (n: usize)
        ensures
            n == self@.attempt,
            1 <= n <= self@.max_attempts,
    {
        proof {
            use_type_invariant(self);
        }
        self.attempt
    }

    /// The number of executions allowed.
    pub fn max_attempts(&self) -> (n: usize)
        ensures
            n == self@.max_attempts,
    {
        self.max_attempts
    }

    /// Decides what follows from a failure of the execution in flight: the
    /// pause before the next execution and the session to settle it with, or
    /// `None` where no execution is left.
    pub fn after_failure(self) -> (next: Option<(u128, RetrySession)>)
        ensures
            match next {
                Some((delay_nanos, session)) => {
                    &&& self@.may_retry()
                    &&& delay_nanos == RETRY_DELAY_NANOS
                    &&& session.well_formed()
                    &&& session@ == self@.next()
                    &&& session@.valid()
                },
                None => !self@.may_retry(),
            },
    {
        proof {
            use_type_invariant(&self);
        }
        let RetrySession { mut backoff, attempt, max_attempts } = self;
        match next_delay(&mut backoff) {
            Some(delay_nanos) => {
                let session = RetrySession { backoff, attempt: attempt + 1, max_attempts };
                Some((delay_nanos, session))
            },
            None => None,
        }
    }

    /// Decides what follows from the outcome of the execution in flight.
    ///
    /// A success is handed back at once. A failure leads to another execution
    /// exactly while fewer executions were made than are allowed; the pause
    /// before it is always the same. The failure of the last execution allowed
    /// is final.
    pub fn settle<T, E>(self, outcome: Result<T, E>) -> (verdict: Verdict<T, E>)
        ensures
            match outcome {
                Ok(value) => verdict == Verdict::<T, E>::Done(value),
                Err(failure) => if self@.may_retry() {
                    &&& verdict matches Verdict::Retry { error, delay_nanos, session }
                    &&& error == failure
                    &&& delay_nanos == RETRY_DELAY_NANOS
                    &&& session.well_formed()
                    &&& session@ == self@.next()
                    &&& session@.valid()
                } else {
                    verdict == Verdict::<T, E>::Exhausted(failure)
                },
            },
    {
        match outcome {
            Ok(value) => Verdict::Done(value),
            Err(failure) => {
                match self.after_failure() {
                    Some((delay_nanos, session)) => Verdict::Retry {
                        error: failure,
                        delay_nanos,
                        session,
                    },
                    None => Verdict::Exhausted(failure),
                }
            },
        }
    }
}

/// A retry session never begins more executions than its policy allows, however
/// the executions end, and it begins at least one.
pub proof fn law_attempts_within_limit(session: RetryModel, succeeded: Seq<bool>)
    requires
        session.valid(),
    ensures
        session.attempt <= session.executions(succeeded) <= session.max_attempts,
    decreases succeeded.len(),
{
    if !(succeeded.len() == 0 || succeeded[0] || !session.may_retry()) {
        law_attempts_within_limit(session.next(), succeeded.drop_first());
    }
}

/// Where every execution fails, a retry session makes exactly as many
/// executions as its policy allows.
pub proof fn law_persistent_failure_uses_limit(session: RetryModel, succeeded: Seq<bool>)
    requires
        session.valid(),
        succeeded.len() + session.attempt >= session.max_attempts,
        forall|i: int| 0 <= i < succeeded.len() ==> !succeeded[i],
    ensures
        session.executions(succeeded) == session.max_attempts,
    decreases succeeded.len(),
{
    if !(succeeded.len() == 0 || succeeded[0] || !session.may_retry()) {
        let rest = succeeded.drop_first();
        assert forall|i: int| 0 <= i < rest.len() implies !rest[i] by {
            assert(rest[i] == succeeded[i + 1]);
        }
        law_persistent_failure_uses_limit(session.next(), rest);
    }
}

/// For every configured count of retries, the number of executions that a
/// retry session makes is at least one and at most the larger of one and that
/// count, and it is exactly that number where every execution fails.
pub proof fn law_attempts_for_retries(retries: nat, succeeded: Seq<bool>)
    ensures
        1 <= RetryModel::start(RetryPolicy::attempts_for(retries)).executions(succeeded) <= if retries
            >= 1 {
            retries
        } else {
            1
        },
        (succeeded.len() >= RetryPolicy::attempts_for(retries) && forall|i: int|
            0 <= i < succeeded.len() ==> !succeeded[i]) ==> RetryModel::start(
            RetryPolicy::attempts_for(retries),
        ).executions(succeeded) == if retries >= 1 {
            retries
        } else {
            1
        },
{
    let session = RetryModel::start(RetryPolicy::attempts_for(retries));
    law_attempts_within_limit(session, succeeded);
    if succeeded.len() >= RetryPolicy::attempts_for(retries) && forall|i: int|
        0 <= i < succeeded.len() ==> !succeeded[i] {
        law_persistent_failure_uses_limit(session, succeeded);
    }
}

} // verus!
