//! The download command as a state machine.
//!
//! A [`Session`] waits for one event at a time. Its caller carries out what the
//! last [`Action`] asked for, reports the outcome as an [`Event`], and gets
//! the next action from [`Session::step`]. The session never acts by itself.

use crate::backoff::RETRY_DELAY_NANOS;
use crate::error::CommandError;
use crate::error::FetchError;
use crate::error::LaunchError;
use crate::error::NetworkError;
use crate::fetch::single_body;
use crate::fetch::single_entry;
use crate::ident::BlockIdentifier;
use crate::ident::FetchedHeader;
use crate::ident::Request;
use crate::retry::RetryModel;
use crate::retry::RetryPolicy;
use crate::retry::RetrySession;
use vstd::prelude::*;

verus! {

/// What the command is to download.
#[derive(Clone, Copy, Debug, PartialEq, Eq)]
pub enum Job {
    /// The header of a block.
    Header(BlockIdentifier),
    /// The body of a block.
    Body(BlockIdentifier),
}

impl Job {
    /// The request that is made first once a fetch client is at hand.
    ///
    /// A header is asked for under the identifier as it was given. A body is
    /// asked for by hash; where only the height is known, the header at that
    /// height is asked for first.
    pub open spec fn first_request(self) -> Request {
        match self {
            Job::Header(id) => Request::Header(id),
            Job::Body(BlockIdentifier::Hash(hash)) => Request::Bodies(hash),
            Job::Body(BlockIdentifier::Number(number)) => Request::Header(
                BlockIdentifier::Number(number),
            ),
        }
    }

    /// Whether a header has to be looked up before the body can be asked for.
    pub open spec fn needs_lookup(self) -> bool {
        self matches Job::Body(BlockIdentifier::Number(_))
    }

    /// Whether `request` can be in flight while this job is carried out.
    pub open spec fn admits(self, request: Request) -> bool {
        match self {
            Job::Header(_) => request == self.first_request(),
            Job::Body(BlockIdentifier::Hash(_)) => request == self.first_request(),
            Job::Body(BlockIdentifier::Number(_)) => request == self.first_request()
                || request is Bodies,
        }
    }
}

/// What the caller reports to the session. `H` and `B` are the caller's header
/// and body types, `E` its error type.
#[derive(Debug)]
pub enum Event<H, B, E> {
    /// The node is up and runs by itself.
    NetworkReady,
    /// The node could not be brought up.
    LaunchFailed(LaunchError<E>),
    /// The node handed out a fetch client.
    ClientReady,
    /// The node handed out no fetch client.
    ClientUnavailable(E),
    /// The request for a header was answered.
    HeaderReceived(FetchedHeader<H>),
    /// The request for bodies was answered with this list.
    BodiesReceived(Vec<B>),
    /// The request in flight failed.
    RequestFailed(E),
}

/// What the session asks of the caller.
#[derive(Debug, PartialEq, Eq)]
pub enum Action<H, B, E> {
    /// Obtain the fetch client of the running node.
    AcquireClient,
    /// Send `request` to the peers. With `lookup_notice`, tell the user first
    /// that the block was named by its height and its header is fetched first.
    Request { request: Request, lookup_notice: bool },
    /// Tell the user that the request failed with `error` and is tried again,
    /// pause for `delay_nanos` nanoseconds, then send `request` once more.
    Retry { error: E, delay_nanos: u128, request: Request },
    /// Show the header: the command has succeeded.
    ShowHeader(FetchedHeader<H>),
    /// Show the body: the command has succeeded.
    ShowBody(B),
    /// Give up with this error: the command has failed.
    Fail(CommandError<E>),
}

/// Where a session stands, mathematically.
pub enum StageModel {
    /// The node is being brought up.
    Launching,
    /// The fetch client is being obtained.
    Connecting,
    /// `request` is in flight, under the retry budget `retry`.
    Requesting { request: Request, retry: RetryModel },
    /// The command has ended.
    Finished,
}

/// What a session is, mathematically.
pub struct SessionModel {
    pub job: Job,
    /// The number of executions allowed to each request.
    pub max_attempts: nat,
    pub stage: StageModel,
}

impl SessionModel {
    /// The session of a command that has just begun.
    pub open spec fn start(job: Job, max_attempts: nat) -> SessionModel {
        SessionModel { job, max_attempts, stage: StageModel::Launching }
    }

    /// Each request may be executed once at least, and the request in flight
    /// is one that the job calls for, within its budget.
    pub open spec fn valid(self) -> bool {
        &&& self.max_attempts >= 1
        &&& match self.stage {
            StageModel::Requesting { request, retry } => {
                &&& self.job.admits(request)
                &&& retry.valid()
                &&& retry.max_attempts == self.max_attempts
            },
            _ => true,
        }
    }

    /// The session at another stage.
    pub open spec fn at(self, stage: StageModel) -> SessionModel {
        SessionModel { job: self.job, max_attempts: self.max_attempts, stage }
    }

    /// The end of the command in failure.
    pub open spec fn fail<H, B, E>(self, error: CommandError<E>) -> (SessionModel, Action<H, B, E>) {
        (self.at(StageModel::Finished), Action::Fail(error))
    }

    /// The first execution of a request, with a budget of its own.
    pub open spec fn ask<H, B, E>(self, request: Request, lookup_notice: bool) -> (
        SessionModel,
        Action<H, B, E>,
    ) {
        (
            self.at(
                StageModel::Requesting { request, retry: RetryModel::start(self.max_attempts) },
            ),
            Action::Request { request, lookup_notice },
        )
    }

    /// The session after `event` and the action that it asks for.
    ///
    /// - While the node is brought up and the client obtained, success leads
    ///   on and failure ends the command.
    /// - A failed request is sent again after the pause while its budget
    ///   lasts; then its last error ends the command.
    /// - A header ends a header download. In a body download it gives the
    ///   hash under which the body is asked for.
    /// - A list of bodies ends a body download: with the body where the list
    ///   holds exactly one, with a validation error otherwise.
    /// - Any event that the stage does not wait for ends the command.
    pub open spec fn react<H, B, E>(self, event: Event<H, B, E>) -> (SessionModel, Action<H, B, E>) {
        match self.stage {
            StageModel::Launching => match event {
                Event::NetworkReady => (self.at(StageModel::Connecting), Action::AcquireClient),
                Event::LaunchFailed(error) => self.fail(error.into_command_error()),
                _ => self.fail(CommandError::OutOfTurn),
            },
            StageModel::Connecting => match event {
                Event::ClientReady => self.ask(self.job.first_request(), self.job.needs_lookup()),
                Event::ClientUnavailable(error) => self.fail(
                    CommandError::Network(NetworkError::ClientUnavailable(error)),
                ),
                _ => self.fail(CommandError::OutOfTurn),
            },
            StageModel::Requesting { request, retry } => match event {
                Event::RequestFailed(error) => if retry.may_retry() {
                    (
                        self.at(StageModel::Requesting { request, retry: retry.next() }),
                        Action::Retry { error, delay_nanos: RETRY_DELAY_NANOS, request },
                    )
                } else {
                    self.fail(CommandError::Fetch(FetchError::Exhausted(error)))
                },
                Event::HeaderReceived(fetched) => match (request, self.job) {
                    (Request::Header(_), Job::Header(_)) => (
                        self.at(StageModel::Finished),
                        Action::ShowHeader(fetched),
                    ),
                    (Request::Header(_), Job::Body(_)) => self.ask(
                        Request::Bodies(fetched.hash),
                        false,
                    ),
                    _ => self.fail(CommandError::OutOfTurn),
                },
                Event::BodiesReceived(bodies) => match request {
                    Request::Bodies(_) => match single_entry(bodies@) {
                        Ok(body) => (self.at(StageModel::Finished), Action::ShowBody(body)),
                        Err(error) => self.fail(CommandError::Validation(error)),
                    },
                    _ => self.fail(CommandError::OutOfTurn),
                },
                _ => self.fail(CommandError::OutOfTurn),
            },
            StageModel::Finished => self.fail(CommandError::OutOfTurn),
        }
    }

    /// The session after a series of events.
    pub open spec fn after<H, B, E>(self, events: Seq<Event<H, B, E>>) -> SessionModel
        decreases events.len(),
    {
        if events.len() == 0 {
            self
        } else {
            self.react(events[0]).0.after(events.drop_first())
        }
    }

    /// The actions that a series of events brings about, one for each event.
    pub open spec fn actions<H, B, E>(self, events: Seq<Event<H, B, E>>) -> Seq<Action<H, B, E>>
        decreases events.len(),
    {
        if events.len() == 0 {
            Seq::empty()
        } else {
            seq![self.react(events[0]).1] + self.react(events[0]).0.actions(events.drop_first())
        }
    }
}

#[derive(Debug)]
enum Stage {
    Launching,
    Connecting,
    Requesting { request: Request, retry: RetrySession },
    Finished,
}

/// One run of the download command.
#[derive(Debug)]
pub struct Session {
    job: Job,
    policy: RetryPolicy,
    stage: Stage,
}

impl Session {
    /// The session's model is valid, and the budget of the request in flight
    /// is in order.
    #[verifier::type_invariant]
    pub closed spec fn well_formed(self) -> bool {
        &&& self.policy.well_formed()
        &&& self@.valid()
        &&& match self.stage {
            Stage::Requesting { request, retry } => retry.well_formed(),
            _ => true,
        }
    }

    /// The session's model.
    pub closed spec fn view(self) -> SessionModel {
        SessionModel {
            job: self.job,
            max_attempts: self.policy.limit(),
            stage: match self.stage {
                Stage::Launching => StageModel::Launching,
                Stage::Connecting => StageModel::Connecting,
                Stage::Requesting { request, retry } => StageModel::Requesting {
                    request,
                    retry: retry@,
                },
                Stage::Finished => StageModel::Finished,
            },
        }
    }

    /// The session of a command that has just begun: it waits to hear whether
    /// the node came up.
    pub fn start(job: Job, policy: RetryPolicy) -> (session: Self)
        ensures
            session.well_formed(),
            session@.valid(),
            session@ == SessionModel::start(job, policy.limit()),
    {
        proof {
            use_type_invariant(&policy);
            policy.lemma_limit_bounds();
        }
        Session { job, policy, stage: Stage::Launching }
    }

    /// What the command is to download.
    pub fn job(&self) -> (job: Job)
        ensures
            job == self@.job,
    {
        self.job
    }

    /// Whether the command has ended.
    pub fn is_finished(&self) -> (finished: bool)
        ensures
            finished == (self@.stage is Finished),
    {
        match &self.stage {
            Stage::Finished => true,
            _ => false,
        }
    }

    /// The request in flight and the number of its current execution, counted
    /// from one; `None` while no request is in flight.
    pub fn in_flight(&self) -> (pending: Option<(Request, usize)>)
        ensures
            match pending {
                Some((request, attempt)) => self@.stage matches StageModel::Requesting {
                    request: r,
                    retry,
                } && r == request && retry.attempt == attempt,
                None => !(self@.stage is Requesting),
            },
    {
        match &self.stage {
            Stage::Requesting { request, retry } => Some((*request, retry.attempt())),
            _ => None,
        }
    }

    fn ended<H, B, E>(job: Job, policy: RetryPolicy, action: Action<H, B, E>) -> (next: (
        Session,
        Action<H, B, E>,
    ))
        requires
            policy.well_formed(),
        ensures
            next.0.well_formed(),
            next.0@ == (SessionModel { job, max_attempts: policy.limit(), stage: StageModel::Finished }),
            next.1 == action,
    {
        proof {
            policy.lemma_limit_bounds();
        }
        (Session { job, policy, stage: Stage::Finished }, action)
    }

    fn asking<H, B, E>(job: Job, policy: RetryPolicy, request: Request, lookup_notice: bool) -> (next:
        (Session, Action<H, B, E>))
        requires
            policy.well_formed(),
            job.admits(request),
        ensures
            next.0.well_formed(),
            (next.0@, next.1) == SessionModel::start(job, policy.limit()).ask::<H, B, E>(
                request,
                lookup_notice,
            ),
    {
        proof {
            policy.lemma_limit_bounds();
        }
        let retry = RetrySession::start(policy);
        (
            Session { job, policy, stage: Stage::Requesting { request, retry } },
            Action::Request { request, lookup_notice },
        )
    }

    /// Takes in what happened and says what to do next.
    ///
    /// The session that comes back is the one to hand the next event to. Once
    /// the action is to show the result or to fail, the command has ended.
    pub fn step<H, B, E>(self, event: Event<H, B, E>) -> (next: (Session, Action<H, B, E>))
        ensures
            next.0.well_formed(),
            next.0@.valid(),
            (next.0@, next.1) == self@.react(event),
    {
        proof {
            use_type_invariant(&self);
        }
        let Session { job, policy, stage } = self;
        match stage {
            Stage::Launching => match event {
                Event::NetworkReady => (
                    Session { job, policy, stage: Stage::Connecting },
                    Action::AcquireClient,
                ),
                Event::LaunchFailed(error) => Self::ended(
                    job,
                    policy,
                    Action::Fail(error.into_command_error()),
                ),
                _ => Self::ended(job, policy, Action::Fail(CommandError::OutOfTurn)),
            },
            Stage::Connecting => match event {
                Event::ClientReady => match job {
                    Job::Header(id) => Self::asking(job, policy, Request::Header(id), false),
                    Job::Body(id) => match id.known_hash() {
                        Some(hash) => Self::asking(job, policy, Request::Bodies(hash), false),
                        None => Self::asking(job, policy, Request::Header(id), true),
                    },
                },
                Event::ClientUnavailable(error) => Self::ended(
                    job,
                    policy,
                    Action::Fail(CommandError::Network(NetworkError::ClientUnavailable(error))),
                ),
                _ => Self::ended(job, policy, Action::Fail(CommandError::OutOfTurn)),
            },
            Stage::Requesting { request, retry } => match event {
                Event::RequestFailed(error) => match retry.after_failure() {
                    Some((delay_nanos, retry)) => (
                        Session { job, policy, stage: Stage::Requesting { request, retry } },
                        Action::Retry { error, delay_nanos, request },
                    ),
                    None => Self::ended(
                        job,
                        policy,
                        Action::Fail(CommandError::Fetch(FetchError::Exhausted(error))),
                    ),
                },
                Event::HeaderReceived(fetched) => match (request, job) {
                    (Request::Header(_), Job::Header(_)) => Self::ended(
                        job,
                        policy,
                        Action::ShowHeader(fetched),
                    ),
                    (Request::Header(_), Job::Body(_)) => {
                        let hash = fetched.hash;
                        Self::asking(job, policy, Request::Bodies(hash), false)
                    },
                    _ => Self::ended(job, policy, Action::Fail(CommandError::OutOfTurn)),
                },
                Event::BodiesReceived(bodies) => match request {
                    Request::Bodies(_) => match single_body(bodies) {
                        Ok(body) => Self::ended(job, policy, Action::ShowBody(body)),
                        Err(error) => Self::ended(
                            job,
                            policy,
                            Action::Fail(CommandError::Validation(error)),
                        ),
                    },
                    _ => Self::ended(job, policy, Action::Fail(CommandError::OutOfTurn)),
                },
                _ => Self::ended(job, policy, Action::Fail(CommandError::OutOfTurn)),
            },
            Stage::Finished => Self::ended(job, policy, Action::Fail(CommandError::OutOfTurn)),
        }
    }
}

} // verus!
