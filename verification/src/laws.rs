//! What holds of every run of the download command, proved of its model.

use crate::backoff::RETRY_DELAY_NANOS;
use crate::error::CommandError;
use crate::error::FetchError;
use crate::error::ValidationError;
use crate::ident::BlockIdentifier;
use crate::ident::FetchedHeader;
use crate::ident::Request;
use crate::session::Action;
use crate::session::Event;
use crate::session::Job;
use crate::session::SessionModel;
use crate::session::StageModel;
use vstd::prelude::*;

verus! {

/// The request that an action sends to the peers, if it sends one.
pub open spec fn requested<H, B, E>(action: Action<H, B, E>) -> Option<Request> {
    match action {
        Action::Request { request, .. } => Some(request),
        Action::Retry { request, .. } => Some(request),
        _ => None,
    }
}

/// The events that report one failure of the request in flight after another.
pub open spec fn failures<H, B, E>(errors: Seq<E>) -> Seq<Event<H, B, E>> {
    Seq::new(errors.len(), |i: int| Event::RequestFailed(errors[i]))
}

/// The event that delivers a header with the given hash.
pub open spec fn delivers<H, B, E>(event: Event<H, B, E>, hash: [u8; 32]) -> bool {
    event matches Event::HeaderReceived(fetched) && fetched.hash == hash
}

/// The request for the body with the given hash is in flight.
pub open spec fn awaits_body(session: SessionModel, hash: [u8; 32]) -> bool {
    session.stage matches StageModel::Requesting { request, .. } && request == Request::Bodies(
        hash,
    )
}

/// Whatever happens, a valid session stays valid, and neither its job nor the
/// budget of its requests changes.
pub proof fn law_step_keeps_validity<H, B, E>(session: SessionModel, event: Event<H, B, E>)
    requires
        session.valid(),
    ensures
        session.react(event).0.valid(),
        session.react(event).0.job == session.job,
        session.react(event).0.max_attempts == session.max_attempts,
{
}

/// The command ends once: the session is finished exactly after an action
/// that shows the result or gives up, and a finished session answers whatever
/// it is told by giving up. So nothing is tried again after a refusal.
pub proof fn law_end_is_final<H, B, E>(session: SessionModel, event: Event<H, B, E>)
    requires
        session.valid(),
    ensures
        session.react(event).0.stage is Finished <==> (session.react(event).1 is ShowHeader
            || session.react(event).1 is ShowBody || session.react(event).1 is Fail),
        session.stage is Finished ==> session.react(event).1 == Action::<H, B, E>::Fail(
            CommandError::OutOfTurn,
        ),
{
}

/// Each event brings about exactly one action.
pub proof fn law_one_action_per_event<H, B, E>(session: SessionModel, events: Seq<Event<H, B, E>>)
    ensures
        session.actions(events).len() == events.len(),
    decreases events.len(),
{
    if events.len() > 0 {
        law_one_action_per_event(session.react(events[0]).0, events.drop_first());
    }
}

/// A body that is named by its hash is asked for under that very hash, and no
/// header is ever requested on its behalf: whatever happens, every request of
/// the session is the request for the body with that hash.
pub proof fn law_hash_needs_no_lookup<H, B, E>(
    session: SessionModel,
    hash: [u8; 32],
    events: Seq<Event<H, B, E>>,
)
    requires
        session.valid(),
        session.job == Job::Body(BlockIdentifier::Hash(hash)),
    ensures
        session.actions(events).len() == events.len(),
        forall|i: int|
            0 <= i < events.len() ==> {
                let request = requested(#[trigger] session.actions(events)[i]);
                request is Some ==> request == Some(Request::Bodies(hash))
            },
    decreases events.len(),
{
    law_one_action_per_event(session, events);
    if events.len() > 0 {
        let next = session.react(events[0]).0;
        let rest = events.drop_first();
        law_step_keeps_validity(session, events[0]);
        law_hash_needs_no_lookup(next, hash, rest);
        law_one_action_per_event(next, rest);
        assert forall|i: int| 0 <= i < events.len() implies {
            let request = requested(#[trigger] session.actions(events)[i]);
            request is Some ==> request == Some(Request::Bodies(hash))
        } by {
            if i > 0 {
                assert(session.actions(events)[i] == next.actions(rest)[i - 1]);
            }
        }
    }
}

/// A body that is named by its hash is requested as soon as the fetch client
/// is at hand, without a notice of a header lookup.
pub proof fn law_hash_is_requested_first<H, B, E>(session: SessionModel, hash: [u8; 32])
    requires
        session.valid(),
        session.job == Job::Body(BlockIdentifier::Hash(hash)),
        session.stage is Connecting,
    ensures
        session.react(Event::<H, B, E>::ClientReady).1 == (Action::<H, B, E>::Request {
            request: Request::Bodies(hash),
            lookup_notice: false,
        }),
{
}

/// A body that is named by its height is resolved through the header at that
/// height: the header is requested under the height, with a notice, and the
/// body is then requested under the hash of the header that came back,
/// whichever hash that is.
pub proof fn law_number_resolves_to_header_hash<H, B, E>(
    session: SessionModel,
    number: u64,
    fetched: FetchedHeader<H>,
)
    requires
        session.valid(),
        session.job == Job::Body(BlockIdentifier::Number(number)),
        session.stage is Connecting,
    ensures
        session.actions(
            seq![Event::<H, B, E>::ClientReady, Event::<H, B, E>::HeaderReceived(fetched)],
        ) == seq![
            Action::<H, B, E>::Request {
                request: Request::Header(BlockIdentifier::Number(number)),
                lookup_notice: true,
            },
            Action::<H, B, E>::Request {
                request: Request::Bodies(fetched.hash),
                lookup_notice: false,
            },
        ],
{
    let events = seq![Event::<H, B, E>::ClientReady, Event::<H, B, E>::HeaderReceived(fetched)];
    let first = session.react(events[0]);
    let rest = events.drop_first();
    let second = first.0.react(rest[0]);
    assert(rest.drop_first().len() == 0);
    assert(second.0.actions(rest.drop_first()) =~= Seq::<Action<H, B, E>>::empty());
    assert(first.0.actions(rest) =~= seq![second.1]);
    assert(session.actions(events) =~= seq![first.1, second.1]);
}

/// While the header of a body download is looked up, no request for a body is
/// in flight; the header that arrives fixes the hash of the request that
/// follows, however often the lookup had to be repeated.
pub proof fn law_lookup_precedes_body_request<H, B, E>(
    session: SessionModel,
    fetched: FetchedHeader<H>,
)
    requires
        session.valid(),
        session.job is Body,
        session.stage matches StageModel::Requesting { request, .. } && request is Header,
    ensures
        session.react(Event::<H, B, E>::HeaderReceived(fetched)) == session.ask::<H, B, E>(
            Request::Bodies(fetched.hash),
            false,
        ),
{
}

proof fn lemma_body_request_has_a_source<H, B, E>(
    session: SessionModel,
    events: Seq<Event<H, B, E>>,
    i: int,
    hash: [u8; 32],
)
    requires
        session.valid(),
        session.job matches Job::Body(id) && id is Number,
        0 <= i < events.len(),
        session.actions(events).len() == events.len(),
        requested(session.actions(events)[i]) == Some(Request::Bodies(hash)),
    ensures
        awaits_body(session, hash) || exists|j: int|
            0 <= j <= i && delivers(#[trigger] events[j], hash),
    decreases i,
{
    let next = session.react(events[0]).0;
    let rest = events.drop_first();
    if i > 0 {
        law_step_keeps_validity(session, events[0]);
        law_one_action_per_event(next, rest);
        assert(session.actions(events)[i] == next.actions(rest)[i - 1]);
        lemma_body_request_has_a_source(next, rest, i - 1, hash);
        if awaits_body(next, hash) {
            if !awaits_body(session, hash) {
                assert(delivers(events[0], hash));
            }
        } else {
            let j = choose|j: int| 0 <= j <= i - 1 && delivers(#[trigger] rest[j], hash);
            assert(delivers(events[j + 1], hash));
        }
    } else {
        assert(session.actions(events)[0] == session.react(events[0]).1);
        if !awaits_body(session, hash) {
            assert(delivers(events[0], hash));
        }
    }
}

/// In the download of a body that is named by its height, a body is only ever
/// requested under the hash of a header that was delivered: whatever happens,
/// each request for a body answers to an event, that one or an earlier one,
/// which brought a header with the hash that the request names.
pub proof fn law_body_request_follows_lookup<H, B, E>(
    number: u64,
    max_attempts: nat,
    events: Seq<Event<H, B, E>>,
    i: int,
    hash: [u8; 32],
)
    requires
        max_attempts >= 1,
        0 <= i < events.len(),
        requested(
            SessionModel::start(
                Job::Body(BlockIdentifier::Number(number)),
                max_attempts,
            ).actions(events)[i],
        ) == Some(Request::Bodies(hash)),
    ensures
        exists|j: int| 0 <= j <= i && delivers(#[trigger] events[j], hash),
{
    let session = SessionModel::start(Job::Body(BlockIdentifier::Number(number)), max_attempts);
    law_one_action_per_event(session, events);
    lemma_body_request_has_a_source(session, events, i, hash);
}

/// A header download ends with the header as it was delivered.
pub proof fn law_header_is_returned_verbatim<H, B, E>(
    session: SessionModel,
    fetched: FetchedHeader<H>,
)
    requires
        session.valid(),
        session.job is Header,
        session.stage is Requesting,
    ensures
        session.react(Event::<H, B, E>::HeaderReceived(fetched)) == (
            session.at(StageModel::Finished),
            Action::<H, B, E>::ShowHeader(fetched),
        ),
{
}

/// The answer to a request for one body is accepted exactly where it holds one
/// body, whatever the bodies are: any other number ends the command with the
/// mismatch, and no body is shown.
pub proof fn law_body_count_is_checked<H, B, E>(session: SessionModel, bodies: Vec<B>)
    requires
        session.valid(),
        session.stage matches StageModel::Requesting { request, .. } && request is Bodies,
    ensures
        session.react(Event::<H, B, E>::BodiesReceived(bodies)).0 == session.at(
            StageModel::Finished,
        ),
        bodies@.len() == 1 ==> session.react(Event::<H, B, E>::BodiesReceived(bodies)).1
            == Action::<H, B, E>::ShowBody(bodies@[0]),
        bodies@.len() != 1 ==> session.react(Event::<H, B, E>::BodiesReceived(bodies)).1
            == Action::<H, B, E>::Fail(
            CommandError::Validation(
                ValidationError::CountMismatch { expected: 1, actual: bodies@.len() as usize },
            ),
        ),
{
}

/// A request that keeps failing is sent again, after the same pause each time,
/// until as many executions were made as the budget allows; the failure of the
/// last one ends the command with its error. So a request is executed no more
/// often than the budget allows, and exactly that often where it never
/// succeeds.
pub proof fn law_failing_request_spends_budget<H, B, E>(session: SessionModel, errors: Seq<E>)
    requires
        session.valid(),
        session.stage matches StageModel::Requesting { retry, .. } && errors.len()
            == retry.max_attempts - retry.attempt + 1,
    ensures
        session.actions(failures::<H, B, E>(errors)).len() == errors.len(),
        forall|i: int|
            0 <= i < errors.len() - 1 ==> #[trigger] session.actions(failures::<H, B, E>(errors))[i]
                == (Action::<H, B, E>::Retry {
                error: errors[i],
                delay_nanos: RETRY_DELAY_NANOS,
                request: session.stage->request,
            }),
        session.actions(failures::<H, B, E>(errors)).last() == Action::<H, B, E>::Fail(
            CommandError::Fetch(FetchError::Exhausted(errors.last())),
        ),
        session.after(failures::<H, B, E>(errors)) == session.at(StageModel::Finished),
    decreases errors.len(),
{
    let events = failures::<H, B, E>(errors);
    let retry = session.stage->retry;
    let request = session.stage->request;
    let next = session.react(events[0]).0;
    let rest = events.drop_first();
    law_one_action_per_event(session, events);
    law_one_action_per_event(next, rest);
    if retry.may_retry() {
        let later = errors.drop_first();
        assert(rest =~= failures::<H, B, E>(later));
        law_failing_request_spends_budget::<H, B, E>(next, later);
        assert forall|i: int| 0 <= i < errors.len() - 1 implies #[trigger] session.actions(
            events,
        )[i] == (Action::<H, B, E>::Retry {
            error: errors[i],
            delay_nanos: RETRY_DELAY_NANOS,
            request,
        }) by {
            if i > 0 {
                assert(session.actions(events)[i] == next.actions(rest)[i - 1]);
                assert(later[i - 1] == errors[i]);
            }
        }
        assert(session.actions(events).last() == next.actions(rest).last());
        assert(later.last() == errors.last());
        assert(session.after(events) == next.after(rest));
        assert(next.at(StageModel::Finished) == session.at(StageModel::Finished));
    } else {
        assert(errors.len() == 1);
        assert(rest.len() == 0);
        assert(next.actions(rest) =~= Seq::<Action<H, B, E>>::empty());
        assert(session.actions(events) =~= seq![session.react(events[0]).1]);
        assert(next.after(rest) == next);
        assert(session.after(events) == next.after(rest));
    }
}

} // verus!
