use p2p_fetch::error::{
    CommandError, ConfigError, FetchError, LaunchError, NetworkError, ValidationError,
};
use p2p_fetch::fetch::single_body;
use p2p_fetch::ident::{BlockIdentifier, FetchedHeader, Request};
use p2p_fetch::retry::RetryPolicy;
use p2p_fetch::session::{Action, Event, Job, Session};

type Ev = Event<&'static str, &'static str, &'static str>;
type Act = Action<&'static str, &'static str, &'static str>;

const H: [u8; 32] = [7; 32];
const G: [u8; 32] = [9; 32];

/// A session that has its fetch client, and the first request it makes.
fn connected(job: Job, retries: usize) -> (Session, Act) {
    let session = Session::start(job, RetryPolicy::new(retries));
    assert_eq!(session.job(), job);
    assert!(!session.is_finished());
    assert_eq!(session.in_flight(), None);
    let (session, action) = session.step(Ev::NetworkReady);
    assert_eq!(action, Act::AcquireClient);
    assert_eq!(session.in_flight(), None);
    session.step(Ev::ClientReady)
}

fn header(hash: [u8; 32], header: &'static str) -> FetchedHeader<&'static str> {
    FetchedHeader { hash, header }
}

#[test]
fn known_hash_of_identifiers() {
    assert_eq!(BlockIdentifier::Hash(H).known_hash(), Some(H));
    assert_eq!(BlockIdentifier::Number(1000).known_hash(), None);
    assert_eq!(BlockIdentifier::Number(0).known_hash(), None);
}

#[test]
fn single_body_wants_exactly_one() {
    assert_eq!(single_body(vec!["b"]), Ok("b"));
    assert_eq!(
        single_body(Vec::<&str>::new()),
        Err(ValidationError::CountMismatch { expected: 1, actual: 0 })
    );
    assert_eq!(
        single_body(vec!["b", "c"]),
        Err(ValidationError::CountMismatch { expected: 1, actual: 2 })
    );
    assert_eq!(
        single_body(vec!["b", "b", "b"]),
        Err(ValidationError::CountMismatch { expected: 1, actual: 3 })
    );
}

#[test]
fn header_by_number_is_requested_as_given() {
    let id = BlockIdentifier::Number(1000);
    let (session, action) = connected(Job::Header(id), 5);
    assert_eq!(action, Act::Request { request: Request::Header(id), lookup_notice: false });
    assert_eq!(session.in_flight(), Some((Request::Header(id), 1)));
    let (session, action) = session.step(Ev::HeaderReceived(header(H, "header 1000")));
    assert_eq!(action, Act::ShowHeader(header(H, "header 1000")));
    assert!(session.is_finished());
}

#[test]
fn header_by_hash_is_requested_as_given() {
    let id = BlockIdentifier::Hash(H);
    let (session, action) = connected(Job::Header(id), 5);
    assert_eq!(action, Act::Request { request: Request::Header(id), lookup_notice: false });
    let (session, action) = session.step(Ev::HeaderReceived(header(H, "the header")));
    assert_eq!(action, Act::ShowHeader(header(H, "the header")));
    assert!(session.is_finished());
}

#[test]
fn body_by_hash_asks_for_no_header() {
    let (session, action) = connected(Job::Body(BlockIdentifier::Hash(H)), 5);
    assert_eq!(action, Act::Request { request: Request::Bodies(H), lookup_notice: false });
    assert_eq!(session.in_flight(), Some((Request::Bodies(H), 1)));
    let (session, action) = session.step(Ev::RequestFailed("timeout"));
    assert_eq!(
        action,
        Act::Retry { error: "timeout", delay_nanos: 1_000_000_000, request: Request::Bodies(H) }
    );
    let (session, action) = session.step(Ev::BodiesReceived(vec!["the body"]));
    assert_eq!(action, Act::ShowBody("the body"));
    assert!(session.is_finished());
}

#[test]
fn body_by_number_uses_the_hash_of_the_fetched_header() {
    let id = BlockIdentifier::Number(1000);
    let (session, action) = connected(Job::Body(id), 5);
    assert_eq!(action, Act::Request { request: Request::Header(id), lookup_notice: true });
    let (session, action) = session.step(Ev::RequestFailed("no peers"));
    assert_eq!(
        action,
        Act::Retry { error: "no peers", delay_nanos: 1_000_000_000, request: Request::Header(id) }
    );
    assert_eq!(session.in_flight(), Some((Request::Header(id), 2)));
    let (session, action) = session.step(Ev::HeaderReceived(header(G, "header 1000")));
    assert_eq!(action, Act::Request { request: Request::Bodies(G), lookup_notice: false });
    assert_eq!(session.in_flight(), Some((Request::Bodies(G), 1)));
    let (session, action) = session.step(Ev::BodiesReceived(vec!["body 1000"]));
    assert_eq!(action, Act::ShowBody("body 1000"));
    assert!(session.is_finished());
}

#[test]
fn two_bodies_for_one_hash_are_refused() {
    let id = BlockIdentifier::Number(7);
    let (session, _) = connected(Job::Body(id), 5);
    let (session, action) = session.step(Ev::HeaderReceived(header(H, "header 7")));
    assert_eq!(action, Act::Request { request: Request::Bodies(H), lookup_notice: false });
    let (session, action) = session.step(Ev::BodiesReceived(vec!["one", "two"]));
    assert_eq!(
        action,
        Act::Fail(CommandError::Validation(ValidationError::CountMismatch {
            expected: 1,
            actual: 2
        }))
    );
    assert!(session.is_finished());
    assert_eq!(session.in_flight(), None);
}

#[test]
fn no_body_for_one_hash_is_refused_without_retry() {
    let (session, _) = connected(Job::Body(BlockIdentifier::Hash(H)), 5);
    let (session, action) = session.step(Ev::BodiesReceived(Vec::new()));
    assert_eq!(
        action,
        Act::Fail(CommandError::Validation(ValidationError::CountMismatch {
            expected: 1,
            actual: 0
        }))
    );
    assert!(session.is_finished());
}

#[test]
fn fifth_request_succeeds_after_four_retries() {
    let id = BlockIdentifier::Number(1000);
    let (mut session, _) = connected(Job::Header(id), 5);
    let mut retries = 0;
    for error in ["e1", "e2", "e3", "e4"] {
        let (next, action) = session.step(Ev::RequestFailed(error));
        assert_eq!(
            action,
            Act::Retry { error, delay_nanos: 1_000_000_000, request: Request::Header(id) }
        );
        retries += 1;
        session = next;
    }
    assert_eq!(retries, 4);
    assert_eq!(session.in_flight(), Some((Request::Header(id), 5)));
    let (session, action) = session.step(Ev::HeaderReceived(header(H, "fifth")));
    assert_eq!(action, Act::ShowHeader(header(H, "fifth")));
    assert!(session.is_finished());
}

#[test]
fn zero_retries_make_a_single_failure_fatal() {
    let id = BlockIdentifier::Hash(H);
    let (session, _) = connected(Job::Header(id), 0);
    let (session, action) = session.step(Ev::RequestFailed("unreachable peer"));
    assert_eq!(action, Act::Fail(CommandError::Fetch(FetchError::Exhausted("unreachable peer"))));
    assert!(session.is_finished());
}

#[test]
fn persistent_failure_ends_with_the_last_error() {
    for retries in 0..8usize {
        let allowed = if retries >= 1 { retries } else { 1 };
        let (mut session, first) = connected(Job::Body(BlockIdentifier::Hash(H)), retries);
        let mut executions = 0;
        let mut action = first;
        loop {
            match action {
                Act::Request { request, .. } | Act::Retry { request, .. } => {
                    assert_eq!(request, Request::Bodies(H));
                    executions += 1;
                    let (next, then) = session.step(Ev::RequestFailed("down"));
                    session = next;
                    action = then;
                }
                other => {
                    assert_eq!(other, Act::Fail(CommandError::Fetch(FetchError::Exhausted("down"))));
                    break;
                }
            }
        }
        assert_eq!(executions, allowed);
        assert!(session.is_finished());
    }
}

#[test]
fn each_request_has_a_budget_of_its_own() {
    let id = BlockIdentifier::Number(3);
    let (session, _) = connected(Job::Body(id), 2);
    let (session, action) = session.step(Ev::RequestFailed("a"));
    assert!(matches!(action, Act::Retry { .. }));
    let (session, _) = session.step(Ev::HeaderReceived(header(H, "header 3")));
    assert_eq!(session.in_flight(), Some((Request::Bodies(H), 1)));
    let (session, action) = session.step(Ev::RequestFailed("b"));
    assert_eq!(
        action,
        Act::Retry { error: "b", delay_nanos: 1_000_000_000, request: Request::Bodies(H) }
    );
    let (session, action) = session.step(Ev::RequestFailed("c"));
    assert_eq!(action, Act::Fail(CommandError::Fetch(FetchError::Exhausted("c"))));
    assert!(session.is_finished());
}

#[test]
fn failed_launch_ends_the_command() {
    let job = Job::Header(BlockIdentifier::Number(1));
    let cases: [(LaunchError<&'static str>, CommandError<&'static str>); 3] = [
        (
            LaunchError::Config(ConfigError::NoTrustedPeers),
            CommandError::Config(ConfigError::NoTrustedPeers),
        ),
        (LaunchError::Identity("bad key"), CommandError::Identity("bad key")),
        (
            LaunchError::Network("port in use"),
            CommandError::Network(NetworkError::Bootstrap("port in use")),
        ),
    ];
    for (error, expected) in cases {
        let session = Session::start(job, RetryPolicy::new(5));
        let (session, action) = session.step(Ev::LaunchFailed(error));
        assert_eq!(action, Act::Fail(expected));
        assert!(session.is_finished());
    }
}

#[test]
fn launch_errors_become_command_errors() {
    let config: LaunchError<u8> = LaunchError::Config(ConfigError::NoTrustedPeers);
    assert_eq!(config.into_command_error(), CommandError::Config(ConfigError::NoTrustedPeers));
    assert_eq!(LaunchError::Identity(1u8).into_command_error(), CommandError::Identity(1u8));
    assert_eq!(
        LaunchError::Network(2u8).into_command_error(),
        CommandError::Network(NetworkError::Bootstrap(2u8))
    );
}

#[test]
fn missing_client_ends_the_command() {
    let session = Session::start(Job::Body(BlockIdentifier::Hash(H)), RetryPolicy::new(5));
    let (session, _) = session.step(Ev::NetworkReady);
    let (session, action) = session.step(Ev::ClientUnavailable("node stopped"));
    assert_eq!(
        action,
        Act::Fail(CommandError::Network(NetworkError::ClientUnavailable("node stopped")))
    );
    assert!(session.is_finished());
}

#[test]
fn events_out_of_turn_end_the_command() {
    let job = Job::Body(BlockIdentifier::Hash(H));
    let session = Session::start(job, RetryPolicy::new(5));
    let (session, action) = session.step(Ev::ClientReady);
    assert_eq!(action, Act::Fail(CommandError::OutOfTurn));
    assert!(session.is_finished());

    let session = Session::start(job, RetryPolicy::new(5));
    let (session, _) = session.step(Ev::NetworkReady);
    let (session, action) = session.step(Ev::BodiesReceived(vec!["b"]));
    assert_eq!(action, Act::Fail(CommandError::OutOfTurn));
    assert!(session.is_finished());

    // a header while a body is awaited
    let (session, _) = connected(job, 5);
    let (session, action) = session.step(Ev::HeaderReceived(header(H, "h")));
    assert_eq!(action, Act::Fail(CommandError::OutOfTurn));
    assert!(session.is_finished());

    // bodies while a header is awaited
    let (session, _) = connected(Job::Header(BlockIdentifier::Number(1)), 5);
    let (session, action) = session.step(Ev::BodiesReceived(vec!["b"]));
    assert_eq!(action, Act::Fail(CommandError::OutOfTurn));
    assert!(session.is_finished());

    // anything after the end
    let (session, action) = session.step(Ev::RequestFailed("late"));
    assert_eq!(action, Act::Fail(CommandError::OutOfTurn));
    assert!(session.is_finished());
    let (session, action) = session.step(Ev::NetworkReady);
    assert_eq!(action, Act::Fail(CommandError::OutOfTurn));
    assert!(session.is_finished());
}
