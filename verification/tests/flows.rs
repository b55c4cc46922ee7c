use polling_application_backend::auth_service::{
    auth_step, begin, AuthAction, Ceremony, Operation, Outcome,
};
use polling_application_backend::auth_service::Operation::{
    DeserializeCredentials, DeserializeState, DiscardFailedState, DiscardState, FindUser,
    FinishCeremony, InsertUser, IssueToken, LoadCredentials, LoadState, SerializeState,
    StartAuthentication, StartRegistration, StoreState,
};
use polling_application_backend::auth_service::Outcome::{Done, Failed, Found, Missing};
use polling_application_backend::config::AppConfig;
use polling_application_backend::jwt_middleware::jwt_middleware;
use polling_application_backend::jwt_token_generation::Claims;
use polling_application_backend::poll_config::{ErrorKind, PollError};
use polling_application_backend::poll_model::{OptionItem, Poll, PollQueryParams, VoteHistory};
use polling_application_backend::poll_service::{
    check_query, create_new_poll, decide, fetch_results_by_id, get_poll_by_id, step, Action,
    Event, PollRequest, Stage, ID_LENGTH,
};
use polling_application_backend::reply::{status_for, Reply, Status};
use polling_application_backend::text::same_text;
use polling_application_backend::types::{PollCreation, UserNameRequest, VoteOption};
use polling_application_backend::user_config::Error;
use polling_application_backend::vote::PollWrite;

fn poll_with(active: bool, voters: &[(&str, &str)]) -> Poll {
    Poll {
        poll_id: "poll123".to_string(),
        username: "creator".to_string(),
        title: "Lunch".to_string(),
        options: vec![
            OptionItem { option_id: "A".into(), text: "Soup".into(), votes: 0 },
            OptionItem { option_id: "B".into(), text: "Salad".into(), votes: 0 },
        ],
        is_active: active,
        voters: voters
            .iter()
            .map(|(name, id)| VoteHistory { username: name.to_string(), option_id: id.to_string() })
            .collect(),
        created_at: 0,
        updated_at: 0,
    }
}

fn vote(option_id: &str, username: &str) -> PollRequest {
    PollRequest::Vote(VoteOption { option_id: option_id.into(), username: username.into() })
}

fn close(username: &str) -> PollRequest {
    PollRequest::Close(UserNameRequest { username: username.into() })
}

fn reset(username: &str) -> PollRequest {
    PollRequest::Reset(UserNameRequest { username: username.into() })
}

fn expect_reply(action: Action, status: Status, body: &str) {
    match action {
        Action::Respond(reply) => {
            assert_eq!(reply.status, status);
            assert_eq!(reply.body, body);
        }
        other => panic!("not a reply: {:?}", other),
    }
}

#[test]
fn a_first_vote_is_written_reloaded_and_announced() {
    let request = vote("A", "alice");
    let (stage, action) = step(&request, Stage::Fetching, Event::Fetched(Some(poll_with(true, &[]))));
    assert_eq!(stage, Stage::Writing { changed: false });
    match action {
        Action::Write(PollWrite::CastVote { option_id, username }) => {
            assert_eq!(option_id, "A");
            assert_eq!(username, "alice");
        }
        other => panic!("not a cast: {:?}", other),
    }
    let (stage, action) = step(&request, stage, Event::Written);
    assert_eq!(stage, Stage::Reloading { changed: false });
    assert!(matches!(action, Action::Reload));
    let (stage, action) =
        step(&request, stage, Event::Fetched(Some(poll_with(true, &[("alice", "A")]))));
    assert_eq!(stage, Stage::Finished);
    match action {
        Action::Announce { poll, reply } => {
            assert_eq!(poll.voters.len(), 1);
            assert_eq!(reply.status, Status::Success);
            assert_eq!(reply.body, "Successfully voted to the poll.");
        }
        other => panic!("not announced: {:?}", other),
    }
}

#[test]
fn a_changed_vote_is_one_write() {
    let request = vote("B", "alice");
    let (stage, action) =
        step(&request, Stage::Fetching, Event::Fetched(Some(poll_with(true, &[("alice", "A")]))));
    assert_eq!(stage, Stage::Writing { changed: true });
    match action {
        Action::Write(PollWrite::ChangeVote { previous_option_id, new_option_id, username }) => {
            assert_eq!(previous_option_id, "A");
            assert_eq!(new_option_id, "B");
            assert_eq!(username, "alice");
        }
        other => panic!("not a change: {:?}", other),
    }
    let (stage, _) = step(&request, stage, Event::Written);
    let (stage, action) = step(&request, stage, Event::Fetched(None));
    assert_eq!(stage, Stage::Finished);
    expect_reply(action, Status::Success, "Successfully changed your option.");
}

#[test]
fn a_repeated_vote_is_a_conflict_without_write_or_broadcast() {
    let request = vote("A", "alice");
    let (stage, action) =
        step(&request, Stage::Fetching, Event::Fetched(Some(poll_with(true, &[("alice", "A")]))));
    assert_eq!(stage, Stage::Finished);
    expect_reply(
        action,
        Status::Conflict,
        "Conflict : Already voted to the option in the poll.",
    );
    // Whatever is reported afterwards, nothing is written or announced.
    let (stage, action) = step(&request, stage, Event::Written);
    assert_eq!(stage, Stage::Finished);
    expect_reply(action, Status::InternalServerError, "Unexpected event.");
    let (stage, action) = step(&request, stage, Event::Fetched(Some(poll_with(true, &[]))));
    assert_eq!(stage, Stage::Finished);
    expect_reply(action, Status::InternalServerError, "Unexpected event.");
}

#[test]
fn a_closed_poll_takes_no_vote() {
    let request = vote("A", "alice");
    let (stage, action) =
        step(&request, Stage::Fetching, Event::Fetched(Some(poll_with(false, &[]))));
    assert_eq!(stage, Stage::Finished);
    expect_reply(action, Status::Conflict, "Cannot vote to a closed poll");
}

#[test]
fn a_vote_needs_a_poll() {
    let request = vote("A", "alice");
    let (stage, action) = step(&request, Stage::Fetching, Event::Fetched(None));
    assert_eq!(stage, Stage::Finished);
    expect_reply(action, Status::NotFound, "No poll found with given id.");
    let (stage, action) = step(
        &request,
        Stage::Fetching,
        Event::FetchFailed(PollError::MongoError("connection refused".into())),
    );
    assert_eq!(stage, Stage::Finished);
    expect_reply(action, Status::InternalServerError, "MongoDB Error: connection refused");
}

#[test]
fn a_failed_write_is_reported() {
    let failure = || Event::WriteFailed(PollError::GeneralError("Failed to cast vote: x".into()));
    let (stage, action) = step(&vote("A", "alice"), Stage::Writing { changed: false }, failure());
    assert_eq!(stage, Stage::Finished);
    expect_reply(
        action,
        Status::InternalServerError,
        "Error voting to the poll Error: Failed to cast vote: x",
    );
    let (_, action) = step(&vote("A", "alice"), Stage::Writing { changed: true }, failure());
    expect_reply(action, Status::InternalServerError, "Error: Failed to cast vote: x");
    let (_, action) = step(&close("creator"), Stage::Writing { changed: false }, failure());
    expect_reply(
        action,
        Status::InternalServerError,
        "Error closing poll : Error: Failed to cast vote: x",
    );
    let (_, action) = step(&reset("creator"), Stage::Writing { changed: false }, failure());
    expect_reply(
        action,
        Status::InternalServerError,
        "Error resetting poll : Error: Failed to cast vote: x",
    );
}

#[test]
fn closing_by_anyone_but_the_creator_is_unauthorized() {
    let request = close("mallory");
    let (stage, action) =
        step(&request, Stage::Fetching, Event::Fetched(Some(poll_with(true, &[]))));
    assert_eq!(stage, Stage::Finished);
    expect_reply(
        action,
        Status::Unauthorized,
        "Error closing poll : Unauthorized Access : Poll can be deleted only by the creator.",
    );
    let request = reset("mallory");
    let (stage, action) =
        step(&request, Stage::Fetching, Event::Fetched(Some(poll_with(true, &[]))));
    assert_eq!(stage, Stage::Finished);
    expect_reply(
        action,
        Status::Unauthorized,
        "Error resetting poll : Unauthorized Access : Only the creator can reset the votes.",
    );
}

#[test]
fn the_creator_closes_and_resets() {
    let request = close("creator");
    let (stage, action) =
        step(&request, Stage::Fetching, Event::Fetched(Some(poll_with(true, &[]))));
    assert_eq!(stage, Stage::Writing { changed: false });
    assert!(matches!(action, Action::Write(PollWrite::Close)));
    let (stage, _) = step(&request, stage, Event::Written);
    let (stage, action) = step(&request, stage, Event::Fetched(Some(poll_with(false, &[]))));
    assert_eq!(stage, Stage::Finished);
    match action {
        Action::Announce { poll, reply } => {
            assert!(!poll.is_active);
            assert_eq!(reply.body, "Closed poll successfully.");
        }
        other => panic!("not announced: {:?}", other),
    }

    let request = reset("creator");
    let (stage, action) =
        step(&request, Stage::Fetching, Event::Fetched(Some(poll_with(true, &[]))));
    assert!(matches!(action, Action::Write(PollWrite::Reset)));
    let (stage, _) = step(&request, stage, Event::Written);
    let (_, action) = step(&request, stage, Event::Fetched(Some(poll_with(true, &[]))));
    match action {
        Action::Announce { reply, .. } => assert_eq!(reply.body, "Poll reset successfully."),
        other => panic!("not announced: {:?}", other),
    }
    let (_, action) = step(&request, Stage::Reloading { changed: false }, Event::Fetched(None));
    expect_reply(action, Status::Success, "No poll found with given id.");
    let (_, action) = step(&close("x"), Stage::Fetching, Event::Fetched(None));
    expect_reply(
        action,
        Status::NotFound,
        "Error closing poll : Poll with ID 'Poll not found' not found",
    );
}

#[test]
fn decisions_without_the_flow() {
    let poll = poll_with(true, &[("alice", "A")]);
    assert!(matches!(decide(&vote("B", "bob"), Some(&poll)), Ok(PollWrite::CastVote { .. })));
    assert!(matches!(decide(&vote("B", "alice"), Some(&poll)), Ok(PollWrite::ChangeVote { .. })));
    assert!(matches!(decide(&close("creator"), Some(&poll)), Ok(PollWrite::Close)));
    assert!(matches!(decide(&reset("creator"), Some(&poll)), Ok(PollWrite::Reset)));
    match decide(&vote("A", "alice"), Some(&poll)) {
        Err(Reply { status, .. }) => assert_eq!(status, Status::Conflict),
        other => panic!("not refused: {:?}", other),
    }
}

#[test]
fn results_are_refused_where_the_query_does_not_fit() {
    let open = poll_with(true, &[]);
    let closed = poll_with(false, &[]);
    let params = |live, closed, creator: Option<&str>| PollQueryParams {
        live,
        closed,
        creator: creator.map(|c| c.to_string()),
    };
    assert!(check_query(&open, &params(None, None, None)).is_none());
    assert!(check_query(&open, &params(Some(true), Some(true), Some("creator"))).is_none());
    assert!(check_query(&closed, &params(Some(false), Some(false), None)).is_none());
    let refusal = check_query(&open, &params(None, Some(false), None)).unwrap();
    assert_eq!(refusal.status, Status::BadRequest);
    assert_eq!(
        refusal.body,
        "Query parameters mismatch, poll status is not specified correctly."
    );
    let refusal = check_query(&open, &params(Some(false), Some(true), None)).unwrap();
    assert_eq!(refusal.status, Status::NotImplemented);
    let refusal = check_query(&closed, &params(Some(true), None, Some("creator"))).unwrap();
    assert_eq!(refusal.status, Status::NotImplemented);
    let refusal = check_query(&open, &params(None, None, Some("mallory"))).unwrap();
    assert_eq!(refusal.status, Status::Forbidden);
    assert_eq!(
        refusal.body,
        "Query parameters mismatch, provided creator is not owner of this poll."
    );
    // The state is held against `closed` first.
    let refusal = check_query(&open, &params(Some(false), Some(false), Some("x"))).unwrap();
    assert_eq!(refusal.status, Status::BadRequest);
}

#[test]
fn results_are_given_for_a_poll_that_fits() {
    let poll = poll_with(true, &[]);
    let params = PollQueryParams { live: Some(true), closed: None, creator: None };
    let results = fetch_results_by_id(Ok(Some(&poll)), &params).unwrap();
    assert_eq!(results.poll_id, "poll123");
    assert_eq!(results.total_votes, 0);
    assert_eq!(results.options.len(), 2);

    let reply = fetch_results_by_id(Ok(None), &params).unwrap_err();
    assert_eq!(reply.status, Status::NotFound);
    assert_eq!(reply.body, "No poll found with the given ID.");
    let error = PollError::MongoError("timeout".into());
    let reply = fetch_results_by_id(Err(&error), &params).unwrap_err();
    assert_eq!(reply.status, Status::InternalServerError);
    assert_eq!(reply.body, "MongoDB Error: timeout");
    let params = PollQueryParams { live: Some(false), closed: None, creator: None };
    let reply = fetch_results_by_id(Ok(Some(&poll)), &params).unwrap_err();
    assert_eq!(reply.status, Status::NotImplemented);
}

#[test]
fn a_new_poll_is_open_and_without_votes() {
    let data = PollCreation {
        title: "Lunch".into(),
        username: "creator".into(),
        options: vec!["Soup".into(), "Salad".into(), "Soup".into()],
    };
    let poll = create_new_poll(&data);
    assert_eq!(poll.title, "Lunch");
    assert_eq!(poll.username, "creator");
    assert!(poll.is_active);
    assert!(poll.voters.is_empty());
    assert_eq!(poll.created_at, poll.updated_at);
    assert_eq!(poll.poll_id.chars().count(), ID_LENGTH);
    assert_eq!(poll.options.len(), 3);
    let texts: Vec<&str> = poll.options.iter().map(|o| o.text.as_str()).collect();
    assert_eq!(texts, vec!["Soup", "Salad", "Soup"]);
    for option in &poll.options {
        assert_eq!(option.votes, 0);
        assert_eq!(option.option_id.chars().count(), ID_LENGTH);
    }
    let empty = create_new_poll(&PollCreation {
        title: "".into(),
        username: "".into(),
        options: vec![],
    });
    assert!(empty.options.is_empty());
}

#[test]
fn statuses_have_their_numbers() {
    let all = [
        (Status::Success, 200),
        (Status::BadRequest, 400),
        (Status::Unauthorized, 401),
        (Status::Forbidden, 403),
        (Status::NotFound, 404),
        (Status::Conflict, 409),
        (Status::InternalServerError, 500),
        (Status::NotImplemented, 501),
    ];
    for (status, code) in all {
        assert_eq!(status.code(), code);
    }
    assert_eq!(status_for(ErrorKind::NotFound), Status::NotFound);
    assert_eq!(status_for(ErrorKind::Conflict), Status::Conflict);
    assert_eq!(status_for(ErrorKind::Unauthorized), Status::Unauthorized);
    assert_eq!(status_for(ErrorKind::Upstream), Status::InternalServerError);
    assert_eq!(status_for(ErrorKind::Serialization), Status::InternalServerError);
}

#[test]
fn texts_are_compared_by_their_characters() {
    assert!(same_text("", ""));
    assert!(same_text("alice", "alice"));
    assert!(!same_text("alice", "alicia"));
    assert!(!same_text("alice", "Alice"));
    assert!(!same_text("a", ""));
    assert!(same_text("é→", "é→"));
    assert!(!same_text("é", "e"));
}

#[test]
fn the_configuration_falls_back() {
    let config = AppConfig::from_environment(None, None, None);
    assert_eq!(config.mongodb_uri, "mongodb://localhost:27017");
    assert_eq!(config.database_name, "polling_application");
    assert_eq!(config.jwt_secret, "thisisthemostsecuresecret");
    let config = AppConfig::from_environment(
        Some("mongodb://db:1".into()),
        Some("polls".into()),
        Some("s3".into()),
    );
    assert_eq!(config.mongodb_uri, "mongodb://db:1");
    assert_eq!(config.database_name, "polls");
    assert_eq!(config.jwt_secret, "s3");
}

#[test]
fn a_token_expires_after_an_hour() {
    let claims = Claims::issued_at("alice", 1_700_000_000);
    assert_eq!(claims.sub, "alice");
    assert_eq!(claims.exp, 1_700_003_600);
    assert_eq!(Claims::issued_at("a", -3600).exp, 0);
    assert_eq!(Claims::issued_at("a", -3601).exp, 0);
    assert_eq!(Claims::issued_at("a", i64::MIN).exp, 0);
    assert_eq!(Claims::issued_at("a", 0).exp, 3600);
}

#[test]
fn requests_pass_with_a_valid_token_only() {
    assert!(jwt_middleware(true, true, true).is_ok());
    let rejection = jwt_middleware(false, true, true).unwrap_err();
    assert_eq!(rejection.status, Status::InternalServerError);
    assert_eq!(rejection.error, "Internal Server Error");
    assert_eq!(rejection.message, "JWT_SECRET is not set in the environment variables");
    let rejection = jwt_middleware(true, false, true).unwrap_err();
    assert_eq!(rejection.status, Status::Unauthorized);
    assert_eq!(rejection.error, "Unauthorized");
    assert_eq!(rejection.message, "No token found in cookies");
    let rejection = jwt_middleware(true, true, false).unwrap_err();
    assert_eq!(rejection.status, Status::Unauthorized);
    assert_eq!(rejection.message, "Invalid or expired token");
    assert_eq!(jwt_middleware(false, false, false).unwrap_err().status, Status::InternalServerError);
}

fn run(ceremony: Ceremony, outcomes: &[Outcome]) -> (Vec<Operation>, AuthAction) {
    let mut operation = begin(ceremony);
    let mut performed = vec![operation];
    for outcome in outcomes {
        match auth_step(ceremony, operation, *outcome) {
            AuthAction::Perform(next) => {
                operation = next;
                performed.push(next);
            }
            last => return (performed, last),
        }
    }
    panic!("the exchange did not end");
}

fn expect_answer(action: AuthAction, status: Status, body: &str) {
    match action {
        AuthAction::Respond(reply) => {
            assert_eq!(reply.status, status);
            assert_eq!(reply.body, body);
        }
        other => panic!("not a reply: {:?}", other),
    }
}

#[test]
fn a_registration_starts_for_a_new_user_only() {
    let (performed, last) = run(Ceremony::RegisterStart, &[Missing, Done, Done, Done]);
    assert_eq!(performed, vec![FindUser, StartRegistration, SerializeState, StoreState]);
    assert!(matches!(last, AuthAction::SendChallenge));
    let (performed, last) = run(Ceremony::RegisterStart, &[Found]);
    assert_eq!(performed, vec![FindUser]);
    expect_answer(last, Status::Conflict, "User is already registered.");
    let (_, last) = run(Ceremony::RegisterStart, &[Failed]);
    expect_answer(last, Status::InternalServerError, "Error checking user registration.");
    let (_, last) = run(Ceremony::RegisterStart, &[Missing, Failed]);
    expect_answer(last, Status::InternalServerError, "Failed to start registration process.");
    let (_, last) = run(Ceremony::RegisterStart, &[Missing, Done, Failed]);
    expect_answer(last, Status::InternalServerError, "Failed to serialize registration state.");
}

#[test]
fn a_registration_finishes_and_discards_its_state() {
    let (performed, last) = run(Ceremony::RegisterFinish, &[Found, Done, Done, Done, Done]);
    assert_eq!(
        performed,
        vec![LoadState, DeserializeState, FinishCeremony, InsertUser, DiscardState]
    );
    expect_answer(last, Status::Success, "User registered successfully.");
    let (performed, last) = run(Ceremony::RegisterFinish, &[Found, Done, Failed, Done]);
    assert_eq!(
        performed,
        vec![LoadState, DeserializeState, FinishCeremony, DiscardFailedState]
    );
    expect_answer(
        last,
        Status::BadRequest,
        "Failed to finish the passkey registration process.",
    );
    let (_, last) = run(Ceremony::RegisterFinish, &[Found, Done, Failed, Failed]);
    expect_answer(
        last,
        Status::InternalServerError,
        "Error registering user, and failed to clean up registration state.",
    );
    let (_, last) = run(Ceremony::RegisterFinish, &[Missing]);
    expect_answer(last, Status::Unauthorized, "Registration state not found for the user.");
    let (_, last) = run(Ceremony::RegisterFinish, &[Failed]);
    expect_answer(
        last,
        Status::InternalServerError,
        "Error while retrieving registration state.",
    );
    let (_, last) = run(Ceremony::RegisterFinish, &[Found, Failed]);
    expect_answer(
        last,
        Status::InternalServerError,
        "Failed to deserialize the registration state.",
    );
    let (_, last) = run(Ceremony::RegisterFinish, &[Found, Done, Done, Failed]);
    expect_answer(
        last,
        Status::InternalServerError,
        "Failed to insert user data into the database. Please try registering again.",
    );
    let (_, last) = run(Ceremony::RegisterFinish, &[Found, Done, Done, Done, Failed]);
    expect_answer(
        last,
        Status::InternalServerError,
        "User registered successfully, but failed to clean up registration state.",
    );
}

#[test]
fn a_login_starts_for_a_known_user_only() {
    let (performed, last) = run(Ceremony::LoginStart, &[Found, Done, Done, Done, Done]);
    assert_eq!(
        performed,
        vec![
            LoadCredentials,
            DeserializeCredentials,
            StartAuthentication,
            SerializeState,
            StoreState
        ]
    );
    assert!(matches!(last, AuthAction::SendChallenge));
    let (_, last) = run(Ceremony::LoginStart, &[Missing]);
    expect_answer(last, Status::NotFound, "User not found.");
    let (_, last) = run(Ceremony::LoginStart, &[Failed]);
    expect_answer(last, Status::NotFound, "User not found.");
    let (_, last) = run(Ceremony::LoginStart, &[Found, Failed]);
    expect_answer(last, Status::InternalServerError, "Failed to deserialize user credentials.");
    let (_, last) = run(Ceremony::LoginStart, &[Found, Done, Failed]);
    expect_answer(last, Status::InternalServerError, "Authentication challenge failed.");
    let (_, last) = run(Ceremony::LoginStart, &[Found, Done, Done, Failed]);
    expect_answer(
        last,
        Status::InternalServerError,
        "Failed to serialize authentication state.",
    );
    let (_, last) = run(Ceremony::LoginStart, &[Found, Done, Done, Done, Failed]);
    expect_answer(last, Status::InternalServerError, "Failed to store login state.");
}

#[test]
fn a_login_finishes_and_discards_its_state() {
    let (performed, last) = run(Ceremony::LoginFinish, &[Found, Done, Done, Done, Done]);
    assert_eq!(
        performed,
        vec![LoadState, DeserializeState, FinishCeremony, DiscardState, IssueToken]
    );
    expect_answer(last, Status::Success, "Logged in successfully.");
    let (performed, last) = run(Ceremony::LoginFinish, &[Found, Done, Failed, Done]);
    assert_eq!(
        performed,
        vec![LoadState, DeserializeState, FinishCeremony, DiscardFailedState]
    );
    expect_answer(last, Status::BadRequest, "Authentication failed.");
    let (_, last) = run(Ceremony::LoginFinish, &[Found, Done, Failed, Failed]);
    expect_answer(last, Status::InternalServerError, "Failed to clean up login state.");
    let (_, last) = run(Ceremony::LoginFinish, &[Found, Done, Done, Failed]);
    expect_answer(last, Status::InternalServerError, "Failed to clean up login state.");
    let (_, last) = run(Ceremony::LoginFinish, &[Missing]);
    expect_answer(last, Status::Unauthorized, "User doesn't have an active login state.");
    let (_, last) = run(Ceremony::LoginFinish, &[Failed]);
    expect_answer(last, Status::InternalServerError, "Failed to retrieve login state.");
    let (_, last) = run(Ceremony::LoginFinish, &[Found, Failed]);
    expect_answer(
        last,
        Status::InternalServerError,
        "Failed to deserialize authentication state.",
    );
}

#[test]
fn an_unexpected_report_is_an_internal_error() {
    let action = auth_step(Ceremony::RegisterStart, Operation::IssueToken, Outcome::Done);
    expect_answer(action, Status::InternalServerError, "Unexpected event.");
    let action = auth_step(Ceremony::RegisterStart, Operation::StoreState, Outcome::Failed);
    expect_answer(action, Status::InternalServerError, "Unexpected event.");
    let action = auth_step(Ceremony::LoginFinish, Operation::FindUser, Outcome::Found);
    expect_answer(action, Status::InternalServerError, "Unexpected event.");
}

#[test]
fn user_errors_describe_themselves() {
    let cases: Vec<(Error, &str, ErrorKind)> = vec![
        (Error::MongoError("down".into()), "MongoDB Error: down", ErrorKind::Upstream),
        (Error::UserNotFound("bob".into()), "User 'bob' not found", ErrorKind::NotFound),
        (
            Error::UserAlreadyExists("bob".into()),
            "User 'bob' already exists",
            ErrorKind::Conflict,
        ),
        (
            Error::RegistrationStateError("x".into()),
            "Registration state error: x",
            ErrorKind::Serialization,
        ),
        (Error::LoginStateError("x".into()), "Login state error: x", ErrorKind::Serialization),
        (Error::GeneralError("x".into()), "Error: x", ErrorKind::Upstream),
    ];
    for (error, text, kind) in cases {
        assert_eq!(error.message(), text);
        assert_eq!(error.kind(), kind);
    }
}

#[test]
fn a_poll_is_looked_up() {
    let poll = poll_with(true, &[]);
    assert_eq!(get_poll_by_id(Ok(Some(&poll))).unwrap().poll_id, "poll123");
    let reply = get_poll_by_id(Ok(None)).unwrap_err();
    assert_eq!(reply.status, Status::NotFound);
    assert_eq!(reply.body, "No poll found with given id.");
    let error = PollError::MongoError("timeout".into());
    let reply = get_poll_by_id(Err(&error)).unwrap_err();
    assert_eq!(reply.status, Status::InternalServerError);
    assert_eq!(reply.body, "MongoDB Error: timeout");
}
