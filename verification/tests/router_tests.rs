//! Tests of the action router, the configuration router, and the
//! persistence engine against real database files (kept under /tmp).

use std::cell::RefCell;

use xcon::config::config_router;
use xcon::domain::{Action, ActionErrType, ActionResponse, Server, Settings, Setup};
use xcon::persistence::Response;
use xcon::service::{
    action_router, connect_outcome, connect_target, delete_outcome, fetch_by_id_outcome,
    fetch_outcome, save_outcome,
};

fn no_connector(_user: String, _host: String) -> bool {
    panic!("the connector must not be called");
}

fn ready_settings(db: &str) -> Settings {
    let settings = Settings::create(db.to_string(), true);
    let response = config_router(&settings, Setup::Init, |_content: String| true);
    assert!(matches!(response, Ok(ActionResponse::Done)));
    let cleared = action_router(&settings, Action::Delete, no_connector);
    assert!(matches!(cleared, Ok(ActionResponse::Done)));
    settings
}

fn sample(title: &str, domain: Option<&str>, ip: Option<&str>, user: &str) -> Server {
    Server::new(
        title.to_string(),
        String::new(),
        domain.map(|d| d.to_string()),
        ip.map(|i| i.to_string()),
        user.to_string(),
    )
}

fn stored_ids(settings: &Settings) -> Vec<(i64, Server)> {
    match action_router(settings, Action::Fetch, no_connector) {
        Ok(ActionResponse::All(list)) => list
            .into_iter()
            .map(|server| (server.id.expect("a stored record has an id") as i64, server))
            .collect(),
        Ok(ActionResponse::Empty) => Vec::new(),
        other => panic!("unexpected fetch outcome: {:?}", other),
    }
}

#[test]
fn unsaved_settings_gate_every_action() {
    let settings = Settings::create("/tmp/xcon_gate_db".to_string(), false);
    let actions = || {
        vec![
            Action::Save(sample("a", Some("d"), None, "u")),
            Action::Fetch,
            Action::FetchById(1),
            Action::Delete,
            Action::DeleteById(1),
            Action::Connect(1),
        ]
    };
    for action in actions() {
        let err = action_router(&settings, action, no_connector).unwrap_err();
        assert!(matches!(err.error_type(), ActionErrType::InitNotAvailable));
        assert_eq!(err.msg(), "Please initialize application,use help");
    }
}

#[test]
fn init_then_test_succeeds_and_init_is_idempotent() {
    let settings = Settings::create("/tmp/xcon_p2_db".to_string(), true);
    let first = config_router(&settings, Setup::Init, |_content: String| true);
    assert!(matches!(first, Ok(ActionResponse::Done)));
    let test = config_router(&settings, Setup::Test, |_content: String| true);
    assert!(matches!(test, Ok(ActionResponse::Done)));
    let second = config_router(&settings, Setup::Init, |_content: String| true);
    assert!(matches!(second, Ok(ActionResponse::Done)));
    let retest = config_router(&settings, Setup::Test, |_content: String| true);
    assert!(matches!(retest, Ok(ActionResponse::Done)));
}

#[test]
fn save_then_fetch_by_id_round_trips() {
    let settings = ready_settings("/tmp/xcon_p3_db");
    let saved = action_router(
        &settings,
        Action::Save(sample("alpha", Some("example.org"), None, "alice")),
        no_connector,
    );
    assert!(matches!(saved, Ok(ActionResponse::Done)));

    let records = stored_ids(&settings);
    assert_eq!(records.len(), 1);
    let id = records[0].0;

    match action_router(&settings, Action::FetchById(id), no_connector) {
        Ok(ActionResponse::One(Some(record))) => {
            assert_eq!(record.title, "alpha");
            assert_eq!(record.user_name, "alice");
            assert_eq!(record.domain, Some("example.org".to_string()));
            // The field that was not supplied comes back as the empty
            // string: it is stored as one, not as NULL.
            assert_eq!(record.ip, Some("".to_string()));
            assert_eq!(record.owner, Some("root".to_string()));
        }
        other => panic!("unexpected lookup outcome: {:?}", other),
    }
}

#[test]
fn fetch_on_empty_table_is_empty_not_all() {
    let settings = ready_settings("/tmp/xcon_p4_db");
    let response = action_router(&settings, Action::Fetch, no_connector).unwrap();
    assert_eq!(response, ActionResponse::Empty);
}

#[test]
fn delete_by_missing_id_leaves_other_rows_alone() {
    let settings = ready_settings("/tmp/xcon_p5_db");
    for server in [
        sample("one", Some("one.example"), None, "alice"),
        sample("two", None, Some("10.0.0.2"), "bob"),
    ] {
        let saved = action_router(&settings, Action::Save(server), no_connector);
        assert!(matches!(saved, Ok(ActionResponse::Done)));
    }
    let response = action_router(&settings, Action::DeleteById(999_999), no_connector);
    assert!(matches!(response, Ok(ActionResponse::Done)));
    let remaining = stored_ids(&settings);
    assert_eq!(remaining.len(), 2);
    assert_eq!(remaining[0].1.title, "one");
    assert_eq!(remaining[1].1.title, "two");
}

#[test]
fn connect_without_domain_or_ip_fails_without_connector_call() {
    let settings = ready_settings("/tmp/xcon_p6_db");
    let saved = action_router(&settings, Action::Save(sample("bare", None, None, "carol")), no_connector);
    assert!(matches!(saved, Ok(ActionResponse::Done)));
    let id = stored_ids(&settings)[0].0;

    let err = action_router(&settings, Action::Connect(id), no_connector).unwrap_err();
    assert!(matches!(err.error_type(), ActionErrType::RecordNotFound));
    assert_eq!(err.msg(), "Connect Action failed");
}

#[test]
fn connect_prefers_domain_and_hands_over_the_user() {
    let settings = ready_settings("/tmp/xcon_connect_db");
    let saved = action_router(
        &settings,
        Action::Save(sample("with_both", Some("host.example"), Some("10.0.0.9"), "dana")),
        no_connector,
    );
    assert!(matches!(saved, Ok(ActionResponse::Done)));
    let id = stored_ids(&settings)[0].0;

    let calls: RefCell<Vec<(String, String)>> = RefCell::new(Vec::new());
    let response = action_router(&settings, Action::Connect(id), |user: String, host: String| {
        calls.borrow_mut().push((user, host));
        true
    });
    assert!(matches!(response, Ok(ActionResponse::Done)));
    assert_eq!(
        calls.borrow().as_slice(),
        &[("dana".to_string(), "host.example".to_string())]
    );
}

#[test]
fn connect_falls_back_to_ip_and_reports_refusal() {
    let settings = ready_settings("/tmp/xcon_connect_ip_db");
    let saved = action_router(
        &settings,
        Action::Save(sample("ip_only", None, Some("10.0.0.7"), "erin")),
        no_connector,
    );
    assert!(matches!(saved, Ok(ActionResponse::Done)));
    let id = stored_ids(&settings)[0].0;

    let calls: RefCell<Vec<(String, String)>> = RefCell::new(Vec::new());
    let err = action_router(&settings, Action::Connect(id), |user: String, host: String| {
        calls.borrow_mut().push((user, host));
        false
    })
    .unwrap_err();
    assert!(matches!(err.error_type(), ActionErrType::RecordNotFound));
    assert_eq!(err.msg(), "Connect Action failed");
    assert_eq!(calls.borrow().as_slice(), &[("erin".to_string(), "10.0.0.7".to_string())]);
}

#[test]
fn connect_on_missing_record_fails_without_connector_call() {
    let settings = ready_settings("/tmp/xcon_connect_missing_db");
    let err = action_router(&settings, Action::Connect(424_242), no_connector).unwrap_err();
    assert!(matches!(err.error_type(), ActionErrType::RecordNotFound));
    assert_eq!(err.msg(), "Connect Action failed");
}

#[test]
fn save_against_uninitialized_schema_is_action_failed() {
    // Saved settings, but the schema was never created: the insert fails.
    let settings = Settings::create("/tmp/xcon_noschema_db".to_string(), true);
    let err = action_router(
        &settings,
        Action::Save(sample("a", Some("d"), None, "u")),
        no_connector,
    )
    .unwrap_err();
    assert!(matches!(err.error_type(), ActionErrType::RecordNotFound));
    assert_eq!(err.msg(), "Save action failed");
}

#[test]
fn test_against_unreachable_database_fails() {
    let saved = Settings::create("/tmp/no_such_dir_xcon/db".to_string(), true);
    let err = config_router(&saved, Setup::Test, |_content: String| true).unwrap_err();
    assert!(matches!(err.error_type(), ActionErrType::InitNotAvailable));

    let unsaved = Settings::create("/tmp/xcon_t_db".to_string(), false);
    let err = config_router(&unsaved, Setup::Test, |_content: String| true).unwrap_err();
    assert!(matches!(err.error_type(), ActionErrType::UnableToInitialize));
    assert_eq!(err.msg(), "Database check has failed");
}

#[test]
fn init_surfaces_writer_and_schema_failures() {
    let settings = Settings::create("/tmp/xcon_w_db".to_string(), true);
    let err = config_router(&settings, Setup::Init, |_content: String| false).unwrap_err();
    assert!(matches!(err.error_type(), ActionErrType::UnableToInitialize));
    assert_eq!(err.msg(), "Unable to initizlize application, contact support");

    let unreachable = Settings::create("/tmp/no_such_dir_xcon/db".to_string(), true);
    let err = config_router(&unreachable, Setup::Init, |_content: String| true).unwrap_err();
    assert!(matches!(err.error_type(), ActionErrType::UnableToInitialize));
}

#[test]
fn outcome_translations_are_exact() {
    assert!(matches!(save_outcome(Response::Success), Ok(ActionResponse::Done)));
    let err = save_outcome(Response::Error("boom".to_string())).unwrap_err();
    assert!(matches!(err.error_type(), ActionErrType::RecordNotFound));
    assert_eq!(err.msg(), "Save action failed");

    assert_eq!(fetch_outcome(Response::List(Vec::new())), ActionResponse::Empty);
    let one = sample("x", None, None, "u");
    match fetch_outcome(Response::List(vec![one])) {
        ActionResponse::All(list) => assert_eq!(list.len(), 1),
        other => panic!("unexpected outcome: {:?}", other),
    }
    assert_eq!(fetch_outcome(Response::Success), ActionResponse::Empty);

    assert_eq!(fetch_by_id_outcome(Response::One(None)), ActionResponse::One(None));
    assert_eq!(fetch_by_id_outcome(Response::Error("e".to_string())), ActionResponse::Empty);

    assert!(matches!(delete_outcome(Response::Success), Ok(ActionResponse::Done)));
    let err = delete_outcome(Response::Error("e".to_string())).unwrap_err();
    assert!(matches!(err.error_type(), ActionErrType::InitNotAvailable));
    assert_eq!(err.msg(), "Please initialize application,use help");
}

#[test]
fn connect_outcome_fails_without_connector_call_when_nothing_to_connect() {
    for response in [
        ActionResponse::Empty,
        ActionResponse::One(None),
        ActionResponse::One(Some(sample("bare", None, None, "u"))),
        ActionResponse::One(Some(sample("blank", Some(""), Some(""), "u"))),
    ] {
        let err = connect_outcome(response, no_connector).unwrap_err();
        assert!(matches!(err.error_type(), ActionErrType::RecordNotFound));
        assert_eq!(err.msg(), "Connect Action failed");
    }
}

#[test]
fn connect_outcome_is_decided_by_the_connector() {
    let calls: RefCell<Vec<(String, String)>> = RefCell::new(Vec::new());
    let record = || ActionResponse::One(Some(sample("a", Some("host.example"), None, "fred")));

    let accepted = connect_outcome(record(), |user: String, host: String| {
        calls.borrow_mut().push((user, host));
        true
    });
    assert!(matches!(accepted, Ok(ActionResponse::Done)));

    let refused = connect_outcome(record(), |user: String, host: String| {
        calls.borrow_mut().push((user, host));
        false
    })
    .unwrap_err();
    assert!(matches!(refused.error_type(), ActionErrType::RecordNotFound));
    assert_eq!(refused.msg(), "Connect Action failed");

    let expected = ("fred".to_string(), "host.example".to_string());
    assert_eq!(calls.borrow().as_slice(), &[expected.clone(), expected]);
}

#[test]
fn connect_target_prefers_populated_domain() {
    let with_domain = sample("a", Some("host.example"), Some("10.0.0.1"), "u");
    assert_eq!(connect_target(&with_domain), Some("host.example".to_string()));

    let empty_domain = sample("b", Some(""), Some("10.0.0.1"), "u");
    assert_eq!(connect_target(&empty_domain), Some("10.0.0.1".to_string()));

    let ip_only = sample("c", None, Some("10.0.0.1"), "u");
    assert_eq!(connect_target(&ip_only), Some("10.0.0.1".to_string()));

    let neither = sample("d", None, None, "u");
    assert_eq!(connect_target(&neither), None);

    let both_empty = sample("e", Some(""), Some(""), "u");
    assert_eq!(connect_target(&both_empty), None);
}
