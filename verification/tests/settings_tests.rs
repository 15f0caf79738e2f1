//! Tests of the settings lifecycle, the configuration grammar, and the
//! error taxonomy: everything that needs no database file.

use std::cell::RefCell;

use xcon::config::initialize_setup;
use xcon::domain::{ActionErr, ActionErrType, ActionResponse, Server, Settings};
use xcon::text::clean_input;

#[test]
fn initialize_setup_test() {
    let settings = Settings::create("/tmp/xcon_init_setup_db".to_string(), false);
    let response = initialize_setup(&settings, |_content: String| true);
    assert!(matches!(response, Ok(ActionResponse::Done)));
}

#[test]
fn load_config_test() {
    let response = Settings::load_config(None);
    assert!(matches!(response, _settings));
}

#[test]
fn load_config_reads_db_line() {
    let settings = Settings::load_config(Some("db=primary\n")).unwrap();
    assert_eq!(settings.db, "primary");
    assert!(settings.is_saved);
    assert_eq!(settings.get_db(), "primary.store");
}

#[test]
fn load_config_missing_file_fails() {
    let err = Settings::load_config(None).unwrap_err();
    assert!(matches!(err.error_type(), ActionErrType::InitNotAvailable));
    assert_eq!(err.msg(), "Please initialize application,use help");
}

#[test]
fn load_config_without_db_line_keeps_default() {
    let settings = Settings::load_config(Some("other=value\n")).unwrap();
    assert_eq!(settings.db, "Server");
    assert!(settings.is_saved);
}

#[test]
fn load_config_skips_malformed_lines() {
    let settings = Settings::load_config(Some("nonsense\ndb=alpha\n")).unwrap();
    assert_eq!(settings.db, "alpha");
}

#[test]
fn load_config_trims_value_and_stops_at_second_equals() {
    let settings = Settings::load_config(Some("db= beta =gamma\n")).unwrap();
    assert_eq!(settings.db, "beta");
}

#[test]
fn load_config_last_db_line_wins() {
    let settings = Settings::load_config(Some("db=a\ndb=b\n")).unwrap();
    assert_eq!(settings.db, "b");
}

#[test]
fn load_config_handles_crlf_lines() {
    let settings = Settings::load_config(Some("db=zeta\r\n")).unwrap();
    assert_eq!(settings.db, "zeta");
}

#[test]
fn load_config_empty_text_keeps_default() {
    let settings = Settings::load_config(Some("")).unwrap();
    assert_eq!(settings.db, "Server");
    assert!(settings.is_saved);
}

#[test]
fn system_default_is_unsaved() {
    let settings = Settings::system_default();
    assert_eq!(settings.db, "Server");
    assert!(!settings.is_saved);
    assert!(!settings.is_config_available());
}

#[test]
fn update_preserves_is_saved() {
    let saved = Settings::create("one".to_string(), true);
    let updated = saved.update("two".to_string());
    assert_eq!(updated.db, "two");
    assert!(updated.is_saved);

    let unsaved = Settings::create("one".to_string(), false);
    assert!(!unsaved.update("two".to_string()).is_saved);
}

#[test]
fn get_db_appends_store_suffix() {
    let settings = Settings::create("alpha".to_string(), true);
    assert_eq!(settings.get_db(), "alpha.store");
}

#[test]
fn config_line_strips_suffix_and_whitespace() {
    assert_eq!(Settings::create("primary".to_string(), true).config_line(), "db=primary \n");
    assert_eq!(Settings::create("primary.store".to_string(), true).config_line(), "db=primary \n");
    assert_eq!(Settings::create("  primary  ".to_string(), true).config_line(), "db=primary \n");
}

#[test]
fn config_line_round_trips_through_load_config() {
    let settings = Settings::create("primary.store".to_string(), true);
    let written = settings.config_line();
    let reloaded = Settings::load_config(Some(written.as_str())).unwrap();
    assert_eq!(reloaded.db, "primary");
    assert!(reloaded.is_saved);
}

#[test]
fn write_default_config_hands_the_line_to_the_writer() {
    let captured: RefCell<Vec<String>> = RefCell::new(Vec::new());
    let settings = Settings::create("primary".to_string(), true);
    let response = settings.write_default_config(|content: String| {
        captured.borrow_mut().push(content);
        true
    });
    assert!(matches!(response, Ok(ActionResponse::Done)));
    assert_eq!(captured.borrow().as_slice(), &["db=primary \n".to_string()]);
}

#[test]
fn write_default_config_failure_is_unable_to_initialize() {
    let settings = Settings::create("primary".to_string(), true);
    let err = settings.write_default_config(|_content: String| false).unwrap_err();
    assert!(matches!(err.error_type(), ActionErrType::UnableToInitialize));
    assert_eq!(err.msg(), "Unable to initizlize application, contact support");
}

#[test]
fn write_custom_config_always_succeeds() {
    let settings = Settings::create("primary".to_string(), false);
    assert!(matches!(settings.write_custom_config(), Ok(ActionResponse::Done)));
}

#[test]
fn server_new_uses_default_owner() {
    let server = Server::new(
        "alpha".to_string(),
        String::new(),
        Some("example.org".to_string()),
        None,
        "alice".to_string(),
    );
    assert_eq!(server.id, None);
    assert_eq!(server.title, "alpha");
    assert_eq!(server.domain, Some("example.org".to_string()));
    assert_eq!(server.ip, None);
    assert_eq!(server.user_name, "alice");
    assert_eq!(server.owner, Some("root".to_string()));
}

#[test]
fn build_maps_each_error_kind() {
    let e = ActionErr::build(ActionErrType::InitNotAvailable);
    assert!(matches!(e.error_type(), ActionErrType::InitNotAvailable));
    assert_eq!(e.msg(), "Please initialize application,use help");

    let e = ActionErr::build(ActionErrType::UnableToInitialize);
    assert!(matches!(e.error_type(), ActionErrType::UnableToInitialize));
    assert_eq!(e.msg(), "Unable to initizlize application, contact support");

    let e = ActionErr::build(ActionErrType::TestFailed);
    assert!(matches!(e.error_type(), ActionErrType::UnableToInitialize));
    assert_eq!(e.msg(), "Database check has failed");

    let e = ActionErr::build(ActionErrType::RecordNotFound);
    assert!(matches!(e.error_type(), ActionErrType::RecordNotFound));
    assert_eq!(e.msg(), "Record Not Found");

    let e = ActionErr::build(ActionErrType::ActionFailed("xyz".to_string()));
    assert!(matches!(e.error_type(), ActionErrType::RecordNotFound));
    assert_eq!(e.msg(), "xyz");
}

#[test]
fn clean_input_removes_line_endings() {
    let mut s = "abc\r\n".to_string();
    clean_input(&mut s);
    assert_eq!(s, "abc");

    let mut s = "abc\n".to_string();
    clean_input(&mut s);
    assert_eq!(s, "abc");

    let mut s = "abc".to_string();
    clean_input(&mut s);
    assert_eq!(s, "abc");

    let mut s = String::new();
    clean_input(&mut s);
    assert_eq!(s, "");

    let mut s = "abc\n\r".to_string();
    clean_input(&mut s);
    assert_eq!(s, "abc\n");
}
