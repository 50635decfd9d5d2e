use kube::Error;
use kube_switchboard::kube_res::actions::{
    error, failure_text, report_secret, run_action, run_valid_action, success,
};
use kube_switchboard::kube_res::KubeMessage;
use kube_switchboard::ui::boards::welcome::Action;
use std::io::Error as IOError;
use std::io::ErrorKind;

fn action(name: &str, resource: &str, operation: &str) -> Action {
    Action {
        name: name.to_owned(),
        resource: resource.to_owned(),
        action: operation.to_owned(),
    }
}

fn entry(key: &str, value: &[u8]) -> (String, Vec<u8>) {
    (key.to_owned(), value.to_vec())
}

fn result_of(msg: Option<KubeMessage>) -> (String, String) {
    match msg {
        Some(KubeMessage::Action(Ok(res))) => (res.name, res.results),
        _ => panic!("the action should have reported a result"),
    }
}

#[test]
fn secret_report_has_one_line_for_each_key() {
    let data = vec![entry("user", b"alice"), entry("pw", &[0xff, 0xfe])];
    assert_eq!(report_secret(&data), "user: alice\npw: ");
}

#[test]
fn secret_report_keeps_the_order_of_the_keys() {
    let data = vec![entry("b", b"2"), entry("a", b"1"), entry("c", b"3")];
    assert_eq!(report_secret(&data), "b: 2\na: 1\nc: 3");
}

#[test]
fn secret_report_of_no_keys_is_empty() {
    assert_eq!(report_secret(&vec![]), "");
}

#[test]
fn secret_values_are_decoded_as_utf8() {
    let data = vec![
        entry("greeting", "grüß dich".as_bytes()),
        entry("snowman", &[0xe2, 0x98, 0x83]),
        entry("empty", b""),
        entry("lines", b"a\nb"),
    ];
    assert_eq!(
        report_secret(&data),
        "greeting: grüß dich\nsnowman: \u{2603}\nempty: \nlines: a\nb"
    );
}

#[test]
fn a_value_that_is_not_utf8_shows_as_nothing() {
    for bytes in [
        vec![0x80u8],
        vec![0xc3],
        vec![b'o', b'k', 0xff],
        vec![0xed, 0xa0, 0x80],
        vec![0xc0, 0xaf],
        vec![0xf4, 0x90, 0x80, 0x80],
    ] {
        assert_eq!(report_secret(&vec![("k".to_owned(), bytes)]), "k: ");
    }
}

#[test]
fn only_get_secret_asks_for_a_secret() {
    assert_eq!(
        run_action(&action("Show login", "db-login", "get-secret")),
        Some("db-login".to_owned())
    );
    assert_eq!(run_action(&action("Restart", "api", "restart")), None);
    assert_eq!(run_action(&action("Show login", "db-login", "Get-Secret")), None);
    assert_eq!(run_action(&action("Show login", "db-login", "get-secret ")), None);
    assert_eq!(run_action(&action("Show login", "db-login", "")), None);
}

#[test]
fn a_fetched_secret_is_reported_under_the_actions_name() {
    let data = vec![entry("user", b"alice"), entry("pw", &[0xff, 0xfe])];
    let msg = run_valid_action(action("Show login", "db-login", "get-secret"), Ok(Some(data)));
    assert_eq!(
        result_of(msg),
        ("Show login".to_owned(), "user: alice\npw: ".to_owned())
    );
}

#[test]
fn a_secret_without_data_reports_nothing_found() {
    let msg = run_valid_action(action("Show login", "db-login", "get-secret"), Ok(None));
    assert_eq!(
        result_of(msg),
        ("Show login".to_owned(), "Nothing found!".to_owned())
    );
}

#[test]
fn a_secret_with_no_keys_reports_an_empty_text() {
    let msg = run_valid_action(action("Show login", "db-login", "get-secret"), Ok(Some(vec![])));
    assert_eq!(result_of(msg), ("Show login".to_owned(), "".to_owned()));
}

#[test]
fn a_failed_fetch_is_reported_as_a_result() {
    let err = Error::ReadEvents(IOError::new(ErrorKind::NotFound, "borked"));
    let msg = run_valid_action(action("Show login", "db-login", "get-secret"), Err(err));
    assert_eq!(
        result_of(msg),
        (
            "Show login".to_owned(),
            "Failed to run action: Error reading events stream: borked".to_owned()
        )
    );
}

#[test]
fn an_unknown_operation_sends_no_message() {
    let data = vec![entry("user", b"alice")];
    assert!(run_valid_action(action("Restart", "api", "restart"), Ok(Some(data))).is_none());
    assert!(run_valid_action(action("Restart", "api", "restart"), Ok(None)).is_none());
    let err = Error::LinesCodecMaxLineLengthExceeded;
    assert!(run_valid_action(action("Restart", "api", "restart"), Err(err)).is_none());
}

#[test]
fn error_says_what_the_error_says() {
    let msg = error("Show login".to_owned(), Error::LinesCodecMaxLineLengthExceeded);
    assert_eq!(
        result_of(Some(msg)),
        (
            "Show login".to_owned(),
            "Failed to run action: Error finding newline character".to_owned()
        )
    );
}

#[test]
fn failure_text_leads_with_a_fixed_text() {
    assert_eq!(failure_text("timed out"), "Failed to run action: timed out");
    assert_eq!(failure_text(""), "Failed to run action: ");
}

#[test]
fn success_carries_name_and_text() {
    let msg = success("Show login".to_owned(), "user: alice".to_owned());
    assert_eq!(
        result_of(Some(msg)),
        ("Show login".to_owned(), "user: alice".to_owned())
    );
}
