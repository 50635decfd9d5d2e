use kube::Error;
use kube_switchboard::config::{Config, Expected, Kubernetes, Switchboard};
use kube_switchboard::kube_res::{ActionResult, KubeMessage, KubeResource, KubeStatus};
use kube_switchboard::switchboard::{Board, DevSwitchboard};
use kube_switchboard::ui::boards::welcome::ActionStatus;
use std::io::Error as IOError;
use std::io::ErrorKind;

fn names(list: &[&str]) -> Vec<String> {
    list.iter().map(|name| name.to_string()).collect()
}

fn switchboard() -> DevSwitchboard {
    let conf = Config::new(
        Kubernetes {
            expected: Expected {
                services: names(&["api"]),
                deployments: vec![],
            },
        },
        Switchboard {
            links: vec![],
            actions: vec![],
        },
    );
    DevSwitchboard::new(names(&["Loading namespaces..."]), conf)
}

fn failure() -> Error {
    Error::ReadEvents(IOError::new(ErrorKind::NotFound, "borked"))
}

fn entry(name: &str, display: &str, status: KubeStatus) -> KubeResource {
    KubeResource {
        status,
        name: name.to_owned(),
        display: display.to_owned(),
    }
}

fn checked() -> DevSwitchboard {
    let mut sb = switchboard();
    let services = sb.conf.kube_services();
    let deployments = sb.conf.kube_deployments();
    sb.status_board.check(services, deployments);
    sb
}

#[test]
fn the_switchboard_starts_on_the_welcome_board() {
    let sb = switchboard();
    assert_eq!(sb.board, Board::Welcome);
    assert_eq!(sb.selected_namespace, "");
    assert_eq!(sb.namespaces, names(&["Loading namespaces..."]));
    assert_eq!(sb.topbar.namespaces(), &names(&["Loading namespaces..."]));
    assert!(!sb.topbar.namespaces_loaded());
    assert!(sb.status_board.resources().is_empty());
    assert_eq!(sb.status_board.namespace(), "");
    assert_eq!(sb.welcome_board.namespace(), "");
    assert_eq!(sb.conf.kube_services(), names(&["api"]));
}

#[test]
fn a_listing_replaces_the_namespaces_and_clears_the_selection() {
    let mut sb = switchboard();
    sb.selected_namespace = "staging".to_owned();
    sb.receive(KubeMessage::Namespaces(Ok(names(&["default", "staging"]))));
    assert_eq!(sb.namespaces, names(&["default", "staging"]));
    assert_eq!(sb.topbar.namespaces(), &names(&["default", "staging"]));
    assert!(sb.topbar.namespaces_loaded());
    assert_eq!(sb.selected_namespace, "");
}

#[test]
fn a_failed_listing_shows_in_place_of_the_selection() {
    let mut sb = switchboard();
    sb.selected_namespace = "staging".to_owned();
    sb.receive(KubeMessage::Namespaces(Err(failure())));
    assert_eq!(sb.selected_namespace, "Failed - Check login!");
    assert_eq!(sb.namespaces, names(&["Loading namespaces..."]));
    assert_eq!(sb.topbar.namespaces(), &names(&["Loading namespaces..."]));
    assert!(!sb.topbar.namespaces_loaded());
}

#[test]
fn a_check_result_goes_to_the_status_board() {
    let mut sb = checked();
    sb.receive(KubeMessage::Resource(Ok(entry("pod", "Pods", KubeStatus::Good))));
    assert_eq!(
        sb.status_board.resources(),
        &vec![
            entry("service", "Services", KubeStatus::Loading),
            entry("deployment", "Deploys", KubeStatus::Loading),
            entry("pod", "Pods", KubeStatus::Good),
        ]
    );
    assert!(sb.welcome_board.action_state("pod").is_none());
}

#[test]
fn a_failed_check_changes_nothing() {
    let mut sb = checked();
    sb.selected_namespace = "staging".to_owned();
    sb.receive(KubeMessage::Resource(Err(failure())));
    assert_eq!(
        sb.status_board.resources(),
        &vec![
            entry("service", "Services", KubeStatus::Loading),
            entry("deployment", "Deploys", KubeStatus::Loading),
            entry("pod", "Pods", KubeStatus::Loading),
        ]
    );
    assert_eq!(sb.selected_namespace, "staging");
}

#[test]
fn a_check_result_before_any_round_is_dropped() {
    let mut sb = switchboard();
    sb.receive(KubeMessage::Resource(Ok(entry("pod", "Pods", KubeStatus::Good))));
    assert!(sb.status_board.resources().is_empty());
}

#[test]
fn a_stale_result_overwrites_a_fresh_round() {
    let mut sb = checked();
    let services = sb.conf.kube_services();
    sb.status_board.check(services, vec![]);
    sb.receive(KubeMessage::Resource(Ok(entry(
        "pod",
        "Pods",
        KubeStatus::Bad("One or more not ready".to_owned()),
    ))));
    assert_eq!(
        sb.status_board.resources()[2],
        entry("pod", "Pods", KubeStatus::Bad("One or more not ready".to_owned()))
    );
}

#[test]
fn merging_a_result_twice_is_merging_it_once() {
    let mut once = checked();
    once.receive(KubeMessage::Resource(Ok(entry("service", "Services", KubeStatus::Good))));
    let mut twice = checked();
    twice.receive(KubeMessage::Resource(Ok(entry("service", "Services", KubeStatus::Good))));
    twice.receive(KubeMessage::Resource(Ok(entry("service", "Services", KubeStatus::Good))));
    assert_eq!(once.status_board.resources(), twice.status_board.resources());
    assert_eq!(once.selected_namespace, twice.selected_namespace);
    assert_eq!(once.namespaces, twice.namespaces);
}

#[test]
fn an_action_result_goes_to_the_welcome_board() {
    let mut sb = checked();
    sb.receive(KubeMessage::Action(Ok(ActionResult {
        name: "Show login".to_owned(),
        results: "user: alice\npw: ".to_owned(),
    })));
    let state = sb
        .welcome_board
        .action_state("Show login")
        .expect("the action has a result");
    assert_eq!(state.status, ActionStatus::Success);
    assert_eq!(state.result, "user: alice\npw: ");
    assert_eq!(sb.status_board.resources().len(), 3);
}

#[test]
fn a_failed_action_message_changes_nothing() {
    let mut sb = switchboard();
    sb.welcome_board.start_action("Show login".to_owned());
    sb.receive(KubeMessage::Action(Err(failure())));
    let state = sb
        .welcome_board
        .action_state("Show login")
        .expect("the action was started");
    assert_eq!(state.status, ActionStatus::Running);
    assert_eq!(state.result, "");
}

#[test]
fn a_tick_without_a_message_tells_the_boards_the_namespace() {
    let mut sb = checked();
    sb.selected_namespace = "staging".to_owned();
    sb.update(None);
    assert_eq!(sb.status_board.namespace(), "staging");
    assert_eq!(sb.welcome_board.namespace(), "staging");
    assert_eq!(sb.selected_namespace, "staging");
    assert_eq!(sb.status_board.resources().len(), 3);
}

#[test]
fn a_tick_takes_in_one_message_and_then_tells_the_boards() {
    let mut sb = checked();
    sb.selected_namespace = "staging".to_owned();
    sb.update(Some(KubeMessage::Resource(Ok(entry("pod", "Pods", KubeStatus::Good)))));
    assert_eq!(sb.status_board.resources()[2].status, KubeStatus::Good);
    assert_eq!(sb.status_board.namespace(), "staging");
    assert_eq!(sb.welcome_board.namespace(), "staging");

    sb.update(Some(KubeMessage::Namespaces(Ok(names(&["default"])))));
    assert_eq!(sb.selected_namespace, "");
    assert_eq!(sb.status_board.namespace(), "");
    assert_eq!(sb.welcome_board.namespace(), "");

    sb.update(Some(KubeMessage::Namespaces(Err(failure()))));
    assert_eq!(sb.selected_namespace, "Failed - Check login!");
    assert_eq!(sb.status_board.namespace(), "Failed - Check login!");
    assert_eq!(sb.welcome_board.namespace(), "Failed - Check login!");
}
