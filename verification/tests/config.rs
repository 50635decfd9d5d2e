use kube_switchboard::config::{Config, Expected, Kubernetes, Switchboard};
use kube_switchboard::ui::boards::welcome::{Action, Link};

fn config() -> Config {
    Config::new(
        Kubernetes {
            expected: Expected {
                services: vec!["api".to_owned(), "db".to_owned()],
                deployments: vec!["web".to_owned()],
            },
        },
        Switchboard {
            links: vec![
                Link::new("Logs".to_owned(), "https://logs/{namespace}".to_owned()),
                Link::new("Docs".to_owned(), "https://docs".to_owned()),
            ],
            actions: vec![Action {
                name: "Show login".to_owned(),
                resource: "db-login".to_owned(),
                action: "get-secret".to_owned(),
            }],
        },
    )
}

#[test]
fn the_configuration_gives_the_expected_services() {
    assert_eq!(config().kube_services(), vec!["api", "db"]);
}

#[test]
fn the_configuration_gives_the_expected_deployments() {
    assert_eq!(config().kube_deployments(), vec!["web"]);
}

#[test]
fn the_configuration_gives_the_links() {
    let links = config().links();
    assert_eq!(links.len(), 2);
    assert_eq!(links[0].name(), "Logs");
    assert_eq!(links[0].url(), "https://logs/{namespace}");
    assert_eq!(links[1].name(), "Docs");
    assert_eq!(links[1].url(), "https://docs");
}

#[test]
fn the_configuration_gives_the_actions() {
    let actions = config().actions();
    assert_eq!(actions.len(), 1);
    assert_eq!(actions[0].name, "Show login");
    assert_eq!(actions[0].resource, "db-login");
    assert_eq!(actions[0].action, "get-secret");
}

#[test]
fn an_empty_configuration_gives_empty_lists() {
    let config = Config::new(
        Kubernetes {
            expected: Expected {
                services: vec![],
                deployments: vec![],
            },
        },
        Switchboard {
            links: vec![],
            actions: vec![],
        },
    );
    assert!(config.kube_services().is_empty());
    assert!(config.kube_deployments().is_empty());
    assert!(config.links().is_empty());
    assert!(config.actions().is_empty());
}
