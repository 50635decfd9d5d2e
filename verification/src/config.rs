//! What the switchboard is configured with.

use crate::ui::boards::welcome::{Action, ActionView, Link, LinkView};
use vstd::prelude::*;

verus! {

/// What the cluster is expected to hold.
pub struct Expected {
    pub services: Vec<String>,
    pub deployments: Vec<String>,
}

/// The part of the configuration that is about the cluster.
pub struct Kubernetes {
    pub expected: Expected,
}

/// The part of the configuration that is about the welcome board.
pub struct Switchboard {
    pub links: Vec<Link>,
    pub actions: Vec<Action>,
}

/// The configuration: the services and deployments that are expected in a
/// namespace, and the links and actions of the welcome board.
pub struct Config {
    kubernetes: Kubernetes,
    switchboard: Switchboard,
}

/// A [`Config`] as a mathematical value.
pub ghost struct ConfigView {
    pub services: Seq<Seq<char>>,
    pub deployments: Seq<Seq<char>>,
    pub links: Seq<LinkView>,
    pub actions: Seq<ActionView>,
}

impl View for Config {
    type V = ConfigView;

    closed spec fn view(&self) -> ConfigView {
        ConfigView {
            services: self.kubernetes.expected.services.deep_view(),
            deployments: self.kubernetes.expected.deployments.deep_view(),
            links: self.switchboard.links.deep_view(),
            actions: self.switchboard.actions.deep_view(),
        }
    }
}

impl Config {
    /// A configuration of the two parts.
    pub fn new(kubernetes: Kubernetes, switchboard: Switchboard) -> (config: Config)
        ensures
            config@ == (ConfigView {
                services: kubernetes.expected.services.deep_view(),
                deployments: kubernetes.expected.deployments.deep_view(),
                links: switchboard.links.deep_view(),
                actions: switchboard.actions.deep_view(),
            }),
    {
        Config { kubernetes, switchboard }
    }

    /// The names of the services that a namespace is expected to have.
    pub fn kube_services(&self) -> (services: Vec<String>)
        ensures
            services.deep_view() == self@.services,
    {
        self.kubernetes.expected.services.clone()
    }

    /// The names of the deployments that a namespace is expected to have.
    pub fn kube_deployments(&self) -> (deployments: Vec<String>)
        ensures
            deployments.deep_view() == self@.deployments,
    {
        self.kubernetes.expected.deployments.clone()
    }

    /// The links of the welcome board.
    pub fn links(&self) -> (links: Vec<Link>)
        ensures
            links.deep_view() == self@.links,
    {
        self.switchboard.links.clone()
    }

    /// The actions of the welcome board.
    pub fn actions(&self) -> (actions: Vec<Action>)
        ensures
            actions.deep_view() == self@.actions,
    {
        self.switchboard.actions.clone()
    }
}

} // verus!
