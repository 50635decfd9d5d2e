//! The values that travel between the cluster queries and the boards.

pub mod actions;
pub mod namespaces;
pub mod pods;
pub mod services;

use vstd::prelude::*;
use vstd::std_specs::cmp::PartialEqSpecImpl;
use vstd::string::StringExecFns;

verus! {

/// `kube::Error`, the error of the cluster client. Nothing is claimed of it
/// and nothing in this crate looks inside one: a failed query is carried to
/// the place that decides what a failure means.
#[verifier::external_type_specification]
#[verifier::external_body]
pub struct ExKubeError(kube::Error);

/// Health of one monitored kind of resource.
#[derive(Debug)]
pub enum KubeStatus {
    /// Nothing is known yet.
    Loading,
    /// The check found nothing wrong.
    Good,
    /// The check found a problem; the text says which.
    Bad(String),
    /// The check could not tell; the text says why.
    Suspicious(String),
}

/// A [`KubeStatus`] with its texts as character sequences.
pub ghost enum StatusView {
    Loading,
    Good,
    Bad(Seq<char>),
    Suspicious(Seq<char>),
}

impl StatusView {
    /// The line shown for a status.
    pub open spec fn text(self) -> Seq<char> {
        match self {
            StatusView::Loading => "Loading..."@,
            StatusView::Good => "All good here"@,
            StatusView::Bad(msg) => "Bad: "@ + msg,
            StatusView::Suspicious(msg) => "May have a problem: "@ + msg,
        }
    }

    /// The colour a status is drawn in.
    pub open spec fn color(self) -> StatusColor {
        match self {
            StatusView::Loading => StatusColor::DarkGray,
            StatusView::Good => StatusColor::Green,
            StatusView::Bad(_) => StatusColor::Red,
            StatusView::Suspicious(_) => StatusColor::Yellow,
        }
    }
}

impl View for KubeStatus {
    type V = StatusView;

    open spec fn view(&self) -> StatusView {
        match self {
            KubeStatus::Loading => StatusView::Loading,
            KubeStatus::Good => StatusView::Good,
            KubeStatus::Bad(msg) => StatusView::Bad(msg@),
            KubeStatus::Suspicious(msg) => StatusView::Suspicious(msg@),
        }
    }
}

impl DeepView for KubeStatus {
    type V = StatusView;

    open spec fn deep_view(&self) -> StatusView {
        self@
    }
}

impl Clone for KubeStatus {
    fn clone(&self) -> (r: Self)
        ensures
            r@ == self@,
    {
        match self {
            KubeStatus::Loading => KubeStatus::Loading,
            KubeStatus::Good => KubeStatus::Good,
            KubeStatus::Bad(msg) => KubeStatus::Bad(msg.clone()),
            KubeStatus::Suspicious(msg) => KubeStatus::Suspicious(msg.clone()),
        }
    }
}

impl PartialEq for KubeStatus {
    fn eq(&self, other: &Self) -> (r: bool) {
        match self {
            KubeStatus::Loading => matches!(other, KubeStatus::Loading),
            KubeStatus::Good => matches!(other, KubeStatus::Good),
            KubeStatus::Bad(a) => match other {
                KubeStatus::Bad(b) => *a == *b,
                _ => false,
            },
            KubeStatus::Suspicious(a) => match other {
                KubeStatus::Suspicious(b) => *a == *b,
                _ => false,
            },
        }
    }
}

impl PartialEqSpecImpl for KubeStatus {
    open spec fn obeys_eq_spec() -> bool {
        true
    }

    open spec fn eq_spec(&self, other: &Self) -> bool {
        self@ == other@
    }
}

impl KubeStatus {
    /// The line shown for this status: a fixed text for `Loading` and `Good`,
    /// a fixed lead followed by the reason for the other two.
    pub fn to_string(&self) -> (text: String)
        ensures
            text@ == self@.text(),
    {
        match self {
            KubeStatus::Loading => String::from_str("Loading..."),
            KubeStatus::Good => String::from_str("All good here"),
            KubeStatus::Bad(msg) => String::from_str("Bad: ").concat(msg.as_str()),
            KubeStatus::Suspicious(msg) => String::from_str("May have a problem: ").concat(
                msg.as_str(),
            ),
        }
    }
}

/// The four colours a resource line can have.
#[derive(Clone, Copy, Debug, PartialEq, Eq, Structural)]
pub enum StatusColor {
    DarkGray,
    Green,
    Red,
    Yellow,
}

/// What an action reported, under the action's name.
pub struct ActionResult {
    pub name: String,
    pub results: String,
}

/// An [`ActionResult`] with its texts as character sequences.
pub ghost struct ActionResultView {
    pub name: Seq<char>,
    pub results: Seq<char>,
}

impl View for ActionResult {
    type V = ActionResultView;

    open spec fn view(&self) -> ActionResultView {
        ActionResultView { name: self.name@, results: self.results@ }
    }
}

/// One monitored kind of resource: the key it is found by, the label it is
/// shown under, and what is known of its health.
#[derive(Debug)]
pub struct KubeResource {
    pub status: KubeStatus,
    pub name: String,
    pub display: String,
}

/// A [`KubeResource`] with its texts as character sequences.
pub ghost struct ResourceView {
    pub status: StatusView,
    pub name: Seq<char>,
    pub display: Seq<char>,
}

impl ResourceView {
    /// The entry that stands for a kind before any result has arrived.
    pub open spec fn loading(name: Seq<char>, display: Seq<char>) -> ResourceView {
        ResourceView { status: StatusView::Loading, name, display }
    }

    /// The line shown for a resource: its label, a colon and a space, and the
    /// line of its status.
    pub open spec fn text(self) -> Seq<char> {
        self.display + ": "@ + self.status.text()
    }
}

impl View for KubeResource {
    type V = ResourceView;

    open spec fn view(&self) -> ResourceView {
        ResourceView { status: self.status@, name: self.name@, display: self.display@ }
    }
}

impl DeepView for KubeResource {
    type V = ResourceView;

    open spec fn deep_view(&self) -> ResourceView {
        self@
    }
}

impl Clone for KubeResource {
    fn clone(&self) -> (r: Self)
        ensures
            r@ == self@,
    {
        KubeResource {
            status: self.status.clone(),
            name: self.name.clone(),
            display: self.display.clone(),
        }
    }
}

impl PartialEq for KubeResource {
    fn eq(&self, other: &Self) -> (r: bool) {
        self.status == other.status && self.name == other.name && self.display == other.display
    }
}

impl PartialEqSpecImpl for KubeResource {
    open spec fn obeys_eq_spec() -> bool {
        true
    }

    open spec fn eq_spec(&self, other: &Self) -> bool {
        self@ == other@
    }
}

impl KubeResource {
    /// A resource of which nothing is known yet.
    pub fn new(name: String, display: String) -> (r: Self)
        ensures
            r@ == ResourceView::loading(name@, display@),
    {
        Self { status: KubeStatus::Loading, name, display }
    }

    /// Whether a result has arrived for this resource.
    pub fn is_ready(&self) -> (r: bool)
        ensures
            r == (self@.status != StatusView::Loading),
    {
        self.status != KubeStatus::Loading
    }

    /// The colour this resource's line is drawn in.
    pub fn color(&self) -> (c: StatusColor)
        ensures
            c == self@.status.color(),
    {
        match self.status {
            KubeStatus::Loading => StatusColor::DarkGray,
            KubeStatus::Good => StatusColor::Green,
            KubeStatus::Bad(_) => StatusColor::Red,
            KubeStatus::Suspicious(_) => StatusColor::Yellow,
        }
    }

    /// The line shown for this resource.
    pub fn to_string(&self) -> (text: String)
        ensures
            text@ == self@.text(),
    {
        let status = self.status.to_string();
        self.display.clone().concat(": ").concat(status.as_str())
    }
}

/// One message from a background task. Every task sends exactly one.
pub enum KubeMessage {
    /// The names of the cluster's namespaces, or why they could not be listed.
    Namespaces(Result<Vec<String>, kube::Error>),
    /// The new state of one kind of resource, or why it could not be checked.
    Resource(Result<KubeResource, kube::Error>),
    /// What an action reported, or why it could not be run.
    Action(Result<ActionResult, kube::Error>),
}

} // verus!
