//! The welcome board: links into other tools, and actions with their results.

use crate::text::{replace, replaced};
use vstd::hash_map::StringHashMap;
use vstd::prelude::*;

verus! {

/// A named link. Its address may hold `{namespace}`, which stands for the
/// namespace that is selected when the link is shown.
pub struct Link {
    name: String,
    url: String,
}

/// A [`Link`] with its texts as character sequences.
pub ghost struct LinkView {
    pub name: Seq<char>,
    pub url: Seq<char>,
}

impl LinkView {
    /// The address of the link for a namespace.
    pub open spec fn href(self, namespace: Seq<char>) -> Seq<char> {
        replaced(self.url, "{namespace}"@, namespace)
    }
}

impl View for Link {
    type V = LinkView;

    closed spec fn view(&self) -> LinkView {
        LinkView { name: self.name@, url: self.url@ }
    }
}

impl DeepView for Link {
    type V = LinkView;

    open spec fn deep_view(&self) -> LinkView {
        self@
    }
}

impl Clone for Link {
    fn clone(&self) -> (r: Self)
        ensures
            r@ == self@,
    {
        Link { name: self.name.clone(), url: self.url.clone() }
    }
}

impl Link {
    /// A link with the given name and address.
    pub fn new(name: String, url: String) -> (link: Self)
        ensures
            link@ == (LinkView { name: name@, url: url@ }),
    {
        Link { name, url }
    }

    /// The name the link is shown under.
    pub fn name(&self) -> (name: &String)
        ensures
            name@ == self@.name,
    {
        &self.name
    }

    /// The address as it was configured.
    pub fn url(&self) -> (url: &String)
        ensures
            url@ == self@.url,
    {
        &self.url
    }

    /// The address for a namespace: the configured one with the namespace in
    /// each place where `{namespace}` stands.
    pub fn href(&self, namespace: &str) -> (url: String)
        ensures
            url@ == self@.href(namespace@),
    {
        proof {
            reveal_strlit("{namespace}");
        }
        replace(self.url.as_str(), "{namespace}", namespace)
    }
}

/// A named action: the resource it is run against, and the operation.
pub struct Action {
    pub name: String,
    pub resource: String,
    pub action: String,
}

/// An [`Action`] with its texts as character sequences.
pub ghost struct ActionView {
    pub name: Seq<char>,
    pub resource: Seq<char>,
    pub action: Seq<char>,
}

impl View for Action {
    type V = ActionView;

    open spec fn view(&self) -> ActionView {
        ActionView { name: self.name@, resource: self.resource@, action: self.action@ }
    }
}

impl DeepView for Action {
    type V = ActionView;

    open spec fn deep_view(&self) -> ActionView {
        self@
    }
}

impl Clone for Action {
    fn clone(&self) -> (r: Self)
        ensures
            r@ == self@,
    {
        Action {
            name: self.name.clone(),
            resource: self.resource.clone(),
            action: self.action.clone(),
        }
    }
}

/// Where an action stands.
#[derive(Clone, Copy, Debug, PartialEq, Eq, Structural)]
pub enum ActionStatus {
    Available,
    Running,
    Success,
    Failed,
}

/// Where an action stands, and the text of its last result.
pub struct ActionState {
    pub status: ActionStatus,
    pub result: String,
}

/// An [`ActionState`] with its text as a character sequence.
pub ghost struct ActionStateView {
    pub status: ActionStatus,
    pub result: Seq<char>,
}

impl View for ActionState {
    type V = ActionStateView;

    open spec fn view(&self) -> ActionStateView {
        ActionStateView { status: self.status, result: self.result@ }
    }
}

/// The state of the welcome board: the selected namespace, and for each
/// action that was started, by its name, where it stands.
pub struct Board {
    namespace: String,
    action_results: StringHashMap<ActionState>,
}

/// A welcome [`Board`] as a mathematical value.
pub ghost struct BoardView {
    pub namespace: Seq<char>,
    pub action_results: Map<Seq<char>, ActionStateView>,
}

impl View for Board {
    type V = BoardView;

    closed spec fn view(&self) -> BoardView {
        BoardView {
            namespace: self.namespace@,
            action_results: self.action_results@.map_values(|state: ActionState| state@),
        }
    }
}

impl Board {
    /// A board with no namespace selected and no action started.
    pub fn new() -> (board: Board)
        ensures
            board@ == (BoardView { namespace: Seq::empty(), action_results: Map::empty() }),
    {
        let board = Board { namespace: String::new(), action_results: StringHashMap::new() };
        assert(board.action_results@.map_values(|state: ActionState| state@) =~= Map::empty());
        board
    }

    /// The selected namespace.
    pub fn namespace(&self) -> (namespace: &String)
        ensures
            namespace@ == self@.namespace,
    {
        &self.namespace
    }

    /// Selects a namespace. The actions keep their states.
    pub fn set_namespace(&mut self, namespace: String)
        ensures
            final(self)@ == (BoardView { namespace: namespace@, ..old(self)@ }),
    {
        self.namespace = namespace;
    }

    /// Where the action of the given name stands, if it was ever started.
    pub fn action_state(&self, action_name: &str) -> (state: Option<&ActionState>)
        ensures
            match state {
                Some(state) => self@.action_results.contains_key(action_name@)
                    && state@ == self@.action_results[action_name@],
                None => !self@.action_results.contains_key(action_name@),
            },
    {
        self.action_results.get(action_name)
    }

    /// Notes that an action was started: it is running and has no result. What
    /// an earlier run of it reported is gone.
    pub fn start_action(&mut self, action_name: String)
        ensures
            final(self)@ == (BoardView {
                action_results: old(self)@.action_results.insert(
                    action_name@,
                    ActionStateView { status: ActionStatus::Running, result: Seq::empty() },
                ),
                ..old(self)@
            }),
    {
        let state = ActionState { status: ActionStatus::Running, result: String::new() };
        let ghost before = self.action_results@;
        self.action_results.insert(action_name, state);
        assert(self.action_results@.map_values(|state: ActionState| state@) =~= before.map_values(
            |state: ActionState| state@,
        ).insert(action_name@, state@));
    }

    /// Takes in the result of an action: the action has succeeded with that
    /// text. The result replaces what was known of the action; the other
    /// actions keep their states.
    pub fn receive_action_result(&mut self, action_name: String, result: String)
        ensures
            final(self)@ == (BoardView {
                action_results: old(self)@.action_results.insert(
                    action_name@,
                    ActionStateView { status: ActionStatus::Success, result: result@ },
                ),
                ..old(self)@
            }),
    {
        let state = ActionState { status: ActionStatus::Success, result };
        let ghost before = self.action_results@;
        self.action_results.insert(action_name, state);
        assert(self.action_results@.map_values(|state: ActionState| state@) =~= before.map_values(
            |state: ActionState| state@,
        ).insert(action_name@, state@));
    }
}

} // verus!
