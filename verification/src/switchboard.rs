//! The switchboard as a whole: its state, and how a message changes it.

use crate::config::{Config, ConfigView};
use crate::kube_res::{KubeMessage, ResourceView};
use crate::ui::boards::status;
use crate::ui::boards::status::{has_name, merged};
use crate::ui::boards::welcome;
use crate::ui::boards::welcome::{ActionStateView, ActionStatus};
use crate::ui::topbar::{Topbar, TopbarView};
use vstd::prelude::*;
use vstd::string::StringExecFns;

verus! {

/// The board that is shown.
#[derive(Clone, Copy, Debug, PartialEq, Eq, Structural)]
pub enum Board {
    Welcome,
    Status,
}

/// All that the switchboard knows. It is changed in one place only, by the
/// loop that owns it: the background tasks send messages and touch nothing.
pub struct DevSwitchboard {
    pub conf: Config,
    pub selected_namespace: String,
    pub topbar: Topbar,
    pub namespaces: Vec<String>,
    pub status_board: status::Board,
    pub welcome_board: welcome::Board,
    pub board: Board,
}

/// A [`DevSwitchboard`] as a mathematical value.
pub ghost struct SwitchboardView {
    pub conf: ConfigView,
    pub selected_namespace: Seq<char>,
    pub topbar: TopbarView,
    pub namespaces: Seq<Seq<char>>,
    pub status_board: status::BoardView,
    pub welcome_board: welcome::BoardView,
    pub board: Board,
}

impl View for DevSwitchboard {
    type V = SwitchboardView;

    open spec fn view(&self) -> SwitchboardView {
        SwitchboardView {
            conf: self.conf@,
            selected_namespace: self.selected_namespace@,
            topbar: self.topbar@,
            namespaces: self.namespaces.deep_view(),
            status_board: self.status_board@,
            welcome_board: self.welcome_board@,
            board: self.board,
        }
    }
}

impl SwitchboardView {
    /// The state after a message has been taken in.
    ///
    /// A listing of namespaces replaces the known ones and clears the
    /// selection; a failed listing shows in place of the selection. The result
    /// of a check goes to the status board, the result of an action to the
    /// welcome board. A check or an action that failed to report changes
    /// nothing.
    pub open spec fn received(self, message: KubeMessage) -> SwitchboardView {
        match message {
            KubeMessage::Namespaces(Ok(namespaces)) => SwitchboardView {
                namespaces: namespaces.deep_view(),
                topbar: TopbarView {
                    namespaces: namespaces.deep_view(),
                    namespaces_loaded: true,
                },
                selected_namespace: Seq::empty(),
                ..self
            },
            KubeMessage::Namespaces(Err(_)) => SwitchboardView {
                selected_namespace: "Failed - Check login!"@,
                ..self
            },
            KubeMessage::Resource(Ok(resource)) => SwitchboardView {
                status_board: status::BoardView {
                    resources: merged(self.status_board.resources, resource@),
                    ..self.status_board
                },
                ..self
            },
            KubeMessage::Resource(Err(_)) => self,
            KubeMessage::Action(Ok(result)) => SwitchboardView {
                welcome_board: welcome::BoardView {
                    action_results: self.welcome_board.action_results.insert(
                        result.name@,
                        ActionStateView { status: ActionStatus::Success, result: result.results@ },
                    ),
                    ..self.welcome_board
                },
                ..self
            },
            KubeMessage::Action(Err(_)) => self,
        }
    }

    /// The state after both boards have been told the selected namespace.
    pub open spec fn synced(self) -> SwitchboardView {
        SwitchboardView {
            status_board: status::BoardView {
                namespace: self.selected_namespace,
                ..self.status_board
            },
            welcome_board: welcome::BoardView {
                namespace: self.selected_namespace,
                ..self.welcome_board
            },
            ..self
        }
    }

    /// The state after one tick: the message that was waiting, if any, is
    /// taken in, and the boards are told the selected namespace.
    pub open spec fn updated(self, polled: Option<KubeMessage>) -> SwitchboardView {
        match polled {
            Some(message) => self.received(message).synced(),
            None => self.synced(),
        }
    }
}

impl DevSwitchboard {
    /// The switchboard at its start: the welcome board is shown, nothing is
    /// selected, and the top bar shows the given names until the namespaces
    /// have been listed.
    pub fn new(namespaces: Vec<String>, conf: Config) -> (switchboard: Self)
        ensures
            switchboard@ == (SwitchboardView {
                conf: conf@,
                selected_namespace: Seq::empty(),
                topbar: TopbarView {
                    namespaces: namespaces.deep_view(),
                    namespaces_loaded: false,
                },
                namespaces: namespaces.deep_view(),
                status_board: status::BoardView {
                    resources: Seq::empty(),
                    namespace: Seq::empty(),
                },
                welcome_board: welcome::BoardView {
                    namespace: Seq::empty(),
                    action_results: Map::empty(),
                },
                board: Board::Welcome,
            }),
    {
        Self {
            conf,
            selected_namespace: String::new(),
            topbar: Topbar::new(namespaces.clone()),
            namespaces,
            status_board: status::Board::new(),
            welcome_board: welcome::Board::new(),
            board: Board::Welcome,
        }
    }

    /// Takes in one message.
    pub fn receive(&mut self, message: KubeMessage)
        ensures
            final(self)@ == old(self)@.received(message),
    {
        match message {
            KubeMessage::Namespaces(res) => match res {
                Ok(namespaces) => {
                    self.namespaces = namespaces.clone();
                    self.topbar.receive_namespaces(namespaces);
                    self.selected_namespace = String::new();
                },
                Err(_) => {
                    self.selected_namespace = String::from_str("Failed - Check login!");
                },
            },
            KubeMessage::Resource(res) => match res {
                Ok(new_resource) => {
                    self.status_board.receive_resource(new_resource);
                },
                Err(_) => {},
            },
            KubeMessage::Action(res) => match res {
                Ok(action_res) => {
                    self.welcome_board.receive_action_result(action_res.name, action_res.results);
                },
                Err(_) => {},
            },
        }
    }

    /// One tick of the loop that owns the switchboard. `polled` is what one
    /// look at the channel gave: a message, or nothing where none was waiting.
    /// At most one message is taken in per tick; the others wait.
    pub fn update(&mut self, polled: Option<KubeMessage>)
        ensures
            final(self)@ == old(self)@.updated(polled),
    {
        match polled {
            Some(message) => self.receive(message),
            None => {},
        }
        self.status_board.set_namespace(self.selected_namespace.clone());
        self.welcome_board.set_namespace(self.selected_namespace.clone());
    }
}

/// Taking in the same result of a check twice leaves the state that taking it
/// in once leaves.
pub proof fn lemma_receive_resource_twice(state: SwitchboardView, message: KubeMessage)
    requires
        message matches KubeMessage::Resource(Ok(_)),
    ensures
        state.received(message).received(message) == state.received(message),
{
    let resource = message->Resource_0->Ok_0@;
    status::lemma_merged_twice(state.status_board.resources, resource);
}

/// The result of a check whose name the round does not have changes nothing:
/// no entry is added for it.
pub proof fn lemma_receive_unknown_resource(state: SwitchboardView, message: KubeMessage)
    requires
        message matches KubeMessage::Resource(Ok(resource)) && !has_name(
            state.status_board.resources,
            resource@.name,
        ),
    ensures
        state.received(message) == state,
{
    let resource = message->Resource_0->Ok_0@;
    status::lemma_merged_unknown_name(state.status_board.resources, resource);
}

/// A check or an action that failed to report leaves every entry and every
/// result as it was: a failure makes no entry and changes none.
pub proof fn lemma_receive_failure(state: SwitchboardView, message: KubeMessage)
    requires
        message is Resource && message->Resource_0 is Err || message is Action
            && message->Action_0 is Err,
    ensures
        state.received(message) == state,
{
}

} // verus!
