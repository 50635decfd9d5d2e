//! The status board: one entry for each monitored kind of resource.

use crate::kube_res::{KubeResource, ResourceView, StatusView};
use vstd::prelude::*;
use vstd::string::StringExecFns;

verus! {

/// Whether an entry of `resources` has the given name.
pub open spec fn has_name(resources: Seq<ResourceView>, name: Seq<char>) -> bool {
    exists|i: int| 0 <= i < resources.len() && (#[trigger] resources[i]).name == name
}

/// No two entries have the same name.
pub open spec fn distinct_names(resources: Seq<ResourceView>) -> bool {
    forall|i: int, j: int|
        0 <= i < j < resources.len() ==> (#[trigger] resources[i]).name != (
        #[trigger] resources[j]).name
}

/// The entries a round starts with: for each name of `kinds` an entry that is
/// loading, in the order in which the names first occur. Where a name comes
/// again, the first label stays.
pub open spec fn fresh_round(kinds: Seq<(Seq<char>, Seq<char>)>) -> Seq<ResourceView>
    decreases kinds.len(),
{
    if kinds.len() == 0 {
        Seq::empty()
    } else {
        let earlier = fresh_round(kinds.drop_last());
        let (name, display) = kinds.last();
        if has_name(earlier, name) {
            earlier
        } else {
            earlier.push(ResourceView::loading(name, display))
        }
    }
}

/// The entries after a result has come in: each entry of the result's name is
/// replaced by the result, every other entry stays, and none is added.
pub open spec fn merged(resources: Seq<ResourceView>, update: ResourceView) -> Seq<ResourceView> {
    resources.map_values(
        |entry: ResourceView|
            if entry.name == update.name {
                update
            } else {
                entry
            },
    )
}

/// The three kinds of a check, in the order in which they are shown.
pub open spec fn checked_kinds() -> Seq<ResourceView> {
    seq![
        ResourceView::loading("service"@, "Services"@),
        ResourceView::loading("deployment"@, "Deploys"@),
        ResourceView::loading("pod"@, "Pods"@),
    ]
}

/// A query that a check asks for. Each is answered by one message.
pub enum CheckRequest {
    /// List the pods of the namespace.
    Pods { namespace: String },
    /// List the services of the namespace, to hold them against the expected ones.
    Services { namespace: String, expected_services: Vec<String> },
}

/// A [`CheckRequest`] with its texts as character sequences.
pub ghost enum CheckRequestView {
    Pods { namespace: Seq<char> },
    Services { namespace: Seq<char>, expected_services: Seq<Seq<char>> },
}

impl View for CheckRequest {
    type V = CheckRequestView;

    open spec fn view(&self) -> CheckRequestView {
        match self {
            CheckRequest::Pods { namespace } => CheckRequestView::Pods { namespace: namespace@ },
            CheckRequest::Services { namespace, expected_services } => CheckRequestView::Services {
                namespace: namespace@,
                expected_services: expected_services.deep_view(),
            },
        }
    }
}

impl DeepView for CheckRequest {
    type V = CheckRequestView;

    open spec fn deep_view(&self) -> CheckRequestView {
        self@
    }
}

/// The state of the status board: the selected namespace and the entries of
/// the current round. No two entries have the same name.
pub struct Board {
    resources: Vec<KubeResource>,
    namespace: String,
}

/// A status [`Board`] as a mathematical value.
pub ghost struct BoardView {
    pub resources: Seq<ResourceView>,
    pub namespace: Seq<char>,
}

impl View for Board {
    type V = BoardView;

    closed spec fn view(&self) -> BoardView {
        BoardView { resources: self.resources.deep_view(), namespace: self.namespace@ }
    }
}

/// Whether one of `resources` has the given name.
fn holds_name(resources: &Vec<KubeResource>, name: &String) -> (found: bool)
    ensures
        found == has_name(resources.deep_view(), name@),
{
    let mut i: usize = 0;
    while i < resources.len()
        invariant
            i <= resources.len(),
            forall|j: int| 0 <= j < i ==> resources.deep_view()[j].name != name@,
        decreases resources.len() - i,
    {
        if resources[i].name == *name {
            assert(resources.deep_view()[i as int].name == name@);
            return true;
        }
        i += 1;
    }
    false
}

impl Board {
    #[verifier::type_invariant]
    spec fn names_are_distinct(self) -> bool {
        distinct_names(self.resources.deep_view())
    }

    /// A board with no namespace selected and no entries: no round has begun.
    pub fn new() -> (board: Board)
        ensures
            board@ == (BoardView { resources: Seq::empty(), namespace: Seq::empty() }),
    {
        let board = Board { resources: Vec::new(), namespace: String::new() };
        assert(board.resources.deep_view() =~= Seq::empty());
        board
    }

    /// The selected namespace.
    pub fn namespace(&self) -> (namespace: &String)
        ensures
            namespace@ == self@.namespace,
    {
        &self.namespace
    }

    /// Selects a namespace. The entries stay: they are of the namespace that was
    /// selected when their round began.
    pub fn set_namespace(&mut self, namespace: String)
        ensures
            final(self)@ == (BoardView { namespace: namespace@, ..old(self)@ }),
    {
        proof {
            use_type_invariant(&*self);
        }
        self.namespace = namespace;
    }

    /// The entries of the current round, in the order in which they are shown.
    pub fn resources(&self) -> (resources: &Vec<KubeResource>)
        ensures
            resources.deep_view() == self@.resources,
            distinct_names(self@.resources),
    {
        proof {
            use_type_invariant(self);
        }
        &self.resources
    }

    /// Begins a round over the given kinds, each a name and a label. Every
    /// entry of the round before is dropped, whatever its status was, and each
    /// name gets one entry that is loading.
    pub fn begin_round(&mut self, kinds: Vec<(String, String)>)
        ensures
            final(self)@ == (BoardView {
                resources: fresh_round(kinds.deep_view()),
                ..old(self)@
            }),
            distinct_names(final(self)@.resources),
    {
        let mut fresh: Vec<KubeResource> = Vec::new();
        let mut i: usize = 0;
        while i < kinds.len()
            invariant
                i <= kinds.len(),
                fresh.deep_view() == fresh_round(kinds.deep_view().take(i as int)),
                distinct_names(fresh.deep_view()),
            decreases kinds.len() - i,
        {
            proof {
                let before = kinds.deep_view().take(i as int);
                let after = kinds.deep_view().take(i + 1);
                assert(after.drop_last() =~= before);
            }
            if !holds_name(&fresh, &kinds[i].0) {
                let ghost earlier = fresh.deep_view();
                let entry = KubeResource::new(kinds[i].0.clone(), kinds[i].1.clone());
                fresh.push(entry);
                assert(fresh.deep_view() =~= earlier.push(entry@));
            }
            i += 1;
        }
        proof {
            assert(kinds.deep_view().take(i as int) =~= kinds.deep_view());
        }
        self.resources = fresh;
    }

    /// Begins a round of checks in the selected namespace: the board holds the
    /// three monitored kinds, all loading, and the queries to make are handed
    /// back, one for the pods and one for the services. The expected
    /// deployments are taken and not yet checked.
    pub fn check(&mut self, expected_services: Vec<String>, expected_deploys: Vec<String>) -> (requests:
        Vec<CheckRequest>)
        ensures
            final(self)@ == (BoardView { resources: checked_kinds(), ..old(self)@ }),
            requests.deep_view() == seq![
                CheckRequestView::Pods { namespace: old(self)@.namespace },
                CheckRequestView::Services {
                    namespace: old(self)@.namespace,
                    expected_services: expected_services.deep_view(),
                },
            ],
    {
        let mut kinds: Vec<(String, String)> = Vec::new();
        kinds.push((String::from_str("service"), String::from_str("Services")));
        kinds.push((String::from_str("deployment"), String::from_str("Deploys")));
        kinds.push((String::from_str("pod"), String::from_str("Pods")));
        proof {
            reveal_strlit("service");
            reveal_strlit("deployment");
            reveal_strlit("pod");
            assert("service"@.len() != "deployment"@.len());
            assert("service"@.len() != "pod"@.len());
            assert("deployment"@.len() != "pod"@.len());
            lemma_fresh_round_of_distinct_names(kinds.deep_view());
            assert(fresh_round(kinds.deep_view()) =~= checked_kinds());
        }
        self.begin_round(kinds);
        let mut requests: Vec<CheckRequest> = Vec::new();
        requests.push(CheckRequest::Pods { namespace: self.namespace.clone() });
        requests.push(
            CheckRequest::Services { namespace: self.namespace.clone(), expected_services },
        );
        requests
    }

    /// Takes in the result of a check. The entry of the result's name is
    /// replaced by it. A result whose name the round does not have is dropped:
    /// no entry is added for it.
    pub fn receive_resource(&mut self, resource: KubeResource)
        ensures
            final(self)@ == (BoardView {
                resources: merged(old(self)@.resources, resource@),
                ..old(self)@
            }),
            distinct_names(final(self)@.resources),
    {
        proof {
            use_type_invariant(&*self);
        }
        let mut updated: Vec<KubeResource> = Vec::new();
        let mut i: usize = 0;
        while i < self.resources.len()
            invariant
                i <= self.resources.len(),
                updated@.len() == i,
                forall|j: int|
                    0 <= j < i ==> updated@[j]@ == merged(self.resources.deep_view(), resource@)[j],
            decreases self.resources.len() - i,
        {
            let entry = if self.resources[i].name == resource.name {
                resource.clone()
            } else {
                self.resources[i].clone()
            };
            updated.push(entry);
            i += 1;
        }
        proof {
            assert(updated.deep_view() =~= merged(self.resources.deep_view(), resource@));
            lemma_merged_keeps_names(self.resources.deep_view(), resource@);
        }
        self.resources = updated;
    }
}

/// Taking in a result changes no name: the entries have the names they had,
/// in the same places, so names that were distinct stay distinct.
pub proof fn lemma_merged_keeps_names(resources: Seq<ResourceView>, update: ResourceView)
    ensures
        merged(resources, update).len() == resources.len(),
        forall|i: int|
            0 <= i < resources.len() ==> (#[trigger] merged(resources, update)[i]).name
                == resources[i].name,
        distinct_names(resources) ==> distinct_names(merged(resources, update)),
{
}

/// Taking in the same result twice gives what taking it in once gives.
pub proof fn lemma_merged_twice(resources: Seq<ResourceView>, update: ResourceView)
    ensures
        merged(merged(resources, update), update) == merged(resources, update),
{
}

/// A result whose name no entry has changes nothing.
pub proof fn lemma_merged_unknown_name(resources: Seq<ResourceView>, update: ResourceView)
    requires
        !has_name(resources, update.name),
    ensures
        merged(resources, update) == resources,
{
}

/// Whether `kinds` gives the name.
pub open spec fn names_kind(kinds: Seq<(Seq<char>, Seq<char>)>, name: Seq<char>) -> bool {
    exists|i: int| 0 <= i < kinds.len() && (#[trigger] kinds[i]).0 == name
}

/// A round starts with entries of exactly the given names, one for each, all
/// of them loading. Nothing of an earlier round is in them: they are made of
/// the kinds alone.
pub proof fn lemma_fresh_round(kinds: Seq<(Seq<char>, Seq<char>)>)
    ensures
        distinct_names(fresh_round(kinds)),
        fresh_round(kinds).len() <= kinds.len(),
        forall|i: int|
            0 <= i < fresh_round(kinds).len() ==> (#[trigger] fresh_round(kinds)[i]).status
                == StatusView::Loading,
        forall|name: Seq<char>|
            has_name(fresh_round(kinds), name) <==> #[trigger] names_kind(kinds, name),
    decreases kinds.len(),
{
    if kinds.len() > 0 {
        let earlier_kinds = kinds.drop_last();
        let earlier = fresh_round(earlier_kinds);
        let round = fresh_round(kinds);
        lemma_fresh_round(earlier_kinds);
        assert forall|name: Seq<char>| has_name(round, name) <==> #[trigger] names_kind(
            kinds,
            name,
        ) by {
            // A name of the round is a name of the earlier kinds or the last name.
            if has_name(round, name) {
                let i = choose|i: int| 0 <= i < round.len() && (#[trigger] round[i]).name == name;
                if i < earlier.len() {
                    assert(names_kind(earlier_kinds, name));
                    let j = choose|j: int|
                        0 <= j < earlier_kinds.len() && (#[trigger] earlier_kinds[j]).0 == name;
                    assert(kinds[j].0 == name);
                } else {
                    assert(kinds[kinds.len() - 1].0 == name);
                }
            }
            // A name of the kinds has its entry from the earlier kinds, or gets the last one.
            if names_kind(kinds, name) {
                let j = choose|j: int| 0 <= j < kinds.len() && (#[trigger] kinds[j]).0 == name;
                if j < kinds.len() - 1 {
                    assert(earlier_kinds[j].0 == name);
                    assert(names_kind(earlier_kinds, name));
                    let i = choose|i: int|
                        0 <= i < earlier.len() && (#[trigger] earlier[i]).name == name;
                    assert(round[i].name == name);
                } else if !has_name(earlier, name) {
                    assert(round[round.len() - 1].name == name);
                }
            }
        }
    }
}

/// Where the given names are distinct, a round starts with one entry for each
/// kind, in the order given.
pub proof fn lemma_fresh_round_of_distinct_names(kinds: Seq<(Seq<char>, Seq<char>)>)
    requires
        forall|i: int, j: int|
            0 <= i < j < kinds.len() ==> (#[trigger] kinds[i]).0 != (#[trigger] kinds[j]).0,
    ensures
        fresh_round(kinds) == kinds.map_values(
            |kind: (Seq<char>, Seq<char>)| ResourceView::loading(kind.0, kind.1),
        ),
    decreases kinds.len(),
{
    if kinds.len() > 0 {
        let earlier_kinds = kinds.drop_last();
        lemma_fresh_round_of_distinct_names(earlier_kinds);
        lemma_fresh_round(earlier_kinds);
        let last_name = kinds.last().0;
        if names_kind(earlier_kinds, last_name) {
            let j = choose|j: int|
                0 <= j < earlier_kinds.len() && (#[trigger] earlier_kinds[j]).0 == last_name;
            assert(kinds[j].0 == kinds[kinds.len() - 1].0);
        }
    }
}

} // verus!
