//! The pods check: whether every pod of a namespace is running or done.

use crate::kube_res::{KubeMessage, KubeResource, KubeStatus, ResourceView, StatusView};
use vstd::prelude::*;
use vstd::string::StringExecFns;

verus! {

/// What the check reads of a pod: its lifecycle phase, where the cluster
/// reported one.
#[derive(Debug)]
pub struct PodRecord {
    pub phase: Option<String>,
}

/// A [`PodRecord`] with its phase as a character sequence.
pub ghost struct PodView {
    pub phase: Option<Seq<char>>,
}

impl PodView {
    /// A pod is bad when its phase is neither `Running` nor `Succeeded`. A pod
    /// without a phase is bad too: the cluster said nothing good of it.
    pub open spec fn is_bad(self) -> bool {
        match self.phase {
            Some(phase) => phase != "Running"@ && phase != "Succeeded"@,
            None => true,
        }
    }
}

impl View for PodRecord {
    type V = PodView;

    open spec fn view(&self) -> PodView {
        PodView {
            phase: match self.phase {
                Some(phase) => Some(phase@),
                None => None,
            },
        }
    }
}

impl DeepView for PodRecord {
    type V = PodView;

    open spec fn deep_view(&self) -> PodView {
        self@
    }
}

impl Clone for PodRecord {
    fn clone(&self) -> (r: Self)
        ensures
            r@ == self@,
    {
        PodRecord {
            phase: match &self.phase {
                Some(phase) => Some(phase.clone()),
                None => None,
            },
        }
    }
}

impl PodRecord {
    /// Whether this pod counts against the namespace.
    pub fn is_bad(&self) -> (bad: bool)
        ensures
            bad == self@.is_bad(),
    {
        match &self.phase {
            Some(phase) => *phase != String::from_str("Running") && *phase != String::from_str(
                "Succeeded",
            ),
            None => true,
        }
    }
}

/// The bad pods of a listing, in the listing's order, each wrapped in `Some`.
pub open spec fn bad_pods(pods: Seq<PodView>) -> Seq<Option<PodView>> {
    pods.filter(|pod: PodView| pod.is_bad()).map_values(|pod: PodView| Some(pod))
}

/// Whether a listing holds a bad pod.
pub open spec fn has_bad_pod(pods: Seq<PodView>) -> bool {
    exists|i: int| 0 <= i < pods.len() && (#[trigger] pods[i]).is_bad()
}

/// The status for a namespace with `all` pods of which `bad` are bad: `Bad`
/// when there is a bad one, else `Suspicious` when there is none at all, else
/// `Good`.
pub open spec fn count_status(all: nat, bad: nat) -> StatusView {
    if bad > 0 {
        StatusView::Bad("One or more not ready"@)
    } else if all == 0 {
        StatusView::Suspicious("No pods found"@)
    } else {
        StatusView::Good
    }
}

/// The status for the pods of a namespace.
pub open spec fn pods_status(pods: Seq<PodView>) -> StatusView {
    if has_bad_pod(pods) {
        StatusView::Bad("One or more not ready"@)
    } else if pods.len() == 0 {
        StatusView::Suspicious("No pods found"@)
    } else {
        StatusView::Good
    }
}

/// The entry of the pods check, with the given status.
pub open spec fn pods_entry(status: StatusView) -> ResourceView {
    ResourceView { status, name: "pod"@, display: "Pods"@ }
}

/// A listing has a bad pod exactly when its list of bad pods is not empty.
pub proof fn lemma_bad_pods_nonempty(pods: Seq<PodView>)
    ensures
        has_bad_pod(pods) <==> bad_pods(pods).len() > 0,
        pods_status(pods) == count_status(pods.len(), bad_pods(pods).len()),
{
    broadcast use vstd::seq_lib::group_filter_ensures;

    let pred = |pod: PodView| pod.is_bad();
    let kept = pods.filter(pred);
    if has_bad_pod(pods) {
        let i = choose|i: int| 0 <= i < pods.len() && (#[trigger] pods[i]).is_bad();
        assert(kept.contains(pods[i]));
    }
    if kept.len() > 0 {
        pods.lemma_filter_contains_rev(pred, kept[0]);
    }
}
/// The pods of a listing that count against the namespace.
pub fn only_bad_pods(list: &Vec<PodRecord>) -> (bad: Vec<Option<PodRecord>>)
    ensures
        bad.deep_view() == bad_pods(list.deep_view()),
{
    let ghost pred = |pod: PodView| pod.is_bad();
    let ghost wrap = |pod: PodView| Some(pod);
    let mut bad: Vec<Option<PodRecord>> = Vec::new();
    let mut i: usize = 0;
    while i < list.len()
        invariant
            i <= list.len(),
            pred == |pod: PodView| pod.is_bad(),
            wrap == |pod: PodView| Some(pod),
            bad.deep_view() == list.deep_view().take(i as int).filter(pred).map_values(wrap),
        decreases list.len() - i,
    {
        proof {
            let before = list.deep_view().take(i as int);
            let after = list.deep_view().take(i + 1);
            assert(after.drop_last() =~= before);
            reveal(Seq::filter);
        }
        if list[i].is_bad() {
            let ghost kept = list.deep_view().take(i as int).filter(pred);
            bad.push(Some(list[i].clone()));
            assert(kept.push(list[i as int]@).map_values(wrap) =~= kept.map_values(wrap).push(
                Some(list[i as int]@),
            ));
        }
        i += 1;
    }
    proof {
        assert(list.deep_view().take(i as int) =~= list.deep_view());
    }
    bad
}

/// The status of the pods check for a listing: `Bad` when a pod is bad, else
/// `Suspicious` when the namespace has no pod, else `Good`.
pub fn classify_pods(pods: &Vec<PodRecord>) -> (status: KubeStatus)
    ensures
        status@ == pods_status(pods.deep_view()),
{
    let bad = only_bad_pods(pods);
    proof {
        lemma_bad_pods_nonempty(pods.deep_view());
    }
    count_to_status(pods.len(), bad.len())
}

/// The status for `all` pods of which `bad` are bad.
fn count_to_status(all: usize, bad: usize) -> (status: KubeStatus)
    ensures
        status@ == count_status(all as nat, bad as nat),
{
    if bad > 0 {
        KubeStatus::Bad(String::from_str("One or more not ready"))
    } else if all < 1 {
        KubeStatus::Suspicious(String::from_str("No pods found"))
    } else {
        KubeStatus::Good
    }
}

/// The message of a pods check, from the listing and its bad pods, or from
/// the error that kept the listing from being made. Only the two lengths
/// count.
pub fn pods_message(pods: Result<(Vec<PodRecord>, Vec<Option<PodRecord>>), kube::Error>) -> (msg:
    KubeMessage)
    ensures
        match pods {
            Ok((all_pods, bad_pods)) => msg matches KubeMessage::Resource(Ok(r)) && r@
                == pods_entry(count_status(all_pods@.len(), bad_pods@.len())),
            Err(err) => msg matches KubeMessage::Resource(Err(e)) && e == err,
        },
{
    match pods {
        Ok((all_pods, bad_pods)) => success(count_to_status(all_pods.len(), bad_pods.len())),
        Err(err) => error(err),
    }
}

/// The message that carries a result of the pods check.
pub fn success(status: KubeStatus) -> (msg: KubeMessage)
    ensures
        msg matches KubeMessage::Resource(Ok(r)) && r@ == pods_entry(status@),
{
    KubeMessage::Resource(
        Ok(KubeResource { name: String::from_str("pod"), display: String::from_str("Pods"), status }),
    )
}

/// The message that says the pods check could not be made.
pub fn error(err: kube::Error) -> (msg: KubeMessage)
    ensures
        msg matches KubeMessage::Resource(Err(e)) && e == err,
{
    KubeMessage::Resource(Err(err))
}

/// The one message of a pods check. `listing` is what the cluster answered:
/// the pods of the namespace, or the error of the client or of the call.
pub fn check_pods(listing: Result<Vec<PodRecord>, kube::Error>) -> (msg: KubeMessage)
    ensures
        match listing {
            Ok(pods) => msg matches KubeMessage::Resource(Ok(r)) && r@ == pods_entry(
                pods_status(pods.deep_view()),
            ),
            Err(err) => msg matches KubeMessage::Resource(Err(e)) && e == err,
        },
{
    match listing {
        Ok(pods) => {
            let bad = only_bad_pods(&pods);
            proof {
                lemma_bad_pods_nonempty(pods.deep_view());
            }
            pods_message(Ok((pods, bad)))
        },
        Err(err) => error(err),
    }
}

} // verus!
