//! The services check: which of the expected services the cluster lacks.

use crate::kube_res::{KubeMessage, KubeResource, KubeStatus, ResourceView, StatusView};
use crate::text::{join, joined};
use vstd::prelude::*;
use vstd::string::StringExecFns;

verus! {

/// The expected names that are not among the observed ones, in the order and
/// as often as `expected` has them. An observed service without a name
/// stands for no name.
pub open spec fn missing_from(expected: Seq<Seq<char>>, actual: Seq<Option<Seq<char>>>) -> Seq<
    Seq<char>,
> {
    expected.filter(|name: Seq<char>| !actual.contains(Some(name)))
}

/// What the services check reports for a list of missing names.
pub open spec fn services_status(missing: Seq<Seq<char>>) -> StatusView {
    if missing.len() > 0 {
        StatusView::Bad("Services not in cluster: "@ + joined(missing, ", "@))
    } else {
        StatusView::Good
    }
}

/// The entry of the services check, with the given status.
pub open spec fn services_entry(status: StatusView) -> ResourceView {
    ResourceView { status, name: "service"@, display: "Services"@ }
}

/// A name is reported missing exactly when it is expected and not observed.
/// So a service that nobody expected is never reported, whatever the cluster
/// holds.
pub proof fn lemma_missing_from(
    expected: Seq<Seq<char>>,
    actual: Seq<Option<Seq<char>>>,
    name: Seq<char>,
)
    ensures
        missing_from(expected, actual).contains(name) <==> expected.contains(name)
            && !actual.contains(Some(name)),
{
    broadcast use vstd::seq_lib::group_filter_ensures;

    let absent = |name: Seq<char>| !actual.contains(Some(name));
    let missing = expected.filter(absent);
    if missing.contains(name) {
        expected.lemma_filter_contains_rev(absent, name);
    }
}

/// Whether `name` is the name of one of the observed services.
fn is_present(actual: &Vec<Option<String>>, name: &String) -> (found: bool)
    ensures
        found == actual.deep_view().contains(Some(name@)),
{
    let mut i: usize = 0;
    while i < actual.len()
        invariant
            i <= actual.len(),
            forall|j: int| 0 <= j < i ==> actual.deep_view()[j] != Some(name@),
        decreases actual.len() - i,
    {
        match &actual[i] {
            Some(seen) => {
                if *seen == *name {
                    assert(actual.deep_view()[i as int] == Some(name@));
                    return true;
                }
            },
            None => {},
        }
        i += 1;
    }
    false
}

/// The expected services that the cluster does not have. Services that the
/// cluster has and nobody expected do not show.
pub fn missing_services(expected: Vec<String>, actual: Vec<Option<String>>) -> (missing: Vec<
    String,
>)
    ensures
        missing.deep_view() == missing_from(expected.deep_view(), actual.deep_view()),
{
    let ghost absent = |name: Seq<char>| !actual.deep_view().contains(Some(name));
    let mut missing: Vec<String> = Vec::new();
    let mut i: usize = 0;
    while i < expected.len()
        invariant
            i <= expected.len(),
            absent == |name: Seq<char>| !actual.deep_view().contains(Some(name)),
            missing.deep_view() == expected.deep_view().take(i as int).filter(absent),
        decreases expected.len() - i,
    {
        let present = is_present(&actual, &expected[i]);
        proof {
            let before = expected.deep_view().take(i as int);
            let after = expected.deep_view().take(i + 1);
            assert(after.drop_last() =~= before);
            reveal(Seq::filter);
        }
        if !present {
            missing.push(expected[i].clone());
        }
        i += 1;
    }
    proof {
        assert(expected.deep_view().take(i as int) =~= expected.deep_view());
    }
    missing
}

/// The status of the services check for a list of missing names: `Bad` with
/// the names, joined by a comma and a space, when there is one; else `Good`.
pub fn missing_status(missing: &Vec<String>) -> (status: KubeStatus)
    ensures
        status@ == services_status(missing.deep_view()),
{
    if missing.len() > 0 {
        let names = join(missing, ", ");
        KubeStatus::Bad(String::from_str("Services not in cluster: ").concat(names.as_str()))
    } else {
        KubeStatus::Good
    }
}

/// The status of the services check, from the expected names and the
/// observed ones.
pub fn classify_services(expected: Vec<String>, actual: Vec<Option<String>>) -> (status:
    KubeStatus)
    ensures
        status@ == services_status(missing_from(expected.deep_view(), actual.deep_view())),
{
    let missing = missing_services(expected, actual);
    missing_status(&missing)
}

/// The message that carries a result of the services check.
pub fn success(status: KubeStatus) -> (msg: KubeMessage)
    ensures
        msg matches KubeMessage::Resource(Ok(r)) && r@ == services_entry(status@),
{
    KubeMessage::Resource(
        Ok(
            KubeResource {
                name: String::from_str("service"),
                display: String::from_str("Services"),
                status,
            },
        ),
    )
}

/// The message that says the services check could not be made.
pub fn error(err: kube::Error) -> (msg: KubeMessage)
    ensures
        msg matches KubeMessage::Resource(Err(e)) && e == err,
{
    KubeMessage::Resource(Err(err))
}

/// The one message of a services check. `listing` is what the cluster
/// answered: the name of each service in the namespace, where it has one, or
/// the error of the client or of the call.
pub fn check_services(
    expected_services: Vec<String>,
    listing: Result<Vec<Option<String>>, kube::Error>,
) -> (msg: KubeMessage)
    ensures
        match listing {
            Ok(actual) => msg matches KubeMessage::Resource(Ok(r)) && r@ == services_entry(
                services_status(missing_from(expected_services.deep_view(), actual.deep_view())),
            ),
            Err(err) => msg matches KubeMessage::Resource(Err(e)) && e == err,
        },
{
    match listing {
        Ok(actual) => success(classify_services(expected_services, actual)),
        Err(err) => error(err),
    }
}

} // verus!
