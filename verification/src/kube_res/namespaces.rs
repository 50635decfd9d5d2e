//! The namespace listing.

use crate::kube_res::KubeMessage;
use vstd::prelude::*;

verus! {

/// The name a namespace is listed under: its own, or the empty text where it
/// has none.
pub open spec fn listed_name(name: Option<Seq<char>>) -> Seq<char> {
    match name {
        Some(name) => name,
        None => Seq::empty(),
    }
}

/// The one message of a namespace listing. `listing` is what the cluster
/// answered: the name of each namespace, where it has one, or the error of
/// the client or of the call.
pub fn get_namespaces(listing: Result<Vec<Option<String>>, kube::Error>) -> (msg: KubeMessage)
    ensures
        match listing {
            Ok(names) => msg matches KubeMessage::Namespaces(Ok(listed)) && listed.deep_view()
                == names.deep_view().map_values(|name: Option<Seq<char>>| listed_name(name)),
            Err(err) => msg matches KubeMessage::Namespaces(Err(e)) && e == err,
        },
{
    match listing {
        Ok(names) => {
            let mut listed: Vec<String> = Vec::new();
            let mut i: usize = 0;
            while i < names.len()
                invariant
                    i <= names.len(),
                    listed@.len() == i,
                    forall|j: int| 0 <= j < i ==> listed@[j]@ == listed_name(names.deep_view()[j]),
                decreases names.len() - i,
            {
                let name = match &names[i] {
                    Some(name) => name.clone(),
                    None => String::new(),
                };
                listed.push(name);
                i += 1;
            }
            KubeMessage::Namespaces(Ok(listed))
        },
        Err(err) => KubeMessage::Namespaces(Err(err)),
    }
}

} // verus!
