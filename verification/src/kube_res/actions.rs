//! Actions: the one operation there is, fetching a secret, and the text that
//! is shown for what came back.

use crate::kube_res::{ActionResult, KubeMessage};
use crate::text::{join, joined};
use crate::ui::boards::welcome::{Action, ActionView};
use std::string::FromUtf8Error;
use vstd::prelude::*;
use vstd::string::{to_string_from_display_ensures, StringExecFns};
use vstd::utf8::{decode_utf8, valid_utf8};

verus! {

/// `std::string::FromUtf8Error`, the error of `String::from_utf8`. Nothing is
/// claimed of it.
#[verifier::external_type_specification]
#[verifier::external_body]
pub struct ExFromUtf8Error(FromUtf8Error);

/// `String::from_utf8` succeeds on a vector of bytes exactly when the bytes
/// are well-formed UTF-8, and the string then holds the characters they
/// encode.
pub assume_specification[ String::from_utf8 ](vec: Vec<u8>) -> (text: Result<
    String,
    FromUtf8Error,
>)
    ensures
        text is Ok <==> valid_utf8(vec@),
        text matches Ok(s) ==> s@ == decode_utf8(vec@),
;

/// The text a secret's value is shown as: the characters it encodes, or
/// nothing where the bytes are not well-formed UTF-8.
pub open spec fn value_text(value: Seq<u8>) -> Seq<char> {
    if valid_utf8(value) {
        decode_utf8(value)
    } else {
        Seq::empty()
    }
}

/// The line for one key of a secret.
pub open spec fn secret_line(entry: (Seq<char>, Seq<u8>)) -> Seq<char> {
    entry.0 + ": "@ + value_text(entry.1)
}

/// The report on a secret: one line for each key, in the order given, with a
/// line feed between lines.
pub open spec fn secret_report(data: Seq<(Seq<char>, Seq<u8>)>) -> Seq<char> {
    joined(data.map_values(|entry: (Seq<char>, Seq<u8>)| secret_line(entry)), "\n"@)
}

/// Whether an action asks for a secret to be fetched.
pub open spec fn selects_secret(action: ActionView) -> bool {
    action.action == "get-secret"@
}

/// The text for an action that failed, from what the error says of itself.
pub open spec fn failure_report(detail: Seq<char>) -> Seq<char> {
    "Failed to run action: "@ + detail
}

/// What an action reports for a fetched secret: the report on its data, or a
/// fixed text where it has none.
pub open spec fn fetched_report(data: Option<Seq<(Seq<char>, Seq<u8>)>>) -> Seq<char> {
    match data {
        Some(data) => secret_report(data),
        None => "Nothing found!"@,
    }
}

/// The report on a secret's data.
pub fn report_secret(data: &Vec<(String, Vec<u8>)>) -> (report: String)
    ensures
        report@ == secret_report(data.deep_view()),
{
    let mut responses: Vec<String> = Vec::new();
    let mut i: usize = 0;
    while i < data.len()
        invariant
            i <= data.len(),
            responses@.len() == i,
            forall|j: int| 0 <= j < i ==> responses@[j]@ == secret_line(data.deep_view()[j]),
        decreases data.len() - i,
    {
        let bytes = data[i].1.clone();
        let parsed_value = match String::from_utf8(bytes) {
            Ok(str_value) => str_value,
            _ => String::new(),
        };
        let line = data[i].0.clone().concat(": ").concat(parsed_value.as_str());
        proof {
            assert(data.deep_view()[i as int] == (data[i as int].0@, data[i as int].1@));
        }
        responses.push(line);
        i += 1;
    }
    assert(responses.deep_view() =~= data.deep_view().map_values(
        |entry: (Seq<char>, Seq<u8>)| secret_line(entry),
    ));
    join(&responses, "\n")
}

/// The text for an action that failed with the given description.
pub fn failure_text(detail: &str) -> (text: String)
    ensures
        text@ == failure_report(detail@),
{
    String::from_str("Failed to run action: ").concat(detail)
}

/// Whether `detail` is the text that `err` gives of itself when it is
/// written out with `to_string`. Which text that is the client decides.
pub open spec fn describes(err: kube::Error, detail: Seq<char>) -> bool {
    exists|text: String| #[trigger] to_string_from_display_ensures(&err, text) && text@ == detail
}

/// The message for an action that failed. A failed action still reports: the
/// message is a result whose text starts with a fixed lead and goes on with
/// what the error says of itself.
pub fn error(action_name: String, err: kube::Error) -> (msg: KubeMessage)
    ensures
        msg matches KubeMessage::Action(Ok(a)) && a.name@ == action_name@ && exists|
            detail: Seq<char>,
        |
            describes(err, detail) && a.results@ == failure_report(detail),
{
    let detail = err.to_string();
    KubeMessage::Action(
        Ok(ActionResult { name: action_name, results: failure_text(detail.as_str()) }),
    )
}

/// The message for an action that reported `results`.
pub fn success(action_name: String, results: String) -> (msg: KubeMessage)
    ensures
        msg matches KubeMessage::Action(Ok(a)) && a.name@ == action_name@ && a.results@
            == results@,
{
    KubeMessage::Action(Ok(ActionResult { name: action_name, results }))
}

/// The first step of an action: the name of the secret to fetch, where the
/// action asks for one. Any other operation asks for nothing: no call is
/// made for it and no message is sent.
pub fn run_action(action: &Action) -> (secret: Option<String>)
    ensures
        match secret {
            Some(name) => selects_secret(action@) && name@ == action@.resource,
            None => !selects_secret(action@),
        },
{
    if action.action == String::from_str("get-secret") {
        Some(action.resource.clone())
    } else {
        None
    }
}

/// The last step of an action: its message, from what the cluster answered.
/// `fetched` is the secret's data, key by key in the order in which the lines
/// are to stand, `None` where the secret has no data, or the error of the
/// client or of the call. A failure is reported as a result too, so that each
/// action shows its own. An action that asks for no secret gets no message.
pub fn run_valid_action(
    action: Action,
    fetched: Result<Option<Vec<(String, Vec<u8>)>>, kube::Error>,
) -> (msg: Option<KubeMessage>)
    ensures
        !selects_secret(action@) ==> msg is None,
        selects_secret(action@) ==> (msg matches Some(KubeMessage::Action(Ok(a))) && a.name@
            == action@.name && match fetched {
            Ok(data) => a.results@ == fetched_report(data.deep_view()),
            Err(err) => exists|detail: Seq<char>|
                describes(err, detail) && a.results@ == failure_report(detail),
        }),
{
    if action.action == String::from_str("get-secret") {
        Some(
            match fetched {
                Ok(Some(data)) => {
                    let report = report_secret(&data);
                    success(action.name, report)
                },
                Ok(None) => success(action.name, String::from_str("Nothing found!")),
                Err(err) => error(action.name, err),
            },
        )
    } else {
        None
    }
}

} // verus!
