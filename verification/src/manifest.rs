//! Package manifests (`package.json`): which file a package names as its
//! entry point.

use vstd::prelude::*;
use crate::error::{outcome_view, Outcome, ResolutionError};

verus! {

/// A parsed JSON document, as `serde_json` holds it.
#[verifier::external_type_specification]
#[verifier::external_body]
pub struct ExJsonValue(serde_json::Value);

/// The failure that `serde_json` reports for a text that is not JSON.
#[verifier::external_type_specification]
#[verifier::external_body]
pub struct ExJsonError(serde_json::Error);

/// What a JSON document holds under one key of its top level.
#[derive(Clone, Debug, PartialEq, Eq)]
pub enum JsonMember {
    /// The document is no object, or the object has no such key.
    Absent,
    /// The member is a string with this text.
    Text(String),
    /// The member is something other than a string.
    Other,
}

/// What a JSON document holds under one key, as a mathematical value.
pub enum MemberView {
    Absent,
    Text(Seq<char>),
    Other,
}

impl View for JsonMember {
    type V = MemberView;

    open spec fn view(&self) -> MemberView {
        match self {
            JsonMember::Absent => MemberView::Absent,
            JsonMember::Text(t) => MemberView::Text(t@),
            JsonMember::Other => MemberView::Other,
        }
    }
}

/// The members of the top level of a parsed document: each key of a JSON
/// object with `Some` of its text where the member is a string and `None`
/// where it is anything else. A document that is no object has no members.
pub uninterp spec fn json_members(doc: serde_json::Value) -> Map<Seq<char>, Option<Seq<char>>>;

/// The members of the top level of the document that `serde_json` reads from
/// `text`, or `None` where it does not accept `text` as JSON.
pub uninterp spec fn json_document(text: Seq<char>) -> Option<Map<Seq<char>, Option<Seq<char>>>>;

/// What the members `members` hold under `key`.
pub open spec fn member_of(
    members: Map<Seq<char>, Option<Seq<char>>>,
    key: Seq<char>,
) -> MemberView {
    if !members.dom().contains(key) {
        MemberView::Absent
    } else {
        match members[key] {
            Some(text) => MemberView::Text(text),
            None => MemberView::Other,
        }
    }
}

/// The entry point that a manifest's `module` and `main` members name:
/// `module` where the manifest has it, else `main`; the member must be a
/// string.
pub open spec fn entry_of_members(module: MemberView, main: MemberView) -> Outcome {
    match module {
        MemberView::Text(entry) => Ok(entry),
        MemberView::Other => Err(ResolutionError::EntryNotFound),
        MemberView::Absent => match main {
            MemberView::Text(entry) => Ok(entry),
            _ => Err(ResolutionError::EntryNotFound),
        },
    }
}

/// The entry point named by a manifest, given what parsing its text gave.
pub open spec fn entry_of_document(doc: Option<Map<Seq<char>, Option<Seq<char>>>>) -> Outcome {
    match doc {
        None => Err(ResolutionError::ManifestParseError),
        Some(members) => entry_of_members(
            member_of(members, "module"@),
            member_of(members, "main"@),
        ),
    }
}

/// Parses a JSON text.
///
/// Calls `serde_json::from_str` for a `serde_json::Value`. `json_document`
/// names what the call makes of a text, and `json_members` what a value
/// holds: on success the two agree, and a failure is a text without document.
#[verifier::external_body]
fn parse_json(text: &str) -> (parsed: Result<serde_json::Value, serde_json::Error>)
    ensures
        match parsed {
            Ok(doc) => json_document(text@) == Some(json_members(doc)),
            Err(_) => json_document(text@) is None,
        },
{
    serde_json::from_str::<serde_json::Value>(text)
}

/// Looks up one key in the top level of a parsed document.
///
/// Calls `serde_json::Value::get` with a string index, which gives `None`
/// unless the value is an object that has the key, and tells a string member
/// from any other by `Value::as_str`.
#[verifier::external_body]
fn json_member(doc: &serde_json::Value, key: &str) -> (member: JsonMember)
    ensures
        member@ == member_of(json_members(*doc), key@),
{
    match doc.get(key) {
        None => JsonMember::Absent,
        Some(value) => match value.as_str() {
            Some(text) => JsonMember::Text(text.to_owned()),
            None => JsonMember::Other,
        },
    }
}

/// Chooses a package's entry point from its manifest's `module` and `main`
/// members: `module` is preferred, and a member that is present but not a
/// string names no entry.
pub fn pick_entry(module: JsonMember, main: JsonMember) -> (entry: Result<String, ResolutionError>)
    ensures
        outcome_view(entry) == entry_of_members(module@, main@),
{
    match module {
        JsonMember::Text(path) => Ok(path),
        JsonMember::Other => Err(ResolutionError::EntryNotFound),
        JsonMember::Absent => match main {
            JsonMember::Text(path) => Ok(path),
            _ => Err(ResolutionError::EntryNotFound),
        },
    }
}

/// Reads the entry point out of the text of a package manifest.
///
/// A text that is not JSON is a `ManifestParseError`; a manifest that names
/// no entry is an `EntryNotFound`.
pub fn manifest_entry(text: &str) -> (entry: Result<String, ResolutionError>)
    ensures
        outcome_view(entry) == entry_of_document(json_document(text@)),
{
    match parse_json(text) {
        Err(_) => Err(ResolutionError::ManifestParseError),
        Ok(doc) => {
            let module = json_member(&doc, "module");
            let main = json_member(&doc, "main");
            pick_entry(module, main)
        },
    }
}

} // verus!
