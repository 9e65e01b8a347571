//! Decoding a payload: JSON text that holds one report.
//!
//! A payload is a JSON object with the members `name`, `interface_type` and
//! `state`, each a JSON string. Other members are ignored. Parsing JSON is
//! `serde_json`'s work; which members make a report is decided here.

use vstd::prelude::*;
use crate::report::{InterfaceState, ReportView};

verus! {

/// A JSON document as `serde_json` holds it.
#[verifier::external_type_specification]
#[verifier::external_body]
pub struct ExValue(serde_json::Value);

/// What `serde_json` says of a text that is no JSON document.
#[verifier::external_type_specification]
#[verifier::external_body]
pub struct ExJsonError(serde_json::Error);

/// The members of the JSON object `doc` whose values are JSON strings, each
/// under its key. Empty where `doc` is no object.
pub uninterp spec fn text_members(doc: serde_json::Value) -> Map<Seq<char>, Seq<char>>;

/// The text members of the document that `text` parses to; `None` where
/// `text` is not one JSON document.
pub uninterp spec fn parsed_members(text: Seq<char>) -> Option<Map<Seq<char>, Seq<char>>>;

/// `serde_json::from_str`, read into a `serde_json::Value`. Trusted: whether
/// the text parses, and to which document, depends on the text alone, so the
/// outcome is `parsed_members` of the text.
#[verifier::external_body]
fn parse_document(text: &str) -> (parsed: Result<serde_json::Value, serde_json::Error>)
    ensures
        match parsed {
            Ok(doc) => parsed_members(text@) == Some(text_members(doc)),
            Err(_) => parsed_members(text@) is None,
        },
{
    serde_json::from_str::<serde_json::Value>(text)
}

/// `serde_json::Value::get` with a text key, kept only where the member found
/// is a JSON string. Trusted: the member under `key` comes back exactly when
/// `doc` is an object that has a string under that key.
#[verifier::external_body]
fn text_member(doc: &serde_json::Value, key: &str) -> (member: Option<String>)
    ensures
        match member {
            Some(text) => text_members(*doc).contains_key(key@) && text_members(*doc)[key@]
                == text@,
            None => !text_members(*doc).contains_key(key@),
        },
{
    match doc.get(key) {
        Some(serde_json::Value::String(text)) => Some(text.clone()),
        _ => None,
    }
}

/// Why a payload gave no report.
#[derive(Debug, Clone, Copy, PartialEq, Eq, Structural)]
pub enum DecodeError {
    /// The payload is not a JSON document.
    Syntax,
    /// The document has no string member `name`.
    MissingName,
    /// The document has no string member `interface_type`.
    MissingInterfaceType,
    /// The document has no string member `state`.
    MissingState,
}

/// The report that three members make, or the first of them that is missing,
/// asked in the order `name`, `interface_type`, `state`.
pub open spec fn report_of_fields(
    name: Option<Seq<char>>,
    interface_type: Option<Seq<char>>,
    state: Option<Seq<char>>,
) -> Result<ReportView, DecodeError> {
    if name is None {
        Err(DecodeError::MissingName)
    } else if interface_type is None {
        Err(DecodeError::MissingInterfaceType)
    } else if state is None {
        Err(DecodeError::MissingState)
    } else {
        Ok(
            ReportView {
                name: name->Some_0,
                interface_type: interface_type->Some_0,
                state: state->Some_0,
            },
        )
    }
}

/// The member under `key`, if there is one.
pub open spec fn member(members: Map<Seq<char>, Seq<char>>, key: Seq<char>) -> Option<Seq<char>> {
    if members.contains_key(key) {
        Some(members[key])
    } else {
        None
    }
}

/// The report that a document's text members make.
pub open spec fn report_of_members(members: Map<Seq<char>, Seq<char>>) -> Result<
    ReportView,
    DecodeError,
> {
    report_of_fields(
        member(members, "name"@),
        member(members, "interface_type"@),
        member(members, "state"@),
    )
}

/// What a payload decodes to.
pub open spec fn decoded(payload: Seq<char>) -> Result<ReportView, DecodeError> {
    match parsed_members(payload) {
        Some(members) => report_of_members(members),
        None => Err(DecodeError::Syntax),
    }
}

/// The views of an optional text.
pub open spec fn text_view(text: Option<String>) -> Option<Seq<char>> {
    match text {
        Some(t) => Some(t@),
        None => None,
    }
}

/// The report as a view, or the error as it is.
pub open spec fn outcome_view(outcome: Result<InterfaceState, DecodeError>) -> Result<
    ReportView,
    DecodeError,
> {
    match outcome {
        Ok(report) => Ok(report@),
        Err(e) => Err(e),
    }
}

/// Puts a report together from the three members asked of a document, and
/// names the first that is missing.
pub fn report_from_fields(
    name: Option<String>,
    interface_type: Option<String>,
    state: Option<String>,
) -> (outcome: Result<InterfaceState, DecodeError>)
    ensures
        outcome_view(outcome) == report_of_fields(
            text_view(name),
            text_view(interface_type),
            text_view(state),
        ),
        outcome is Ok <==> name is Some && interface_type is Some && state is Some,
{
    match name {
        None => Err(DecodeError::MissingName),
        Some(name) => match interface_type {
            None => Err(DecodeError::MissingInterfaceType),
            Some(interface_type) => match state {
                None => Err(DecodeError::MissingState),
                Some(state) => Ok(InterfaceState { name, interface_type, state }),
            },
        },
    }
}

/// Reads a report out of a parsed document.
pub fn report_from_document(doc: &serde_json::Value) -> (outcome: Result<
    InterfaceState,
    DecodeError,
>)
    ensures
        outcome_view(outcome) == report_of_members(text_members(*doc)),
        !(outcome matches Err(DecodeError::Syntax)),
{
    let name = text_member(doc, "name");
    let interface_type = text_member(doc, "interface_type");
    let state = text_member(doc, "state");
    report_from_fields(name, interface_type, state)
}

/// Decodes one payload. A text that is no JSON document gives `Syntax`; a
/// document gives the report that its members make, or the first of the three
/// members that it lacks.
pub fn decode(payload: &str) -> (outcome: Result<InterfaceState, DecodeError>)
    ensures
        outcome_view(outcome) == decoded(payload@),
{
    match parse_document(payload) {
        Ok(doc) => report_from_document(&doc),
        Err(_) => Err(DecodeError::Syntax),
    }
}

} // verus!
