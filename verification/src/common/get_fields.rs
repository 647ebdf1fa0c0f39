use super::internal_message::{Message, MessageView};
use crate::error::json_error_message;
use vstd::prelude::*;

verus! {

/// `serde_json::Value`, a parsed document, of which nothing is known but
/// through the functions below.
#[verifier::external_type_specification]
#[verifier::external_body]
pub struct ExJsonValue(serde_json::Value);

/// What `serde_json::from_str` makes of a text that is read as a
/// `serde_json::Value`.
///
/// For a well-formed document these are its members with a string for
/// their value, each under its key; a document that is no object has none.
/// For any other text it is the message of the error that says why.
pub uninterp spec fn json_reading(text: Seq<char>) -> Result<Map<Seq<char>, Seq<char>>, Seq<char>>;

/// The members of a parsed document with a string for their value, each
/// under its key. A document that is no object has none.
pub uninterp spec fn text_members(document: serde_json::Value) -> Map<Seq<char>, Seq<char>>;

/// What a document has under `key`, if that is a string.
pub open spec fn member(members: Map<Seq<char>, Seq<char>>, key: Seq<char>) -> Option<Seq<char>> {
    if members.contains_key(key) {
        Some(members[key])
    } else {
        None
    }
}

/// The message that a document holds: what it has, as strings, under
/// `label`, `sublabel` and `text`.
pub open spec fn members_message(members: Map<Seq<char>, Seq<char>>) -> MessageView {
    MessageView {
        label: member(members, "label"@),
        sublabel: member(members, "sublabel"@),
        text: member(members, "text"@),
    }
}

/// The message that a raw text holds: that of the document which it
/// writes down, and the empty message where it writes down none.
pub open spec fn raw_message(raw: Seq<char>) -> MessageView {
    match json_reading(raw) {
        Ok(members) => members_message(members),
        Err(_) => MessageView::empty(),
    }
}

/// Parses a text with `serde_json::from_str`, as a `serde_json::Value`.
///
/// The outcome is the one that `json_reading` names for the text: a
/// document with those members, or an error with that message.
#[verifier::external_body]
pub(crate) fn parse_document(text: &str) -> (outcome: Result<serde_json::Value, serde_json::Error>)
    ensures
        match outcome {
            Ok(document) => json_reading(text@) == Ok::<_, Seq<char>>(text_members(document)),
            Err(error) => json_reading(text@) == Err::<Map<Seq<char>, Seq<char>>, _>(
                json_error_message(error),
            ),
        },
{
    serde_json::from_str::<serde_json::Value>(text)
}

/// Looks up `key` in a document with `serde_json::Value::get` and reads
/// what is found with `serde_json::Value::as_str`.
///
/// The result is the string under `key`; there is none where the document
/// is no object, has no such key, or has another kind of value under it.
#[verifier::external_body]
fn text_member(document: &serde_json::Value, key: &str) -> (found: Option<String>)
    ensures
        found is Some <==> text_members(*document).contains_key(key@),
        found matches Some(text) ==> text@ == text_members(*document)[key@],
{
    document.get(key).and_then(serde_json::Value::as_str).map(String::from)
}

/// Reads the message that a parsed document holds. Members that are
/// missing, or are no strings, are left out of it.
pub fn document_message(document: &serde_json::Value) -> (message: Message)
    ensures
        message@ == members_message(text_members(*document)),
{
    let label = text_member(document, "label");
    let sublabel = text_member(document, "sublabel");
    let text = text_member(document, "text");
    Message { label, sublabel, text }
}

/// Things from which the three texts of a message can be read.
pub trait GetFields {
    /// The message that `get_fields` reads. A type that is verified says
    /// here what it is.
    open spec fn fields(&self) -> MessageView {
        arbitrary()
    }

    /// Reads the message.
    fn get_fields(&self) -> (message: Message)
        ensures
            message@ == self.fields(),
    ;
}

impl GetFields for String {
    open spec fn fields(&self) -> MessageView {
        raw_message(self@)
    }

    /// Reads a raw text as a document and takes the message from it. A text
    /// that is no well-formed document gives the empty message.
    fn get_fields(&self) -> (message: Message) {
        match parse_document(self.as_str()) {
            Ok(message) => document_message(&message),
            Err(_) => Message::default(),
        }
    }
}

} // verus!
