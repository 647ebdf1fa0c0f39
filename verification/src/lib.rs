//! Decoding of free-text aeronautical datalink messages: a label-keyed
//! dispatcher, a codec for fixed-width coordinate strings and a formatter
//! for routes and waypoints.

pub mod common;
pub mod error;
pub mod plugins;
pub mod utils;

use common::decoded_message::{DecodedMessage, DecodedMessageView};
use common::get_fields::{
    document_message, json_reading, members_message, parse_document, raw_message, GetFields,
};
use common::internal_message::{text_view, Message, MessageView};
use error::{DecodingError, DecodingErrorView};
use plugins::PluginManager;
use vstd::prelude::*;

verus! {

/// A message as it comes in.
#[derive(Debug, PartialEq, Eq)]
pub enum ACARSMessageType {
    /// The text of a document that holds the message.
    String(String),
    /// The label, the sublabel and the text of the message.
    StringParts(Option<String>, Option<String>, Option<String>),
    /// A message of a kind that is not known; the default.
    Unknown,
}

impl Default for ACARSMessageType {
    fn default() -> (message: Self)
        ensures
            message is Unknown,
    {
        ACARSMessageType::Unknown
    }
}

impl ACARSMessageType {
    /// True of the text of a document.
    pub fn is_string(&self) -> (answer: bool)
        ensures
            answer == (self is String),
    {
        matches!(self, ACARSMessageType::String(_))
    }

    /// True of a message of unknown kind.
    pub fn is_unknown(&self) -> (answer: bool)
        ensures
            answer == (self is Unknown),
    {
        matches!(self, ACARSMessageType::Unknown)
    }

    /// The text of the document, where the message is one.
    pub fn get_string(&self) -> (text: Option<&String>)
        ensures
            match *self {
                ACARSMessageType::String(s) => text == Some(&s),
                _ => text is None,
            },
    {
        if let ACARSMessageType::String(s) = self {
            Some(s)
        } else {
            None
        }
    }
}

/// A message that was taken in, with the text it was taken from.
#[derive(Debug)]
pub struct DecodedACARSMessage {
    message: Message,
    decoded: Option<String>,
}

/// A `DecodedACARSMessage` with its texts as sequences of characters.
pub struct DecodedACARSMessageView {
    pub message: MessageView,
    pub decoded: Option<Seq<char>>,
}

impl View for DecodedACARSMessage {
    type V = DecodedACARSMessageView;

    closed spec fn view(&self) -> DecodedACARSMessageView {
        DecodedACARSMessageView { message: self.message@, decoded: text_view(self.decoded) }
    }
}

/// What taking a message in comes to.
///
/// The text of a document gives the message that the document holds, and
/// is kept beside it; a text that is no well-formed document is an error.
/// Label, sublabel and text given one by one are the message as they are,
/// and the text is kept beside it. A message of unknown kind is an error.
pub open spec fn taken_in(message: ACARSMessageType) -> Result<
    DecodedACARSMessageView,
    DecodingErrorView,
> {
    match message {
        ACARSMessageType::String(s) => match json_reading(s@) {
            Ok(members) => Ok(
                DecodedACARSMessageView { message: members_message(members), decoded: Some(s@) },
            ),
            Err(message) => Err(DecodingErrorView::JsonParseError(message)),
        },
        ACARSMessageType::StringParts(label, sublabel, text) => Ok(
            DecodedACARSMessageView {
                message: MessageView {
                    label: text_view(label),
                    sublabel: text_view(sublabel),
                    text: text_view(text),
                },
                decoded: text_view(text),
            },
        ),
        ACARSMessageType::Unknown => Err(DecodingErrorView::UnknownMessageType),
    }
}

/// The view of what is in a result, on either side.
pub open spec fn outcome_view(outcome: Result<DecodedACARSMessage, DecodingError>) -> Result<
    DecodedACARSMessageView,
    DecodingErrorView,
> {
    match outcome {
        Ok(message) => Ok(message@),
        Err(error) => Err(error@),
    }
}

/// A copy of a text that may be absent.
fn copy_text(text: &Option<String>) -> (copy: Option<String>)
    ensures
        text_view(copy) == text_view(*text),
{
    match text {
        Some(t) => Some(t.clone()),
        None => None,
    }
}

impl DecodedACARSMessage {
    /// Takes a message in.
    pub fn new(message: &ACARSMessageType) -> (outcome: Result<Self, DecodingError>)
        ensures
            outcome_view(outcome) == taken_in(*message),
    {
        match message {
            ACARSMessageType::String(s) => match parse_document(s.as_str()) {
                Ok(value) => Ok(
                    DecodedACARSMessage {
                        message: document_message(&value),
                        decoded: Some(s.clone()),
                    },
                ),
                Err(e) => Err(DecodingError::JsonParseError(e)),
            },
            ACARSMessageType::StringParts(label, sublabel, text) => Ok(
                DecodedACARSMessage {
                    message: Message {
                        label: copy_text(label),
                        sublabel: copy_text(sublabel),
                        text: copy_text(text),
                    },
                    decoded: copy_text(text),
                },
            ),
            ACARSMessageType::Unknown => Err(DecodingError::UnknownMessageType),
        }
    }

    /// Decodes the message. There is nothing yet that this does: the
    /// message stays as it is, and the call succeeds.
    pub fn decode(&mut self) -> (outcome: Result<(), DecodingError>)
        ensures
            outcome is Ok,
            *final(self) == *old(self),
    {
        Ok(())
    }
}

/// What decoding a raw text comes to: what the plugins make of the message
/// that it holds; for a text that holds the empty message, or none, the
/// result that says nothing was decoded.
pub open spec fn decoded_text(raw: Seq<char>, plugins: PluginManager) -> DecodedMessageView {
    if raw_message(raw) == MessageView::empty() {
        DecodedMessageView::undecoded()
    } else {
        plugins.dispatched(raw_message(raw))
    }
}

/// Decodes a raw text: reads the message that it holds and hands it to the
/// plugin for its label.
pub fn decode(raw_input: &String, plugins: &PluginManager) -> (result: DecodedMessage)
    ensures
        result@ == decoded_text(raw_input@, *plugins),
{
    let message = raw_input.get_fields();
    if message.is_default() {
        DecodedMessage::default()
    } else {
        plugins.decode(&message)
    }
}

} // verus!
