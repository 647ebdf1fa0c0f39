use vstd::prelude::*;

verus! {

/// `serde_json::Error`, of which nothing is known but its message.
#[verifier::external_type_specification]
#[verifier::external_body]
pub struct ExJsonError(serde_json::Error);

/// The message of a `serde_json::Error`: the text that its `Display`
/// writes, which says what is wrong with the document and where.
pub uninterp spec fn json_error_message(error: serde_json::Error) -> Seq<char>;

/// Why a message could not be read.
#[derive(Debug)]
pub enum DecodingError {
    /// The message is no well-formed document.
    JsonParseError(serde_json::Error),
    /// The message is of no kind that can be read.
    UnknownMessageType,
}

/// A `DecodingError` with what it holds as a sequence of characters.
pub enum DecodingErrorView {
    /// The message is no well-formed document; the parser's own message.
    JsonParseError(Seq<char>),
    /// The message is of no kind that can be read.
    UnknownMessageType,
}

impl View for DecodingError {
    type V = DecodingErrorView;

    open spec fn view(&self) -> DecodingErrorView {
        match *self {
            DecodingError::JsonParseError(error) => DecodingErrorView::JsonParseError(
                json_error_message(error),
            ),
            DecodingError::UnknownMessageType => DecodingErrorView::UnknownMessageType,
        }
    }
}

impl DecodingErrorView {
    /// The error put into words.
    pub open spec fn text(self) -> Seq<char> {
        match self {
            DecodingErrorView::JsonParseError(message) =>
                "Failed to parse string in to JSON. Serde says: "@ + message,
            DecodingErrorView::UnknownMessageType => "Failed to parse. Unknown message type"@,
        }
    }
}

/// Writes out a `serde_json::Error` with its `Display`, through
/// `ToString::to_string`. The text is the error's message.
#[verifier::external_body]
fn json_error_text(error: &serde_json::Error) -> (text: String)
    ensures
        text@ == json_error_message(*error),
{
    error.to_string()
}

impl DecodingError {
    /// Puts the error into words.
    pub fn to_string(&self) -> (text: String)
        ensures
            text@ == self@.text(),
    {
        match self {
            DecodingError::JsonParseError(error) => {
                let mut text = String::from_str("Failed to parse string in to JSON. Serde says: ");
                text.append(json_error_text(error).as_str());
                text
            },
            DecodingError::UnknownMessageType => String::from_str(
                "Failed to parse. Unknown message type",
            ),
        }
    }
}

} // verus!
