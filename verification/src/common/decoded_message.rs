use super::decoder::{Decoder, DecoderView};
use vstd::prelude::*;

verus! {

/// What a decoder makes of one message.
///
/// The default value, with `decoded` false, stands for "no decoder applies
/// to this message".
#[derive(Debug, Clone, PartialEq, Eq)]
pub struct DecodedMessage {
    pub decoded: bool,
    pub decoder: Decoder,
    pub error: Option<String>,
}

/// A `DecodedMessage` with its texts as sequences of characters.
pub struct DecodedMessageView {
    pub decoded: bool,
    pub decoder: DecoderView,
    pub error: Option<Seq<char>>,
}

impl View for DecodedMessage {
    type V = DecodedMessageView;

    open spec fn view(&self) -> DecodedMessageView {
        DecodedMessageView {
            decoded: self.decoded,
            decoder: self.decoder@,
            error: match self.error {
                Some(text) => Some(text@),
                None => None,
            },
        }
    }
}

impl DecodedMessageView {
    /// The result that says nothing was decoded.
    pub open spec fn undecoded() -> DecodedMessageView {
        DecodedMessageView { decoded: false, decoder: DecoderView::unset(), error: None }
    }
}

impl Default for DecodedMessage {
    fn default() -> (message: Self)
        ensures
            message@ == DecodedMessageView::undecoded(),
    {
        DecodedMessage { decoded: false, decoder: Decoder::default(), error: None }
    }
}

/// A decoded message put into words.
#[derive(Debug, Clone, PartialEq, Eq)]
pub struct Formatted {
    description: String,
}

/// The items that a decoded message is made of.
#[derive(Debug, Clone, PartialEq, Eq)]
pub struct Items {
    items: Vec<EachItem>,
}

/// One labelled value of a decoded message.
#[derive(Debug, Clone, PartialEq, Eq)]
pub struct EachItem {
    item_type: String,
    code: String,
    label: String,
    value: String,
}

} // verus!
