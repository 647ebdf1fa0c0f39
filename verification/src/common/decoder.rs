use vstd::prelude::*;

verus! {

/// How a decoder recognised the message it decoded.
#[derive(Debug, Clone, Copy, PartialEq, Eq, Structural)]
pub enum DecoderMatchType {
    PatternMatch,
    /// The decoder matched nothing; the default.
    Unmatched,
}

impl Default for DecoderMatchType {
    fn default() -> (kind: Self)
        ensures
            kind == DecoderMatchType::Unmatched,
    {
        DecoderMatchType::Unmatched
    }
}

/// How much of a message a decoder made sense of.
#[derive(Debug, Clone, Copy, PartialEq, Eq, Structural)]
pub enum DecoderLevel {
    /// Nothing was made sense of; the default.
    Undecoded,
    Partial,
    Full,
}

impl Default for DecoderLevel {
    fn default() -> (level: Self)
        ensures
            level == DecoderLevel::Undecoded,
    {
        DecoderLevel::Undecoded
    }
}

/// Describes the decoder that produced a `DecodedMessage`.
#[derive(Debug, Clone, PartialEq, Eq)]
pub struct Decoder {
    pub name: String,
    pub match_type: DecoderMatchType,
    pub decoder_level: DecoderLevel,
}

/// A `Decoder` with its name as a sequence of characters.
pub struct DecoderView {
    pub name: Seq<char>,
    pub match_type: DecoderMatchType,
    pub decoder_level: DecoderLevel,
}

impl View for Decoder {
    type V = DecoderView;

    open spec fn view(&self) -> DecoderView {
        DecoderView {
            name: self.name@,
            match_type: self.match_type,
            decoder_level: self.decoder_level,
        }
    }
}

impl DecoderView {
    /// The description of no decoder at all: no name, no match, no level.
    pub open spec fn unset() -> DecoderView {
        DecoderView {
            name: Seq::empty(),
            match_type: DecoderMatchType::Unmatched,
            decoder_level: DecoderLevel::Undecoded,
        }
    }
}

impl Default for Decoder {
    fn default() -> (decoder: Self)
        ensures
            decoder@ == DecoderView::unset(),
    {
        Decoder {
            name: String::new(),
            match_type: DecoderMatchType::Unmatched,
            decoder_level: DecoderLevel::Undecoded,
        }
    }
}

} // verus!
