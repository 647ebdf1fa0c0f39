use vstd::prelude::*;

verus! {

/// A datalink message reduced to the three texts that decoding reads.
#[derive(Debug)]
pub struct Message {
    pub label: Option<String>,
    pub sublabel: Option<String>,
    pub text: Option<String>,
}

/// A `Message` with its texts as sequences of characters.
pub struct MessageView {
    pub label: Option<Seq<char>>,
    pub sublabel: Option<Seq<char>>,
    pub text: Option<Seq<char>>,
}

/// The characters of a text that may be absent.
pub open spec fn text_view(text: Option<String>) -> Option<Seq<char>> {
    match text {
        Some(t) => Some(t@),
        None => None,
    }
}

impl View for Message {
    type V = MessageView;

    open spec fn view(&self) -> MessageView {
        MessageView {
            label: text_view(self.label),
            sublabel: text_view(self.sublabel),
            text: text_view(self.text),
        }
    }
}

impl MessageView {
    /// The message that holds nothing.
    pub open spec fn empty() -> MessageView {
        MessageView { label: None, sublabel: None, text: None }
    }
}

impl Default for Message {
    fn default() -> (message: Self)
        ensures
            message@ == MessageView::empty(),
    {
        Message { label: None, sublabel: None, text: None }
    }
}

impl Message {
    /// True of the message that holds nothing, and of no other.
    pub fn is_default(&self) -> (empty: bool)
        ensures
            empty == (self@ == MessageView::empty()),
    {
        self.label.is_none() && self.sublabel.is_none() && self.text.is_none()
    }
}

} // verus!
