use crate::common::decoded_message::{DecodedMessage, DecodedMessageView};
use crate::common::internal_message::{Message, MessageView};
use crate::plugins::{label_views, DecoderPluginInterface};
use vstd::prelude::*;

verus! {

/// The plugin for free-text messages under the labels `1J` and `2J`.
///
/// It holds the place of a decoder and makes nothing of a message yet.
#[derive(Debug, Clone)]
pub struct Plugin1J2JFTX {
    pub name: String,
    pub qualifiers: Vec<String>,
}

impl Plugin1J2JFTX {
    /// The plugin under its name, asking for its two labels.
    pub fn new() -> (plugin: Self)
        ensures
            plugin.name@ == "Plugin 1J/2J FTX"@,
            label_views(plugin.qualifiers@) == seq!["1J"@, "2J"@],
    {
        let mut qualifiers: Vec<String> = Vec::new();
        qualifiers.push(String::from_str("1J"));
        qualifiers.push(String::from_str("2J"));
        let plugin = Plugin1J2JFTX { name: String::from_str("Plugin 1J/2J FTX"), qualifiers };
        assert(label_views(plugin.qualifiers@) =~= seq!["1J"@, "2J"@]);
        plugin
    }
}

impl DecoderPluginInterface for Plugin1J2JFTX {
    open spec fn decoded(&self, message: MessageView) -> DecodedMessageView {
        DecodedMessageView::undecoded()
    }

    open spec fn claimed(&self) -> Seq<Seq<char>> {
        label_views(self.qualifiers@)
    }

    open spec fn title(&self) -> Seq<char> {
        self.name@
    }

    fn decode(&self, message: &Message) -> (result: DecodedMessage) {
        DecodedMessage::default()
    }

    fn qualifiers(&self) -> (labels: Vec<String>) {
        copy_labels(&self.qualifiers)
    }

    fn name(&self) -> (name: String) {
        self.name.clone()
    }
}

/// A copy of a list of labels.
fn copy_labels(labels: &Vec<String>) -> (copy: Vec<String>)
    ensures
        label_views(copy@) == label_views(labels@),
{
    let mut copy: Vec<String> = Vec::new();
    let mut i: usize = 0;
    while i < labels.len()
        invariant
            i <= labels@.len(),
            copy@.len() == i,
            forall|j: int| 0 <= j < i ==> (#[trigger] copy@[j])@ == labels@[j]@,
        decreases labels@.len() - i,
    {
        copy.push(labels[i].clone());
        i = i + 1;
    }
    assert(label_views(copy@) =~= label_views(labels@));
    copy
}

} // verus!
