use crate::common::decoded_message::{DecodedMessage, DecodedMessageView};
use crate::common::internal_message::{Message, MessageView};
use plugin::plugin_1j_2j_ftx::Plugin1J2JFTX;
use vstd::hash_map::StringHashMap;
use vstd::prelude::*;

pub mod plugin;

verus! {

/// What a decoder for some kinds of message has to offer.
///
/// A plugin decodes a message in one way only: what `decode` returns is
/// settled by the plugin and the message, and so are its labels and its
/// name by the plugin. A plugin that is verified says in `decoded`,
/// `claimed` and `title` what these are; of a plugin that leaves them as
/// they stand here, no more is known than that.
pub trait DecoderPluginInterface {
    /// What the plugin makes of a message.
    open spec fn decoded(&self, message: MessageView) -> DecodedMessageView {
        arbitrary()
    }

    /// The labels of the messages that the plugin asks for.
    open spec fn claimed(&self) -> Seq<Seq<char>> {
        arbitrary()
    }

    /// The name by which the plugin is known.
    open spec fn title(&self) -> Seq<char> {
        arbitrary()
    }

    /// Decode a message using the plugin.
    fn decode(&self, message: &Message) -> (result: DecodedMessage)
        ensures
            result@ == self.decoded(message@),
    ;

    /// The labels of the messages that the plugin asks for.
    fn qualifiers(&self) -> (labels: Vec<String>)
        ensures
            label_views(labels@) == self.claimed(),
    ;

    /// The name by which the plugin is known.
    fn name(&self) -> (name: String)
        ensures
            name@ == self.title(),
    ;
}

/// The texts of a list of labels, in the same order.
pub open spec fn label_views(labels: Seq<String>) -> Seq<Seq<char>> {
    Seq::new(labels.len(), |i: int| labels[i]@)
}

/// A plugin of any kind, as the manager holds it.
pub struct PluginManagerType {
    pub plugin: Box<dyn DecoderPluginInterface>,
}

/// The plugin for the labels `1J` and `2J`, as the manager holds it.
fn reference_plugin() -> (held: PluginManagerType)
    ensures
        held.plugin.title() == "Plugin 1J/2J FTX"@,
        held.plugin.claimed() == seq!["1J"@, "2J"@],
        forall|message: MessageView| #[trigger]
            held.plugin.decoded(message) == DecodedMessageView::undecoded(),
{
    PluginManagerType { plugin: Box::new(Plugin1J2JFTX::new()) }
}

/// The plugins that are known, each under the labels that it asked for.
///
/// Every plugin is held once, and a label is bound to the place of its
/// plugin among them.
pub struct PluginManager {
    decoders: Vec<PluginManagerType>,
    plugins: StringHashMap<usize>,
}

/// True when every label is bound to the place of a plugin that is there.
pub open spec fn places_exist(decoders: Seq<PluginManagerType>, places: Map<Seq<char>, usize>) -> bool {
    forall|label: Seq<char>| places.contains_key(label) ==> (#[trigger] places[label]) < decoders.len()
}

/// True when `label` is one of `labels`.
pub open spec fn is_among(label: Seq<char>, labels: Seq<Seq<char>>) -> bool {
    exists|i: int| 0 <= i < labels.len() && labels[i] == label
}

/// The bindings that arise when each of `labels` is bound to `place`: a
/// label among them is bound to `place`, whatever it was bound to before,
/// and any other label is bound as it was.
pub open spec fn rebound(places: Map<Seq<char>, usize>, labels: Seq<Seq<char>>, place: usize) -> Map<
    Seq<char>,
    usize,
> {
    Map::new(
        |label: Seq<char>| is_among(label, labels) || places.contains_key(label),
        |label: Seq<char>|
            if is_among(label, labels) {
                place
            } else {
                places[label]
            },
    )
}

impl PluginManager {
    #[verifier::type_invariant]
    spec fn well_formed(&self) -> bool {
        places_exist(self.decoders@, self.plugins@)
    }

    /// The labels that are bound to a plugin.
    pub closed spec fn labels(&self) -> Set<Seq<char>> {
        self.plugins@.dom()
    }

    /// The plugin that a label is bound to.
    pub closed spec fn plugin(&self, label: Seq<char>) -> PluginManagerType {
        self.decoders@[self.plugins@[label] as int]
    }

    /// What the plugin under the label of a message makes of it; where the
    /// message has no label, or its label is bound to no plugin, the result
    /// that says nothing was decoded.
    pub open spec fn dispatched(&self, message: MessageView) -> DecodedMessageView {
        match message.label {
            Some(label) => if self.labels().contains(label) {
                self.plugin(label).plugin.decoded(message)
            } else {
                DecodedMessageView::undecoded()
            },
            None => DecodedMessageView::undecoded(),
        }
    }

    /// The manager of the plugins that this library has: the one for the
    /// labels `1J` and `2J`.
    pub fn new() -> (manager: Self)
        ensures
            manager.labels() == set!["1J"@, "2J"@],
            forall|label: Seq<char>| #[trigger]
                manager.labels().contains(label) ==> {
                    &&& manager.plugin(label).plugin.title() == "Plugin 1J/2J FTX"@
                    &&& manager.plugin(label).plugin.claimed() == seq!["1J"@, "2J"@]
                    &&& forall|message: MessageView| #[trigger]
                        manager.plugin(label).plugin.decoded(message)
                            == DecodedMessageView::undecoded()
                },
    {
        let mut manager = PluginManager::default();
        let reference = reference_plugin();
        let ghost held = reference;
        manager.add_plugin(reference);
        assert forall|label: Seq<char>| #[trigger] manager.labels().contains(label) implies {
            &&& manager.plugin(label).plugin.title() == "Plugin 1J/2J FTX"@
            &&& manager.plugin(label).plugin.claimed() == seq!["1J"@, "2J"@]
            &&& forall|message: MessageView| #[trigger]
                manager.plugin(label).plugin.decoded(message) == DecodedMessageView::undecoded()
        } by {
            assert(manager.plugin(label) == held);
        }
        assert(manager.labels() =~= set!["1J"@, "2J"@]) by {
            let claimed = seq!["1J"@, "2J"@];
            assert(claimed[0] == "1J"@ && claimed[1] == "2J"@);
            assert forall|label: Seq<char>| manager.labels().contains(label) <==> (label == "1J"@
                || label == "2J"@) by {
                if label == "1J"@ {
                    assert(is_among(label, claimed)) by {
                        assert(claimed[0] == label);
                    }
                }
                if label == "2J"@ {
                    assert(is_among(label, claimed)) by {
                        assert(claimed[1] == label);
                    }
                }
            }
        }
        manager
    }

    /// Takes a plugin in and binds each label that it asks for to it. A
    /// label that was bound to another plugin before is bound to this one
    /// afterwards; all other labels stay as they are.
    pub fn add_plugin(&mut self, plugin: PluginManagerType)
        ensures
            forall|label: Seq<char>|
                final(self).labels().contains(label) <==> is_among(label, plugin.plugin.claimed())
                    || old(self).labels().contains(label),
            forall|label: Seq<char>|
                is_among(label, plugin.plugin.claimed()) ==> #[trigger] final(self).plugin(label)
                    == plugin,
            forall|label: Seq<char>|
                !is_among(label, plugin.plugin.claimed()) && old(self).labels().contains(label)
                    ==> #[trigger] final(self).plugin(label) == old(self).plugin(label),
    {
        let mut held = PluginManager::default();
        core::mem::swap(self, &mut held);
        proof {
            use_type_invariant(&held);
        }
        let PluginManager { mut decoders, mut plugins } = held;
        let ghost place = decoders.len();
        PluginManager::bind(&mut decoders, &mut plugins, plugin);
        assert(decoders@[place as int] == plugin);
        *self = PluginManager { decoders, plugins };
    }

    /// Puts a plugin behind those that are held and binds each label that
    /// it asks for to its place.
    fn bind(
        decoders: &mut Vec<PluginManagerType>,
        plugin_hash: &mut StringHashMap<usize>,
        plugin: PluginManagerType,
    )
        requires
            places_exist(old(decoders)@, old(plugin_hash)@),
        ensures
            final(decoders)@ == old(decoders)@.push(plugin),
            final(plugin_hash)@ == rebound(
                old(plugin_hash)@,
                plugin.plugin.claimed(),
                old(decoders)@.len() as usize,
            ),
            places_exist(final(decoders)@, final(plugin_hash)@),
    {
        let qualifiers = plugin.plugin.qualifiers();
        let ghost claimed = plugin.plugin.claimed();
        let place = decoders.len();
        decoders.push(plugin);
        let mut i: usize = 0;
        assert(plugin_hash@ =~= rebound(old(plugin_hash)@, claimed.subrange(0, 0), place));
        while i < qualifiers.len()
            invariant
                i <= qualifiers@.len(),
                label_views(qualifiers@) == claimed,
                place == old(decoders)@.len(),
                decoders@.len() == place + 1,
                places_exist(old(decoders)@, old(plugin_hash)@),
                plugin_hash@ == rebound(old(plugin_hash)@, claimed.subrange(0, i as int), place),
            decreases qualifiers@.len() - i,
        {
            let qualifier = qualifiers[i].clone();
            plugin_hash.insert(qualifier, place);
            proof {
                assert(label_views(qualifiers@)[i as int] == qualifiers@[i as int]@);
                let seen = claimed.subrange(0, i as int);
                let next = claimed.subrange(0, i + 1);
                assert(next[i as int] == claimed[i as int]);
                assert forall|label: Seq<char>| is_among(label, next) <==> (is_among(label, seen)
                    || label == claimed[i as int]) by {
                    if is_among(label, next) {
                        let k = choose|k: int| 0 <= k < next.len() && next[k] == label;
                        if k < i {
                            assert(seen[k] == label);
                        }
                    }
                    if is_among(label, seen) {
                        let k = choose|k: int| 0 <= k < seen.len() && seen[k] == label;
                        assert(next[k] == label);
                    }
                    if label == claimed[i as int] {
                        assert(next[i as int] == label);
                    }
                }
                assert(plugin_hash@ =~= rebound(old(plugin_hash)@, next, place));
            }
            i = i + 1;
        }
        assert(claimed.subrange(0, i as int) == claimed);
    }

    /// Hands a message to the plugin that stands under its label.
    pub fn decode(&self, message: &Message) -> (result: DecodedMessage)
        ensures
            result@ == self.dispatched(message@),
    {
        proof {
            use_type_invariant(self);
        }
        if let Some(label) = &message.label {
            if let Some(place) = self.plugins.get(label.as_str()) {
                return self.decoders[*place].plugin.decode(message);
            }
        }
        DecodedMessage::default()
    }
}

impl Default for PluginManager {
    /// The manager that knows no plugin.
    fn default() -> (manager: Self)
        ensures
            manager.labels() == Set::<Seq<char>>::empty(),
    {
        let manager = PluginManager { decoders: Vec::new(), plugins: StringHashMap::new() };
        assert(manager.labels() =~= Set::<Seq<char>>::empty());
        manager
    }
}

} // verus!
