use acars_decoder::common::decoded_message::DecodedMessage;
use acars_decoder::common::decoder::{Decoder, DecoderLevel, DecoderMatchType};
use acars_decoder::common::internal_message::Message;
use acars_decoder::plugins::plugin::plugin_1j_2j_ftx::Plugin1J2JFTX;
use acars_decoder::plugins::{DecoderPluginInterface, PluginManager, PluginManagerType};

struct Marker {
    mark: String,
    labels: Vec<String>,
}

impl DecoderPluginInterface for Marker {
    fn decode(&self, message: &Message) -> DecodedMessage {
        DecodedMessage {
            decoded: message.text.is_some(),
            decoder: Decoder {
                name: self.mark.clone(),
                match_type: DecoderMatchType::PatternMatch,
                decoder_level: DecoderLevel::Partial,
            },
            error: message.sublabel.clone(),
        }
    }

    fn qualifiers(&self) -> Vec<String> {
        self.labels.clone()
    }

    fn name(&self) -> String {
        self.mark.clone()
    }
}

fn marker(mark: &str, labels: &[&str]) -> PluginManagerType {
    PluginManagerType {
        plugin: Box::new(Marker {
            mark: mark.to_string(),
            labels: labels.iter().map(|label| label.to_string()).collect(),
        }),
    }
}

fn marked(mark: &str, message: &Message) -> DecodedMessage {
    Marker { mark: mark.to_string(), labels: Vec::new() }.decode(message)
}

fn labelled(label: &str) -> Message {
    Message { label: Some(label.to_string()), sublabel: None, text: Some("text".to_string()) }
}

#[test]
fn reference_plugin_is_what_it_says() {
    let plugin = Plugin1J2JFTX::new();
    assert_eq!(plugin.name, "Plugin 1J/2J FTX");
    assert_eq!(plugin.qualifiers, vec!["1J".to_string(), "2J".to_string()]);
    assert_eq!(plugin.name(), "Plugin 1J/2J FTX");
    assert_eq!(plugin.qualifiers(), vec!["1J".to_string(), "2J".to_string()]);
}

#[test]
fn reference_plugin_decodes_nothing() {
    let plugin = Plugin1J2JFTX::new();
    assert_eq!(plugin.decode(&labelled("1J")), DecodedMessage::default());
    assert_eq!(plugin.decode(&labelled("ZZ")), DecodedMessage::default());
    assert_eq!(plugin.decode(&Message::default()), DecodedMessage::default());
}

#[test]
fn dispatch_to_the_reference_plugin() {
    let manager = PluginManager::new();
    let plugin = Plugin1J2JFTX::new();
    for label in ["1J", "2J"] {
        let message = labelled(label);
        assert_eq!(manager.decode(&message), plugin.decode(&message));
    }
}

#[test]
fn dispatch_of_a_label_that_is_not_bound() {
    let manager = PluginManager::new();
    for label in ["ZZ", "", "1j", "1J ", "1"] {
        assert_eq!(manager.decode(&labelled(label)), DecodedMessage::default());
    }
}

#[test]
fn dispatch_of_a_message_without_label() {
    let manager = PluginManager::new();
    let message = Message { label: None, sublabel: Some("1J".to_string()), text: Some("1J".to_string()) };
    assert_eq!(manager.decode(&message), DecodedMessage::default());
    assert_eq!(manager.decode(&Message::default()), DecodedMessage::default());
}

#[test]
fn dispatch_by_a_manager_without_plugins() {
    let manager = PluginManager::default();
    assert_eq!(manager.decode(&labelled("1J")), DecodedMessage::default());
}

#[test]
fn dispatch_to_a_plugin_that_was_added() {
    let mut manager = PluginManager::default();
    manager.add_plugin(marker("first", &["AA", "BB"]));
    for label in ["AA", "BB"] {
        let message = labelled(label);
        assert_eq!(manager.decode(&message), marked("first", &message));
        assert!(manager.decode(&message).decoded);
    }
    assert_eq!(manager.decode(&labelled("1J")), DecodedMessage::default());
    assert_eq!(manager.decode(&labelled("A")), DecodedMessage::default());
}

#[test]
fn the_last_plugin_added_for_a_label_wins() {
    let mut manager = PluginManager::new();
    manager.add_plugin(marker("first", &["1J", "AA", "BB"]));
    manager.add_plugin(marker("second", &["BB", "CC", "BB"]));
    let expected = [("1J", "first"), ("AA", "first"), ("BB", "second"), ("CC", "second")];
    for (label, mark) in expected {
        let message = labelled(label);
        assert_eq!(manager.decode(&message), marked(mark, &message), "{}", label);
    }
    assert_eq!(manager.decode(&labelled("2J")), DecodedMessage::default());
    assert_eq!(manager.decode(&labelled("DD")), DecodedMessage::default());
}

#[test]
fn a_plugin_without_labels_is_never_asked() {
    let mut manager = PluginManager::new();
    manager.add_plugin(marker("idle", &[]));
    for label in ["1J", "2J", "", "idle"] {
        assert_eq!(manager.decode(&labelled(label)), DecodedMessage::default());
    }
}

#[test]
fn what_a_plugin_returns_is_handed_on_as_it_is() {
    let mut manager = PluginManager::default();
    manager.add_plugin(marker("m", &["EE"]));
    let message = Message {
        label: Some("EE".to_string()),
        sublabel: Some("something went wrong".to_string()),
        text: None,
    };
    let result = manager.decode(&message);
    assert!(!result.decoded);
    assert_eq!(result.error, Some("something went wrong".to_string()));
    assert_eq!(result.decoder.name, "m");
    assert_eq!(result.decoder.match_type, DecoderMatchType::PatternMatch);
    assert_eq!(result.decoder.decoder_level, DecoderLevel::Partial);
}
