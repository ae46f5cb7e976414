use hermes_mqtt::commands::{
    AsrCommand, Component, DialogueManagerCommand, HotwordCommand, SoundCommand,
};
use hermes_mqtt::handler::MqttOptions;
use hermes_mqtt::protocol::MqttHermesProtocolHandler;
use hermes_mqtt::topics::{AudioServerCommand, FeedbackCommand, HermesTopic};
use std::sync::Arc;

#[test]
fn a_new_handler_has_a_random_client_id() {
    let handler = MqttHermesProtocolHandler::new("localhost:1883");
    assert_eq!(handler.name, "localhost:1883");
    assert_eq!(handler.mqtt_handler.options.broker_addr, "localhost:1883");
    assert_eq!(handler.mqtt_handler.options.max_packet_size, 10_000_000);
    let id = handler.mqtt_handler.options.client_id.clone();
    let digits: Vec<char> = id.chars().collect();
    assert_eq!(digits.len(), 32);
    assert!(digits.iter().all(|c| c.is_ascii_digit() || ('a'..='f').contains(c)));
    assert_eq!(digits[12], '4');
    assert!(matches!(digits[16], '8' | '9' | 'a' | 'b'));
    let other = MqttHermesProtocolHandler::new("localhost:1883");
    assert_ne!(other.mqtt_handler.options.client_id, id);
}

#[test]
fn the_largest_packet_is_set_whatever_the_options() {
    let options = MqttOptions {
        client_id: "me".to_string(),
        broker_addr: "broker:1".to_string(),
        max_packet_size: 5,
    };
    let handler = MqttHermesProtocolHandler::new_with_options(options);
    assert_eq!(handler.name, "broker:1");
    assert_eq!(
        handler.mqtt_handler.options,
        MqttOptions {
            client_id: "me".to_string(),
            broker_addr: "broker:1".to_string(),
            max_packet_size: 10_000_000,
        }
    );
    assert_eq!(MqttOptions::new("a".to_string(), "b").max_packet_size, 262_144);
}

#[test]
fn a_handler_is_shown_with_its_broker() {
    let handler = MqttHermesProtocolHandler::new("localhost:1883");
    assert_eq!(handler.to_string(), "localhost:1883 (MQTT)");
}

#[test]
fn a_client_that_does_not_start_is_an_error() {
    let started = MqttHermesProtocolHandler::new("localhost:1").started(Err::<(), u8>(7));
    let error = started.unwrap_err();
    assert_eq!(error.context, "Could not start MQTT client on localhost:1");
    assert_eq!(error.cause, 7);
    let started = MqttHermesProtocolHandler::new("localhost:1").started(Ok::<(), u8>(()));
    assert_eq!(started.unwrap().name, "localhost:1");
}

#[test]
fn facades_stand_for_their_components() {
    let handler = MqttHermesProtocolHandler::new("localhost:1883");
    for facade in [handler.hotword(), handler.hotword_backend()] {
        assert_eq!(facade.component, Component::Hotword);
        assert_eq!(facade.toggle_on_topic, HermesTopic::Hotword(None, HotwordCommand::ToggleOn));
        assert_eq!(facade.toggle_off_topic, HermesTopic::Hotword(None, HotwordCommand::ToggleOff));
        assert!(Arc::ptr_eq(&facade.mqtt_handler, &handler.mqtt_handler));
    }
    for facade in [handler.asr(), handler.asr_backend()] {
        assert_eq!(facade.component, Component::Asr);
        assert_eq!(facade.toggle_on_topic, HermesTopic::Asr(AsrCommand::ToggleOn));
        assert_eq!(facade.toggle_off_topic, HermesTopic::Asr(AsrCommand::ToggleOff));
    }
    for facade in [handler.dialogue(), handler.dialogue_backend()] {
        assert_eq!(facade.component, Component::DialogueManager);
        assert_eq!(
            facade.toggle_on_topic,
            HermesTopic::DialogueManager(DialogueManagerCommand::ToggleOn)
        );
        assert_eq!(
            facade.toggle_off_topic,
            HermesTopic::DialogueManager(DialogueManagerCommand::ToggleOff)
        );
    }
    for facade in [handler.audio_server(), handler.audio_server_backend()] {
        assert_eq!(facade.component, Component::AudioServer);
        assert_eq!(
            facade.toggle_on_topic,
            HermesTopic::AudioServer(None, AudioServerCommand::ToggleOn)
        );
        assert_eq!(
            facade.toggle_off_topic,
            HermesTopic::AudioServer(None, AudioServerCommand::ToggleOff)
        );
    }
    for facade in [handler.sound_feedback(), handler.sound_feedback_backend()] {
        assert_eq!(
            facade.toggle_on_topic,
            HermesTopic::Feedback(FeedbackCommand::Sound(SoundCommand::ToggleOn))
        );
        assert_eq!(
            facade.toggle_off_topic,
            HermesTopic::Feedback(FeedbackCommand::Sound(SoundCommand::ToggleOff))
        );
    }
    for facade in [handler.tts(), handler.tts_backend()] {
        assert_eq!(facade.component, Component::Tts);
    }
    for facade in [handler.nlu(), handler.nlu_backend()] {
        assert_eq!(facade.component, Component::Nlu);
    }
}
