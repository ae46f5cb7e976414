use hermes_mqtt::audio::{
    decode_audio_frame, decode_play_bytes, AudioFrameMessage, AudioServerBackendFacade,
    AudioServerFacade, PlayBytesMessage, PlayFinishedMessage,
};
use hermes_mqtt::components::{
    ComponentBackendFacade, ComponentFacade, IdentifiableComponentBackendFacade,
    IdentifiableComponentFacade, IdentifiableToggleableBackendFacade,
    IdentifiableToggleableFacade, ToggleableBackendFacade, ToggleableFacade,
};
use hermes_mqtt::facades::{
    AsrBackendFacade, AsrFacade, DialogueBackendFacade, DialogueFacade, HotwordBackendFacade,
    HotwordFacade, IntentMessage, NluBackendFacade, NluFacade, TtsBackendFacade, TtsFacade,
};
use hermes_mqtt::filter::filter_accepts;
use hermes_mqtt::handler::{BinaryDelivery, Delivery, MqttHandler, PayloadDelivery};
use hermes_mqtt::protocol::MqttHermesProtocolHandler;
use hermes_mqtt::report::Level;
use hermes_mqtt::requests::{Expected, Publication, Subscription};
use hermes_mqtt::topics::{AudioServerCommand, HermesTopic};

fn handler() -> MqttHermesProtocolHandler {
    MqttHermesProtocolHandler::new("localhost:1883")
}

fn json() -> Result<Vec<u8>, u8> {
    Ok(b"{}".to_vec())
}

fn finished(site_id: &str) -> PlayFinishedMessage<u8> {
    PlayFinishedMessage { site_id: site_id.to_string(), json: json() }
}

fn intent(intent_name: &str) -> IntentMessage<u8> {
    IntentMessage { intent_name: intent_name.to_string(), json: json() }
}

fn receives(subscription: &Subscription, publication: &Publication) -> bool {
    filter_accepts(&subscription.filter, &publication.topic_name)
}

fn check_json(
    published: Result<Publication, u8>,
    subscribed: Subscription,
    topic_name: &str,
) {
    let published = published.unwrap();
    assert_eq!(published.topic_name, topic_name);
    assert_eq!(published.payload, b"{}");
    assert_eq!(subscribed.filter, topic_name);
    assert_eq!(subscribed.expected, Expected::Json);
    assert_eq!(subscribed.log_level, Level::Debug);
    assert!(receives(&subscribed, &published));
}

fn check_notification(published: Publication, subscribed: Subscription, topic_name: &str) {
    assert_eq!(published.topic_name, topic_name);
    assert!(published.payload.is_empty());
    assert_eq!(subscribed.filter, topic_name);
    assert_eq!(subscribed.expected, Expected::Notification);
    assert_eq!(subscribed.log_level, Level::Debug);
    assert!(receives(&subscribed, &published));
}

#[test]
fn hotword_messages() {
    let (client, backend) = (handler().hotword(), handler().hotword_backend());
    check_json(
        backend.publish_detected("kitchen".to_string(), json()),
        client.subscribe_detected("kitchen".to_string()),
        "hermes/hotword/kitchen/detected",
    );
    let all = client.subscribe_all_detected();
    assert_eq!(all.filter, "hermes/hotword/+/detected");
    for site in ["kitchen", "", "été"] {
        let published = backend.publish_detected(site.to_string(), json()).unwrap();
        assert!(receives(&all, &published));
    }
    let elsewhere = backend.publish_detected("attic".to_string(), json()).unwrap();
    assert!(!receives(&client.subscribe_detected("kitchen".to_string()), &elsewhere));
}

#[test]
fn asr_messages() {
    let (client, backend) = (handler().asr(), handler().asr_backend());
    check_json(
        client.publish_start_listening(json()),
        backend.subscribe_start_listening(),
        "hermes/asr/startListening",
    );
    check_json(
        client.publish_stop_listening(json()),
        backend.subscribe_stop_listening(),
        "hermes/asr/stopListening",
    );
    check_notification(client.publish_reload(), backend.subscribe_reload(), "hermes/asr/reload");
    check_json(
        client.publish_injection_request(json()),
        backend.subscribe_injection_request(),
        "hermes/asr/inject",
    );
    check_notification(
        client.publish_injection_status_request(),
        backend.subscribe_injection_status_request(),
        "hermes/asr/injectStatusRequest",
    );
    check_json(
        backend.publish_text_captured(json()),
        client.subscribe_text_captured(),
        "hermes/asr/textCaptured",
    );
    check_json(
        backend.publish_partial_text_captured(json()),
        client.subscribe_partial_text_captured(),
        "hermes/asr/partialTextCaptured",
    );
    check_json(
        backend.publish_injection_status(json()),
        client.subscribe_injection_status(),
        "hermes/asr/injectStatus",
    );
}

#[test]
fn tts_and_nlu_messages() {
    let (client, backend) = (handler().tts(), handler().tts_backend());
    check_json(client.publish_say(json()), backend.subscribe_say(), "hermes/tts/say");
    check_json(
        backend.publish_say_finished(json()),
        client.subscribe_say_finished(),
        "hermes/tts/sayFinished",
    );
    let (client, backend) = (handler().nlu(), handler().nlu_backend());
    check_json(client.publish_query(json()), backend.subscribe_query(), "hermes/nlu/query");
    check_json(
        client.publish_partial_query(json()),
        backend.subscribe_partial_query(),
        "hermes/nlu/partialQuery",
    );
    check_json(
        backend.publish_slot_parsed(json()),
        client.subscribe_slot_parsed(),
        "hermes/nlu/slotParsed",
    );
    check_json(
        backend.publish_intent_parsed(json()),
        client.subscribe_intent_parsed(),
        "hermes/nlu/intentParsed",
    );
    check_json(
        NluBackendFacade::publish_intent_not_recognized(&*backend, json()),
        NluFacade::subscribe_intent_not_recognized(&*client),
        "hermes/nlu/intentNotRecognized",
    );
}

#[test]
fn dialogue_messages() {
    let (client, backend) = (handler().dialogue(), handler().dialogue_backend());
    check_json(
        backend.publish_session_queued(json()),
        client.subscribe_session_queued(),
        "hermes/dialogueManager/sessionQueued",
    );
    check_json(
        backend.publish_session_started(json()),
        client.subscribe_session_started(),
        "hermes/dialogueManager/sessionStarted",
    );
    check_json(
        backend.publish_session_ended(json()),
        client.subscribe_session_ended(),
        "hermes/dialogueManager/sessionEnded",
    );
    check_json(
        backend.publish_intent(intent("turnOn")),
        client.subscribe_intent("turnOn".to_string()),
        "hermes/intent/turnOn",
    );
    check_json(
        DialogueBackendFacade::publish_intent_not_recognized(&*backend, json()),
        DialogueFacade::subscribe_intent_not_recognized(&*client),
        "hermes/dialogueManager/intentNotRecognized",
    );
    check_json(
        client.publish_start_session(json()),
        backend.subscribe_start_session(),
        "hermes/dialogueManager/startSession",
    );
    check_json(
        client.publish_continue_session(json()),
        backend.subscribe_continue_session(),
        "hermes/dialogueManager/continueSession",
    );
    check_json(
        client.publish_end_session(json()),
        backend.subscribe_end_session(),
        "hermes/dialogueManager/endSession",
    );
    let all = client.subscribe_intents();
    assert_eq!(all.filter, "hermes/intent/#");
    for name in ["turnOn", "a/b", ""] {
        let published = backend.publish_intent(intent(name)).unwrap();
        assert!(receives(&all, &published));
    }
    assert!(!receives(&all, &client.publish_start_session(json()).unwrap()));
}

#[test]
fn play_finished_messages() {
    let (client, backend) = (handler().audio_server(), handler().audio_server_backend());
    check_json(
        backend.publish_play_finished(finished("kitchen")),
        client.subscribe_play_finished("kitchen".to_string()),
        "hermes/audioServer/kitchen/playFinished",
    );
    let all = client.subscribe_all_play_finished();
    assert_eq!(all.filter, "hermes/audioServer/+/playFinished");
    let published = backend.publish_play_finished(finished("attic")).unwrap();
    assert!(receives(&all, &published));
    assert!(!receives(&client.subscribe_play_finished("kitchen".to_string()), &published));
}

#[test]
fn component_messages() {
    let (client, backend) = (handler().tts(), handler().tts_backend());
    check_notification(
        ComponentFacade::publish_version_request(&*client),
        ComponentBackendFacade::subscribe_version_request(&*backend),
        "hermes/tts/versionRequest",
    );
    check_json(
        ComponentBackendFacade::publish_version(&*backend, json()),
        ComponentFacade::subscribe_version(&*client),
        "hermes/tts/version",
    );
    check_json(
        ComponentBackendFacade::publish_error(&*backend, json()),
        ComponentFacade::subscribe_error(&*client),
        "hermes/tts/error",
    );
    let (client, backend) = (handler().hotword(), handler().hotword_backend());
    let site = || "kitchen".to_string();
    check_notification(
        IdentifiableComponentFacade::publish_version_request(&*client, site()),
        IdentifiableComponentBackendFacade::subscribe_version_request(&*backend, site()),
        "hermes/hotword/kitchen/versionRequest",
    );
    check_json(
        IdentifiableComponentBackendFacade::publish_version(&*backend, site(), json()),
        IdentifiableComponentFacade::subscribe_version(&*client, site()),
        "hermes/hotword/kitchen/version",
    );
    check_json(
        IdentifiableComponentBackendFacade::publish_error(&*backend, site(), json()),
        IdentifiableComponentFacade::subscribe_error(&*client, site()),
        "hermes/hotword/kitchen/error",
    );
    let request = ComponentFacade::publish_version_request(&*handler().asr());
    let other = ComponentBackendFacade::subscribe_version_request(&*handler().nlu_backend());
    assert!(!receives(&other, &request));
}

#[test]
fn toggle_messages() {
    let (client, backend) = (handler().asr(), handler().asr_backend());
    check_notification(
        ToggleableFacade::publish_toggle_on(&*client),
        ToggleableBackendFacade::subscribe_toggle_on(&*backend),
        "hermes/asr/toggleOn",
    );
    check_notification(
        ToggleableFacade::publish_toggle_off(&*client),
        ToggleableBackendFacade::subscribe_toggle_off(&*backend),
        "hermes/asr/toggleOff",
    );
    let (client, backend) = (handler().sound_feedback(), handler().sound_feedback_backend());
    check_json(
        client.publish_toggle_on(json()),
        backend.subscribe_toggle_on(),
        "hermes/feedback/sound/toggleOn",
    );
    check_json(
        client.publish_toggle_off(json()),
        backend.subscribe_toggle_off(),
        "hermes/feedback/sound/toggleOff",
    );
    let client = handler().hotword();
    let plain = ToggleableFacade::publish_toggle_on(&*client);
    let sited =
        IdentifiableToggleableFacade::publish_toggle_on(&*client, Ok::<_, ()>(b"\"a\"".to_vec()))
            .unwrap();
    assert_eq!(plain.topic_name, "hermes/hotword/toggleOn");
    assert_eq!(plain.payload, b"");
    assert_eq!(sited.topic_name, "hermes/hotword/toggleOn");
    assert_eq!(sited.payload, b"\"a\"");
    let on = IdentifiableToggleableFacade::publish_toggle_on(&*handler().hotword(), json());
    let off = IdentifiableToggleableBackendFacade::subscribe_toggle_off(&*handler().hotword());
    assert!(!receives(&off, &on.unwrap()));
}

#[test]
fn a_payload_that_cannot_be_serialised_is_not_published() {
    let published = handler().tts().publish_say(Err::<Vec<u8>, &str>("no"));
    assert_eq!(published, Err("no"));
    let finished = PlayFinishedMessage { site_id: "kitchen".to_string(), json: Err("no") };
    assert_eq!(handler().audio_server().publish_play_finished(finished), Err("no"));
    let intent = IntentMessage { intent_name: "turnOn".to_string(), json: Err("no") };
    assert_eq!(handler().dialogue().publish_intent(intent), Err("no"));
}

#[test]
fn a_payload_is_delivered_where_it_can_be_decoded() {
    assert_eq!(
        MqttHandler::receive_payload(Ok::<u32, &str>(3)),
        PayloadDelivery::<u32, &str>::Call(3)
    );
    assert_eq!(
        MqttHandler::receive_payload(Err::<u32, &str>("no")),
        PayloadDelivery::<u32, &str>::Warn("no")
    );
}

#[test]
fn a_message_on_an_unknown_topic_is_not_delivered() {
    assert_eq!(
        MqttHandler::receive_binary_payload("hermes/audioServer/kitchen/playBytes", &[1]),
        BinaryDelivery::UnknownTopic
    );
    assert_eq!(
        MqttHandler::receive_binary_payload("hermes/audioServer/kitchen/audioFrame", &[1, 255]),
        BinaryDelivery::Call(
            HermesTopic::AudioServer(
                Some("kitchen".to_string()),
                AudioServerCommand::AudioFrame
            ),
            &[1, 255]
        )
    );
}

#[test]
fn audio_frames_come_back_whole() {
    let (client, backend) = (handler().audio_server(), handler().audio_server_backend());
    let subscribed = client.subscribe_audio_frame("kitchen".to_string());
    assert_eq!(subscribed.filter, "hermes/audioServer/kitchen/audioFrame");
    assert_eq!(subscribed.expected, Expected::Binary);
    assert_eq!(subscribed.log_level, Level::Trace);
    let published = backend.publish_audio_frame(AudioFrameMessage {
        wav_frame: vec![42; 1000],
        site_id: "kitchen".to_string(),
    });
    assert!(receives(&subscribed, &published));
    match MqttHandler::receive_binary_payload(&published.topic_name, &published.payload) {
        BinaryDelivery::Call(topic, bytes) => assert_eq!(
            decode_audio_frame(&topic, bytes),
            Some(AudioFrameMessage { wav_frame: vec![42; 1000], site_id: "kitchen".to_string() })
        ),
        BinaryDelivery::UnknownTopic => panic!("no topic"),
    }
}

#[test]
fn bytes_to_play_come_back_whole() {
    let (client, backend) = (handler().audio_server(), handler().audio_server_backend());
    let published = client.publish_play_bytes(PlayBytesMessage {
        id: "hello".to_string(),
        wav_bytes: vec![1, 2, 3],
        site_id: "kitchen".to_string(),
    });
    assert_eq!(published.topic_name, "hermes/audioServer/kitchen/playBytes/hello");
    let here = backend.subscribe_play_bytes("kitchen".to_string());
    assert_eq!(here.filter, "hermes/audioServer/kitchen/playBytes/#");
    let all = backend.subscribe_all_play_bytes();
    assert_eq!(all.filter, "hermes/audioServer/+/playBytes/#");
    for subscribed in [&here, &all] {
        assert_eq!(subscribed.expected, Expected::Binary);
        assert_eq!(subscribed.log_level, Level::Debug);
        assert!(receives(subscribed, &published));
    }
    assert!(!receives(&backend.subscribe_play_bytes("attic".to_string()), &published));
    match MqttHandler::receive_binary_payload(&published.topic_name, &published.payload) {
        BinaryDelivery::Call(topic, bytes) => assert_eq!(
            decode_play_bytes(&topic, bytes),
            Some(PlayBytesMessage {
                id: "hello".to_string(),
                wav_bytes: vec![1, 2, 3],
                site_id: "kitchen".to_string(),
            })
        ),
        BinaryDelivery::UnknownTopic => panic!("no topic"),
    }
}

#[test]
fn bytes_under_an_identifier_of_two_levels_come_back_whole() {
    let (client, backend) = (handler().audio_server(), handler().audio_server_backend());
    let published = client.publish_play_bytes(PlayBytesMessage {
        id: "a/b".to_string(),
        wav_bytes: vec![9],
        site_id: "kitchen".to_string(),
    });
    assert!(receives(&backend.subscribe_all_play_bytes(), &published));
    match MqttHandler::receive_binary_payload(&published.topic_name, &published.payload) {
        BinaryDelivery::Call(topic, bytes) => assert_eq!(
            decode_play_bytes(&topic, bytes),
            Some(PlayBytesMessage {
                id: "a/b".to_string(),
                wav_bytes: vec![9],
                site_id: "kitchen".to_string(),
            })
        ),
        BinaryDelivery::UnknownTopic => panic!("no topic"),
    }
}

#[test]
fn bytes_without_an_identifier_reach_but_stand_for_no_topic() {
    let subscribed = handler().audio_server_backend().subscribe_play_bytes("kitchen".to_string());
    let name = "hermes/audioServer/kitchen/playBytes";
    assert!(filter_accepts(&subscribed.filter, name));
    assert_eq!(MqttHandler::receive_binary_payload(name, &[]), BinaryDelivery::UnknownTopic);
}

fn deliver<'a>(
    expected: Expected,
    topic_name: &str,
    payload: &'a [u8],
    decoded: Result<u32, &'static str>,
) -> Delivery<'a, u32, &'static str> {
    MqttHandler::deliver(expected, topic_name, payload, decoded)
}

#[test]
fn a_notification_is_delivered_for_every_message() {
    for name in ["hermes/asr/reload", "not a topic", ""] {
        for payload in [&[][..], b"{}", &[0, 159, 146]] {
            for decoded in [Ok(1), Err("no")] {
                assert_eq!(
                    deliver(Expected::Notification, name, payload, decoded),
                    Delivery::Notification
                );
            }
        }
    }
}

#[test]
fn a_value_is_delivered_whatever_the_name() {
    for name in ["hermes/asr/textCaptured", "not a topic"] {
        assert_eq!(
            deliver(Expected::Json, name, b"7", Ok(7)),
            Delivery::Payload(PayloadDelivery::Call(7))
        );
        assert_eq!(
            deliver(Expected::Json, name, b"x", Err("no")),
            Delivery::Payload(PayloadDelivery::Warn("no"))
        );
    }
}

#[test]
fn bytes_are_delivered_whole_at_any_length() {
    let topic = || {
        HermesTopic::AudioServer(Some("kitchen".to_string()), AudioServerCommand::AudioFrame)
    };
    for length in [0, 1, 127, 128, 129, 2047, 2048, 100_000] {
        let payload: Vec<u8> = (0..length).map(|i| (i % 256) as u8).collect();
        assert_eq!(
            deliver(
                Expected::Binary,
                "hermes/audioServer/kitchen/audioFrame",
                &payload,
                Err("not read")
            ),
            Delivery::Binary(BinaryDelivery::Call(topic(), &payload))
        );
    }
    assert_eq!(
        deliver(Expected::Binary, "hermes/audioServer/kitchen", &[1], Ok(1)),
        Delivery::Binary(BinaryDelivery::UnknownTopic)
    );
}

#[test]
fn bytes_are_delivered_in_the_order_of_the_messages() {
    let messages = [
        ("hermes/audioServer/kitchen/playBytes/a", vec![1]),
        ("hermes/audioServer/kitchen/playBytes", vec![2]),
        ("hermes/audioServer/attic/playBytes/b", vec![3, 4]),
        ("hermes/audioServer/kitchen/playBytes/a", vec![]),
    ];
    let mut played = Vec::new();
    for (name, payload) in &messages {
        if let BinaryDelivery::Call(topic, bytes) =
            MqttHandler::receive_binary_payload(name, payload)
        {
            let message = decode_play_bytes(&topic, bytes).unwrap();
            played.push((message.site_id, message.id, message.wav_bytes));
        }
    }
    let call = |site: &str, id: &str, bytes: &[u8]| {
        (site.to_string(), id.to_string(), bytes.to_vec())
    };
    assert_eq!(
        played,
        vec![call("kitchen", "a", &[1]), call("attic", "b", &[3, 4]), call("kitchen", "a", &[])]
    );
}

#[test]
fn a_topic_of_another_kind_is_not_decoded() {
    let site = || Some("kitchen".to_string());
    let bytes = HermesTopic::AudioServer(site(), AudioServerCommand::PlayBytes("a".to_string()));
    let frames = HermesTopic::AudioServer(site(), AudioServerCommand::AudioFrame);
    let nowhere = HermesTopic::AudioServer(None, AudioServerCommand::AudioFrame);
    assert_eq!(decode_audio_frame(&bytes, &[1]), None);
    assert_eq!(decode_audio_frame(&nowhere, &[1]), None);
    assert_eq!(decode_play_bytes(&frames, &[1]), None);
    assert!(decode_audio_frame(&frames, &[1]).is_some());
    assert!(decode_play_bytes(&bytes, &[1]).is_some());
}

#[test]
fn bytes_for_a_site_of_two_levels_reach_that_site_only() {
    let (client, backend) = (handler().audio_server(), handler().audio_server_backend());
    let published = client.publish_play_bytes(PlayBytesMessage {
        id: "hello".to_string(),
        wav_bytes: vec![1],
        site_id: "home/kitchen".to_string(),
    });
    assert!(receives(&backend.subscribe_play_bytes("home/kitchen".to_string()), &published));
    assert!(!receives(&backend.subscribe_all_play_bytes(), &published));
    assert_eq!(
        MqttHandler::receive_binary_payload(&published.topic_name, &published.payload),
        BinaryDelivery::UnknownTopic
    );
}

#[test]
fn values_are_delivered_in_the_order_of_the_messages() {
    let mut values = Vec::new();
    for decoded in [Ok(3), Err("no"), Ok(1), Ok(3)] {
        if let Delivery::Payload(PayloadDelivery::Call(value)) =
            deliver(Expected::Json, "hermes/asr/textCaptured", b"", decoded)
        {
            values.push(value);
        }
    }
    assert_eq!(values, vec![3, 1, 3]);
}
