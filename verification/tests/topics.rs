use hermes_mqtt::commands::{
    AsrCommand, Component, ComponentCommand, DialogueManagerCommand, HotwordCommand, NluCommand,
    SoundCommand, TtsCommand,
};
use hermes_mqtt::text::{join_levels, split_levels};
use hermes_mqtt::topics::{AudioServerCommand, FeedbackCommand, HermesTopic};

fn site(name: &str) -> Option<String> {
    Some(name.to_string())
}

fn named_topics() -> Vec<(HermesTopic, &'static str)> {
    vec![
        (
            HermesTopic::Feedback(FeedbackCommand::Sound(SoundCommand::ToggleOn)),
            "hermes/feedback/sound/toggleOn",
        ),
        (
            HermesTopic::Feedback(FeedbackCommand::Sound(SoundCommand::ToggleOff)),
            "hermes/feedback/sound/toggleOff",
        ),
        (HermesTopic::Hotword(None, HotwordCommand::ToggleOn), "hermes/hotword/toggleOn"),
        (HermesTopic::Hotword(None, HotwordCommand::ToggleOff), "hermes/hotword/toggleOff"),
        (
            HermesTopic::Hotword(site("kitchen"), HotwordCommand::Detected),
            "hermes/hotword/kitchen/detected",
        ),
        (HermesTopic::Hotword(site(""), HotwordCommand::Detected), "hermes/hotword//detected"),
        (HermesTopic::Asr(AsrCommand::ToggleOn), "hermes/asr/toggleOn"),
        (HermesTopic::Asr(AsrCommand::ToggleOff), "hermes/asr/toggleOff"),
        (HermesTopic::Asr(AsrCommand::StartListening), "hermes/asr/startListening"),
        (HermesTopic::Asr(AsrCommand::StopListening), "hermes/asr/stopListening"),
        (HermesTopic::Asr(AsrCommand::Reload), "hermes/asr/reload"),
        (HermesTopic::Asr(AsrCommand::TextCaptured), "hermes/asr/textCaptured"),
        (HermesTopic::Asr(AsrCommand::PartialTextCaptured), "hermes/asr/partialTextCaptured"),
        (HermesTopic::Asr(AsrCommand::Inject), "hermes/asr/inject"),
        (HermesTopic::Asr(AsrCommand::InjectStatusRequest), "hermes/asr/injectStatusRequest"),
        (HermesTopic::Asr(AsrCommand::InjectStatus), "hermes/asr/injectStatus"),
        (HermesTopic::Tts(TtsCommand::Say), "hermes/tts/say"),
        (HermesTopic::Tts(TtsCommand::SayFinished), "hermes/tts/sayFinished"),
        (HermesTopic::Nlu(NluCommand::Query), "hermes/nlu/query"),
        (HermesTopic::Nlu(NluCommand::PartialQuery), "hermes/nlu/partialQuery"),
        (HermesTopic::Nlu(NluCommand::SlotParsed), "hermes/nlu/slotParsed"),
        (HermesTopic::Nlu(NluCommand::IntentParsed), "hermes/nlu/intentParsed"),
        (HermesTopic::Nlu(NluCommand::IntentNotRecognized), "hermes/nlu/intentNotRecognized"),
        (
            HermesTopic::DialogueManager(DialogueManagerCommand::ToggleOn),
            "hermes/dialogueManager/toggleOn",
        ),
        (
            HermesTopic::DialogueManager(DialogueManagerCommand::ToggleOff),
            "hermes/dialogueManager/toggleOff",
        ),
        (
            HermesTopic::DialogueManager(DialogueManagerCommand::StartSession),
            "hermes/dialogueManager/startSession",
        ),
        (
            HermesTopic::DialogueManager(DialogueManagerCommand::ContinueSession),
            "hermes/dialogueManager/continueSession",
        ),
        (
            HermesTopic::DialogueManager(DialogueManagerCommand::EndSession),
            "hermes/dialogueManager/endSession",
        ),
        (
            HermesTopic::DialogueManager(DialogueManagerCommand::SessionQueued),
            "hermes/dialogueManager/sessionQueued",
        ),
        (
            HermesTopic::DialogueManager(DialogueManagerCommand::SessionStarted),
            "hermes/dialogueManager/sessionStarted",
        ),
        (
            HermesTopic::DialogueManager(DialogueManagerCommand::SessionEnded),
            "hermes/dialogueManager/sessionEnded",
        ),
        (
            HermesTopic::DialogueManager(DialogueManagerCommand::IntentNotRecognized),
            "hermes/dialogueManager/intentNotRecognized",
        ),
        (HermesTopic::Intent("turnOn".to_string()), "hermes/intent/turnOn"),
        (HermesTopic::AudioServer(None, AudioServerCommand::ToggleOn), "hermes/audioServer/toggleOn"),
        (
            HermesTopic::AudioServer(None, AudioServerCommand::ToggleOff),
            "hermes/audioServer/toggleOff",
        ),
        (
            HermesTopic::AudioServer(site("kitchen"), AudioServerCommand::AudioFrame),
            "hermes/audioServer/kitchen/audioFrame",
        ),
        (
            HermesTopic::AudioServer(site("kitchen"), AudioServerCommand::PlayFinished),
            "hermes/audioServer/kitchen/playFinished",
        ),
        (
            HermesTopic::AudioServer(
                site("kitchen"),
                AudioServerCommand::PlayBytes("42".to_string()),
            ),
            "hermes/audioServer/kitchen/playBytes/42",
        ),
        (
            HermesTopic::Component(None, Component::Hotword, ComponentCommand::VersionRequest),
            "hermes/hotword/versionRequest",
        ),
        (
            HermesTopic::Component(None, Component::Asr, ComponentCommand::Version),
            "hermes/asr/version",
        ),
        (
            HermesTopic::Component(None, Component::Tts, ComponentCommand::Error),
            "hermes/tts/error",
        ),
        (
            HermesTopic::Component(site("kitchen"), Component::Nlu, ComponentCommand::Version),
            "hermes/nlu/kitchen/version",
        ),
        (
            HermesTopic::Component(
                site("kitchen"),
                Component::DialogueManager,
                ComponentCommand::VersionRequest,
            ),
            "hermes/dialogueManager/kitchen/versionRequest",
        ),
        (
            HermesTopic::Component(site("été"), Component::AudioServer, ComponentCommand::Error),
            "hermes/audioServer/été/error",
        ),
    ]
}

#[test]
fn topics_have_their_names() {
    for (topic, name) in named_topics() {
        assert_eq!(topic.as_path(), name);
        assert_eq!(topic.to_string(), name);
    }
}

#[test]
fn topics_are_read_back_from_their_names() {
    for (topic, name) in named_topics() {
        assert_eq!(HermesTopic::from_path(name), Some(topic));
    }
}

#[test]
fn names_of_different_topics_differ() {
    let topics = named_topics();
    for i in 0..topics.len() {
        for j in 0..i {
            assert_ne!(topics[i].0.as_path(), topics[j].0.as_path());
        }
    }
}

#[test]
fn names_that_stand_for_no_topic() {
    for name in [
        "",
        "/",
        "hermes",
        "hermes/asr",
        "hermes/asr/sing",
        "hermes/asr/ToggleOn",
        "hermes/asr/toggleOn/",
        "/hermes/asr/toggleOn",
        "zeus/asr/toggleOn",
        "hermes/kitchen/toggleOn",
        "hermes/asr/kitchen/toggleOn",
        "hermes/feedback/light/toggleOn",
        "hermes/feedback/sound/version",
        "hermes/feedback/sound",
        "hermes/intent",
        "hermes/audioServer/kitchen/playBytes",
        "hermes/audioServer/playBytes/kitchen",
        "hermes/audioServer/kitchen/audioFrame/a",
    ] {
        assert_eq!(HermesTopic::from_path(name), None, "{}", name);
    }
}

#[test]
fn an_intent_or_an_identifier_may_have_several_levels() {
    let intent = HermesTopic::Intent("a//b/".to_string());
    assert_eq!(intent.as_path(), "hermes/intent/a//b/");
    assert_eq!(HermesTopic::from_path("hermes/intent/a//b/"), Some(intent));
    let bytes = HermesTopic::AudioServer(
        site("kitchen"),
        AudioServerCommand::PlayBytes("a/b".to_string()),
    );
    assert_eq!(bytes.as_path(), "hermes/audioServer/kitchen/playBytes/a/b");
    assert_eq!(HermesTopic::from_path("hermes/audioServer/kitchen/playBytes/a/b"), Some(bytes));
    assert_eq!(
        HermesTopic::from_path("hermes/intent/"),
        Some(HermesTopic::Intent("".to_string()))
    );
}

#[test]
fn a_site_with_a_slash_is_spelt_but_not_read() {
    let topic = HermesTopic::Hotword(site("a/b"), HotwordCommand::Detected);
    assert_eq!(topic.as_path(), "hermes/hotword/a/b/detected");
    assert_eq!(HermesTopic::from_path("hermes/hotword/a/b/detected"), None);
}

#[test]
fn bytes_to_play_without_a_site_are_spelt_but_not_read() {
    let topic = HermesTopic::AudioServer(None, AudioServerCommand::PlayBytes("1".to_string()));
    assert_eq!(topic.as_path(), "hermes/audioServer/playBytes/1");
    assert_eq!(HermesTopic::from_path(&topic.as_path()), None);
}

#[test]
fn a_site_may_be_named_like_a_command() {
    assert_eq!(
        HermesTopic::from_path("hermes/audioServer/playBytes/playFinished"),
        Some(HermesTopic::AudioServer(site("playBytes"), AudioServerCommand::PlayFinished))
    );
    assert_eq!(
        HermesTopic::from_path("hermes/hotword/version/version"),
        Some(HermesTopic::Component(site("version"), Component::Hotword, ComponentCommand::Version))
    );
}

#[test]
fn levels_are_what_stands_between_slashes() {
    assert_eq!(split_levels(""), vec![""]);
    assert_eq!(split_levels("/"), vec!["", ""]);
    assert_eq!(split_levels("a"), vec!["a"]);
    assert_eq!(split_levels("a/été//c/"), vec!["a", "été", "", "c", ""]);
    assert_eq!(join_levels(&split_levels("a/été//c/"), 0), "a/été//c/");
    assert_eq!(join_levels(&split_levels("a/été//c/"), 2), "/c/");
    assert_eq!(join_levels(&split_levels("a/été"), 2), "");
    assert_eq!(join_levels(&vec![], 0), "");
}

#[test]
fn words_of_commands() {
    assert_eq!(Component::DialogueManager.as_path(), "dialogueManager");
    assert_eq!(Component::from_path(&"audioServer".to_string()), Some(Component::AudioServer));
    assert_eq!(Component::from_path(&"AudioServer".to_string()), None);
    assert_eq!(
        AudioServerCommand::from_path(&"audioFrame".to_string()),
        Some(AudioServerCommand::AudioFrame)
    );
    assert_eq!(AudioServerCommand::from_path(&"playBytes".to_string()), None);
    assert_eq!(AudioServerCommand::PlayBytes("7".to_string()).as_path(), "playBytes");
}
