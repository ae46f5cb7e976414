use hermes_mqtt::report::{frame_preview, payload_preview, shown_bytes, Level};
use hermes_mqtt::handler::MqttHandler;
use hermes_mqtt::topics::{AudioServerCommand, HermesTopic};
use hermes_mqtt::commands::AsrCommand;

#[test]
fn a_short_payload_is_shown_whole() {
    assert_eq!(payload_preview(b""), "");
    assert_eq!(payload_preview(b"{\"siteId\":\"kitchen\"}"), "{\"siteId\":\"kitchen\"}");
    assert_eq!(payload_preview("été".as_bytes()), "été");
    let payload = vec![b'a'; 2047];
    assert_eq!(payload_preview(&payload), "a".repeat(2047));
}

#[test]
fn a_long_payload_is_shown_by_its_size_and_start() {
    let mut payload = vec![b'a'; 128];
    payload.resize(2048, b'b');
    assert_eq!(payload_preview(&payload), format!("size = 2048, start = {}", "a".repeat(128)));
    payload.resize(1_000_005, b'c');
    assert_eq!(payload_preview(&payload), format!("size = 1000005, start = {}", "a".repeat(128)));
}

#[test]
fn bytes_that_are_no_text_are_replaced() {
    assert_eq!(payload_preview(&[b'a', 0xff, b'b']), "a\u{fffd}b");
}

#[test]
fn the_shown_bytes_of_a_payload() {
    assert_eq!(shown_bytes(&[1, 2, 3]), &[1, 2, 3]);
    assert_eq!(shown_bytes(&[7; 2047]).len(), 2047);
    assert_eq!(shown_bytes(&[7; 2048]), &[7; 128]);
}

#[test]
fn the_frame_of_a_preview() {
    assert_eq!(frame_preview(3, "abc".to_string()), "abc");
    assert_eq!(frame_preview(2047, "abc".to_string()), "abc");
    assert_eq!(frame_preview(2048, "abc".to_string()), "size = 2048, start = abc");
    assert_eq!(
        frame_preview(usize::MAX, String::new()),
        format!("size = {}, start = ", usize::MAX)
    );
}

#[test]
fn audio_frames_are_reported_below_the_rest() {
    let frames = HermesTopic::AudioServer(Some("a".to_string()), AudioServerCommand::AudioFrame);
    assert_eq!(MqttHandler::log_level(&frames), Level::Trace);
    let all_frames = HermesTopic::AudioServer(None, AudioServerCommand::AudioFrame);
    assert_eq!(MqttHandler::log_level(&all_frames), Level::Trace);
    let finished = HermesTopic::AudioServer(None, AudioServerCommand::PlayFinished);
    assert_eq!(MqttHandler::log_level(&finished), Level::Debug);
    assert_eq!(MqttHandler::log_level(&HermesTopic::Asr(AsrCommand::Reload)), Level::Debug);
}
