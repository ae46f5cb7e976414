use hermes_mqtt::filter::filter_accepts;
use hermes_mqtt::report::Level;
use hermes_mqtt::requests::{Expected, Subscription};
use hermes_mqtt::subscriptions::Subscriptions;

fn subscription(filter: &str) -> Subscription {
    Subscription {
        filter: filter.to_string(),
        expected: Expected::Json,
        log_level: Level::Debug,
    }
}

#[test]
fn a_filter_without_a_wildcard_accepts_itself_only() {
    assert!(filter_accepts("hermes/asr/reload", "hermes/asr/reload"));
    assert!(!filter_accepts("hermes/asr/reload", "hermes/asr/reloads"));
    assert!(!filter_accepts("hermes/asr/reload", "hermes/asr"));
    assert!(!filter_accepts("hermes/asr/reload", "hermes/asr/reload/"));
    assert!(filter_accepts("", ""));
}

#[test]
fn a_plus_accepts_one_level() {
    assert!(filter_accepts("hermes/hotword/+/detected", "hermes/hotword/kitchen/detected"));
    assert!(filter_accepts("hermes/hotword/+/detected", "hermes/hotword//detected"));
    assert!(!filter_accepts("hermes/hotword/+/detected", "hermes/hotword/detected"));
    assert!(!filter_accepts("hermes/hotword/+/detected", "hermes/hotword/a/b/detected"));
    assert!(!filter_accepts("hermes/hotword/+/detected", "hermes/hotword/a/version"));
    assert!(!filter_accepts("hermes/hotword/a+/detected", "hermes/hotword/ab/detected"));
}

#[test]
fn a_hash_accepts_the_rest() {
    assert!(filter_accepts("hermes/intent/#", "hermes/intent/turnOn"));
    assert!(filter_accepts("hermes/intent/#", "hermes/intent/a/b/c"));
    assert!(filter_accepts("hermes/intent/#", "hermes/intent"));
    assert!(!filter_accepts("hermes/intent/#", "hermes"));
    assert!(!filter_accepts("hermes/intent/#", "hermes/intents/a"));
    assert!(filter_accepts("#", "a/b"));
    assert!(!filter_accepts("hermes/#/detected", "hermes/hotword/detected"));
    assert!(filter_accepts("hermes/+/playBytes/#", "hermes/kitchen/playBytes/1"));
}

#[test]
fn recipients_are_the_subscriptions_that_accept_the_name() {
    let mut table = Subscriptions::new();
    assert!(table.recipients("hermes/intent/turnOn").is_empty());
    assert_eq!(table.add(subscription("hermes/intent/turnOn")), 0);
    assert_eq!(table.add(subscription("hermes/asr/reload")), 1);
    assert_eq!(table.add(subscription("hermes/intent/#")), 2);
    assert_eq!(table.add(subscription("hermes/intent/turnOn")), 3);
    assert_eq!(table.recipients("hermes/intent/turnOn"), vec![0, 2, 3]);
    assert_eq!(table.recipients("hermes/intent/turnOff"), vec![2]);
    assert_eq!(table.recipients("hermes/asr/reload"), vec![1]);
    assert!(table.recipients("hermes/tts/say").is_empty());
}
