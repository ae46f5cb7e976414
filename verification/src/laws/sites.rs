//! What is said and heard about one site, one request or one intent, and about
//! all of them.
use crate::audio::{
    AudioFrameMessage, AudioServerBackendFacade, AudioServerFacade, PlayBytesMessage,
    PlayFinishedMessage,
};
use crate::commands::HotwordCommand;
use crate::facades::{
    DialogueBackendFacade, DialogueFacade, HotwordBackendFacade, HotwordFacade, IntentMessage,
};
use crate::filter::{accepts, lemma_filter_accepts_itself};
use crate::laws::deliveries::{is_message, is_subscription};
use crate::laws::names::{lemma_path_is_spelt, spelt};
use crate::laws::talk::heard_as_value;
use crate::laws::{
    lemma_all_detected, lemma_all_intents_reach, lemma_all_play_finished, lemma_play_bytes_reach,
};
use crate::requests::{publication, Expected, Publication, Subscription};
use crate::topics::{lemma_topic_at_path, AudioServerModel, SiteId, TopicModel};
use vstd::prelude::*;

verus! {

/// The text of a name is the same with a `/` at the end of what comes before a
/// word as with it at the start of the word.
proof fn lemma_slash_moves(before: Seq<char>, word: Seq<char>, with_slash: Seq<char>)
    requires
        with_slash == seq!['/'] + word,
    ensures
        before + "/"@ + word == before + with_slash,
{
    reveal_strlit("/");
    assert(before + "/"@ + word =~= before + with_slash);
}

/// The hotword detector tells of a hotword at a site, and those who subscribed
/// for that site hear of it; those who subscribed for all sites do so where the
/// site is one level of a name.
pub fn hotword_detected<S: HotwordBackendFacade, H: HotwordFacade, E>(
    speaker: &S,
    hearer: &H,
    site: SiteId,
    same_site: SiteId,
    payload: Result<Vec<u8>, E>,
) -> (talk: (Result<Publication, E>, Subscription, Subscription))
    requires
        same_site@ == site@,
    ensures
        heard_as_value(talk.0, payload, talk.1, "hermes/hotword/"@ + site@ + "/detected"@),
        is_subscription(talk.2, "hermes/hotword/+/detected"@, Expected::Json),
        talk.2.log_level is Debug,
        !site@.contains('/') ==> (talk.0 matches Ok(p) ==> accepts(
            talk.2.filter@,
            p.topic_name@,
        )),
{
    let ghost topic = TopicModel::Hotword(Some(site@), HotwordCommand::Detected);
    let ghost any = TopicModel::Hotword(Some("+"@), HotwordCommand::Detected);
    proof {
        lemma_path_is_spelt(topic);
        lemma_path_is_spelt(any);
        reveal_strlit("/");
        reveal_strlit("+");
        reveal_strlit("hermes/hotword/");
        reveal_strlit("detected");
        reveal_strlit("/detected");
        reveal_strlit("hermes/hotword/+/detected");
        assert("/detected"@ =~= seq!['/'] + "detected"@);
        lemma_slash_moves("hermes/hotword/"@ + site@, "detected"@, "/detected"@);
        assert(spelt(any) =~= "hermes/hotword/+/detected"@);
        lemma_filter_accepts_itself(topic.path());
        if !site@.contains('/') {
            lemma_topic_at_path(topic);
            lemma_all_detected(publication(topic, Seq::empty()));
        }
    }
    (
        speaker.publish_detected(site, payload),
        hearer.subscribe_detected(same_site),
        hearer.subscribe_all_detected(),
    )
}

/// The dialogue manager hands out an intent under its own name, and those who
/// subscribed for that name, and those who subscribed for all intents, are given
/// it, whatever the name.
pub fn dialogue_intent<S: DialogueBackendFacade, H: DialogueFacade, E>(
    speaker: &S,
    hearer: &H,
    message: IntentMessage<E>,
    same_name: String,
) -> (talk: (Result<Publication, E>, Subscription, Subscription))
    requires
        same_name@ == message.intent_name@,
    ensures
        heard_as_value(
            talk.0,
            message.json,
            talk.1,
            "hermes/intent/"@ + message.intent_name@,
        ),
        is_subscription(talk.2, "hermes/intent/#"@, Expected::Json),
        talk.2.log_level is Debug,
        talk.0 matches Ok(p) ==> accepts(talk.2.filter@, p.topic_name@),
{
    let ghost name = message.intent_name@;
    proof {
        lemma_path_is_spelt(TopicModel::Intent(name));
        lemma_path_is_spelt(TopicModel::Intent("#"@));
        reveal_strlit("#");
        reveal_strlit("hermes/intent/");
        reveal_strlit("hermes/intent/#");
        assert("hermes/intent/"@ + "#"@ =~= "hermes/intent/#"@);
        lemma_filter_accepts_itself(TopicModel::Intent(name).path());
        lemma_all_intents_reach(name, Seq::empty());
    }
    (
        speaker.publish_intent(message),
        hearer.subscribe_intent(same_name),
        hearer.subscribe_intents(),
    )
}

/// The audio server tells that something has been played at the site that the
/// message names, and those who subscribed for that site hear of it; those who
/// subscribed for all sites do so where the site is one level of a name.
pub fn audio_play_finished<S: AudioServerBackendFacade, H: AudioServerFacade, E>(
    speaker: &S,
    hearer: &H,
    message: PlayFinishedMessage<E>,
    same_site: SiteId,
) -> (talk: (Result<Publication, E>, Subscription, Subscription))
    requires
        same_site@ == message.site_id@,
    ensures
        heard_as_value(
            talk.0,
            message.json,
            talk.1,
            "hermes/audioServer/"@ + message.site_id@ + "/playFinished"@,
        ),
        is_subscription(talk.2, "hermes/audioServer/+/playFinished"@, Expected::Json),
        talk.2.log_level is Debug,
        !message.site_id@.contains('/') ==> (talk.0 matches Ok(p) ==> accepts(
            talk.2.filter@,
            p.topic_name@,
        )),
{
    let ghost site = message.site_id@;
    let ghost topic = TopicModel::AudioServer(Some(site), AudioServerModel::PlayFinished);
    let ghost any = TopicModel::AudioServer(Some("+"@), AudioServerModel::PlayFinished);
    proof {
        lemma_path_is_spelt(topic);
        lemma_path_is_spelt(any);
        reveal_strlit("/");
        reveal_strlit("+");
        reveal_strlit("hermes/audioServer/");
        reveal_strlit("playFinished");
        reveal_strlit("/playFinished");
        reveal_strlit("hermes/audioServer/+/playFinished");
        assert("/playFinished"@ =~= seq!['/'] + "playFinished"@);
        lemma_slash_moves("hermes/audioServer/"@ + site, "playFinished"@, "/playFinished"@);
        assert(spelt(any) =~= "hermes/audioServer/+/playFinished"@);
        lemma_filter_accepts_itself(topic.path());
        if !site.contains('/') {
            lemma_topic_at_path(topic);
            lemma_all_play_finished(publication(topic, Seq::empty()));
        }
    }
    (
        speaker.publish_play_finished(message),
        hearer.subscribe_play_finished(same_site),
        hearer.subscribe_all_play_finished(),
    )
}

/// A frame of audio goes out under the site of the message with the bytes of the
/// message, and those who subscribed for the frames of that site are given the
/// bytes. Frames, which come many times a second, are reported at the lowest
/// level.
pub proof fn lemma_audio_frame<S: AudioServerBackendFacade, H: AudioServerFacade>(
    speaker: S,
    hearer: H,
    message: AudioFrameMessage,
    same_site: SiteId,
    said: Publication,
    heard: Subscription,
)
    requires
        same_site@ == message.site_id@,
        call_ensures(S::publish_audio_frame, (&speaker, message), said),
        call_ensures(H::subscribe_audio_frame, (&hearer, same_site), heard),
    ensures
        is_message(
            said,
            "hermes/audioServer/"@ + message.site_id@ + "/audioFrame"@,
            message.wav_frame@,
        ),
        is_subscription(heard, said.topic_name@, Expected::Binary),
        heard.log_level is Trace,
        accepts(heard.filter@, said.topic_name@),
{
    let site = message.site_id@;
    let topic = TopicModel::AudioServer(Some(site), AudioServerModel::AudioFrame);
    lemma_path_is_spelt(topic);
    reveal_strlit("/");
    reveal_strlit("audioFrame");
    reveal_strlit("/audioFrame");
    assert("/audioFrame"@ =~= seq!['/'] + "audioFrame"@);
    lemma_slash_moves("hermes/audioServer/"@ + site, "audioFrame"@, "/audioFrame"@);
    lemma_filter_accepts_itself(topic.path());
}

/// Bytes to play go out under the site and the identifier of the message with
/// the bytes of the message. Those who subscribed for the bytes of that site are
/// given them, and those who subscribed for all sites where the site is one
/// level of a name.
pub proof fn lemma_play_bytes<S: AudioServerFacade, H: AudioServerBackendFacade>(
    speaker: S,
    hearer: H,
    message: PlayBytesMessage,
    same_site: SiteId,
    said: Publication,
    heard: Subscription,
    all_heard: Subscription,
)
    requires
        same_site@ == message.site_id@,
        call_ensures(S::publish_play_bytes, (&speaker, message), said),
        call_ensures(H::subscribe_play_bytes, (&hearer, same_site), heard),
        call_ensures(H::subscribe_all_play_bytes, (&hearer,), all_heard),
    ensures
        is_message(
            said,
            "hermes/audioServer/"@ + message.site_id@ + "/playBytes/"@ + message.id@,
            message.wav_bytes@,
        ),
        is_subscription(
            heard,
            "hermes/audioServer/"@ + message.site_id@ + "/playBytes/#"@,
            Expected::Binary,
        ),
        is_subscription(all_heard, "hermes/audioServer/+/playBytes/#"@, Expected::Binary),
        heard.log_level is Debug && all_heard.log_level is Debug,
        accepts(heard.filter@, said.topic_name@),
        !message.site_id@.contains('/') ==> accepts(all_heard.filter@, said.topic_name@),
{
    let site = message.site_id@;
    let any_id = AudioServerModel::PlayBytes("#"@);
    lemma_path_is_spelt(
        TopicModel::AudioServer(Some(site), AudioServerModel::PlayBytes(message.id@)),
    );
    lemma_path_is_spelt(TopicModel::AudioServer(Some(site), any_id));
    lemma_path_is_spelt(TopicModel::AudioServer(Some("+"@), any_id));
    reveal_strlit("+");
    reveal_strlit("#");
    reveal_strlit("hermes/audioServer/");
    reveal_strlit("/playBytes/");
    reveal_strlit("/playBytes/#");
    reveal_strlit("hermes/audioServer/+/playBytes/#");
    assert("/playBytes/#"@ =~= "/playBytes/"@ + "#"@);
    assert("hermes/audioServer/"@ + site + "/playBytes/"@ + "#"@ =~= "hermes/audioServer/"@ + site
        + "/playBytes/#"@);
    assert("hermes/audioServer/"@ + "+"@ + "/playBytes/"@ + "#"@
        =~= "hermes/audioServer/+/playBytes/#"@);
    lemma_play_bytes_reach(site, message.id@, message.wav_bytes@);
}

} // verus!
