//! What each facade method says or hears: the name and the payload of the
//! message, and that those who subscribed for it get it.
use crate::commands::{AsrCommand, DialogueManagerCommand, NluCommand, TtsCommand};
use crate::facades::{
    AsrBackendFacade, AsrFacade, DialogueBackendFacade, DialogueFacade, NluBackendFacade,
    NluFacade, TtsBackendFacade, TtsFacade,
};
use crate::filter::{accepts, lemma_filter_accepts_itself};
use crate::laws::deliveries::{is_json_message, is_message, is_subscription};
use crate::laws::names::{lemma_path_is_spelt, spelt};
use crate::requests::{Expected, Publication, Subscription};
use crate::topics::TopicModel;
use vstd::prelude::*;

verus! {

/// Whether a message without a payload is said under a name, and heard by a
/// subscription to that name whose callback is told of it.
pub open spec fn heard_as_notice(
    said: Publication,
    heard: Subscription,
    name: Seq<char>,
) -> bool {
    &&& is_message(said, name, Seq::empty())
    &&& is_subscription(heard, name, Expected::Notification)
    &&& heard.log_level is Debug
    &&& accepts(heard.filter@, said.topic_name@)
}

/// Whether what was serialised is said under a name, and heard by a
/// subscription to that name whose callback is given the value.
pub open spec fn heard_as_value<E>(
    said: Result<Publication, E>,
    payload: Result<Vec<u8>, E>,
    heard: Subscription,
    name: Seq<char>,
) -> bool {
    &&& is_json_message(said, name, payload)
    &&& is_subscription(heard, name, Expected::Json)
    &&& heard.log_level is Debug
    &&& said matches Ok(p) ==> accepts(heard.filter@, p.topic_name@)
}

/// A client tells the speech recogniser to listen, and it hears so.
pub fn asr_start_listening<S: AsrFacade, H: AsrBackendFacade, E>(
    speaker: &S,
    hearer: &H,
    payload: Result<Vec<u8>, E>,
) -> (talk: (Result<Publication, E>, Subscription))
    ensures
        heard_as_value(talk.0, payload, talk.1, "hermes/asr/startListening"@),
{
    proof {
        let topic = TopicModel::Asr(AsrCommand::StartListening);
        lemma_path_is_spelt(topic);
        reveal_strlit("hermes/asr/");
        reveal_strlit("startListening");
        reveal_strlit("hermes/asr/startListening");
        assert(spelt(topic) =~= "hermes/asr/startListening"@);
        lemma_filter_accepts_itself("hermes/asr/startListening"@);
    }
    (speaker.publish_start_listening(payload), hearer.subscribe_start_listening())
}

/// A client tells the speech recogniser to stop listening, and it hears so.
pub fn asr_stop_listening<S: AsrFacade, H: AsrBackendFacade, E>(
    speaker: &S,
    hearer: &H,
    payload: Result<Vec<u8>, E>,
) -> (talk: (Result<Publication, E>, Subscription))
    ensures
        heard_as_value(talk.0, payload, talk.1, "hermes/asr/stopListening"@),
{
    proof {
        let topic = TopicModel::Asr(AsrCommand::StopListening);
        lemma_path_is_spelt(topic);
        reveal_strlit("hermes/asr/");
        reveal_strlit("stopListening");
        reveal_strlit("hermes/asr/stopListening");
        assert(spelt(topic) =~= "hermes/asr/stopListening"@);
        lemma_filter_accepts_itself("hermes/asr/stopListening"@);
    }
    (speaker.publish_stop_listening(payload), hearer.subscribe_stop_listening())
}

/// A client tells the speech recogniser to load its data again, and it hears
/// so.
pub proof fn lemma_asr_reload<S: AsrFacade, H: AsrBackendFacade>(
    speaker: S,
    hearer: H,
    said: Publication,
    heard: Subscription,
)
    requires
        call_ensures(S::publish_reload, (&speaker,), said),
        call_ensures(H::subscribe_reload, (&hearer,), heard),
    ensures
        heard_as_notice(said, heard, "hermes/asr/reload"@),
{
    let topic = TopicModel::Asr(AsrCommand::Reload);
    lemma_path_is_spelt(topic);
    reveal_strlit("hermes/asr/");
    reveal_strlit("reload");
    reveal_strlit("hermes/asr/reload");
    assert(spelt(topic) =~= "hermes/asr/reload"@);
    lemma_filter_accepts_itself("hermes/asr/reload"@);
}

/// A client hands the speech recogniser new words, and it hears of them.
pub fn asr_injection_request<S: AsrFacade, H: AsrBackendFacade, E>(
    speaker: &S,
    hearer: &H,
    payload: Result<Vec<u8>, E>,
) -> (talk: (Result<Publication, E>, Subscription))
    ensures
        heard_as_value(talk.0, payload, talk.1, "hermes/asr/inject"@),
{
    proof {
        let topic = TopicModel::Asr(AsrCommand::Inject);
        lemma_path_is_spelt(topic);
        reveal_strlit("hermes/asr/");
        reveal_strlit("inject");
        reveal_strlit("hermes/asr/inject");
        assert(spelt(topic) =~= "hermes/asr/inject"@);
        lemma_filter_accepts_itself("hermes/asr/inject"@);
    }
    (speaker.publish_injection_request(payload), hearer.subscribe_injection_request())
}

/// A client asks how the new words fare, and the speech recogniser hears so.
pub proof fn lemma_asr_injection_status_request<S: AsrFacade, H: AsrBackendFacade>(
    speaker: S,
    hearer: H,
    said: Publication,
    heard: Subscription,
)
    requires
        call_ensures(S::publish_injection_status_request, (&speaker,), said),
        call_ensures(H::subscribe_injection_status_request, (&hearer,), heard),
    ensures
        heard_as_notice(said, heard, "hermes/asr/injectStatusRequest"@),
{
    let topic = TopicModel::Asr(AsrCommand::InjectStatusRequest);
    lemma_path_is_spelt(topic);
    reveal_strlit("hermes/asr/");
    reveal_strlit("injectStatusRequest");
    reveal_strlit("hermes/asr/injectStatusRequest");
    assert(spelt(topic) =~= "hermes/asr/injectStatusRequest"@);
    lemma_filter_accepts_itself("hermes/asr/injectStatusRequest"@);
}

/// The speech recogniser tells what it heard, and clients hear of it.
pub fn asr_text_captured<S: AsrBackendFacade, H: AsrFacade, E>(
    speaker: &S,
    hearer: &H,
    payload: Result<Vec<u8>, E>,
) -> (talk: (Result<Publication, E>, Subscription))
    ensures
        heard_as_value(talk.0, payload, talk.1, "hermes/asr/textCaptured"@),
{
    proof {
        let topic = TopicModel::Asr(AsrCommand::TextCaptured);
        lemma_path_is_spelt(topic);
        reveal_strlit("hermes/asr/");
        reveal_strlit("textCaptured");
        reveal_strlit("hermes/asr/textCaptured");
        assert(spelt(topic) =~= "hermes/asr/textCaptured"@);
        lemma_filter_accepts_itself("hermes/asr/textCaptured"@);
    }
    (speaker.publish_text_captured(payload), hearer.subscribe_text_captured())
}

/// The speech recogniser tells what it heard so far, and clients hear of it.
pub fn asr_partial_text_captured<S: AsrBackendFacade, H: AsrFacade, E>(
    speaker: &S,
    hearer: &H,
    payload: Result<Vec<u8>, E>,
) -> (talk: (Result<Publication, E>, Subscription))
    ensures
        heard_as_value(talk.0, payload, talk.1, "hermes/asr/partialTextCaptured"@),
{
    proof {
        let topic = TopicModel::Asr(AsrCommand::PartialTextCaptured);
        lemma_path_is_spelt(topic);
        reveal_strlit("hermes/asr/");
        reveal_strlit("partialTextCaptured");
        reveal_strlit("hermes/asr/partialTextCaptured");
        assert(spelt(topic) =~= "hermes/asr/partialTextCaptured"@);
        lemma_filter_accepts_itself("hermes/asr/partialTextCaptured"@);
    }
    (speaker.publish_partial_text_captured(payload), hearer.subscribe_partial_text_captured())
}

/// The speech recogniser tells how the new words fare, and clients hear of it.
pub fn asr_injection_status<S: AsrBackendFacade, H: AsrFacade, E>(
    speaker: &S,
    hearer: &H,
    payload: Result<Vec<u8>, E>,
) -> (talk: (Result<Publication, E>, Subscription))
    ensures
        heard_as_value(talk.0, payload, talk.1, "hermes/asr/injectStatus"@),
{
    proof {
        let topic = TopicModel::Asr(AsrCommand::InjectStatus);
        lemma_path_is_spelt(topic);
        reveal_strlit("hermes/asr/");
        reveal_strlit("injectStatus");
        reveal_strlit("hermes/asr/injectStatus");
        assert(spelt(topic) =~= "hermes/asr/injectStatus"@);
        lemma_filter_accepts_itself("hermes/asr/injectStatus"@);
    }
    (speaker.publish_injection_status(payload), hearer.subscribe_injection_status())
}

/// A client has the speech synthesiser say something, and it hears so.
pub fn tts_say<S: TtsFacade, H: TtsBackendFacade, E>(
    speaker: &S,
    hearer: &H,
    payload: Result<Vec<u8>, E>,
) -> (talk: (Result<Publication, E>, Subscription))
    ensures
        heard_as_value(talk.0, payload, talk.1, "hermes/tts/say"@),
{
    proof {
        let topic = TopicModel::Tts(TtsCommand::Say);
        lemma_path_is_spelt(topic);
        reveal_strlit("hermes/tts/");
        reveal_strlit("say");
        reveal_strlit("hermes/tts/say");
        assert(spelt(topic) =~= "hermes/tts/say"@);
        lemma_filter_accepts_itself("hermes/tts/say"@);
    }
    (speaker.publish_say(payload), hearer.subscribe_say())
}

/// The speech synthesiser tells that it has said something, and clients hear of
/// it.
pub fn tts_say_finished<S: TtsBackendFacade, H: TtsFacade, E>(
    speaker: &S,
    hearer: &H,
    payload: Result<Vec<u8>, E>,
) -> (talk: (Result<Publication, E>, Subscription))
    ensures
        heard_as_value(talk.0, payload, talk.1, "hermes/tts/sayFinished"@),
{
    proof {
        let topic = TopicModel::Tts(TtsCommand::SayFinished);
        lemma_path_is_spelt(topic);
        reveal_strlit("hermes/tts/");
        reveal_strlit("sayFinished");
        reveal_strlit("hermes/tts/sayFinished");
        assert(spelt(topic) =~= "hermes/tts/sayFinished"@);
        lemma_filter_accepts_itself("hermes/tts/sayFinished"@);
    }
    (speaker.publish_say_finished(payload), hearer.subscribe_say_finished())
}

/// A client asks what a text means, and the language understanding hears so.
pub fn nlu_query<S: NluFacade, H: NluBackendFacade, E>(
    speaker: &S,
    hearer: &H,
    payload: Result<Vec<u8>, E>,
) -> (talk: (Result<Publication, E>, Subscription))
    ensures
        heard_as_value(talk.0, payload, talk.1, "hermes/nlu/query"@),
{
    proof {
        let topic = TopicModel::Nlu(NluCommand::Query);
        lemma_path_is_spelt(topic);
        reveal_strlit("hermes/nlu/");
        reveal_strlit("query");
        reveal_strlit("hermes/nlu/query");
        assert(spelt(topic) =~= "hermes/nlu/query"@);
        lemma_filter_accepts_itself("hermes/nlu/query"@);
    }
    (speaker.publish_query(payload), hearer.subscribe_query())
}

/// A client asks for one slot of a text, and the language understanding hears
/// so.
pub fn nlu_partial_query<S: NluFacade, H: NluBackendFacade, E>(
    speaker: &S,
    hearer: &H,
    payload: Result<Vec<u8>, E>,
) -> (talk: (Result<Publication, E>, Subscription))
    ensures
        heard_as_value(talk.0, payload, talk.1, "hermes/nlu/partialQuery"@),
{
    proof {
        let topic = TopicModel::Nlu(NluCommand::PartialQuery);
        lemma_path_is_spelt(topic);
        reveal_strlit("hermes/nlu/");
        reveal_strlit("partialQuery");
        reveal_strlit("hermes/nlu/partialQuery");
        assert(spelt(topic) =~= "hermes/nlu/partialQuery"@);
        lemma_filter_accepts_itself("hermes/nlu/partialQuery"@);
    }
    (speaker.publish_partial_query(payload), hearer.subscribe_partial_query())
}

/// The language understanding tells the slot it found, and clients hear of it.
pub fn nlu_slot_parsed<S: NluBackendFacade, H: NluFacade, E>(
    speaker: &S,
    hearer: &H,
    payload: Result<Vec<u8>, E>,
) -> (talk: (Result<Publication, E>, Subscription))
    ensures
        heard_as_value(talk.0, payload, talk.1, "hermes/nlu/slotParsed"@),
{
    proof {
        let topic = TopicModel::Nlu(NluCommand::SlotParsed);
        lemma_path_is_spelt(topic);
        reveal_strlit("hermes/nlu/");
        reveal_strlit("slotParsed");
        reveal_strlit("hermes/nlu/slotParsed");
        assert(spelt(topic) =~= "hermes/nlu/slotParsed"@);
        lemma_filter_accepts_itself("hermes/nlu/slotParsed"@);
    }
    (speaker.publish_slot_parsed(payload), hearer.subscribe_slot_parsed())
}

/// The language understanding tells the intent it found, and clients hear of
/// it.
pub fn nlu_intent_parsed<S: NluBackendFacade, H: NluFacade, E>(
    speaker: &S,
    hearer: &H,
    payload: Result<Vec<u8>, E>,
) -> (talk: (Result<Publication, E>, Subscription))
    ensures
        heard_as_value(talk.0, payload, talk.1, "hermes/nlu/intentParsed"@),
{
    proof {
        let topic = TopicModel::Nlu(NluCommand::IntentParsed);
        lemma_path_is_spelt(topic);
        reveal_strlit("hermes/nlu/");
        reveal_strlit("intentParsed");
        reveal_strlit("hermes/nlu/intentParsed");
        assert(spelt(topic) =~= "hermes/nlu/intentParsed"@);
        lemma_filter_accepts_itself("hermes/nlu/intentParsed"@);
    }
    (speaker.publish_intent_parsed(payload), hearer.subscribe_intent_parsed())
}

/// The language understanding tells that it found no intent, and clients hear
/// of it.
pub fn nlu_intent_not_recognized<S: NluBackendFacade, H: NluFacade, E>(
    speaker: &S,
    hearer: &H,
    payload: Result<Vec<u8>, E>,
) -> (talk: (Result<Publication, E>, Subscription))
    ensures
        heard_as_value(talk.0, payload, talk.1, "hermes/nlu/intentNotRecognized"@),
{
    proof {
        let topic = TopicModel::Nlu(NluCommand::IntentNotRecognized);
        lemma_path_is_spelt(topic);
        reveal_strlit("hermes/nlu/");
        reveal_strlit("intentNotRecognized");
        reveal_strlit("hermes/nlu/intentNotRecognized");
        assert(spelt(topic) =~= "hermes/nlu/intentNotRecognized"@);
        lemma_filter_accepts_itself("hermes/nlu/intentNotRecognized"@);
    }
    (speaker.publish_intent_not_recognized(payload), hearer.subscribe_intent_not_recognized())
}

/// A client starts a session, and the dialogue manager hears so.
pub fn dialogue_start_session<S: DialogueFacade, H: DialogueBackendFacade, E>(
    speaker: &S,
    hearer: &H,
    payload: Result<Vec<u8>, E>,
) -> (talk: (Result<Publication, E>, Subscription))
    ensures
        heard_as_value(talk.0, payload, talk.1, "hermes/dialogueManager/startSession"@),
{
    proof {
        let topic = TopicModel::DialogueManager(DialogueManagerCommand::StartSession);
        lemma_path_is_spelt(topic);
        reveal_strlit("hermes/dialogueManager/");
        reveal_strlit("startSession");
        reveal_strlit("hermes/dialogueManager/startSession");
        assert(spelt(topic) =~= "hermes/dialogueManager/startSession"@);
        lemma_filter_accepts_itself("hermes/dialogueManager/startSession"@);
    }
    (speaker.publish_start_session(payload), hearer.subscribe_start_session())
}

/// A client goes on with a session, and the dialogue manager hears so.
pub fn dialogue_continue_session<S: DialogueFacade, H: DialogueBackendFacade, E>(
    speaker: &S,
    hearer: &H,
    payload: Result<Vec<u8>, E>,
) -> (talk: (Result<Publication, E>, Subscription))
    ensures
        heard_as_value(talk.0, payload, talk.1, "hermes/dialogueManager/continueSession"@),
{
    proof {
        let topic = TopicModel::DialogueManager(DialogueManagerCommand::ContinueSession);
        lemma_path_is_spelt(topic);
        reveal_strlit("hermes/dialogueManager/");
        reveal_strlit("continueSession");
        reveal_strlit("hermes/dialogueManager/continueSession");
        assert(spelt(topic) =~= "hermes/dialogueManager/continueSession"@);
        lemma_filter_accepts_itself("hermes/dialogueManager/continueSession"@);
    }
    (speaker.publish_continue_session(payload), hearer.subscribe_continue_session())
}

/// A client ends a session, and the dialogue manager hears so.
pub fn dialogue_end_session<S: DialogueFacade, H: DialogueBackendFacade, E>(
    speaker: &S,
    hearer: &H,
    payload: Result<Vec<u8>, E>,
) -> (talk: (Result<Publication, E>, Subscription))
    ensures
        heard_as_value(talk.0, payload, talk.1, "hermes/dialogueManager/endSession"@),
{
    proof {
        let topic = TopicModel::DialogueManager(DialogueManagerCommand::EndSession);
        lemma_path_is_spelt(topic);
        reveal_strlit("hermes/dialogueManager/");
        reveal_strlit("endSession");
        reveal_strlit("hermes/dialogueManager/endSession");
        assert(spelt(topic) =~= "hermes/dialogueManager/endSession"@);
        lemma_filter_accepts_itself("hermes/dialogueManager/endSession"@);
    }
    (speaker.publish_end_session(payload), hearer.subscribe_end_session())
}

/// The dialogue manager tells that a session waits, and clients hear of it.
pub fn dialogue_session_queued<S: DialogueBackendFacade, H: DialogueFacade, E>(
    speaker: &S,
    hearer: &H,
    payload: Result<Vec<u8>, E>,
) -> (talk: (Result<Publication, E>, Subscription))
    ensures
        heard_as_value(talk.0, payload, talk.1, "hermes/dialogueManager/sessionQueued"@),
{
    proof {
        let topic = TopicModel::DialogueManager(DialogueManagerCommand::SessionQueued);
        lemma_path_is_spelt(topic);
        reveal_strlit("hermes/dialogueManager/");
        reveal_strlit("sessionQueued");
        reveal_strlit("hermes/dialogueManager/sessionQueued");
        assert(spelt(topic) =~= "hermes/dialogueManager/sessionQueued"@);
        lemma_filter_accepts_itself("hermes/dialogueManager/sessionQueued"@);
    }
    (speaker.publish_session_queued(payload), hearer.subscribe_session_queued())
}

/// The dialogue manager tells that a session has started, and clients hear of
/// it.
pub fn dialogue_session_started<S: DialogueBackendFacade, H: DialogueFacade, E>(
    speaker: &S,
    hearer: &H,
    payload: Result<Vec<u8>, E>,
) -> (talk: (Result<Publication, E>, Subscription))
    ensures
        heard_as_value(talk.0, payload, talk.1, "hermes/dialogueManager/sessionStarted"@),
{
    proof {
        let topic = TopicModel::DialogueManager(DialogueManagerCommand::SessionStarted);
        lemma_path_is_spelt(topic);
        reveal_strlit("hermes/dialogueManager/");
        reveal_strlit("sessionStarted");
        reveal_strlit("hermes/dialogueManager/sessionStarted");
        assert(spelt(topic) =~= "hermes/dialogueManager/sessionStarted"@);
        lemma_filter_accepts_itself("hermes/dialogueManager/sessionStarted"@);
    }
    (speaker.publish_session_started(payload), hearer.subscribe_session_started())
}

/// The dialogue manager tells that a session has ended, and clients hear of it.
pub fn dialogue_session_ended<S: DialogueBackendFacade, H: DialogueFacade, E>(
    speaker: &S,
    hearer: &H,
    payload: Result<Vec<u8>, E>,
) -> (talk: (Result<Publication, E>, Subscription))
    ensures
        heard_as_value(talk.0, payload, talk.1, "hermes/dialogueManager/sessionEnded"@),
{
    proof {
        let topic = TopicModel::DialogueManager(DialogueManagerCommand::SessionEnded);
        lemma_path_is_spelt(topic);
        reveal_strlit("hermes/dialogueManager/");
        reveal_strlit("sessionEnded");
        reveal_strlit("hermes/dialogueManager/sessionEnded");
        assert(spelt(topic) =~= "hermes/dialogueManager/sessionEnded"@);
        lemma_filter_accepts_itself("hermes/dialogueManager/sessionEnded"@);
    }
    (speaker.publish_session_ended(payload), hearer.subscribe_session_ended())
}

/// The dialogue manager tells that no intent was found, and clients hear of it.
pub fn dialogue_intent_not_recognized<S: DialogueBackendFacade, H: DialogueFacade, E>(
    speaker: &S,
    hearer: &H,
    payload: Result<Vec<u8>, E>,
) -> (talk: (Result<Publication, E>, Subscription))
    ensures
        heard_as_value(talk.0, payload, talk.1, "hermes/dialogueManager/intentNotRecognized"@),
{
    proof {
        let topic = TopicModel::DialogueManager(DialogueManagerCommand::IntentNotRecognized);
        lemma_path_is_spelt(topic);
        reveal_strlit("hermes/dialogueManager/");
        reveal_strlit("intentNotRecognized");
        reveal_strlit("hermes/dialogueManager/intentNotRecognized");
        assert(spelt(topic) =~= "hermes/dialogueManager/intentNotRecognized"@);
        lemma_filter_accepts_itself("hermes/dialogueManager/intentNotRecognized"@);
    }
    (speaker.publish_intent_not_recognized(payload), hearer.subscribe_intent_not_recognized())
}

} // verus!
