//! What each component says and hears: the messages and subscriptions of its
//! facade, for clients, and of its backend facade, for the component itself.
use crate::commands::{
    AsrCommand, DialogueManagerCommand, HotwordCommand, NluCommand, TtsCommand,
};
use crate::components::{
    HasHandler, IdentifiableToggleableBackendFacade, IdentifiableToggleableFacade,
    MqttComponentFacade, MqttToggleableComponentFacade, MqttToggleableFacade,
};
use crate::requests::{
    payload_publication, publication, subscription, Expected, Publication, Subscription,
};
use crate::topics::{HermesTopic, SiteId, TopicModel};
use vstd::prelude::*;

verus! {

/// What a client says to the feedback sounds.
pub trait SoundFeedbackFacade: IdentifiableToggleableFacade {

}

/// What the feedback sounds hear.
pub trait SoundFeedbackBackendFacade: IdentifiableToggleableBackendFacade {

}

/// What a client hears of the hotword detector.
pub trait HotwordFacade: HasHandler {
    /// For the hotwords detected at a site.
    fn subscribe_detected(&self, site_id: SiteId) -> (subscribed: Subscription)
        ensures
            subscribed@ == subscription(
                TopicModel::Hotword(Some(site_id@), HotwordCommand::Detected),
                Expected::Json,
            ),
    {
        let topic = HermesTopic::Hotword(Some(site_id), HotwordCommand::Detected);
        self.mqtt_handler().subscribe_payload(&topic)
    }

    /// For the hotwords detected at any site.
    fn subscribe_all_detected(&self) -> (subscribed: Subscription)
        ensures
            subscribed@ == subscription(
                TopicModel::Hotword(Some("+"@), HotwordCommand::Detected),
                Expected::Json,
            ),
    {
        let topic = HermesTopic::Hotword(Some("+".to_owned()), HotwordCommand::Detected);
        self.mqtt_handler().subscribe_payload(&topic)
    }
}

/// What the hotword detector says.
pub trait HotwordBackendFacade: HasHandler {
    /// A hotword was detected at a site.
    fn publish_detected<E>(
        &self,
        site_id: SiteId,
        payload: Result<Vec<u8>, E>,
    ) -> (published: Result<Publication, E>)
        ensures
            payload_publication(
                TopicModel::Hotword(Some(site_id@), HotwordCommand::Detected),
                payload,
                published,
            ),
    {
        let topic = HermesTopic::Hotword(Some(site_id), HotwordCommand::Detected);
        self.mqtt_handler().publish_payload(&topic, payload)
    }
}

/// What a client says to and hears of the speech recogniser.
pub trait AsrFacade: HasHandler {
    /// Start listening at a site.
    fn publish_start_listening<E>(
        &self,
        payload: Result<Vec<u8>, E>,
    ) -> (published: Result<Publication, E>)
        ensures
            payload_publication(TopicModel::Asr(AsrCommand::StartListening), payload, published),
    {
        self.mqtt_handler().publish_payload(&HermesTopic::Asr(AsrCommand::StartListening), payload)
    }

    /// Stop listening at a site.
    fn publish_stop_listening<E>(
        &self,
        payload: Result<Vec<u8>, E>,
    ) -> (published: Result<Publication, E>)
        ensures
            payload_publication(TopicModel::Asr(AsrCommand::StopListening), payload, published),
    {
        self.mqtt_handler().publish_payload(&HermesTopic::Asr(AsrCommand::StopListening), payload)
    }

    /// Reload the models.
    fn publish_reload(&self) -> (published: Publication)
        ensures
            published@ == publication(TopicModel::Asr(AsrCommand::Reload), Seq::empty()),
    {
        self.mqtt_handler().publish(&HermesTopic::Asr(AsrCommand::Reload))
    }

    /// Inject values.
    fn publish_injection_request<E>(
        &self,
        payload: Result<Vec<u8>, E>,
    ) -> (published: Result<Publication, E>)
        ensures
            payload_publication(TopicModel::Asr(AsrCommand::Inject), payload, published),
    {
        self.mqtt_handler().publish_payload(&HermesTopic::Asr(AsrCommand::Inject), payload)
    }

    /// Tell how the injection stands.
    fn publish_injection_status_request(&self) -> (published: Publication)
        ensures
            published@ == publication(
                TopicModel::Asr(AsrCommand::InjectStatusRequest),
                Seq::empty(),
            ),
    {
        self.mqtt_handler().publish(&HermesTopic::Asr(AsrCommand::InjectStatusRequest))
    }

    /// For texts that were captured.
    fn subscribe_text_captured(&self) -> (subscribed: Subscription)
        ensures
            subscribed@ == subscription(TopicModel::Asr(AsrCommand::TextCaptured), Expected::Json),
    {
        self.mqtt_handler().subscribe_payload(&HermesTopic::Asr(AsrCommand::TextCaptured))
    }

    /// For texts of which a part was captured.
    fn subscribe_partial_text_captured(&self) -> (subscribed: Subscription)
        ensures
            subscribed@ == subscription(
                TopicModel::Asr(AsrCommand::PartialTextCaptured),
                Expected::Json,
            ),
    {
        self.mqtt_handler().subscribe_payload(&HermesTopic::Asr(AsrCommand::PartialTextCaptured))
    }

    /// For how the injection stands.
    fn subscribe_injection_status(&self) -> (subscribed: Subscription)
        ensures
            subscribed@ == subscription(TopicModel::Asr(AsrCommand::InjectStatus), Expected::Json),
    {
        self.mqtt_handler().subscribe_payload(&HermesTopic::Asr(AsrCommand::InjectStatus))
    }
}

/// What the speech recogniser hears and says.
pub trait AsrBackendFacade: HasHandler {
    /// For requests to start listening.
    fn subscribe_start_listening(&self) -> (subscribed: Subscription)
        ensures
            subscribed@ == subscription(
                TopicModel::Asr(AsrCommand::StartListening),
                Expected::Json,
            ),
    {
        self.mqtt_handler().subscribe_payload(&HermesTopic::Asr(AsrCommand::StartListening))
    }

    /// For requests to stop listening.
    fn subscribe_stop_listening(&self) -> (subscribed: Subscription)
        ensures
            subscribed@ == subscription(TopicModel::Asr(AsrCommand::StopListening), Expected::Json),
    {
        self.mqtt_handler().subscribe_payload(&HermesTopic::Asr(AsrCommand::StopListening))
    }

    /// For requests to reload the models.
    fn subscribe_reload(&self) -> (subscribed: Subscription)
        ensures
            subscribed@ == subscription(
                TopicModel::Asr(AsrCommand::Reload),
                Expected::Notification,
            ),
    {
        self.mqtt_handler().subscribe(&HermesTopic::Asr(AsrCommand::Reload))
    }

    /// For requests to inject values.
    fn subscribe_injection_request(&self) -> (subscribed: Subscription)
        ensures
            subscribed@ == subscription(TopicModel::Asr(AsrCommand::Inject), Expected::Json),
    {
        self.mqtt_handler().subscribe_payload(&HermesTopic::Asr(AsrCommand::Inject))
    }

    /// For requests to tell how the injection stands.
    fn subscribe_injection_status_request(&self) -> (subscribed: Subscription)
        ensures
            subscribed@ == subscription(
                TopicModel::Asr(AsrCommand::InjectStatusRequest),
                Expected::Notification,
            ),
    {
        self.mqtt_handler().subscribe(&HermesTopic::Asr(AsrCommand::InjectStatusRequest))
    }

    /// A text was captured.
    fn publish_text_captured<E>(
        &self,
        payload: Result<Vec<u8>, E>,
    ) -> (published: Result<Publication, E>)
        ensures
            payload_publication(TopicModel::Asr(AsrCommand::TextCaptured), payload, published),
    {
        self.mqtt_handler().publish_payload(&HermesTopic::Asr(AsrCommand::TextCaptured), payload)
    }

    /// A part of a text was captured.
    fn publish_partial_text_captured<E>(
        &self,
        payload: Result<Vec<u8>, E>,
    ) -> (published: Result<Publication, E>)
        ensures
            payload_publication(
                TopicModel::Asr(AsrCommand::PartialTextCaptured),
                payload,
                published,
            ),
    {
        let topic = HermesTopic::Asr(AsrCommand::PartialTextCaptured);
        self.mqtt_handler().publish_payload(&topic, payload)
    }

    /// How the injection stands.
    fn publish_injection_status<E>(
        &self,
        payload: Result<Vec<u8>, E>,
    ) -> (published: Result<Publication, E>)
        ensures
            payload_publication(TopicModel::Asr(AsrCommand::InjectStatus), payload, published),
    {
        self.mqtt_handler().publish_payload(&HermesTopic::Asr(AsrCommand::InjectStatus), payload)
    }
}

/// What a client says to and hears of the speech synthesiser.
pub trait TtsFacade: HasHandler {
    /// Say something.
    fn publish_say<E>(&self, payload: Result<Vec<u8>, E>) -> (published: Result<Publication, E>)
        ensures
            payload_publication(TopicModel::Tts(TtsCommand::Say), payload, published),
    {
        self.mqtt_handler().publish_payload(&HermesTopic::Tts(TtsCommand::Say), payload)
    }

    /// For what has been said.
    fn subscribe_say_finished(&self) -> (subscribed: Subscription)
        ensures
            subscribed@ == subscription(TopicModel::Tts(TtsCommand::SayFinished), Expected::Json),
    {
        self.mqtt_handler().subscribe_payload(&HermesTopic::Tts(TtsCommand::SayFinished))
    }
}

/// What the speech synthesiser hears and says.
pub trait TtsBackendFacade: HasHandler {
    /// For what is to be said.
    fn subscribe_say(&self) -> (subscribed: Subscription)
        ensures
            subscribed@ == subscription(TopicModel::Tts(TtsCommand::Say), Expected::Json),
    {
        self.mqtt_handler().subscribe_payload(&HermesTopic::Tts(TtsCommand::Say))
    }

    /// Something has been said.
    fn publish_say_finished<E>(
        &self,
        payload: Result<Vec<u8>, E>,
    ) -> (published: Result<Publication, E>)
        ensures
            payload_publication(TopicModel::Tts(TtsCommand::SayFinished), payload, published),
    {
        self.mqtt_handler().publish_payload(&HermesTopic::Tts(TtsCommand::SayFinished), payload)
    }
}

/// What a client says to and hears of the language understanding.
pub trait NluFacade: HasHandler {
    /// Find the intent of a text.
    fn publish_query<E>(&self, payload: Result<Vec<u8>, E>) -> (published: Result<Publication, E>)
        ensures
            payload_publication(TopicModel::Nlu(NluCommand::Query), payload, published),
    {
        self.mqtt_handler().publish_payload(&HermesTopic::Nlu(NluCommand::Query), payload)
    }

    /// Find one slot in a text.
    fn publish_partial_query<E>(
        &self,
        payload: Result<Vec<u8>, E>,
    ) -> (published: Result<Publication, E>)
        ensures
            payload_publication(TopicModel::Nlu(NluCommand::PartialQuery), payload, published),
    {
        self.mqtt_handler().publish_payload(&HermesTopic::Nlu(NluCommand::PartialQuery), payload)
    }

    /// For slots that were found.
    fn subscribe_slot_parsed(&self) -> (subscribed: Subscription)
        ensures
            subscribed@ == subscription(TopicModel::Nlu(NluCommand::SlotParsed), Expected::Json),
    {
        self.mqtt_handler().subscribe_payload(&HermesTopic::Nlu(NluCommand::SlotParsed))
    }

    /// For intents that were found.
    fn subscribe_intent_parsed(&self) -> (subscribed: Subscription)
        ensures
            subscribed@ == subscription(TopicModel::Nlu(NluCommand::IntentParsed), Expected::Json),
    {
        self.mqtt_handler().subscribe_payload(&HermesTopic::Nlu(NluCommand::IntentParsed))
    }

    /// For texts in which no intent was found.
    fn subscribe_intent_not_recognized(&self) -> (subscribed: Subscription)
        ensures
            subscribed@ == subscription(
                TopicModel::Nlu(NluCommand::IntentNotRecognized),
                Expected::Json,
            ),
    {
        self.mqtt_handler().subscribe_payload(&HermesTopic::Nlu(NluCommand::IntentNotRecognized))
    }
}

/// What the language understanding hears and says.
pub trait NluBackendFacade: HasHandler {
    /// For requests to find the intent of a text.
    fn subscribe_query(&self) -> (subscribed: Subscription)
        ensures
            subscribed@ == subscription(TopicModel::Nlu(NluCommand::Query), Expected::Json),
    {
        self.mqtt_handler().subscribe_payload(&HermesTopic::Nlu(NluCommand::Query))
    }

    /// For requests to find one slot in a text.
    fn subscribe_partial_query(&self) -> (subscribed: Subscription)
        ensures
            subscribed@ == subscription(TopicModel::Nlu(NluCommand::PartialQuery), Expected::Json),
    {
        self.mqtt_handler().subscribe_payload(&HermesTopic::Nlu(NluCommand::PartialQuery))
    }

    /// A slot was found.
    fn publish_slot_parsed<E>(
        &self,
        payload: Result<Vec<u8>, E>,
    ) -> (published: Result<Publication, E>)
        ensures
            payload_publication(TopicModel::Nlu(NluCommand::SlotParsed), payload, published),
    {
        self.mqtt_handler().publish_payload(&HermesTopic::Nlu(NluCommand::SlotParsed), payload)
    }

    /// An intent was found.
    fn publish_intent_parsed<E>(
        &self,
        payload: Result<Vec<u8>, E>,
    ) -> (published: Result<Publication, E>)
        ensures
            payload_publication(TopicModel::Nlu(NluCommand::IntentParsed), payload, published),
    {
        self.mqtt_handler().publish_payload(&HermesTopic::Nlu(NluCommand::IntentParsed), payload)
    }

    /// No intent was found.
    fn publish_intent_not_recognized<E>(
        &self,
        payload: Result<Vec<u8>, E>,
    ) -> (published: Result<Publication, E>)
        ensures
            payload_publication(
                TopicModel::Nlu(NluCommand::IntentNotRecognized),
                payload,
                published,
            ),
    {
        let topic = HermesTopic::Nlu(NluCommand::IntentNotRecognized);
        self.mqtt_handler().publish_payload(&topic, payload)
    }
}

/// An intent that was found: the name that it holds, and what the intent as a
/// whole was serialised to.
#[derive(Debug, PartialEq, Eq)]
pub struct IntentMessage<E> {
    pub intent_name: String,
    pub json: Result<Vec<u8>, E>,
}

/// What a client says to and hears of the dialogue manager.
pub trait DialogueFacade: HasHandler {
    /// For sessions that were queued.
    fn subscribe_session_queued(&self) -> (subscribed: Subscription)
        ensures
            subscribed@ == subscription(
                TopicModel::DialogueManager(DialogueManagerCommand::SessionQueued),
                Expected::Json,
            ),
    {
        let topic = HermesTopic::DialogueManager(DialogueManagerCommand::SessionQueued);
        self.mqtt_handler().subscribe_payload(&topic)
    }

    /// For sessions that have started.
    fn subscribe_session_started(&self) -> (subscribed: Subscription)
        ensures
            subscribed@ == subscription(
                TopicModel::DialogueManager(DialogueManagerCommand::SessionStarted),
                Expected::Json,
            ),
    {
        let topic = HermesTopic::DialogueManager(DialogueManagerCommand::SessionStarted);
        self.mqtt_handler().subscribe_payload(&topic)
    }

    /// For intents of one name.
    fn subscribe_intent(&self, intent_name: String) -> (subscribed: Subscription)
        ensures
            subscribed@ == subscription(TopicModel::Intent(intent_name@), Expected::Json),
    {
        self.mqtt_handler().subscribe_payload(&HermesTopic::Intent(intent_name))
    }

    /// For intents of any name.
    fn subscribe_intents(&self) -> (subscribed: Subscription)
        ensures
            subscribed@ == subscription(TopicModel::Intent("#"@), Expected::Json),
    {
        self.mqtt_handler().subscribe_payload(&HermesTopic::Intent("#".to_owned()))
    }

    /// For sessions in which no intent was found.
    fn subscribe_intent_not_recognized(&self) -> (subscribed: Subscription)
        ensures
            subscribed@ == subscription(
                TopicModel::DialogueManager(DialogueManagerCommand::IntentNotRecognized),
                Expected::Json,
            ),
    {
        let topic = HermesTopic::DialogueManager(DialogueManagerCommand::IntentNotRecognized);
        self.mqtt_handler().subscribe_payload(&topic)
    }

    /// For sessions that have ended.
    fn subscribe_session_ended(&self) -> (subscribed: Subscription)
        ensures
            subscribed@ == subscription(
                TopicModel::DialogueManager(DialogueManagerCommand::SessionEnded),
                Expected::Json,
            ),
    {
        let topic = HermesTopic::DialogueManager(DialogueManagerCommand::SessionEnded);
        self.mqtt_handler().subscribe_payload(&topic)
    }

    /// Start a session.
    fn publish_start_session<E>(
        &self,
        payload: Result<Vec<u8>, E>,
    ) -> (published: Result<Publication, E>)
        ensures
            payload_publication(
                TopicModel::DialogueManager(DialogueManagerCommand::StartSession),
                payload,
                published,
            ),
    {
        let topic = HermesTopic::DialogueManager(DialogueManagerCommand::StartSession);
        self.mqtt_handler().publish_payload(&topic, payload)
    }

    /// Continue a session.
    fn publish_continue_session<E>(
        &self,
        payload: Result<Vec<u8>, E>,
    ) -> (published: Result<Publication, E>)
        ensures
            payload_publication(
                TopicModel::DialogueManager(DialogueManagerCommand::ContinueSession),
                payload,
                published,
            ),
    {
        let topic = HermesTopic::DialogueManager(DialogueManagerCommand::ContinueSession);
        self.mqtt_handler().publish_payload(&topic, payload)
    }

    /// End a session.
    fn publish_end_session<E>(
        &self,
        payload: Result<Vec<u8>, E>,
    ) -> (published: Result<Publication, E>)
        ensures
            payload_publication(
                TopicModel::DialogueManager(DialogueManagerCommand::EndSession),
                payload,
                published,
            ),
    {
        let topic = HermesTopic::DialogueManager(DialogueManagerCommand::EndSession);
        self.mqtt_handler().publish_payload(&topic, payload)
    }
}

/// What the dialogue manager hears and says.
pub trait DialogueBackendFacade: HasHandler {
    /// A session was queued.
    fn publish_session_queued<E>(
        &self,
        payload: Result<Vec<u8>, E>,
    ) -> (published: Result<Publication, E>)
        ensures
            payload_publication(
                TopicModel::DialogueManager(DialogueManagerCommand::SessionQueued),
                payload,
                published,
            ),
    {
        let topic = HermesTopic::DialogueManager(DialogueManagerCommand::SessionQueued);
        self.mqtt_handler().publish_payload(&topic, payload)
    }

    /// A session has started.
    fn publish_session_started<E>(
        &self,
        payload: Result<Vec<u8>, E>,
    ) -> (published: Result<Publication, E>)
        ensures
            payload_publication(
                TopicModel::DialogueManager(DialogueManagerCommand::SessionStarted),
                payload,
                published,
            ),
    {
        let topic = HermesTopic::DialogueManager(DialogueManagerCommand::SessionStarted);
        self.mqtt_handler().publish_payload(&topic, payload)
    }

    /// An intent, which goes to those who wait for its name.
    fn publish_intent<E>(&self, message: IntentMessage<E>) -> (published: Result<Publication, E>)
        ensures
            payload_publication(TopicModel::Intent(message.intent_name@), message.json, published),
    {
        let topic = HermesTopic::Intent(message.intent_name);
        self.mqtt_handler().publish_payload(&topic, message.json)
    }

    /// No intent was found in a session.
    fn publish_intent_not_recognized<E>(
        &self,
        payload: Result<Vec<u8>, E>,
    ) -> (published: Result<Publication, E>)
        ensures
            payload_publication(
                TopicModel::DialogueManager(DialogueManagerCommand::IntentNotRecognized),
                payload,
                published,
            ),
    {
        let topic = HermesTopic::DialogueManager(DialogueManagerCommand::IntentNotRecognized);
        self.mqtt_handler().publish_payload(&topic, payload)
    }

    /// A session has ended.
    fn publish_session_ended<E>(
        &self,
        payload: Result<Vec<u8>, E>,
    ) -> (published: Result<Publication, E>)
        ensures
            payload_publication(
                TopicModel::DialogueManager(DialogueManagerCommand::SessionEnded),
                payload,
                published,
            ),
    {
        let topic = HermesTopic::DialogueManager(DialogueManagerCommand::SessionEnded);
        self.mqtt_handler().publish_payload(&topic, payload)
    }

    /// For requests to start a session.
    fn subscribe_start_session(&self) -> (subscribed: Subscription)
        ensures
            subscribed@ == subscription(
                TopicModel::DialogueManager(DialogueManagerCommand::StartSession),
                Expected::Json,
            ),
    {
        let topic = HermesTopic::DialogueManager(DialogueManagerCommand::StartSession);
        self.mqtt_handler().subscribe_payload(&topic)
    }

    /// For requests to continue a session.
    fn subscribe_continue_session(&self) -> (subscribed: Subscription)
        ensures
            subscribed@ == subscription(
                TopicModel::DialogueManager(DialogueManagerCommand::ContinueSession),
                Expected::Json,
            ),
    {
        let topic = HermesTopic::DialogueManager(DialogueManagerCommand::ContinueSession);
        self.mqtt_handler().subscribe_payload(&topic)
    }

    /// For requests to end a session.
    fn subscribe_end_session(&self) -> (subscribed: Subscription)
        ensures
            subscribed@ == subscription(
                TopicModel::DialogueManager(DialogueManagerCommand::EndSession),
                Expected::Json,
            ),
    {
        let topic = HermesTopic::DialogueManager(DialogueManagerCommand::EndSession);
        self.mqtt_handler().subscribe_payload(&topic)
    }
}

impl SoundFeedbackFacade for MqttToggleableFacade {

}

impl SoundFeedbackBackendFacade for MqttToggleableFacade {

}

impl HotwordFacade for MqttToggleableComponentFacade {

}

impl HotwordBackendFacade for MqttToggleableComponentFacade {

}

impl AsrFacade for MqttToggleableComponentFacade {

}

impl AsrBackendFacade for MqttToggleableComponentFacade {

}

impl TtsFacade for MqttComponentFacade {

}

impl TtsBackendFacade for MqttComponentFacade {

}

impl NluFacade for MqttComponentFacade {

}

impl NluBackendFacade for MqttComponentFacade {

}

impl DialogueFacade for MqttToggleableComponentFacade {

}

impl DialogueBackendFacade for MqttToggleableComponentFacade {

}

} // verus!
