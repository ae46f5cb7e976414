//! The protocol handler: one connection to a broker, and the facades on it.
use crate::commands::{
    AsrCommand, Component, DialogueManagerCommand, HotwordCommand, SoundCommand,
};
use crate::components::{
    MqttComponentFacade, MqttToggleableComponentFacade, MqttToggleableFacade,
};
use crate::handler::{MqttHandler, MqttOptions};
use crate::topics::{
    AudioServerCommand, AudioServerModel, FeedbackCommand, HermesTopic, TopicModel,
};
use std::sync::Arc;
use vstd::prelude::*;

verus! {

/// The largest packet, in bytes, on the connection of a protocol handler.
pub const MAX_PACKET_SIZE: usize = 10_000_000;

/// One connection to a broker.
#[derive(Debug)]
pub struct MqttHermesProtocolHandler {
    pub name: String,
    pub mqtt_handler: Arc<MqttHandler>,
}

/// Why there is no connection to a broker.
#[derive(Debug, PartialEq, Eq)]
pub struct StartError<E> {
    /// What was tried.
    pub context: String,
    /// What the client said.
    pub cause: E,
}

/// Whether a character is a lower-case hexadecimal digit.
pub open spec fn is_hex(c: char) -> bool {
    '0' <= c <= '9' || 'a' <= c <= 'f'
}

/// Whether a text is a random UUID without hyphens: 32 hexadecimal digits,
/// among them the version, 4, and the variant.
pub open spec fn is_random_uuid(text: Seq<char>) -> bool {
    &&& text.len() == 32
    &&& forall|i: int| 0 <= i < text.len() ==> is_hex(#[trigger] text[i])
    &&& text[12] == '4'
    &&& (text[16] == '8' || text[16] == '9' || text[16] == 'a' || text[16] == 'b')
}

/// Trusted: `uuid::Uuid::new_v4`, written out by `Uuid::simple`. Whatever the
/// random bits, the text is 32 lower-case hexadecimal digits with the version
/// and the variant of a random UUID in their places. The call does not return
/// where the operating system has no random bits to give.
#[verifier::external_body]
fn random_client_id() -> (id: String)
    ensures
        is_random_uuid(id@),
{
    uuid::Uuid::new_v4().simple().to_string()
}

impl MqttHermesProtocolHandler {
    /// A handler on a broker, under a random client identifier.
    pub fn new(broker_address: &str) -> (handler: MqttHermesProtocolHandler)
        ensures
            handler.name@ == broker_address@,
            handler.mqtt_handler.options.broker_addr@ == broker_address@,
            is_random_uuid(handler.mqtt_handler.options.client_id@),
            handler.mqtt_handler.options.max_packet_size == MAX_PACKET_SIZE,
    {
        Self::new_with_options(MqttOptions::new(random_client_id(), broker_address))
    }

    /// A handler with the given options, but for the largest packet. Its name
    /// is the address of the broker.
    pub fn new_with_options(options: MqttOptions) -> (handler: MqttHermesProtocolHandler)
        ensures
            handler.name@ == options.broker_addr@,
            handler.mqtt_handler.options == (MqttOptions {
                max_packet_size: MAX_PACKET_SIZE,
                ..options
            }),
    {
        let name = options.broker_addr.clone();
        let options = MqttOptions { max_packet_size: MAX_PACKET_SIZE, ..options };
        MqttHermesProtocolHandler { name, mqtt_handler: Arc::new(MqttHandler { options }) }
    }

    /// The handler once its client was started, by how the start ended.
    pub fn started<E>(self, outcome: Result<(), E>) -> (handler: Result<
        MqttHermesProtocolHandler,
        StartError<E>,
    >)
        ensures
            match outcome {
                Ok(_) => handler == Ok::<MqttHermesProtocolHandler, StartError<E>>(self),
                Err(cause) => handler matches Err(e) && e.cause == cause && e.context@
                    == "Could not start MQTT client on "@ + self.name@,
            },
    {
        match outcome {
            Ok(_) => Ok(self),
            Err(cause) => {
                let context = "Could not start MQTT client on ".to_owned().concat(
                    self.name.as_str(),
                );
                Err(StartError { context, cause })
            },
        }
    }

    /// The handler's name, as it is shown to users.
    pub fn to_string(&self) -> (text: String)
        ensures
            text@ == self.name@ + " (MQTT)"@,
    {
        self.name.clone().concat(" (MQTT)")
    }

    /// The facade of the hotword detector.
    pub fn hotword_component(&self) -> (facade: Box<MqttToggleableComponentFacade>)
        ensures
            facade.stands_for(
                Component::Hotword,
                TopicModel::Hotword(None, HotwordCommand::ToggleOn),
                TopicModel::Hotword(None, HotwordCommand::ToggleOff),
            ),
            facade.mqtt_handler == self.mqtt_handler,
    {
        Box::new(
            MqttToggleableComponentFacade {
                mqtt_handler: Arc::clone(&self.mqtt_handler),
                component: Component::Hotword,
                toggle_on_topic: HermesTopic::Hotword(None, HotwordCommand::ToggleOn),
                toggle_off_topic: HermesTopic::Hotword(None, HotwordCommand::ToggleOff),
            },
        )
    }

    /// The facade of the speech recogniser.
    pub fn asr_component(&self) -> (facade: Box<MqttToggleableComponentFacade>)
        ensures
            facade.stands_for(
                Component::Asr,
                TopicModel::Asr(AsrCommand::ToggleOn),
                TopicModel::Asr(AsrCommand::ToggleOff),
            ),
            facade.mqtt_handler == self.mqtt_handler,
    {
        Box::new(
            MqttToggleableComponentFacade {
                mqtt_handler: Arc::clone(&self.mqtt_handler),
                component: Component::Asr,
                toggle_on_topic: HermesTopic::Asr(AsrCommand::ToggleOn),
                toggle_off_topic: HermesTopic::Asr(AsrCommand::ToggleOff),
            },
        )
    }

    /// The facade of the dialogue manager.
    pub fn dialogue_component(&self) -> (facade: Box<MqttToggleableComponentFacade>)
        ensures
            facade.stands_for(
                Component::DialogueManager,
                TopicModel::DialogueManager(DialogueManagerCommand::ToggleOn),
                TopicModel::DialogueManager(DialogueManagerCommand::ToggleOff),
            ),
            facade.mqtt_handler == self.mqtt_handler,
    {
        Box::new(
            MqttToggleableComponentFacade {
                mqtt_handler: Arc::clone(&self.mqtt_handler),
                component: Component::DialogueManager,
                toggle_on_topic: HermesTopic::DialogueManager(DialogueManagerCommand::ToggleOn),
                toggle_off_topic: HermesTopic::DialogueManager(DialogueManagerCommand::ToggleOff),
            },
        )
    }

    /// The facade of the audio server.
    pub fn audio_server_component(&self) -> (facade: Box<MqttToggleableComponentFacade>)
        ensures
            facade.stands_for(
                Component::AudioServer,
                TopicModel::AudioServer(None, AudioServerModel::ToggleOn),
                TopicModel::AudioServer(None, AudioServerModel::ToggleOff),
            ),
            facade.mqtt_handler == self.mqtt_handler,
    {
        Box::new(
            MqttToggleableComponentFacade {
                mqtt_handler: Arc::clone(&self.mqtt_handler),
                component: Component::AudioServer,
                toggle_on_topic: HermesTopic::AudioServer(None, AudioServerCommand::ToggleOn),
                toggle_off_topic: HermesTopic::AudioServer(None, AudioServerCommand::ToggleOff),
            },
        )
    }

    /// The facade of the feedback sounds.
    pub fn sound_toggleable(&self) -> (facade: Box<MqttToggleableFacade>)
        ensures
            facade.toggle_on_topic@ == TopicModel::Feedback(
                FeedbackCommand::Sound(SoundCommand::ToggleOn),
            ),
            facade.toggle_off_topic@ == TopicModel::Feedback(
                FeedbackCommand::Sound(SoundCommand::ToggleOff),
            ),
            facade.mqtt_handler == self.mqtt_handler,
    {
        Box::new(
            MqttToggleableFacade {
                mqtt_handler: Arc::clone(&self.mqtt_handler),
                toggle_on_topic: HermesTopic::Feedback(
                    FeedbackCommand::Sound(SoundCommand::ToggleOn),
                ),
                toggle_off_topic: HermesTopic::Feedback(
                    FeedbackCommand::Sound(SoundCommand::ToggleOff),
                ),
            },
        )
    }

    /// The facade of a component that is always on.
    pub fn component(&self, component: Component) -> (facade: Box<MqttComponentFacade>)
        ensures
            facade.component == component,
            facade.mqtt_handler == self.mqtt_handler,
    {
        Box::new(
            MqttComponentFacade { mqtt_handler: Arc::clone(&self.mqtt_handler), component },
        )
    }

    /// The facade of the hotword detector, for clients.
    pub fn hotword(&self) -> (facade: Box<MqttToggleableComponentFacade>)
        ensures
            facade.stands_for(
                Component::Hotword,
                TopicModel::Hotword(None, HotwordCommand::ToggleOn),
                TopicModel::Hotword(None, HotwordCommand::ToggleOff),
            ),
            facade.mqtt_handler == self.mqtt_handler,
    {
        self.hotword_component()
    }

    /// The facade of the feedback sounds, for clients.
    pub fn sound_feedback(&self) -> (facade: Box<MqttToggleableFacade>)
        ensures
            facade.toggle_on_topic@ == TopicModel::Feedback(
                FeedbackCommand::Sound(SoundCommand::ToggleOn),
            ),
            facade.toggle_off_topic@ == TopicModel::Feedback(
                FeedbackCommand::Sound(SoundCommand::ToggleOff),
            ),
            facade.mqtt_handler == self.mqtt_handler,
    {
        self.sound_toggleable()
    }

    /// The facade of the speech recogniser, for clients.
    pub fn asr(&self) -> (facade: Box<MqttToggleableComponentFacade>)
        ensures
            facade.stands_for(
                Component::Asr,
                TopicModel::Asr(AsrCommand::ToggleOn),
                TopicModel::Asr(AsrCommand::ToggleOff),
            ),
            facade.mqtt_handler == self.mqtt_handler,
    {
        self.asr_component()
    }

    /// The facade of the speech synthesiser, for clients.
    pub fn tts(&self) -> (facade: Box<MqttComponentFacade>)
        ensures
            facade.component == Component::Tts,
            facade.mqtt_handler == self.mqtt_handler,
    {
        self.component(Component::Tts)
    }

    /// The facade of the language understanding, for clients.
    pub fn nlu(&self) -> (facade: Box<MqttComponentFacade>)
        ensures
            facade.component == Component::Nlu,
            facade.mqtt_handler == self.mqtt_handler,
    {
        self.component(Component::Nlu)
    }

    /// The facade of the audio server, for clients.
    pub fn audio_server(&self) -> (facade: Box<MqttToggleableComponentFacade>)
        ensures
            facade.stands_for(
                Component::AudioServer,
                TopicModel::AudioServer(None, AudioServerModel::ToggleOn),
                TopicModel::AudioServer(None, AudioServerModel::ToggleOff),
            ),
            facade.mqtt_handler == self.mqtt_handler,
    {
        self.audio_server_component()
    }

    /// The facade of the dialogue manager, for clients.
    pub fn dialogue(&self) -> (facade: Box<MqttToggleableComponentFacade>)
        ensures
            facade.stands_for(
                Component::DialogueManager,
                TopicModel::DialogueManager(DialogueManagerCommand::ToggleOn),
                TopicModel::DialogueManager(DialogueManagerCommand::ToggleOff),
            ),
            facade.mqtt_handler == self.mqtt_handler,
    {
        self.dialogue_component()
    }

    /// The facade of the hotword detector, for the component itself.
    pub fn hotword_backend(&self) -> (facade: Box<MqttToggleableComponentFacade>)
        ensures
            facade.stands_for(
                Component::Hotword,
                TopicModel::Hotword(None, HotwordCommand::ToggleOn),
                TopicModel::Hotword(None, HotwordCommand::ToggleOff),
            ),
            facade.mqtt_handler == self.mqtt_handler,
    {
        self.hotword_component()
    }

    /// The facade of the feedback sounds, for those who play them.
    pub fn sound_feedback_backend(&self) -> (facade: Box<MqttToggleableFacade>)
        ensures
            facade.toggle_on_topic@ == TopicModel::Feedback(
                FeedbackCommand::Sound(SoundCommand::ToggleOn),
            ),
            facade.toggle_off_topic@ == TopicModel::Feedback(
                FeedbackCommand::Sound(SoundCommand::ToggleOff),
            ),
            facade.mqtt_handler == self.mqtt_handler,
    {
        self.sound_toggleable()
    }

    /// The facade of the speech recogniser, for the component itself.
    pub fn asr_backend(&self) -> (facade: Box<MqttToggleableComponentFacade>)
        ensures
            facade.stands_for(
                Component::Asr,
                TopicModel::Asr(AsrCommand::ToggleOn),
                TopicModel::Asr(AsrCommand::ToggleOff),
            ),
            facade.mqtt_handler == self.mqtt_handler,
    {
        self.asr_component()
    }

    /// The facade of the speech synthesiser, for the component itself.
    pub fn tts_backend(&self) -> (facade: Box<MqttComponentFacade>)
        ensures
            facade.component == Component::Tts,
            facade.mqtt_handler == self.mqtt_handler,
    {
        self.component(Component::Tts)
    }

    /// The facade of the language understanding, for the component itself.
    pub fn nlu_backend(&self) -> (facade: Box<MqttComponentFacade>)
        ensures
            facade.component == Component::Nlu,
            facade.mqtt_handler == self.mqtt_handler,
    {
        self.component(Component::Nlu)
    }

    /// The facade of the audio server, for the component itself.
    pub fn audio_server_backend(&self) -> (facade: Box<MqttToggleableComponentFacade>)
        ensures
            facade.stands_for(
                Component::AudioServer,
                TopicModel::AudioServer(None, AudioServerModel::ToggleOn),
                TopicModel::AudioServer(None, AudioServerModel::ToggleOff),
            ),
            facade.mqtt_handler == self.mqtt_handler,
    {
        self.audio_server_component()
    }

    /// The facade of the dialogue manager, for the component itself.
    pub fn dialogue_backend(&self) -> (facade: Box<MqttToggleableComponentFacade>)
        ensures
            facade.stands_for(
                Component::DialogueManager,
                TopicModel::DialogueManager(DialogueManagerCommand::ToggleOn),
                TopicModel::DialogueManager(DialogueManagerCommand::ToggleOff),
            ),
            facade.mqtt_handler == self.mqtt_handler,
    {
        self.dialogue_component()
    }
}

} // verus!
