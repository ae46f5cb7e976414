//! What a handler for a connection is made of, and which facades it gives out.
use crate::commands::{AsrCommand, Component, DialogueManagerCommand, HotwordCommand, SoundCommand};
use crate::components::{
    HasComponent, HasToggle, MqttComponentFacade, MqttToggleableComponentFacade,
    MqttToggleableFacade,
};
use crate::handler::MqttOptions;
use crate::laws::names::spelt;
use crate::protocol::{is_random_uuid, MqttHermesProtocolHandler, StartError};
use crate::topics::{AudioServerModel, FeedbackCommand, TopicModel};
use vstd::prelude::*;

verus! {

/// The words for switching on and off, letter by letter.
proof fn lemma_toggle_words()
    ensures
        "toggleOn"@ == seq!['t', 'o', 'g', 'g', 'l', 'e', 'O', 'n'],
        "toggleOff"@ == seq!['t', 'o', 'g', 'g', 'l', 'e', 'O', 'f', 'f'],
{
    reveal_strlit("toggleOn");
    reveal_strlit("toggleOff");
    assert("toggleOn"@ =~= seq!['t', 'o', 'g', 'g', 'l', 'e', 'O', 'n']);
    assert("toggleOff"@ =~= seq!['t', 'o', 'g', 'g', 'l', 'e', 'O', 'f', 'f']);
}

/// The facades of the hotword detector that a handler gives out, for clients and
/// for itself, speak for it through that handler, switch it on under
/// `hermes/hotword/toggleOn` and off under `hermes/hotword/toggleOff`.
pub proof fn lemma_hotword_facades(
    handler: MqttHermesProtocolHandler,
    client: Box<MqttToggleableComponentFacade>,
    backend: Box<MqttToggleableComponentFacade>,
    made: Box<MqttToggleableComponentFacade>,
)
    requires
        call_ensures(MqttHermesProtocolHandler::hotword, (&handler,), client),
        call_ensures(MqttHermesProtocolHandler::hotword_backend, (&handler,), backend),
        call_ensures(MqttHermesProtocolHandler::hotword_component, (&handler,), made),
    ensures
        forall|f: Box<MqttToggleableComponentFacade>|
            f == client || f == backend || f == made ==> {
                &&& #[trigger] f.component == Component::Hotword
                &&& f.component_model() == Component::Hotword
                &&& f.mqtt_handler == handler.mqtt_handler
                &&& spelt(f.toggle_on_topic@) == "hermes/hotword/toggleOn"@
                &&& spelt(f.toggle_off_topic@) == "hermes/hotword/toggleOff"@
                &&& f.toggle_on_model() == TopicModel::Hotword(None, HotwordCommand::ToggleOn)
                &&& f.toggle_off_model() == TopicModel::Hotword(None, HotwordCommand::ToggleOff)
            },
{
    lemma_toggle_words();
    reveal_strlit("hermes/hotword/");
    reveal_strlit("hermes/hotword/toggleOn");
    reveal_strlit("hermes/hotword/toggleOff");
    assert("hermes/hotword/"@ + "toggleOn"@ =~= "hermes/hotword/toggleOn"@);
    assert("hermes/hotword/"@ + "toggleOff"@ =~= "hermes/hotword/toggleOff"@);
}

/// The facades of the speech recogniser that a handler gives out, for clients and
/// for itself, speak for it through that handler, switch it on under
/// `hermes/asr/toggleOn` and off under `hermes/asr/toggleOff`.
pub proof fn lemma_asr_facades(
    handler: MqttHermesProtocolHandler,
    client: Box<MqttToggleableComponentFacade>,
    backend: Box<MqttToggleableComponentFacade>,
    made: Box<MqttToggleableComponentFacade>,
)
    requires
        call_ensures(MqttHermesProtocolHandler::asr, (&handler,), client),
        call_ensures(MqttHermesProtocolHandler::asr_backend, (&handler,), backend),
        call_ensures(MqttHermesProtocolHandler::asr_component, (&handler,), made),
    ensures
        forall|f: Box<MqttToggleableComponentFacade>|
            f == client || f == backend || f == made ==> {
                &&& #[trigger] f.component == Component::Asr
                &&& f.component_model() == Component::Asr
                &&& f.mqtt_handler == handler.mqtt_handler
                &&& spelt(f.toggle_on_topic@) == "hermes/asr/toggleOn"@
                &&& spelt(f.toggle_off_topic@) == "hermes/asr/toggleOff"@
                &&& f.toggle_on_model() == TopicModel::Asr(AsrCommand::ToggleOn)
                &&& f.toggle_off_model() == TopicModel::Asr(AsrCommand::ToggleOff)
            },
{
    lemma_toggle_words();
    reveal_strlit("hermes/asr/");
    reveal_strlit("hermes/asr/toggleOn");
    reveal_strlit("hermes/asr/toggleOff");
    assert("hermes/asr/"@ + "toggleOn"@ =~= "hermes/asr/toggleOn"@);
    assert("hermes/asr/"@ + "toggleOff"@ =~= "hermes/asr/toggleOff"@);
}

/// The facades of the dialogue manager that a handler gives out, for clients and
/// for itself, speak for it through that handler, switch it on under
/// `hermes/dialogueManager/toggleOn` and off under `hermes/dialogueManager/toggleOff`.
pub proof fn lemma_dialogue_facades(
    handler: MqttHermesProtocolHandler,
    client: Box<MqttToggleableComponentFacade>,
    backend: Box<MqttToggleableComponentFacade>,
    made: Box<MqttToggleableComponentFacade>,
)
    requires
        call_ensures(MqttHermesProtocolHandler::dialogue, (&handler,), client),
        call_ensures(MqttHermesProtocolHandler::dialogue_backend, (&handler,), backend),
        call_ensures(MqttHermesProtocolHandler::dialogue_component, (&handler,), made),
    ensures
        forall|f: Box<MqttToggleableComponentFacade>|
            f == client || f == backend || f == made ==> {
                &&& #[trigger] f.component == Component::DialogueManager
                &&& f.component_model() == Component::DialogueManager
                &&& f.mqtt_handler == handler.mqtt_handler
                &&& spelt(f.toggle_on_topic@) == "hermes/dialogueManager/toggleOn"@
                &&& spelt(f.toggle_off_topic@) == "hermes/dialogueManager/toggleOff"@
                &&& f.toggle_on_model() == TopicModel::DialogueManager(
                    DialogueManagerCommand::ToggleOn,
                )
                &&& f.toggle_off_model() == TopicModel::DialogueManager(
                    DialogueManagerCommand::ToggleOff,
                )
            },
{
    lemma_toggle_words();
    reveal_strlit("hermes/dialogueManager/");
    reveal_strlit("hermes/dialogueManager/toggleOn");
    reveal_strlit("hermes/dialogueManager/toggleOff");
    assert("hermes/dialogueManager/"@ + "toggleOn"@ =~= "hermes/dialogueManager/toggleOn"@);
    assert("hermes/dialogueManager/"@ + "toggleOff"@ =~= "hermes/dialogueManager/toggleOff"@);
}

/// The facades of the audio server that a handler gives out, for clients and
/// for itself, speak for it through that handler, switch it on under
/// `hermes/audioServer/toggleOn` and off under `hermes/audioServer/toggleOff`.
pub proof fn lemma_audio_server_facades(
    handler: MqttHermesProtocolHandler,
    client: Box<MqttToggleableComponentFacade>,
    backend: Box<MqttToggleableComponentFacade>,
    made: Box<MqttToggleableComponentFacade>,
)
    requires
        call_ensures(MqttHermesProtocolHandler::audio_server, (&handler,), client),
        call_ensures(MqttHermesProtocolHandler::audio_server_backend, (&handler,), backend),
        call_ensures(MqttHermesProtocolHandler::audio_server_component, (&handler,), made),
    ensures
        forall|f: Box<MqttToggleableComponentFacade>|
            f == client || f == backend || f == made ==> {
                &&& #[trigger] f.component == Component::AudioServer
                &&& f.component_model() == Component::AudioServer
                &&& f.mqtt_handler == handler.mqtt_handler
                &&& spelt(f.toggle_on_topic@) == "hermes/audioServer/toggleOn"@
                &&& spelt(f.toggle_off_topic@) == "hermes/audioServer/toggleOff"@
                &&& f.toggle_on_model() == TopicModel::AudioServer(None, AudioServerModel::ToggleOn)
                &&& f.toggle_off_model() == TopicModel::AudioServer(
                    None,
                    AudioServerModel::ToggleOff,
                )
            },
{
    lemma_toggle_words();
    reveal_strlit("hermes/audioServer/");
    reveal_strlit("hermes/audioServer/toggleOn");
    reveal_strlit("hermes/audioServer/toggleOff");
    assert("hermes/audioServer/"@ + "toggleOn"@ =~= "hermes/audioServer/toggleOn"@);
    assert("hermes/audioServer/"@ + "toggleOff"@ =~= "hermes/audioServer/toggleOff"@);
}

/// The facades of the feedback sounds that a handler gives out, for clients and
/// for the sounds, go through that handler and switch the sounds on under
/// `hermes/feedback/sound/toggleOn` and off under
/// `hermes/feedback/sound/toggleOff`.
pub proof fn lemma_sound_feedback_facades(
    handler: MqttHermesProtocolHandler,
    client: Box<MqttToggleableFacade>,
    backend: Box<MqttToggleableFacade>,
    made: Box<MqttToggleableFacade>,
)
    requires
        call_ensures(MqttHermesProtocolHandler::sound_feedback, (&handler,), client),
        call_ensures(MqttHermesProtocolHandler::sound_feedback_backend, (&handler,), backend),
        call_ensures(MqttHermesProtocolHandler::sound_toggleable, (&handler,), made),
    ensures
        forall|f: Box<MqttToggleableFacade>|
            f == client || f == backend || f == made ==> {
                &&& #[trigger] f.mqtt_handler == handler.mqtt_handler
                &&& spelt(f.toggle_on_topic@) == "hermes/feedback/sound/toggleOn"@
                &&& spelt(f.toggle_off_topic@) == "hermes/feedback/sound/toggleOff"@
                &&& f.toggle_on_model() == TopicModel::Feedback(
                    FeedbackCommand::Sound(SoundCommand::ToggleOn),
                )
                &&& f.toggle_off_model() == TopicModel::Feedback(
                    FeedbackCommand::Sound(SoundCommand::ToggleOff),
                )
            },
{
    lemma_toggle_words();
    reveal_strlit("hermes/feedback/sound/");
    reveal_strlit("hermes/feedback/sound/toggleOn");
    reveal_strlit("hermes/feedback/sound/toggleOff");
    assert("hermes/feedback/sound/"@ + "toggleOn"@ =~= "hermes/feedback/sound/toggleOn"@);
    assert("hermes/feedback/sound/"@ + "toggleOff"@ =~= "hermes/feedback/sound/toggleOff"@);
}

/// A facade that a handler makes for a component speaks for that component, and
/// those for the speech synthesiser and the language understanding, for clients
/// and for themselves, speak for these, all through that handler.
pub proof fn lemma_component_facades(
    handler: MqttHermesProtocolHandler,
    component: Component,
    made: Box<MqttComponentFacade>,
    tts: Box<MqttComponentFacade>,
    tts_backend: Box<MqttComponentFacade>,
    nlu: Box<MqttComponentFacade>,
    nlu_backend: Box<MqttComponentFacade>,
)
    requires
        call_ensures(MqttHermesProtocolHandler::component, (&handler, component), made),
        call_ensures(MqttHermesProtocolHandler::tts, (&handler,), tts),
        call_ensures(MqttHermesProtocolHandler::tts_backend, (&handler,), tts_backend),
        call_ensures(MqttHermesProtocolHandler::nlu, (&handler,), nlu),
        call_ensures(MqttHermesProtocolHandler::nlu_backend, (&handler,), nlu_backend),
    ensures
        made.component_model() == component,
        made.component == component,
        tts.component_model() == Component::Tts,
        tts_backend.component_model() == Component::Tts,
        nlu.component_model() == Component::Nlu,
        nlu_backend.component_model() == Component::Nlu,
        made.mqtt_handler == handler.mqtt_handler,
        tts.mqtt_handler == handler.mqtt_handler,
        tts_backend.mqtt_handler == handler.mqtt_handler,
        nlu.mqtt_handler == handler.mqtt_handler,
        nlu_backend.mqtt_handler == handler.mqtt_handler,
{
}

/// Options allow packets of up to 256 times 1024 bytes unless they say otherwise.
/// Those that a client is started with are the ones that were given, with ten
/// million bytes for the largest packet; the name of the handler is the address
/// of the broker.
pub proof fn lemma_options_are_kept(
    client_id: String,
    address: &str,
    options: MqttOptions,
    handler: MqttHermesProtocolHandler,
)
    requires
        call_ensures(MqttOptions::new, (client_id, address), options),
        call_ensures(MqttHermesProtocolHandler::new_with_options, (options,), handler),
    ensures
        options.max_packet_size == 262_144,
        handler.name@ == address@,
        handler.mqtt_handler.options.client_id@ == client_id@,
        handler.mqtt_handler.options.broker_addr@ == address@,
        handler.mqtt_handler.options.max_packet_size == 10_000_000,
{
}

/// A handler on any options keeps the client's identifier and the broker's
/// address of the options, and takes packets of up to ten million bytes,
/// whatever the options say.
pub proof fn lemma_any_options_are_kept(options: MqttOptions, handler: MqttHermesProtocolHandler)
    requires
        call_ensures(MqttHermesProtocolHandler::new_with_options, (options,), handler),
    ensures
        handler.name@ == options.broker_addr@,
        handler.mqtt_handler.options.client_id == options.client_id,
        handler.mqtt_handler.options.broker_addr == options.broker_addr,
        handler.mqtt_handler.options.max_packet_size == 10_000_000,
{
}

/// A handler on an address alone has that address as its name and as that of
/// its broker, and an identifier of 32 lower-case hexadecimal digits with the
/// marks of a random UUID.
pub proof fn lemma_new_handler(address: &str, handler: MqttHermesProtocolHandler, i: int)
    requires
        call_ensures(MqttHermesProtocolHandler::new, (address,), handler),
        0 <= i < 32,
    ensures
        handler.name@ == address@,
        handler.mqtt_handler.options.broker_addr@ == address@,
        handler.mqtt_handler.options.max_packet_size == 10_000_000,
        is_random_uuid(handler.mqtt_handler.options.client_id@),
        ({
            let id = handler.mqtt_handler.options.client_id@;
            &&& id.len() == 32
            &&& ('0' <= id[i] && id[i] <= '9') || ('a' <= id[i] && id[i] <= 'f')
            &&& id[12] == '4'
            &&& id[16] == '8' || id[16] == '9' || id[16] == 'a' || id[16] == 'b'
        }),
{
}

/// Where the client started the handler is there, unchanged; where it did not,
/// there is an error with the client's own, which names the broker. The handler
/// is shown by the broker's address.
pub proof fn lemma_started<E>(
    handler: MqttHermesProtocolHandler,
    outcome: Result<(), E>,
    end: Result<MqttHermesProtocolHandler, StartError<E>>,
    text: String,
)
    requires
        call_ensures(MqttHermesProtocolHandler::started::<E>, (handler, outcome), end),
        call_ensures(MqttHermesProtocolHandler::to_string, (&handler,), text),
    ensures
        match outcome {
            Ok(_) => end matches Ok(h) && h == handler,
            Err(cause) => end matches Err(e) && e.cause == cause && e.context@
                == "Could not start MQTT client on "@ + handler.name@,
        },
        text@ == handler.name@ + " (MQTT)"@,
{
}

} // verus!
