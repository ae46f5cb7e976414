//! The audio server: frames of audio, and bytes to play.
use crate::components::{HasHandler, MqttToggleableComponentFacade};
use crate::requests::{
    payload_publication, publication, subscription, Expected, Publication, Subscription,
};
use crate::topics::{AudioServerCommand, AudioServerModel, HermesTopic, SiteId, TopicModel};
use vstd::prelude::*;
use vstd::slice::slice_to_vec;

verus! {

/// A frame of audio that was recorded at a site.
#[derive(Debug, PartialEq, Eq)]
pub struct AudioFrameMessage {
    pub wav_frame: Vec<u8>,
    pub site_id: SiteId,
}

/// Bytes to play at a site, under the identifier of the request.
#[derive(Debug, PartialEq, Eq)]
pub struct PlayBytesMessage {
    pub id: String,
    pub wav_bytes: Vec<u8>,
    pub site_id: SiteId,
}

/// News that something has been played at a site: the site that it names, and
/// what the news as a whole was serialised to.
#[derive(Debug, PartialEq, Eq)]
pub struct PlayFinishedMessage<E> {
    pub site_id: SiteId,
    pub json: Result<Vec<u8>, E>,
}

/// An [`AudioFrameMessage`] with its text as a sequence of characters.
pub ghost struct AudioFrameModel {
    pub wav_frame: Seq<u8>,
    pub site_id: Seq<char>,
}

/// A [`PlayBytesMessage`] with its texts as sequences of characters.
pub ghost struct PlayBytesModel {
    pub id: Seq<char>,
    pub wav_bytes: Seq<u8>,
    pub site_id: Seq<char>,
}

impl View for AudioFrameMessage {
    type V = AudioFrameModel;

    open spec fn view(&self) -> AudioFrameModel {
        AudioFrameModel { wav_frame: self.wav_frame@, site_id: self.site_id@ }
    }
}

impl View for PlayBytesMessage {
    type V = PlayBytesModel;

    open spec fn view(&self) -> PlayBytesModel {
        PlayBytesModel { id: self.id@, wav_bytes: self.wav_bytes@, site_id: self.site_id@ }
    }
}

/// The frame that a topic and bytes stand for: the bytes, recorded at the site
/// of the topic.
pub open spec fn audio_frame_of(topic: TopicModel, bytes: Seq<u8>) -> Option<AudioFrameModel> {
    match topic {
        TopicModel::AudioServer(Some(site), AudioServerModel::AudioFrame) => Some(
            AudioFrameModel { wav_frame: bytes, site_id: site },
        ),
        _ => None,
    }
}

/// The bytes to play that a topic and bytes stand for: the bytes, at the site
/// and under the identifier of the topic.
pub open spec fn play_bytes_of(topic: TopicModel, bytes: Seq<u8>) -> Option<PlayBytesModel> {
    match topic {
        TopicModel::AudioServer(Some(site), AudioServerModel::PlayBytes(id)) => Some(
            PlayBytesModel { id, wav_bytes: bytes, site_id: site },
        ),
        _ => None,
    }
}

/// What a client says to and hears of the audio server.
pub trait AudioServerFacade: HasHandler {
    /// For the audio frames of a site.
    fn subscribe_audio_frame(&self, site_id: SiteId) -> (subscribed: Subscription)
        ensures
            subscribed@ == subscription(
                TopicModel::AudioServer(Some(site_id@), AudioServerModel::AudioFrame),
                Expected::Binary,
            ),
    {
        let topic = HermesTopic::AudioServer(Some(site_id), AudioServerCommand::AudioFrame);
        self.mqtt_handler().subscribe_binary_payload(&topic)
    }

    /// Play bytes at a site.
    fn publish_play_bytes(&self, message: PlayBytesMessage) -> (published: Publication)
        ensures
            published@ == publication(
                TopicModel::AudioServer(
                    Some(message.site_id@),
                    AudioServerModel::PlayBytes(message.id@),
                ),
                message.wav_bytes@,
            ),
    {
        let topic = HermesTopic::AudioServer(
            Some(message.site_id),
            AudioServerCommand::PlayBytes(message.id),
        );
        self.mqtt_handler().publish_binary_payload(&topic, message.wav_bytes)
    }

    /// For what has been played at a site.
    fn subscribe_play_finished(&self, site_id: SiteId) -> (subscribed: Subscription)
        ensures
            subscribed@ == subscription(
                TopicModel::AudioServer(Some(site_id@), AudioServerModel::PlayFinished),
                Expected::Json,
            ),
    {
        let topic = HermesTopic::AudioServer(Some(site_id), AudioServerCommand::PlayFinished);
        self.mqtt_handler().subscribe_payload(&topic)
    }

    /// For what has been played at any site.
    fn subscribe_all_play_finished(&self) -> (subscribed: Subscription)
        ensures
            subscribed@ == subscription(
                TopicModel::AudioServer(Some("+"@), AudioServerModel::PlayFinished),
                Expected::Json,
            ),
    {
        let topic = HermesTopic::AudioServer(
            Some("+".to_owned()),
            AudioServerCommand::PlayFinished,
        );
        self.mqtt_handler().subscribe_payload(&topic)
    }
}

/// What the audio server hears and says.
pub trait AudioServerBackendFacade: HasHandler {
    /// A frame of audio was recorded at a site.
    fn publish_audio_frame(&self, message: AudioFrameMessage) -> (published: Publication)
        ensures
            published@ == publication(
                TopicModel::AudioServer(Some(message.site_id@), AudioServerModel::AudioFrame),
                message.wav_frame@,
            ),
    {
        let topic = HermesTopic::AudioServer(Some(message.site_id), AudioServerCommand::AudioFrame);
        self.mqtt_handler().publish_binary_payload(&topic, message.wav_frame)
    }

    /// For bytes to play at any site.
    fn subscribe_all_play_bytes(&self) -> (subscribed: Subscription)
        ensures
            subscribed@ == subscription(
                TopicModel::AudioServer(Some("+"@), AudioServerModel::PlayBytes("#"@)),
                Expected::Binary,
            ),
    {
        let topic = HermesTopic::AudioServer(
            Some("+".to_owned()),
            AudioServerCommand::PlayBytes("#".to_owned()),
        );
        self.mqtt_handler().subscribe_binary_payload(&topic)
    }

    /// For bytes to play at a site.
    fn subscribe_play_bytes(&self, site_id: SiteId) -> (subscribed: Subscription)
        ensures
            subscribed@ == subscription(
                TopicModel::AudioServer(Some(site_id@), AudioServerModel::PlayBytes("#"@)),
                Expected::Binary,
            ),
    {
        let topic = HermesTopic::AudioServer(
            Some(site_id),
            AudioServerCommand::PlayBytes("#".to_owned()),
        );
        self.mqtt_handler().subscribe_binary_payload(&topic)
    }

    /// Something has been played at the site of the message.
    fn publish_play_finished<E>(
        &self,
        message: PlayFinishedMessage<E>,
    ) -> (published: Result<Publication, E>)
        ensures
            payload_publication(
                TopicModel::AudioServer(Some(message.site_id@), AudioServerModel::PlayFinished),
                message.json,
                published,
            ),
    {
        let topic = HermesTopic::AudioServer(
            Some(message.site_id),
            AudioServerCommand::PlayFinished,
        );
        self.mqtt_handler().publish_payload(&topic, message.json)
    }
}

impl AudioServerFacade for MqttToggleableComponentFacade {

}

impl AudioServerBackendFacade for MqttToggleableComponentFacade {

}

/// The frame that a message carries, where its topic is one of audio frames.
pub fn decode_audio_frame(topic: &HermesTopic, bytes: &[u8]) -> (message: Option<AudioFrameMessage>)
    ensures
        match message {
            Some(frame) => audio_frame_of(topic@, bytes@) == Some(frame@),
            None => audio_frame_of(topic@, bytes@) is None,
        },
{
    match topic {
        HermesTopic::AudioServer(Some(site_id), AudioServerCommand::AudioFrame) => Some(
            AudioFrameMessage { site_id: site_id.clone(), wav_frame: slice_to_vec(bytes) },
        ),
        _ => None,
    }
}

/// The bytes to play that a message carries, where its topic is one of such
/// bytes.
pub fn decode_play_bytes(topic: &HermesTopic, bytes: &[u8]) -> (message: Option<PlayBytesMessage>)
    ensures
        match message {
            Some(played) => play_bytes_of(topic@, bytes@) == Some(played@),
            None => play_bytes_of(topic@, bytes@) is None,
        },
{
    match topic {
        HermesTopic::AudioServer(Some(site_id), AudioServerCommand::PlayBytes(id)) => Some(
            PlayBytesMessage {
                site_id: site_id.clone(),
                id: id.clone(),
                wav_bytes: slice_to_vec(bytes),
            },
        ),
        _ => None,
    }
}

} // verus!
