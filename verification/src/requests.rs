//! What the MQTT client is asked to do.
use crate::filter::accepts;
use crate::report::Level;
use crate::topics::{topic_at, TopicModel};
use vstd::prelude::*;

verus! {

/// A message to publish.
#[derive(Debug, PartialEq, Eq)]
pub struct Publication {
    pub topic_name: String,
    pub payload: Vec<u8>,
}

/// A [`Publication`] with its text as a sequence of characters.
pub ghost struct PublicationModel {
    pub topic_name: Seq<char>,
    pub payload: Seq<u8>,
}

impl View for Publication {
    type V = PublicationModel;

    open spec fn view(&self) -> PublicationModel {
        PublicationModel { topic_name: self.topic_name@, payload: self.payload@ }
    }
}

/// The message with a payload on a topic.
pub open spec fn publication(topic: TopicModel, payload: Seq<u8>) -> PublicationModel {
    PublicationModel { topic_name: topic.path(), payload }
}

/// What becomes of a payload that was to be serialised: a message on a topic,
/// or the error that the serialisation ended in.
pub open spec fn payload_publication<E>(
    topic: TopicModel,
    serialized: Result<Vec<u8>, E>,
    published: Result<Publication, E>,
) -> bool {
    match serialized {
        Ok(payload) => published matches Ok(p) && p@ == publication(topic, payload@),
        Err(e) => published == Err::<Publication, E>(e),
    }
}

/// What the callback of a subscription is given.
#[derive(Clone, Copy, Debug, PartialEq, Eq, Structural)]
pub enum Expected {
    /// Nothing: the message itself is the news.
    Notification,
    /// The value that the payload holds as JSON.
    Json,
    /// The topic of the message and the bytes of the payload.
    Binary,
}

/// A subscription to ask for.
#[derive(Debug, PartialEq, Eq)]
pub struct Subscription {
    /// Which topic names it is for.
    pub filter: String,
    /// What its callback is given.
    pub expected: Expected,
    /// At which level its messages are reported.
    pub log_level: Level,
}

/// A [`Subscription`] with its text as a sequence of characters.
pub ghost struct SubscriptionModel {
    pub filter: Seq<char>,
    pub expected: Expected,
    pub log_level: Level,
}

impl View for Subscription {
    type V = SubscriptionModel;

    open spec fn view(&self) -> SubscriptionModel {
        SubscriptionModel {
            filter: self.filter@,
            expected: self.expected,
            log_level: self.log_level,
        }
    }
}

/// At which level the messages of a topic are reported: audio frames, which
/// come many times a second, below all others.
pub open spec fn level_of(topic: TopicModel) -> Level {
    if topic matches TopicModel::AudioServer(_, c) && c is AudioFrame {
        Level::Trace
    } else {
        Level::Debug
    }
}

/// The subscription to a topic.
pub open spec fn subscription(topic: TopicModel, expected: Expected) -> SubscriptionModel {
    SubscriptionModel { filter: topic.path(), expected, log_level: level_of(topic) }
}

/// What the callback of a [`Expected::Binary`] subscription is given of a
/// message: the topic that its name stands for and its payload, whole. Where
/// the name stands for no topic the callback is not called.
pub open spec fn binary_call(message: PublicationModel) -> Option<(TopicModel, Seq<u8>)> {
    match topic_at(message.topic_name) {
        Some(topic) => Some((topic, message.payload)),
        None => None,
    }
}

/// The calls of the callback of a [`Expected::Binary`] subscription that
/// messages lead to, one message after the other.
pub open spec fn binary_calls(messages: Seq<PublicationModel>) -> Seq<(TopicModel, Seq<u8>)>
    decreases messages.len(),
{
    if messages.len() == 0 {
        Seq::empty()
    } else {
        let before = binary_calls(messages.drop_last());
        match binary_call(messages.last()) {
            Some(call) => before.push(call),
            None => before,
        }
    }
}

impl SubscriptionModel {
    /// Whether the subscription is for a message.
    pub open spec fn receives(self, message: PublicationModel) -> bool {
        accepts(self.filter, message.topic_name)
    }
}

} // verus!
