//! The handler that facades publish and subscribe through.
use crate::report::Level;
use crate::requests::{
    binary_call, level_of, payload_publication, publication, subscription, Expected, Publication,
    PublicationModel, Subscription,
};
use crate::topics::{AudioServerCommand, HermesTopic, TopicModel};
use vstd::prelude::*;

verus! {

/// The largest packet, in bytes, unless it is set otherwise.
pub const DEFAULT_MAX_PACKET_SIZE: usize = 262_144;

/// With what the MQTT client is started.
#[derive(Debug, PartialEq, Eq)]
pub struct MqttOptions {
    pub client_id: String,
    pub broker_addr: String,
    /// The largest packet, in bytes, that is sent or accepted.
    pub max_packet_size: usize,
}

impl MqttOptions {
    /// The options of a client with an identifier, on a broker.
    pub fn new(client_id: String, broker_addr: &str) -> (options: MqttOptions)
        ensures
            options.client_id@ == client_id@,
            options.broker_addr@ == broker_addr@,
            options.max_packet_size == DEFAULT_MAX_PACKET_SIZE,
    {
        MqttOptions {
            client_id,
            broker_addr: broker_addr.to_owned(),
            max_packet_size: DEFAULT_MAX_PACKET_SIZE,
        }
    }
}

/// Turns topics and payloads into requests to the MQTT client, and messages
/// into what callbacks are given.
#[derive(Debug, PartialEq, Eq)]
pub struct MqttHandler {
    /// With what the client was started.
    pub options: MqttOptions,
}

/// What to do about a message whose payload was to hold a value as JSON.
#[derive(Debug, PartialEq, Eq)]
pub enum PayloadDelivery<P, E> {
    /// Hand the value to the callback.
    Call(P),
    /// Warn that the payload could not be decoded, and call nothing.
    Warn(E),
}

/// What the end of a decoding makes of a message whose payload was to hold a
/// value as JSON: the callback is given the value, or is not called.
pub open spec fn payload_call<P, E>(decoded: Result<P, E>) -> PayloadDelivery<P, E> {
    match decoded {
        Ok(value) => PayloadDelivery::Call(value),
        Err(e) => PayloadDelivery::Warn(e),
    }
}

/// What to do about a message whose payload is bytes.
#[derive(Debug, PartialEq, Eq)]
pub enum BinaryDelivery<'a> {
    /// Hand the topic and the bytes to the callback.
    Call(HermesTopic, &'a [u8]),
    /// Report that the topic name stands for no topic, and call nothing.
    UnknownTopic,
}

impl<'a> View for BinaryDelivery<'a> {
    type V = Option<(TopicModel, Seq<u8>)>;

    open spec fn view(&self) -> Option<(TopicModel, Seq<u8>)> {
        match *self {
            BinaryDelivery::Call(topic, bytes) => Some((topic@, bytes@)),
            BinaryDelivery::UnknownTopic => None,
        }
    }
}

/// The values that the callback of a [`Expected::Json`] subscription is given,
/// by how the decodings of the messages ended, one message after the other.
pub open spec fn payload_calls<P, E>(decoded: Seq<Result<P, E>>) -> Seq<P>
    decreases decoded.len(),
{
    if decoded.len() == 0 {
        Seq::empty()
    } else {
        let before = payload_calls(decoded.drop_last());
        match payload_call(decoded.last()) {
            PayloadDelivery::Call(value) => before.push(value),
            PayloadDelivery::Warn(_) => before,
        }
    }
}

/// What to do about a message.
#[derive(Debug, PartialEq, Eq)]
pub enum Delivery<'a, P, E> {
    /// Tell the callback that a message came.
    Notification,
    /// The message was to hold a value as JSON.
    Payload(PayloadDelivery<P, E>),
    /// The message holds bytes.
    Binary(BinaryDelivery<'a>),
}

/// Whether a delivery is what is to be done about a message for a subscription,
/// by what the callback is given and how the decoding of the payload ended.
pub open spec fn delivers<P, E>(
    expected: Expected,
    message: PublicationModel,
    decoded: Result<P, E>,
    delivery: Delivery<P, E>,
) -> bool {
    match expected {
        Expected::Notification => delivery is Notification,
        Expected::Json => delivery == Delivery::<P, E>::Payload(payload_call(decoded)),
        Expected::Binary => delivery matches Delivery::Binary(d) && d@ == binary_call(message),
    }
}

impl MqttHandler {
    /// The message without a payload on a topic.
    pub fn publish(&self, topic: &HermesTopic) -> (published: Publication)
        ensures
            published@ == publication(topic@, Seq::empty()),
    {
        Publication { topic_name: topic.as_path(), payload: Vec::new() }
    }

    /// The message that carries a serialised payload on a topic. Where the
    /// payload could not be serialised nothing is published and the error is
    /// handed on.
    pub fn publish_payload<E>(
        &self,
        topic: &HermesTopic,
        serialized: Result<Vec<u8>, E>,
    ) -> (published: Result<Publication, E>)
        ensures
            payload_publication(topic@, serialized, published),
    {
        match serialized {
            Ok(payload) => Ok(Publication { topic_name: topic.as_path(), payload }),
            Err(e) => Err(e),
        }
    }

    /// The message that carries bytes on a topic.
    pub fn publish_binary_payload(&self, topic: &HermesTopic, payload: Vec<u8>) -> (published:
        Publication)
        ensures
            published@ == publication(topic@, payload@),
    {
        Publication { topic_name: topic.as_path(), payload }
    }

    /// The subscription whose callback is only told that a message came.
    pub fn subscribe(&self, topic: &HermesTopic) -> (subscribed: Subscription)
        ensures
            subscribed@ == subscription(topic@, Expected::Notification),
    {
        self.inner_subscribe(topic, Expected::Notification)
    }

    /// The subscription whose callback is given the value of the payload.
    pub fn subscribe_payload(&self, topic: &HermesTopic) -> (subscribed: Subscription)
        ensures
            subscribed@ == subscription(topic@, Expected::Json),
    {
        self.inner_subscribe(topic, Expected::Json)
    }

    /// The subscription whose callback is given the topic and the bytes.
    pub fn subscribe_binary_payload(&self, topic: &HermesTopic) -> (subscribed: Subscription)
        ensures
            subscribed@ == subscription(topic@, Expected::Binary),
    {
        self.inner_subscribe(topic, Expected::Binary)
    }

    /// The subscription to a topic.
    fn inner_subscribe(&self, topic: &HermesTopic, expected: Expected) -> (subscribed: Subscription)
        ensures
            subscribed@ == subscription(topic@, expected),
    {
        Subscription { filter: topic.to_string(), expected, log_level: Self::log_level(topic) }
    }

    /// At which level the messages of a topic are reported.
    pub fn log_level(topic: &HermesTopic) -> (level: Level)
        ensures
            level == level_of(topic@),
    {
        match topic {
            HermesTopic::AudioServer(_, AudioServerCommand::AudioFrame) => Level::Trace,
            _ => Level::Debug,
        }
    }

    /// What to do about a message for a [`Expected::Json`] subscription, by
    /// how the decoding of its payload ended.
    pub fn receive_payload<P, E>(decoded: Result<P, E>) -> (delivery: PayloadDelivery<P, E>)
        ensures
            delivery == payload_call(decoded),
    {
        match decoded {
            Ok(value) => PayloadDelivery::Call(value),
            Err(e) => PayloadDelivery::Warn(e),
        }
    }

    /// What to do about a message for a [`Expected::Binary`] subscription: its
    /// callback is given the topic that the name stands for and every byte of
    /// the payload.
    pub fn receive_binary_payload<'a>(topic_name: &str, payload: &'a [u8]) -> (delivery:
        BinaryDelivery<'a>)
        ensures
            delivery@ == binary_call(
                PublicationModel { topic_name: topic_name@, payload: payload@ },
            ),
    {
        match HermesTopic::from_path(topic_name) {
            Some(topic) => BinaryDelivery::Call(topic, payload),
            None => BinaryDelivery::UnknownTopic,
        }
    }

    /// What to do about a message for a subscription, by what its callback is
    /// given. A notification is delivered for every message, whatever its name
    /// and payload; how the decoding of the payload ended counts only where a
    /// value is expected.
    pub fn deliver<'a, P, E>(
        expected: Expected,
        topic_name: &str,
        payload: &'a [u8],
        decoded: Result<P, E>,
    ) -> (delivery: Delivery<'a, P, E>)
        ensures
            delivers(
                expected,
                PublicationModel { topic_name: topic_name@, payload: payload@ },
                decoded,
                delivery,
            ),
    {
        match expected {
            Expected::Notification => Delivery::Notification,
            Expected::Json => Delivery::Payload(Self::receive_payload(decoded)),
            Expected::Binary => {
                Delivery::Binary(Self::receive_binary_payload(topic_name, payload))
            },
        }
    }
}

} // verus!
