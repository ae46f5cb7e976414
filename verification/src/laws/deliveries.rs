//! What a handler makes of topics, payloads and messages.
use crate::audio::{
    audio_frame_of, decode_audio_frame, decode_play_bytes, play_bytes_of, AudioFrameMessage,
    AudioFrameModel, PlayBytesMessage, PlayBytesModel,
};
use crate::handler::{
    delivers, payload_call, BinaryDelivery, Delivery, MqttHandler, PayloadDelivery,
};
use crate::laws::names::{can_be_told, lemma_names_stand_for_topics, lemma_path_is_spelt, spelt};
use crate::report::Level;
use crate::requests::{
    binary_call, level_of, payload_publication, publication, subscription, Expected, Publication,
    PublicationModel, Subscription,
};
use crate::topics::{
    topic_at, AudioServerCommand, AudioServerModel, HermesTopic, TopicModel,
};
use vstd::prelude::*;

verus! {

/// Whether a message goes out under a name with a payload.
pub open spec fn is_message(published: Publication, name: Seq<char>, payload: Seq<u8>) -> bool {
    published.topic_name@ == name && published.payload@ == payload
}

/// Whether a message goes out under a name with what was serialised, or the
/// error that the serialising ended in is handed on.
pub open spec fn is_json_message<E>(
    published: Result<Publication, E>,
    name: Seq<char>,
    serialized: Result<Vec<u8>, E>,
) -> bool {
    match serialized {
        Ok(json) => published matches Ok(p) && is_message(p, name, json@),
        Err(e) => published == Err::<Publication, E>(e),
    }
}

/// Whether a subscription is to a filter, for a callback that is given so much.
pub open spec fn is_subscription(
    subscribed: Subscription,
    filter: Seq<char>,
    expected: Expected,
) -> bool {
    subscribed.filter@ == filter && subscribed.expected == expected
}

/// A message keeps its topic's name and its payload, a subscription its topic's
/// name and what its callback is given, for every topic, payload and kind of
/// callback. Only the messages on audio frames are reported below the others.
pub proof fn lemma_requests_keep_what_they_are_made_of(
    topic: TopicModel,
    payload: Seq<u8>,
    expected: Expected,
)
    ensures
        publication(topic, payload).topic_name == spelt(topic),
        publication(topic, payload).payload == payload,
        subscription(topic, expected).filter == spelt(topic),
        subscription(topic, expected).expected == expected,
        subscription(topic, expected).log_level == level_of(topic),
        level_of(topic) == Level::Trace <==> exists|site: Option<Seq<char>>|
            topic == TopicModel::AudioServer(site, AudioServerModel::AudioFrame),
{
    lemma_path_is_spelt(topic);
    if let TopicModel::AudioServer(site, c) = topic {
        if c is AudioFrame {
            assert(topic == TopicModel::AudioServer(site, AudioServerModel::AudioFrame));
        }
    }
}

/// The outcome of publishing what was serialised: the message with all of it,
/// or the error unchanged; and never one where the other is due.
pub proof fn lemma_serialised_goes_out_whole<E>(
    topic: TopicModel,
    serialized: Result<Vec<u8>, E>,
    published: Result<Publication, E>,
)
    requires
        payload_publication(topic, serialized, published),
    ensures
        is_json_message(published, spelt(topic), serialized),
        serialized is Ok <==> published is Ok,
{
    lemma_path_is_spelt(topic);
}

/// The view of a message and of a subscription are the texts and bytes that
/// they hold.
pub proof fn lemma_request_views(published: Publication, subscribed: Subscription)
    ensures
        published@.topic_name == published.topic_name@,
        published@.payload == published.payload@,
        subscribed@.filter == subscribed.filter@,
        subscribed@.expected == subscribed.expected,
        subscribed@.log_level == subscribed.log_level,
{
}

/// A handler publishes on a topic under the topic's name: nothing, the bytes
/// that it was given, or what the payload was serialised to.
pub proof fn lemma_handler_publishes<E>(
    handler: MqttHandler,
    topic: HermesTopic,
    plain: Publication,
    bytes: Vec<u8>,
    binary: Publication,
    serialized: Result<Vec<u8>, E>,
    json: Result<Publication, E>,
)
    requires
        call_ensures(MqttHandler::publish, (&handler, &topic), plain),
        call_ensures(MqttHandler::publish_binary_payload, (&handler, &topic, bytes), binary),
        call_ensures(MqttHandler::publish_payload::<E>, (&handler, &topic, serialized), json),
    ensures
        is_message(plain, spelt(topic@), Seq::empty()),
        is_message(binary, spelt(topic@), bytes@),
        is_json_message(json, spelt(topic@), serialized),
{
    lemma_path_is_spelt(topic@);
}

/// A handler subscribes to a topic by the topic's name, for a callback of the
/// kind that was asked for, whatever the topic; it reports audio frames at the
/// lowest level and all else above it.
pub proof fn lemma_handler_subscribes(
    handler: MqttHandler,
    topic: HermesTopic,
    notified: Subscription,
    json: Subscription,
    binary: Subscription,
    level: Level,
)
    requires
        call_ensures(MqttHandler::subscribe, (&handler, &topic), notified),
        call_ensures(MqttHandler::subscribe_payload, (&handler, &topic), json),
        call_ensures(MqttHandler::subscribe_binary_payload, (&handler, &topic), binary),
        call_ensures(MqttHandler::log_level, (&topic,), level),
    ensures
        is_subscription(notified, spelt(topic@), Expected::Notification),
        is_subscription(json, spelt(topic@), Expected::Json),
        is_subscription(binary, spelt(topic@), Expected::Binary),
        notified.log_level == level && json.log_level == level && binary.log_level == level,
        level == match topic {
            HermesTopic::AudioServer(_, AudioServerCommand::AudioFrame) => Level::Trace,
            _ => Level::Debug,
        },
{
    lemma_path_is_spelt(topic@);
}

/// A value that was decoded is handed to the callback, whatever the name and
/// the payload of the message; where the decoding failed the error is reported.
pub proof fn lemma_json_is_delivered<P, E>(
    message: PublicationModel,
    decoded: Result<P, E>,
    delivery: Delivery<P, E>,
)
    ensures
        delivers(Expected::Json, message, decoded, delivery) <==> match decoded {
            Ok(value) => delivery matches Delivery::Payload(PayloadDelivery::Call(given)) && given
                == value,
            Err(e) => delivery matches Delivery::Payload(PayloadDelivery::Warn(told)) && told == e,
        },
        payload_call(decoded) == match decoded {
            Ok(value) => PayloadDelivery::<P, E>::Call(value),
            Err(e) => PayloadDelivery::<P, E>::Warn(e),
        },
{
}

/// The values that the deliveries of a subscription for values hand to its
/// callback are the ones that were decoded, in the order of the messages.
pub proof fn lemma_json_deliveries<P, E>(
    messages: Seq<PublicationModel>,
    decoded: Seq<Result<P, E>>,
    deliveries: Seq<Delivery<P, E>>,
)
    requires
        decoded.len() == messages.len(),
        deliveries.len() == messages.len(),
        forall|i: int|
            0 <= i < messages.len() ==> delivers(
                Expected::Json,
                messages[i],
                decoded[i],
                #[trigger] deliveries[i],
            ),
    ensures
        deliveries.filter(
            |d: Delivery<P, E>| d matches Delivery::Payload(PayloadDelivery::Call(_)),
        ).map_values(|d: Delivery<P, E>| d->Payload_0->Call_0) == decoded.filter(
            |r: Result<P, E>| r is Ok,
        ).map_values(|r: Result<P, E>| r->Ok_0),
    decreases messages.len(),
{
    let called = |d: Delivery<P, E>| d matches Delivery::Payload(PayloadDelivery::Call(_));
    let given = |d: Delivery<P, E>| d->Payload_0->Call_0;
    let good = |r: Result<P, E>| r is Ok;
    let value = |r: Result<P, E>| r->Ok_0;
    reveal(Seq::filter);
    if messages.len() > 0 {
        let d = deliveries.drop_last();
        let r = decoded.drop_last();
        lemma_json_deliveries(messages.drop_last(), r, d);
        lemma_json_is_delivered(messages.last(), decoded.last(), deliveries.last());
        if good(decoded.last()) {
            assert(d.filter(called).push(deliveries.last()).map_values(given) =~= d.filter(
                called,
            ).map_values(given).push(given(deliveries.last())));
            assert(r.filter(good).push(decoded.last()).map_values(value) =~= r.filter(
                good,
            ).map_values(value).push(value(decoded.last())));
        }
    }
    assert(deliveries.filter(called).map_values(given) =~= decoded.filter(good).map_values(value));
}

/// A message for a subscription for bytes is delivered with all its bytes where
/// its name is that of a topic that can be told from it, and then with that
/// topic; it is reported as unknown otherwise.
pub proof fn lemma_bytes_are_delivered<P, E>(
    message: PublicationModel,
    decoded: Result<P, E>,
    delivery: Delivery<P, E>,
    topic: TopicModel,
)
    requires
        delivers(Expected::Binary, message, decoded, delivery),
    ensures
        match delivery {
            Delivery::Binary(BinaryDelivery::Call(t, bytes)) => bytes@ == message.payload
                && spelt(t@) == message.topic_name && can_be_told(t@),
            Delivery::Binary(BinaryDelivery::UnknownTopic) => true,
            _ => false,
        },
        can_be_told(topic) && spelt(topic) == message.topic_name ==> (delivery matches
            Delivery::Binary(BinaryDelivery::Call(t, _)) && t@ == topic),
        can_be_told(topic) && spelt(topic) == message.topic_name ==> binary_call(message) == Some(
            (topic, message.payload),
        ),
        binary_call(message) matches Some((t, bytes)) ==> bytes == message.payload && spelt(t)
            == message.topic_name && can_be_told(t),
{
    lemma_names_stand_for_topics(topic, message.topic_name);
    if let Some(t) = topic_at(message.topic_name) {
        lemma_names_stand_for_topics(t, message.topic_name);
    }
}

/// What is done about a message: a notification is always told; a value is
/// handed on as it was decoded, or its error reported; bytes are handed on
/// whole, under the topic whose name the message has.
pub proof fn lemma_deliver<'a, P, E>(
    expected: Expected,
    topic_name: &str,
    payload: &'a [u8],
    decoded: Result<P, E>,
    delivery: Delivery<'a, P, E>,
    topic: TopicModel,
)
    requires
        call_ensures(
            MqttHandler::deliver::<P, E>,
            (expected, topic_name, payload, decoded),
            delivery,
        ),
    ensures
        expected is Notification ==> delivery is Notification,
        expected is Json ==> match decoded {
            Ok(value) => delivery matches Delivery::Payload(PayloadDelivery::Call(given)) && given
                == value,
            Err(e) => delivery matches Delivery::Payload(PayloadDelivery::Warn(told)) && told == e,
        },
        expected is Binary ==> match delivery {
            Delivery::Binary(BinaryDelivery::Call(t, bytes)) => bytes@ == payload@ && spelt(t@)
                == topic_name@ && can_be_told(t@),
            Delivery::Binary(BinaryDelivery::UnknownTopic) => !(can_be_told(topic) && spelt(topic)
                == topic_name@),
            _ => false,
        },
{
    let message = PublicationModel { topic_name: topic_name@, payload: payload@ };
    if expected is Binary {
        lemma_bytes_are_delivered(message, decoded, delivery, topic);
    }
}

/// The steps for values and for bytes do what the delivery as a whole does.
pub proof fn lemma_receive<'a, P, E>(
    topic_name: &str,
    payload: &'a [u8],
    decoded: Result<P, E>,
    value_step: PayloadDelivery<P, E>,
    bytes_step: BinaryDelivery<'a>,
    topic: TopicModel,
)
    requires
        call_ensures(MqttHandler::receive_payload::<P, E>, (decoded,), value_step),
        call_ensures(MqttHandler::receive_binary_payload, (topic_name, payload), bytes_step),
    ensures
        match decoded {
            Ok(value) => value_step == PayloadDelivery::<P, E>::Call(value),
            Err(e) => value_step == PayloadDelivery::<P, E>::Warn(e),
        },
        match bytes_step {
            BinaryDelivery::Call(t, bytes) => bytes@ == payload@ && spelt(t@) == topic_name@
                && can_be_told(t@),
            BinaryDelivery::UnknownTopic => !(can_be_told(topic) && spelt(topic) == topic_name@),
        },
{
    lemma_names_stand_for_topics(topic, topic_name@);
    if let BinaryDelivery::Call(t, _) = bytes_step {
        lemma_names_stand_for_topics(t@, topic_name@);
    }
}

/// Bytes on a topic of audio frames are a frame of just those bytes, at the site
/// of the topic, and bytes on any other topic are no frame. Bytes on a topic of
/// bytes to play are just those bytes, at the site and under the identifier of
/// the topic, and bytes on any other topic are none to play.
pub proof fn lemma_bytes_stay_as_they_are(topic: TopicModel, bytes: Seq<u8>)
    ensures
        audio_frame_of(topic, bytes) matches Some(frame) ==> frame.wav_frame == bytes && topic
            == TopicModel::AudioServer(Some(frame.site_id), AudioServerModel::AudioFrame),
        audio_frame_of(topic, bytes) is None ==> forall|site: Seq<char>|
            topic != TopicModel::AudioServer(Some(site), AudioServerModel::AudioFrame),
        play_bytes_of(topic, bytes) matches Some(played) ==> played.wav_bytes == bytes && topic
            == TopicModel::AudioServer(
            Some(played.site_id),
            AudioServerModel::PlayBytes(played.id),
        ),
        play_bytes_of(topic, bytes) is None ==> forall|site: Seq<char>, id: Seq<char>|
            topic != TopicModel::AudioServer(Some(site), AudioServerModel::PlayBytes(id)),
{
}

/// Decoding gives every byte, in order, with the texts of the topic, and gives
/// something exactly on the topics that it is for.
pub proof fn lemma_decoding(
    topic: HermesTopic,
    bytes: &[u8],
    frame: Option<AudioFrameMessage>,
    played: Option<PlayBytesMessage>,
)
    requires
        call_ensures(decode_audio_frame, (&topic, bytes), frame),
        call_ensures(decode_play_bytes, (&topic, bytes), played),
    ensures
        match topic {
            HermesTopic::AudioServer(Some(site), AudioServerCommand::AudioFrame) => played is None
                && (frame matches Some(m) && m.site_id@ == site@ && m.wav_frame@ == bytes@),
            HermesTopic::AudioServer(Some(site), AudioServerCommand::PlayBytes(id)) =>
                frame is None && (played matches Some(m) && m.site_id@ == site@ && m.id@ == id@
                    && m.wav_bytes@ == bytes@),
            _ => frame is None && played is None,
        },
{
}

/// Whatever site the audio frames were subscribed to: of a message on the topic
/// of the frames of a site, the callback is given the bytes of the payload, at
/// the site of the message's own topic.
pub proof fn lemma_audio_frame_delivered(message: PublicationModel, site: Seq<char>)
    requires
        topic_at(message.topic_name) == Some(
            TopicModel::AudioServer(Some(site), AudioServerModel::AudioFrame),
        ),
    ensures
        binary_call(message) matches Some((topic, bytes)) && audio_frame_of(topic, bytes) == Some(
            AudioFrameModel { wav_frame: message.payload, site_id: site },
        ),
{
}

/// A frame that is published at a site of one level, delivered and decoded is
/// the frame again: the same bytes, at the same site. Bytes to play come back
/// in the same way, under the same identifier.
pub proof fn lemma_audio_comes_back(site: Seq<char>, id: Seq<char>, bytes: Seq<u8>)
    requires
        !site.contains('/'),
    ensures
        binary_call(
            publication(TopicModel::AudioServer(Some(site), AudioServerModel::AudioFrame), bytes),
        ) matches Some((t, b)) && audio_frame_of(t, b) == Some(
            AudioFrameModel { wav_frame: bytes, site_id: site },
        ),
        binary_call(
            publication(
                TopicModel::AudioServer(Some(site), AudioServerModel::PlayBytes(id)),
                bytes,
            ),
        ) matches Some((t, b)) && play_bytes_of(t, b) == Some(
            PlayBytesModel { id, wav_bytes: bytes, site_id: site },
        ),
{
    let frames = TopicModel::AudioServer(Some(site), AudioServerModel::AudioFrame);
    let played = TopicModel::AudioServer(Some(site), AudioServerModel::PlayBytes(id));
    lemma_path_is_spelt(frames);
    lemma_path_is_spelt(played);
    lemma_names_stand_for_topics(frames, spelt(frames));
    lemma_names_stand_for_topics(played, spelt(played));
}

} // verus!
