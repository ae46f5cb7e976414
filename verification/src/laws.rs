//! What holds between publications and subscriptions.
pub mod components;
pub mod connections;
pub mod deliveries;
pub mod filters;
pub mod names;
pub mod reports;
pub mod sites;
pub mod tables;
pub mod talk;

use crate::audio::{play_bytes_of, PlayBytesModel, PlayFinishedMessage};
use crate::commands::{Component, ComponentCommand, HotwordCommand};
use crate::components::{HasComponent, HasToggle, MqttToggleableComponentFacade};
use crate::facades::IntentMessage;
use crate::filter::{
    accepts, has_wildcard, lemma_filter_accepts_itself, lemma_filter_without_wildcard,
    level_accepts,
};
use crate::handler::{delivers, payload_calls, Delivery};
use crate::requests::{
    binary_call, binary_calls, payload_publication, publication, subscription, Expected,
    Publication, PublicationModel, SubscriptionModel,
};
use crate::text::{
    are_levels, is_level, join, lemma_join_of_concat, lemma_join_of_split, lemma_split_of_join,
    lemma_split_of_last, lemma_split_of_level, split,
};
use crate::topics::{
    area_parts, lemma_areas_differ, lemma_path_of_topic_at, lemma_paths_differ,
    lemma_split_of_path, lemma_topic_at_path, topic_at, AudioServerModel, FeedbackCommand,
    TopicModel,
};
use vstd::prelude::*;

verus! {

/// Whether the texts of a topic stand for themselves in a subscription: none
/// of them is, or holds, a wildcard.
pub open spec fn is_concrete(topic: TopicModel) -> bool {
    match topic {
        TopicModel::Hotword(Some(site), _) => site != "+"@,
        TopicModel::AudioServer(site, AudioServerModel::PlayBytes(id)) => site != Some("+"@)
            && !has_wildcard(id),
        TopicModel::AudioServer(Some(site), _) => site != "+"@,
        TopicModel::Intent(name) => !has_wildcard(name),
        TopicModel::Component(Some(site), _, _) => site != "+"@,
        _ => true,
    }
}

/// The wildcards are one character each.
proof fn lemma_wildcards()
    ensures
        "+"@.len() == 1,
        "#"@.len() == 1,
        "+"@ != "#"@,
        is_level("+"@),
        is_level("#"@),
{
    reveal_strlit("+");
    reveal_strlit("#");
    assert("+"@[0] == '+' && "#"@[0] == '#');
}

/// What is published on a topic reaches whoever subscribed to that topic,
/// whatever the payload and whatever the subscriber expects.
pub proof fn lemma_publication_reaches_its_subscription(
    topic: TopicModel,
    payload: Seq<u8>,
    expected: Expected,
)
    ensures
        subscription(topic, expected).receives(publication(topic, payload)),
{
    lemma_filter_accepts_itself(topic.path());
}

/// A subscription to a topic whose texts stand for themselves receives what is
/// published on that topic, and nothing that is published on another.
pub proof fn lemma_concrete_subscription_receives_its_topic_only(
    subscribed: TopicModel,
    published: TopicModel,
    payload: Seq<u8>,
    expected: Expected,
)
    requires
        subscribed.well_formed(),
        is_concrete(subscribed),
        published.well_formed(),
    ensures
        subscription(subscribed, expected).receives(publication(published, payload))
            <==> subscribed == published,
{
    lemma_concrete_has_no_wildcard(subscribed);
    lemma_filter_without_wildcard(subscribed.path(), published.path());
    if published.path() == subscribed.path() {
        lemma_paths_differ(subscribed, published);
    }
}

/// The name of a topic whose texts stand for themselves holds no wildcard.
proof fn lemma_concrete_has_no_wildcard(t: TopicModel)
    requires
        t.well_formed(),
        is_concrete(t),
    ensures
        !has_wildcard(t.path()),
{
    lemma_split_of_path(t);
    lemma_join_of_split(t.parts().last());
    lemma_wildcards();
    reveal_strlit("hermes");
    reveal_strlit("feedback");
    reveal_strlit("sound");
    reveal_strlit("intent");
    assert("hermes"@.len() == 6 && "feedback"@.len() == 8 && "sound"@.len() == 5
        && "intent"@.len() == 6);
    match t {
        TopicModel::Feedback(FeedbackCommand::Sound(c)) => c.lemma_word_is_plain(),
        TopicModel::Hotword(_, c) => {
            Component::Hotword.lemma_word_is_plain();
            c.lemma_word_is_plain();
        },
        TopicModel::Asr(c) => {
            Component::Asr.lemma_word_is_plain();
            c.lemma_word_is_plain();
        },
        TopicModel::Tts(c) => {
            Component::Tts.lemma_word_is_plain();
            c.lemma_word_is_plain();
        },
        TopicModel::Nlu(c) => {
            Component::Nlu.lemma_word_is_plain();
            c.lemma_word_is_plain();
        },
        TopicModel::DialogueManager(c) => {
            Component::DialogueManager.lemma_word_is_plain();
            c.lemma_word_is_plain();
        },
        TopicModel::AudioServer(_, c) => {
            Component::AudioServer.lemma_word_is_plain();
            c.lemma_word_is_plain();
        },
        TopicModel::Intent(_) => {},
        TopicModel::Component(_, k, c) => {
            k.lemma_word_is_plain();
            c.lemma_word_is_plain();
        },
    }
}

/// A filter with `+` for the site accepts the names for every site, and no
/// others.
proof fn lemma_any_site(area: Seq<char>, word: Seq<char>, name: Seq<char>)
    requires
        is_level(area),
        is_level(word),
        area.len() >= 3,
        word.len() >= 3,
    ensures
        accepts(join(area_parts(area, Some("+"@), word)), name) <==> split(name) == area_parts(
            area,
            Some(split(name)[2]),
            word,
        ),
{
    lemma_wildcards();
    reveal_strlit("hermes");
    assert("hermes"@.len() == 6);
    assert(is_level("hermes"@));
    let wanted = area_parts(area, Some("+"@), word);
    let given = split(name);
    lemma_split_of_join(wanted);
    if accepts(join(wanted), name) {
        assert(level_accepts(wanted[0], given[0]));
        assert(level_accepts(wanted[1], given[1]));
        assert(level_accepts(wanted[3], given[3]));
        assert(given =~= area_parts(area, Some(given[2]), word));
    }
}

/// The subscription to the hotwords of all sites receives the messages on the
/// hotwords of any site, and nothing else.
pub proof fn lemma_all_detected(message: PublicationModel)
    ensures
        subscription(
            TopicModel::Hotword(Some("+"@), HotwordCommand::Detected),
            Expected::Json,
        ).receives(message) <==> (topic_at(message.topic_name) matches Some(
            TopicModel::Hotword(Some(_), c),
        ) && c == HotwordCommand::Detected),
{
    let name = message.topic_name;
    let area = Component::Hotword.word();
    let word = HotwordCommand::Detected.word();
    Component::Hotword.lemma_word_is_plain();
    HotwordCommand::Detected.lemma_word_is_plain();
    lemma_any_site(area, word, name);
    lemma_join_of_split(name);
    if split(name) == area_parts(area, Some(split(name)[2]), word) {
        lemma_topic_at_path(TopicModel::Hotword(Some(split(name)[2]), HotwordCommand::Detected));
    }
    if topic_at(name) is Some {
        lemma_split_of_path(topic_at(name).unwrap());
    }
}

/// The subscription to what has been played at all sites receives the messages
/// on what has been played at any site, and nothing else.
pub proof fn lemma_all_play_finished(message: PublicationModel)
    ensures
        subscription(
            TopicModel::AudioServer(Some("+"@), AudioServerModel::PlayFinished),
            Expected::Json,
        ).receives(message) <==> (topic_at(message.topic_name) matches Some(
            TopicModel::AudioServer(Some(_), c),
        ) && c is PlayFinished),
{
    let name = message.topic_name;
    let area = Component::AudioServer.word();
    let word = AudioServerModel::PlayFinished.word();
    Component::AudioServer.lemma_word_is_plain();
    AudioServerModel::PlayFinished.lemma_word_is_plain();
    lemma_any_site(area, word, name);
    lemma_join_of_split(name);
    if split(name) == area_parts(area, Some(split(name)[2]), word) {
        lemma_topic_at_path(
            TopicModel::AudioServer(Some(split(name)[2]), AudioServerModel::PlayFinished),
        );
    }
    if topic_at(name) is Some {
        lemma_split_of_path(topic_at(name).unwrap());
    }
}

/// The subscription to the audio frames of a site receives messages on topics
/// of audio frames only: each of them can be decoded, to a frame of that site
/// (or of any site, where the site is given as `+`).
pub proof fn lemma_audio_frames_decode(site: Seq<char>, message: PublicationModel)
    requires
        is_level(site),
        subscription(
            TopicModel::AudioServer(Some(site), AudioServerModel::AudioFrame),
            Expected::Binary,
        ).receives(message),
    ensures
        topic_at(message.topic_name) matches Some(TopicModel::AudioServer(Some(s), c))
            && c is AudioFrame && (site == "+"@ || s == site),
{
    let name = message.topic_name;
    let wanted = TopicModel::AudioServer(Some(site), AudioServerModel::AudioFrame);
    if site == "+"@ {
        let area = Component::AudioServer.word();
        let word = AudioServerModel::AudioFrame.word();
        Component::AudioServer.lemma_word_is_plain();
        AudioServerModel::AudioFrame.lemma_word_is_plain();
        lemma_any_site(area, word, name);
        lemma_join_of_split(name);
        lemma_topic_at_path(
            TopicModel::AudioServer(Some(split(name)[2]), AudioServerModel::AudioFrame),
        );
    } else {
        lemma_concrete_has_no_wildcard(wanted);
        lemma_filter_without_wildcard(wanted.path(), name);
        lemma_topic_at_path(wanted);
    }
}

/// Whatever message the subscription to the bytes to play at a site receives,
/// where the site is one level: with an identifier after the site it stands for
/// bytes to play, and without one for no topic.
proof fn lemma_play_bytes_at_level(site: Seq<char>, message: PublicationModel)
    requires
        is_level(site),
        subscription(
            TopicModel::AudioServer(Some(site), AudioServerModel::PlayBytes("#"@)),
            Expected::Binary,
        ).receives(message),
    ensures
        if split(message.topic_name).len() > 4 {
            topic_at(message.topic_name) matches Some(TopicModel::AudioServer(Some(s), c))
                && c is PlayBytes && (site == "+"@ || s == site)
        } else {
            topic_at(message.topic_name) is None
        },
{
    lemma_wildcards();
    let name = message.topic_name;
    let levels = split(name);
    let any = AudioServerModel::PlayBytes("#"@);
    let wanted = TopicModel::AudioServer(Some(site), any);
    lemma_split_of_path(wanted);
    lemma_split_of_level("#"@);
    lemma_join_of_split(name);
    Component::AudioServer.lemma_word_is_plain();
    any.lemma_word_is_plain();
    reveal_strlit("hermes");
    assert("hermes"@.len() == 6);
    let filter = split(wanted.path());
    assert(level_accepts(filter[0], levels[0]));
    assert(level_accepts(filter[1], levels[1]));
    assert(level_accepts(filter[2], levels[2]));
    assert(level_accepts(filter[3], levels[3]));
    if levels.len() > 4 {
        let id = join(levels.skip(4));
        let t = TopicModel::AudioServer(Some(levels[2]), AudioServerModel::PlayBytes(id));
        lemma_join_of_concat(levels.take(4), levels.skip(4));
        assert(levels.take(4) + levels.skip(4) =~= levels);
        assert(t.parts().drop_last() =~= levels.take(4));
        lemma_topic_at_path(t);
    } else if topic_at(name) is Some {
        let t = topic_at(name).unwrap();
        lemma_path_of_topic_at(name);
        lemma_split_of_path(t);
        lemma_join_of_split(t.parts().last());
        lemma_areas_differ(Component::AudioServer);
        any.lemma_word_is_own();
        match t {
            TopicModel::Hotword(_, _) => {
                Component::lemma_words_differ(Component::Hotword, Component::AudioServer);
            },
            TopicModel::AudioServer(_, c) => AudioServerModel::lemma_words_differ(c, any),
            _ => {},
        }
        assert(false);
    }
}

/// The levels of a name with a text that is more than one level between levels:
/// those before it, two or more of the text, and those after it.
proof fn lemma_split_of_many(before: Seq<Seq<char>>, text: Seq<char>, after: Seq<Seq<char>>)
    requires
        before.len() >= 1,
        after.len() >= 1,
        are_levels(before),
        are_levels(after),
        !is_level(text),
    ensures
        split(join(before.push(text) + after)) == before + split(text) + after,
        split(text).len() >= 2,
{
    lemma_join_of_split(text);
    let levels = before + split(text) + after;
    assert(are_levels(levels)) by {
        assert forall|i: int| 0 <= i < levels.len() implies is_level(#[trigger] levels[i]) by {
            if i >= before.len() + split(text).len() {
                assert(levels[i] == after[i - before.len() - split(text).len()]);
            } else if i >= before.len() {
                assert(levels[i] == split(text)[i - before.len()]);
            } else {
                assert(levels[i] == before[i]);
            }
        }
    }
    lemma_join_of_concat(before.push(text), after);
    lemma_join_of_concat(before + split(text), after);
    lemma_join_of_concat(before, split(text));
    assert(before.push(text).drop_last() =~= before);
    lemma_split_of_join(levels);
    if split(text).len() == 1 {
        assert(is_level(split(text)[0]));
    }
}

/// Whatever message the subscription to the bytes to play at a site receives,
/// it can be decoded or its name stands for no topic. Where the site is one
/// level of a name: if an identifier follows the site, it can be decoded, to
/// bytes for that site (or for any site, where the site is given as `+`); if
/// none follows, its name stands for no topic.
pub proof fn lemma_play_bytes_decode(site: Seq<char>, message: PublicationModel)
    requires
        subscription(
            TopicModel::AudioServer(Some(site), AudioServerModel::PlayBytes("#"@)),
            Expected::Binary,
        ).receives(message),
    ensures
        topic_at(message.topic_name) matches Some(topic) ==> play_bytes_of(
            topic,
            message.payload,
        ) is Some,
        is_level(site) ==> if split(message.topic_name).len() > 4 {
            topic_at(message.topic_name) matches Some(TopicModel::AudioServer(Some(s), c))
                && c is PlayBytes && (site == "+"@ || s == site)
        } else {
            topic_at(message.topic_name) is None
        },
{
    if is_level(site) {
        lemma_play_bytes_at_level(site, message);
    } else {
        let name = message.topic_name;
        let levels = split(name);
        let area = Component::AudioServer.word();
        let word = AudioServerModel::PlayBytes("#"@).word();
        let wanted = TopicModel::AudioServer(Some(site), AudioServerModel::PlayBytes("#"@));
        lemma_wildcards();
        Component::AudioServer.lemma_word_is_plain();
        AudioServerModel::PlayBytes("#"@).lemma_word_is_plain();
        reveal_strlit("hermes");
        assert("hermes"@.len() == 6);
        assert(is_level("hermes"@));
        lemma_split_of_many(seq!["hermes"@, area], site, seq![word, "#"@]);
        assert(wanted.parts() =~= seq!["hermes"@, area, site, word, "#"@]);
        assert(seq!["hermes"@, area].push(site) + seq![word, "#"@] =~= wanted.parts());
        let filter = split(wanted.path());
        assert(level_accepts(filter[0], levels[0]));
        assert(level_accepts(filter[1], levels[1]));
        if topic_at(name) is Some {
            let t = topic_at(name).unwrap();
            lemma_path_of_topic_at(name);
            lemma_split_of_path(t);
            lemma_areas_differ(Component::AudioServer);
        }
    }
}

/// Bytes published to be played at a site reach the subscription to the bytes
/// of that site, whatever the site and the identifier of the request, and the
/// one to the bytes of all sites where the site is one level of a name.
pub proof fn lemma_play_bytes_reach(site: Seq<char>, id: Seq<char>, bytes: Seq<u8>)
    ensures
        ({
            let message = publication(
                TopicModel::AudioServer(Some(site), AudioServerModel::PlayBytes(id)),
                bytes,
            );
            &&& subscription(
                TopicModel::AudioServer(Some(site), AudioServerModel::PlayBytes("#"@)),
                Expected::Binary,
            ).receives(message)
            &&& is_level(site) ==> subscription(
                TopicModel::AudioServer(Some("+"@), AudioServerModel::PlayBytes("#"@)),
                Expected::Binary,
            ).receives(message)
        }),
{
    lemma_wildcards();
    lemma_split_of_level("#"@);
    let one = TopicModel::AudioServer(Some(site), AudioServerModel::PlayBytes(id));
    let any = TopicModel::AudioServer(Some(site), AudioServerModel::PlayBytes("#"@));
    let front = one.parts().drop_last();
    let levels = split(join(front));
    lemma_join_of_split(join(front));
    lemma_split_of_last(levels, id);
    lemma_split_of_last(levels, "#"@);
    assert(any.parts().drop_last() =~= front);
    assert(levels.push(id).drop_last() =~= levels);
    assert(levels.push("#"@).drop_last() =~= levels);
    assert(one.path() == join(levels.push(id)));
    assert(any.path() == join(levels.push("#"@)));
    if is_level(site) {
        lemma_split_of_path(one);
        lemma_split_of_path(
            TopicModel::AudioServer(Some("+"@), AudioServerModel::PlayBytes("#"@)),
        );
    }
}

/// Bytes that are published to be played come back whole from their message:
/// its payload is the bytes, and its name stands for the site and the identifier
/// that they were published under where the site is one level of a name.
pub proof fn lemma_play_bytes_round_trip(site: Seq<char>, id: Seq<char>, bytes: Seq<u8>)
    ensures
        ({
            let topic = TopicModel::AudioServer(Some(site), AudioServerModel::PlayBytes(id));
            &&& publication(topic, bytes).payload == bytes
            &&& is_level(site) ==> topic_at(publication(topic, bytes).topic_name) == Some(topic)
        }),
{
    if is_level(site) {
        lemma_topic_at_path(TopicModel::AudioServer(Some(site), AudioServerModel::PlayBytes(id)));
    }
}

/// A frame of audio that is published comes back whole from its message, which
/// reaches the subscription to the frames of its site. Where the site is one
/// level of a name, the name of the message stands for the site.
pub proof fn lemma_audio_frame_round_trip(site: Seq<char>, frame: Seq<u8>)
    ensures
        ({
            let topic = TopicModel::AudioServer(Some(site), AudioServerModel::AudioFrame);
            &&& subscription(topic, Expected::Binary).receives(publication(topic, frame))
            &&& publication(topic, frame).payload == frame
            &&& is_level(site) ==> topic_at(publication(topic, frame).topic_name) == Some(topic)
        }),
{
    let topic = TopicModel::AudioServer(Some(site), AudioServerModel::AudioFrame);
    lemma_publication_reaches_its_subscription(topic, frame, Expected::Binary);
    if is_level(site) {
        lemma_topic_at_path(topic);
    }
}

/// The subscription to all intents receives the intents of every name.
pub proof fn lemma_all_intents_reach(intent: Seq<char>, payload: Seq<u8>)
    ensures
        subscription(TopicModel::Intent("#"@), Expected::Json).receives(
            publication(TopicModel::Intent(intent), payload),
        ),
{
    lemma_wildcards();
    lemma_split_of_level("#"@);
    lemma_split_of_path(TopicModel::Intent(intent));
    lemma_split_of_path(TopicModel::Intent("#"@));
}

/// Whatever message the subscription to all intents receives: it is an intent
/// where a name follows, and on no topic where none follows.
pub proof fn lemma_all_intents_only(message: PublicationModel)
    requires
        subscription(TopicModel::Intent("#"@), Expected::Json).receives(message),
    ensures
        if split(message.topic_name).len() > 2 {
            topic_at(message.topic_name) matches Some(t) && t is Intent
        } else {
            topic_at(message.topic_name) is None
        },
{
    lemma_wildcards();
    let name = message.topic_name;
    let levels = split(name);
    let wanted = TopicModel::Intent("#"@);
    lemma_split_of_path(wanted);
    lemma_split_of_level("#"@);
    lemma_join_of_split(name);
    reveal_strlit("hermes");
    reveal_strlit("intent");
    assert("hermes"@.len() == 6 && "intent"@.len() == 6);
    let filter = split(wanted.path());
    assert(level_accepts(filter[0], levels[0]));
    assert(level_accepts(filter[1], levels[1]));
    if levels.len() > 2 {
        let t = TopicModel::Intent(join(levels.skip(2)));
        lemma_join_of_concat(levels.take(2), levels.skip(2));
        assert(levels.take(2) + levels.skip(2) =~= levels);
        assert(t.parts().drop_last() =~= levels.take(2));
        lemma_topic_at_path(t);
    } else if topic_at(name) is Some {
        let t = topic_at(name).unwrap();
        lemma_path_of_topic_at(name);
        lemma_split_of_path(t);
        lemma_join_of_split(t.parts().last());
        assert(false);
    }
}

/// The callback of a [`Expected::Binary`] subscription is called once for each
/// message whose name stands for a topic, in the order of the messages, each
/// time with that topic and the whole payload; for the other messages it is not
/// called.
pub proof fn lemma_binary_calls(messages: Seq<PublicationModel>)
    ensures
        binary_calls(messages) == messages.filter(
            |m: PublicationModel| topic_at(m.topic_name) is Some,
        ).map_values(|m: PublicationModel| (topic_at(m.topic_name).unwrap(), m.payload)),
    decreases messages.len(),
{
    let known = |m: PublicationModel| topic_at(m.topic_name) is Some;
    let call = |m: PublicationModel| (topic_at(m.topic_name).unwrap(), m.payload);
    reveal(Seq::filter);
    if messages.len() > 0 {
        let before = messages.drop_last();
        lemma_binary_calls(before);
        if known(messages.last()) {
            assert(messages.filter(known) == before.filter(known).push(messages.last()));
            assert(before.filter(known).push(messages.last()).map_values(call)
                =~= before.filter(known).map_values(call).push(call(messages.last())));
        }
    }
    assert(binary_calls(messages) =~= messages.filter(known).map_values(call));
}

/// What messages lead to is not changed by the messages that come later: the
/// calls for some messages followed by others are the calls for the first,
/// followed by the calls for the others.
pub proof fn lemma_binary_calls_in_order(
    first: Seq<PublicationModel>,
    later: Seq<PublicationModel>,
)
    ensures
        binary_calls(first + later) == binary_calls(first) + binary_calls(later),
    decreases later.len(),
{
    let all = first + later;
    if later.len() == 0 {
        assert(all =~= first);
        assert(binary_calls(all) =~= binary_calls(first) + binary_calls(later));
    } else {
        assert(all.drop_last() =~= first + later.drop_last());
        assert(all.last() == later.last());
        lemma_binary_calls_in_order(first, later.drop_last());
        assert(binary_calls(all) =~= binary_calls(first) + binary_calls(later));
    }
}

/// The callback of a [`Expected::Json`] subscription is called once for each
/// message whose payload could be decoded, in the order of the messages, each
/// time with the decoded value; for the other messages it is not called.
pub proof fn lemma_payload_calls<P, E>(decoded: Seq<Result<P, E>>)
    ensures
        payload_calls(decoded) == decoded.filter(|d: Result<P, E>| d is Ok).map_values(
            |d: Result<P, E>| d->Ok_0,
        ),
    decreases decoded.len(),
{
    let good = |d: Result<P, E>| d is Ok;
    let value = |d: Result<P, E>| d->Ok_0;
    reveal(Seq::filter);
    if decoded.len() > 0 {
        let before = decoded.drop_last();
        lemma_payload_calls(before);
        if good(decoded.last()) {
            assert(decoded.filter(good) == before.filter(good).push(decoded.last()));
            assert(before.filter(good).push(decoded.last()).map_values(value)
                =~= before.filter(good).map_values(value).push(value(decoded.last())));
        }
    }
    assert(payload_calls(decoded) =~= decoded.filter(good).map_values(value));
}

/// The values that messages lead to are not changed by the messages that come
/// later: the calls for some messages followed by others are the calls for the
/// first, followed by the calls for the others.
pub proof fn lemma_payload_calls_in_order<P, E>(
    first: Seq<Result<P, E>>,
    later: Seq<Result<P, E>>,
)
    ensures
        payload_calls(first + later) == payload_calls(first) + payload_calls(later),
    decreases later.len(),
{
    let all = first + later;
    if later.len() == 0 {
        assert(all =~= first);
    } else {
        assert(all.drop_last() =~= first + later.drop_last());
        assert(all.last() == later.last());
        lemma_payload_calls_in_order(first, later.drop_last());
    }
    assert(payload_calls(all) =~= payload_calls(first) + payload_calls(later));
}

/// The callback of a [`Expected::Notification`] subscription is called for every
/// message, once, whatever its name and its payload and however a decoding of
/// the payload ended: of the deliveries for messages, as many are notifications
/// as there are messages.
pub proof fn lemma_notifications<P, E>(
    messages: Seq<PublicationModel>,
    decoded: Seq<Result<P, E>>,
    deliveries: Seq<Delivery<P, E>>,
)
    requires
        decoded.len() == messages.len(),
        deliveries.len() == messages.len(),
        forall|i: int|
            0 <= i < messages.len() ==> delivers(
                Expected::Notification,
                messages[i],
                decoded[i],
                #[trigger] deliveries[i],
            ),
    ensures
        deliveries.filter(|d: Delivery<P, E>| d is Notification).len() == messages.len(),
    decreases messages.len(),
{
    reveal(Seq::filter);
    if messages.len() > 0 {
        assert(deliveries.last() is Notification);
        lemma_notifications(
            messages.drop_last(),
            decoded.drop_last(),
            deliveries.drop_last(),
        );
    }
}

/// Whatever site the bytes to play were subscribed to, and for all sites: of a
/// message that the subscription receives, on the topic of the bytes to play at
/// a site under an identifier, the callback is given the bytes of the payload,
/// for the site and under the identifier of the message's own topic.
pub proof fn lemma_play_bytes_delivered(
    subscribed_site: Seq<char>,
    message: PublicationModel,
    site: Seq<char>,
    id: Seq<char>,
)
    requires
        subscription(
            TopicModel::AudioServer(Some(subscribed_site), AudioServerModel::PlayBytes("#"@)),
            Expected::Binary,
        ).receives(message),
        topic_at(message.topic_name) == Some(
            TopicModel::AudioServer(Some(site), AudioServerModel::PlayBytes(id)),
        ),
    ensures
        binary_call(message) matches Some((topic, bytes)) && play_bytes_of(topic, bytes) == Some(
            PlayBytesModel { id, wav_bytes: message.payload, site_id: site },
        ),
{
}

/// Whether a message is on a topic with a payload, and a subscription is to
/// that topic and receives the message.
pub open spec fn meet_on(
    published: PublicationModel,
    subscribed: SubscriptionModel,
    topic: TopicModel,
    payload: Seq<u8>,
) -> bool {
    &&& published.topic_name == topic.path()
    &&& published.payload == payload
    &&& subscribed.filter == topic.path()
    &&& subscribed.receives(published)
}

/// A facade of the hotword detector switches it on, at all sites and at one,
/// on one topic, which names no site: without a payload for all sites, and with
/// the site, serialised, as the payload for one. It switches it off in the same
/// way. Both are heard by the subscriptions to that topic.
pub proof fn lemma_hotword_toggles<E>(
    facade: MqttToggleableComponentFacade,
    site: Vec<u8>,
    sited_on: Result<Publication, E>,
    sited_off: Result<Publication, E>,
)
    requires
        facade.stands_for(
            Component::Hotword,
            TopicModel::Hotword(None, HotwordCommand::ToggleOn),
            TopicModel::Hotword(None, HotwordCommand::ToggleOff),
        ),
        payload_publication(facade.toggle_on_model(), Ok(site), sited_on),
        payload_publication(facade.toggle_off_model(), Ok(site), sited_off),
    ensures
        meet_on(
            publication(facade.toggle_on_model(), Seq::empty()),
            subscription(facade.toggle_on_model(), Expected::Notification),
            TopicModel::Hotword(None, HotwordCommand::ToggleOn),
            Seq::empty(),
        ),
        sited_on matches Ok(p) && meet_on(
            p@,
            subscription(facade.toggle_on_model(), Expected::Json),
            TopicModel::Hotword(None, HotwordCommand::ToggleOn),
            site@,
        ),
        meet_on(
            publication(facade.toggle_off_model(), Seq::empty()),
            subscription(facade.toggle_off_model(), Expected::Notification),
            TopicModel::Hotword(None, HotwordCommand::ToggleOff),
            Seq::empty(),
        ),
        sited_off matches Ok(p) && meet_on(
            p@,
            subscription(facade.toggle_off_model(), Expected::Json),
            TopicModel::Hotword(None, HotwordCommand::ToggleOff),
            site@,
        ),
{
    lemma_toggles_share_a_topic(facade, site, sited_on, sited_off);
}

/// Whatever can be switched on and off is switched on, at all sites and at one,
/// on one topic: without a payload for all sites, and with the site,
/// serialised, as the payload for one. It is switched off in the same way. Both
/// are heard by the subscriptions to that topic.
pub proof fn lemma_toggles_share_a_topic<F: HasToggle, E>(
    facade: F,
    site: Vec<u8>,
    sited_on: Result<Publication, E>,
    sited_off: Result<Publication, E>,
)
    requires
        payload_publication(facade.toggle_on_model(), Ok(site), sited_on),
        payload_publication(facade.toggle_off_model(), Ok(site), sited_off),
    ensures
        meet_on(
            publication(facade.toggle_on_model(), Seq::empty()),
            subscription(facade.toggle_on_model(), Expected::Notification),
            facade.toggle_on_model(),
            Seq::empty(),
        ),
        sited_on matches Ok(p) && meet_on(
            p@,
            subscription(facade.toggle_on_model(), Expected::Json),
            facade.toggle_on_model(),
            site@,
        ),
        meet_on(
            publication(facade.toggle_off_model(), Seq::empty()),
            subscription(facade.toggle_off_model(), Expected::Notification),
            facade.toggle_off_model(),
            Seq::empty(),
        ),
        sited_off matches Ok(p) && meet_on(
            p@,
            subscription(facade.toggle_off_model(), Expected::Json),
            facade.toggle_off_model(),
            site@,
        ),
{
    lemma_filter_accepts_itself(facade.toggle_on_model().path());
    lemma_filter_accepts_itself(facade.toggle_off_model().path());
}

/// What has been played at a site goes out on the topic of the site that the
/// message names, with what the message was serialised to as the payload. The
/// subscription for that site is to that topic and receives the message, and so
/// does the one for all sites where the site is one level of a name. A message
/// that could not be serialised does not go out.
pub proof fn lemma_play_finished<E>(
    message: PlayFinishedMessage<E>,
    published: Result<Publication, E>,
)
    requires
        payload_publication(
            TopicModel::AudioServer(Some(message.site_id@), AudioServerModel::PlayFinished),
            message.json,
            published,
        ),
    ensures
        match message.json {
            Ok(json) => published matches Ok(p) && meet_on(
                p@,
                subscription(
                    TopicModel::AudioServer(Some(message.site_id@), AudioServerModel::PlayFinished),
                    Expected::Json,
                ),
                TopicModel::AudioServer(Some(message.site_id@), AudioServerModel::PlayFinished),
                json@,
            ) && (is_level(message.site_id@) ==> subscription(
                TopicModel::AudioServer(Some("+"@), AudioServerModel::PlayFinished),
                Expected::Json,
            ).receives(p@)),
            Err(e) => published == Err::<Publication, E>(e),
        },
{
    let topic = TopicModel::AudioServer(Some(message.site_id@), AudioServerModel::PlayFinished);
    lemma_filter_accepts_itself(topic.path());
    if is_level(message.site_id@) {
        lemma_topic_at_path(topic);
        if let Ok(json) = message.json {
            lemma_all_play_finished(publication(topic, json@));
        }
    }
}

/// An intent goes out on the topic of the name that it holds, with what the
/// intent was serialised to as the payload. The subscription to that name is to
/// that topic; it and the one to all intents receive the intent. An intent that
/// could not be serialised does not go out.
pub proof fn lemma_intent<E>(message: IntentMessage<E>, published: Result<Publication, E>)
    requires
        payload_publication(TopicModel::Intent(message.intent_name@), message.json, published),
    ensures
        match message.json {
            Ok(json) => published matches Ok(p) && meet_on(
                p@,
                subscription(TopicModel::Intent(message.intent_name@), Expected::Json),
                TopicModel::Intent(message.intent_name@),
                json@,
            ) && subscription(TopicModel::Intent("#"@), Expected::Json).receives(p@),
            Err(e) => published == Err::<Publication, E>(e),
        },
{
    lemma_filter_accepts_itself(TopicModel::Intent(message.intent_name@).path());
    if let Ok(json) = message.json {
        lemma_all_intents_reach(message.intent_name@, json@);
    }
}

/// What a facade of a component says and hears, about all sites or about one,
/// is on the topics of that component, at that site where one is given: the
/// requests for the version without a payload, and the version and the errors
/// with what they were serialised to.
pub proof fn lemma_component_messages<F: HasComponent, E>(
    facade: F,
    component: Component,
    site: Option<Seq<char>>,
    message: Vec<u8>,
    version: Result<Publication, E>,
    error: Result<Publication, E>,
)
    requires
        facade.component_model() == component,
        payload_publication(
            TopicModel::Component(site, facade.component_model(), ComponentCommand::Version),
            Ok(message),
            version,
        ),
        payload_publication(
            TopicModel::Component(site, facade.component_model(), ComponentCommand::Error),
            Ok(message),
            error,
        ),
    ensures
        ({
            let used = TopicModel::Component(
                site,
                facade.component_model(),
                ComponentCommand::VersionRequest,
            );
            meet_on(
                publication(used, Seq::empty()),
                subscription(used, Expected::Notification),
                TopicModel::Component(site, component, ComponentCommand::VersionRequest),
                Seq::empty(),
            )
        }),
        version matches Ok(p) && meet_on(
            p@,
            subscription(
                TopicModel::Component(site, facade.component_model(), ComponentCommand::Version),
                Expected::Json,
            ),
            TopicModel::Component(site, component, ComponentCommand::Version),
            message@,
        ),
        error matches Ok(p) && meet_on(
            p@,
            subscription(
                TopicModel::Component(site, facade.component_model(), ComponentCommand::Error),
                Expected::Json,
            ),
            TopicModel::Component(site, component, ComponentCommand::Error),
            message@,
        ),
{
    lemma_filter_accepts_itself(
        TopicModel::Component(site, component, ComponentCommand::VersionRequest).path(),
    );
    lemma_filter_accepts_itself(
        TopicModel::Component(site, component, ComponentCommand::Version).path(),
    );
    lemma_filter_accepts_itself(
        TopicModel::Component(site, component, ComponentCommand::Error).path(),
    );
}

} // verus!
