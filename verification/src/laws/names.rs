//! What the names of topics are, and what is read back from them.
use crate::commands::Component;
use crate::text::{
    is_level, join, join_levels, lemma_join_of_split, split_levels, texts,
};
use crate::topics::{
    lemma_path_of_topic_at, lemma_topic_at_path, topic_at, AudioServerCommand, AudioServerModel,
    FeedbackCommand, HermesTopic, TopicModel,
};
use vstd::prelude::*;

verus! {

/// A text is one level exactly where none of its characters is `/`.
pub proof fn lemma_level_has_no_slash(text: Seq<char>)
    ensures
        is_level(text) <==> forall|i: int| 0 <= i < text.len() ==> text[i] != '/',
{
    if is_level(text) {
        assert forall|i: int| 0 <= i < text.len() implies text[i] != '/' by {
            assert(text.contains(text[i]));
        }
    }
}

/// One level spells itself; a level after others is spelt after a `/`.
pub proof fn lemma_join_of_one_more(levels: Seq<Seq<char>>, last: Seq<char>)
    ensures
        join(seq![last]) == last,
        levels.len() > 0 ==> join(levels.push(last)) == join(levels) + seq!['/'] + last,
{
    assert(levels.push(last).drop_last() =~= levels);
}

/// What three levels spell.
proof fn lemma_join_of_three(a: Seq<char>, b: Seq<char>, c: Seq<char>)
    ensures
        join(seq![a, b, c]) == a + seq!['/'] + b + seq!['/'] + c,
{
    lemma_join_of_one_more(Seq::empty(), a);
    lemma_join_of_one_more(seq![a], b);
    lemma_join_of_one_more(seq![a, b], c);
    assert(seq![a].push(b) =~= seq![a, b]);
    assert(seq![a, b].push(c) =~= seq![a, b, c]);
}

/// What four levels spell.
proof fn lemma_join_of_four(a: Seq<char>, b: Seq<char>, c: Seq<char>, d: Seq<char>)
    ensures
        join(seq![a, b, c, d]) == a + seq!['/'] + b + seq!['/'] + c + seq!['/'] + d,
{
    lemma_join_of_three(a, b, c);
    lemma_join_of_one_more(seq![a, b, c], d);
    assert(seq![a, b, c].push(d) =~= seq![a, b, c, d]);
}

/// The levels that a name is split into have no `/` in them, there is at least
/// one, and put together with a `/` between each two they are the name.
pub proof fn lemma_split_levels(name: &str, levels: Vec<String>)
    requires
        call_ensures(split_levels, (name,), levels),
    ensures
        levels@.len() >= 1,
        forall|i: int, k: int|
            0 <= i < levels@.len() && 0 <= k < levels@[i]@.len() ==> #[trigger] levels@[i]@[k]
                != '/',
        join(Seq::new(levels@.len(), |i: int| levels@[i]@)) == name@,
{
    lemma_join_of_split(name@);
    assert(texts(levels@) =~= Seq::new(levels@.len(), |i: int| levels@[i]@));
    assert forall|i: int, k: int|
        0 <= i < levels@.len() && 0 <= k < levels@[i]@.len() implies #[trigger] levels@[i]@[k]
        != '/' by {
        assert(is_level(texts(levels@)[i]));
        lemma_level_has_no_slash(levels@[i]@);
    }
}

/// What is spelt from a place of a list on is the levels from there on, with a
/// `/` between each two.
pub proof fn lemma_join_levels(levels: Vec<String>, from: usize, name: String)
    requires
        from <= levels@.len(),
        call_ensures(join_levels, (&levels, from), name),
    ensures
        name@ == join(
            Seq::new((levels@.len() - from) as nat, |i: int| levels@[from + i]@),
        ),
{
    assert(texts(levels@).skip(from as int) =~= Seq::new(
        (levels@.len() - from) as nat,
        |i: int| levels@[from + i]@,
    ));
}

/// The name of a topic, written out.
pub open spec fn spelt(topic: TopicModel) -> Seq<char> {
    match topic {
        TopicModel::Feedback(FeedbackCommand::Sound(c)) => "hermes/feedback/sound/"@ + c.word(),
        TopicModel::Hotword(None, c) => "hermes/hotword/"@ + c.word(),
        TopicModel::Hotword(Some(site), c) => "hermes/hotword/"@ + site + "/"@ + c.word(),
        TopicModel::Asr(c) => "hermes/asr/"@ + c.word(),
        TopicModel::Tts(c) => "hermes/tts/"@ + c.word(),
        TopicModel::Nlu(c) => "hermes/nlu/"@ + c.word(),
        TopicModel::DialogueManager(c) => "hermes/dialogueManager/"@ + c.word(),
        TopicModel::AudioServer(None, AudioServerModel::PlayBytes(id)) =>
            "hermes/audioServer/playBytes/"@ + id,
        TopicModel::AudioServer(Some(site), AudioServerModel::PlayBytes(id)) =>
            "hermes/audioServer/"@ + site + "/playBytes/"@ + id,
        TopicModel::AudioServer(None, c) => "hermes/audioServer/"@ + c.word(),
        TopicModel::AudioServer(Some(site), c) => "hermes/audioServer/"@ + site + "/"@ + c.word(),
        TopicModel::Intent(name) => "hermes/intent/"@ + name,
        TopicModel::Component(None, k, c) => "hermes/"@ + k.word() + "/"@ + c.word(),
        TopicModel::Component(Some(site), k, c) => "hermes/"@ + k.word() + "/"@ + site + "/"@
            + c.word(),
    }
}

/// The name of every topic is the text that it is written out as, whatever the
/// site, the identifier or the intent: these stand in it unchanged.
pub proof fn lemma_path_is_spelt(topic: TopicModel)
    ensures
        topic.path() == spelt(topic),
{
    let h = "hermes"@;
    reveal_strlit("hermes");
    reveal_strlit("hermes/");
    reveal_strlit("/");
    match topic {
        TopicModel::Feedback(FeedbackCommand::Sound(c)) => {
            reveal_strlit("feedback");
            reveal_strlit("sound");
            reveal_strlit("hermes/feedback/sound/");
            lemma_join_of_four(h, "feedback"@, "sound"@, c.word());
        },
        TopicModel::Hotword(site, c) => {
            reveal_strlit("hotword");
            reveal_strlit("hermes/hotword/");
            match site {
                None => lemma_join_of_three(h, Component::Hotword.word(), c.word()),
                Some(s) => lemma_join_of_four(h, Component::Hotword.word(), s, c.word()),
            }
        },
        TopicModel::Asr(c) => {
            reveal_strlit("asr");
            reveal_strlit("hermes/asr/");
            lemma_join_of_three(h, Component::Asr.word(), c.word());
        },
        TopicModel::Tts(c) => {
            reveal_strlit("tts");
            reveal_strlit("hermes/tts/");
            lemma_join_of_three(h, Component::Tts.word(), c.word());
        },
        TopicModel::Nlu(c) => {
            reveal_strlit("nlu");
            reveal_strlit("hermes/nlu/");
            lemma_join_of_three(h, Component::Nlu.word(), c.word());
        },
        TopicModel::DialogueManager(c) => {
            reveal_strlit("dialogueManager");
            reveal_strlit("hermes/dialogueManager/");
            lemma_join_of_three(h, Component::DialogueManager.word(), c.word());
        },
        TopicModel::AudioServer(site, c) => {
            let area = Component::AudioServer.word();
            reveal_strlit("audioServer");
            reveal_strlit("hermes/audioServer/");
            reveal_strlit("playBytes");
            reveal_strlit("/playBytes/");
            reveal_strlit("hermes/audioServer/playBytes/");
            match site {
                None => {
                    lemma_join_of_three(h, area, c.word());
                    if let AudioServerModel::PlayBytes(id) = c {
                        lemma_join_of_one_more(seq![h, area, c.word()], id);
                    }
                },
                Some(s) => {
                    lemma_join_of_four(h, area, s, c.word());
                    if let AudioServerModel::PlayBytes(id) = c {
                        lemma_join_of_one_more(seq![h, area, s, c.word()], id);
                    }
                },
            }
        },
        TopicModel::Intent(name) => {
            reveal_strlit("intent");
            reveal_strlit("hermes/intent/");
            lemma_join_of_three(h, "intent"@, name);
        },
        TopicModel::Component(site, k, c) => match site {
            None => lemma_join_of_three(h, k.word(), c.word()),
            Some(s) => lemma_join_of_four(h, k.word(), s, c.word()),
        },
    }
    assert(topic.path() =~= spelt(topic));
}

/// The model of a topic is of the same kind and holds the same texts.
pub proof fn lemma_topic_views(site: String, text: String)
    ensures
        forall|c| #[trigger] HermesTopic::Feedback(c)@ == TopicModel::Feedback(c),
        forall|c| #[trigger] HermesTopic::Hotword(None, c)@ == TopicModel::Hotword(None, c),
        forall|c| #[trigger]
            HermesTopic::Hotword(Some(site), c)@ == TopicModel::Hotword(Some(site@), c),
        forall|c| #[trigger] HermesTopic::Asr(c)@ == TopicModel::Asr(c),
        forall|c| #[trigger] HermesTopic::Tts(c)@ == TopicModel::Tts(c),
        forall|c| #[trigger] HermesTopic::Nlu(c)@ == TopicModel::Nlu(c),
        forall|c| #[trigger] HermesTopic::DialogueManager(c)@ == TopicModel::DialogueManager(c),
        forall|c| #[trigger]
            HermesTopic::AudioServer(None, c)@ == TopicModel::AudioServer(None, c@),
        forall|c| #[trigger]
            HermesTopic::AudioServer(Some(site), c)@ == TopicModel::AudioServer(Some(site@), c@),
        HermesTopic::Intent(text)@ == TopicModel::Intent(text@),
        forall|k, c| #[trigger]
            HermesTopic::Component(None, k, c)@ == TopicModel::Component(None, k, c),
        forall|k, c| #[trigger]
            HermesTopic::Component(Some(site), k, c)@ == TopicModel::Component(Some(site@), k, c),
        AudioServerCommand::ToggleOn@ == AudioServerModel::ToggleOn,
        AudioServerCommand::ToggleOff@ == AudioServerModel::ToggleOff,
        AudioServerCommand::AudioFrame@ == AudioServerModel::AudioFrame,
        AudioServerCommand::PlayBytes(text)@ == AudioServerModel::PlayBytes(text@),
        AudioServerCommand::PlayFinished@ == AudioServerModel::PlayFinished,
{
}

/// The name that a topic gives is the one written out for it, and it gives the
/// same as its text. A site, an identifier and the name of an intent stand in
/// it unchanged.
pub proof fn lemma_names_of_topic(topic: HermesTopic, name: String, text: String)
    requires
        call_ensures(HermesTopic::as_path, (&topic,), name),
        call_ensures(HermesTopic::to_string, (&topic,), text),
    ensures
        name@ == spelt(topic@),
        text@ == name@,
        match topic {
            HermesTopic::Hotword(Some(site), c) => name@ == "hermes/hotword/"@ + site@ + "/"@
                + c.word(),
            HermesTopic::AudioServer(Some(site), AudioServerCommand::AudioFrame) => name@
                == "hermes/audioServer/"@ + site@ + "/audioFrame"@,
            HermesTopic::AudioServer(Some(site), AudioServerCommand::PlayFinished) => name@
                == "hermes/audioServer/"@ + site@ + "/playFinished"@,
            HermesTopic::AudioServer(Some(site), AudioServerCommand::PlayBytes(id)) => name@
                == "hermes/audioServer/"@ + site@ + "/playBytes/"@ + id@,
            HermesTopic::Intent(intent) => name@ == "hermes/intent/"@ + intent@,
            HermesTopic::Component(Some(site), k, c) => name@ == "hermes/"@ + k.word() + "/"@
                + site@ + "/"@ + c.word(),
            _ => true,
        },
{
    lemma_path_is_spelt(topic@);
    reveal_strlit("/");
    reveal_strlit("audioFrame");
    reveal_strlit("/audioFrame");
    reveal_strlit("playFinished");
    reveal_strlit("/playFinished");
    if let HermesTopic::AudioServer(Some(site), c) = topic {
        let start = "hermes/audioServer/"@ + site@;
        assert(start + "/"@ + "audioFrame"@ =~= start + "/audioFrame"@);
        assert(start + "/"@ + "playFinished"@ =~= start + "/playFinished"@);
    }
}

/// Whether a topic can be told from its name: no text of its own that other
/// levels follow holds a `/`, and bytes to play are bytes for a site.
pub open spec fn can_be_told(topic: TopicModel) -> bool {
    &&& topic matches TopicModel::Hotword(Some(site), _) ==> !site.contains('/')
    &&& topic matches TopicModel::AudioServer(Some(site), _) ==> !site.contains('/')
    &&& topic matches TopicModel::AudioServer(None, c) ==> !(c is PlayBytes)
    &&& topic matches TopicModel::Component(Some(site), _, _) ==> !site.contains('/')
}

/// A topic that can be told from its name is the one that its name stands for.
/// A name stands for a topic only if it is that topic's name, and for no topic
/// only if it is the name of none that can be told.
pub proof fn lemma_names_stand_for_topics(topic: TopicModel, name: Seq<char>)
    ensures
        can_be_told(topic) ==> topic_at(spelt(topic)) == Some(topic),
        topic_at(name) == Some(topic) ==> can_be_told(topic) && spelt(topic) == name,
        topic_at(name) is None && can_be_told(topic) ==> spelt(topic) != name,
{
    lemma_path_is_spelt(topic);
    if can_be_told(topic) {
        lemma_topic_at_path(topic);
    }
    if topic_at(name) is Some {
        lemma_path_of_topic_at(name);
    }
}

/// Reading a name gives a topic exactly where the name is that of a topic that
/// can be told from it, and then it gives that topic.
pub proof fn lemma_topic_of_name(name: &str, found: Option<HermesTopic>, topic: TopicModel)
    requires
        call_ensures(HermesTopic::from_path, (name,), found),
    ensures
        found matches Some(t) ==> spelt(t@) == name@ && can_be_told(t@),
        can_be_told(topic) && spelt(topic) == name@ ==> (found matches Some(t) && t@ == topic),
{
    lemma_names_stand_for_topics(topic, name@);
    if let Some(t) = found {
        lemma_names_stand_for_topics(t@, name@);
    }
}

/// A topic that can be told from its name comes back from the name it gives.
pub proof fn lemma_topic_comes_back(
    topic: HermesTopic,
    name: String,
    read: &str,
    found: Option<HermesTopic>,
)
    requires
        can_be_told(topic@),
        call_ensures(HermesTopic::as_path, (&topic,), name),
        read@ == name@,
        call_ensures(HermesTopic::from_path, (read,), found),
    ensures
        found matches Some(t) && t@ == topic@,
{
    lemma_path_is_spelt(topic@);
    lemma_topic_of_name(read, found, topic@);
}

} // verus!
