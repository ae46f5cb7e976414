//! The topics of the Hermes protocol and their names on the broker.
//!
//! A topic name starts with the level `hermes`, followed by the area it
//! belongs to, the site it is about (where it is about one) and a command.
use crate::commands::{
    AsrCommand, Component, ComponentCommand, DialogueManagerCommand, HotwordCommand, NluCommand,
    SoundCommand, TtsCommand,
};
use crate::text::{
    are_levels, is_level, join, join_levels, lemma_join_of_concat, lemma_join_of_split,
    lemma_split_of_last, lemma_split_of_level, split, split_levels, texts,
};
use vstd::prelude::*;

verus! {

/// The name of a site: one satellite or base of the installation.
pub type SiteId = String;

/// What a client asks of the feedback.
#[derive(Clone, Copy, Debug, PartialEq, Eq, Structural)]
pub enum FeedbackCommand {
    Sound(SoundCommand),
}

/// What is said to or by the audio server.
#[derive(Debug, PartialEq, Eq)]
pub enum AudioServerCommand {
    ToggleOn,
    ToggleOff,
    AudioFrame,
    /// Bytes to play, under the identifier of the request.
    PlayBytes(String),
    PlayFinished,
}

/// A topic of the protocol.
#[derive(Debug, PartialEq, Eq)]
pub enum HermesTopic {
    Feedback(FeedbackCommand),
    Hotword(Option<SiteId>, HotwordCommand),
    Asr(AsrCommand),
    Tts(TtsCommand),
    Nlu(NluCommand),
    DialogueManager(DialogueManagerCommand),
    AudioServer(Option<SiteId>, AudioServerCommand),
    /// An intent, under its name.
    Intent(String),
    Component(Option<SiteId>, Component, ComponentCommand),
}

/// An [`AudioServerCommand`] with its text as a sequence of characters.
pub ghost enum AudioServerModel {
    ToggleOn,
    ToggleOff,
    AudioFrame,
    PlayBytes(Seq<char>),
    PlayFinished,
}

/// A [`HermesTopic`] with its texts as sequences of characters.
pub ghost enum TopicModel {
    Feedback(FeedbackCommand),
    Hotword(Option<Seq<char>>, HotwordCommand),
    Asr(AsrCommand),
    Tts(TtsCommand),
    Nlu(NluCommand),
    DialogueManager(DialogueManagerCommand),
    AudioServer(Option<Seq<char>>, AudioServerModel),
    Intent(Seq<char>),
    Component(Option<Seq<char>>, Component, ComponentCommand),
}

/// The text of an optional string.
pub open spec fn optional_text(text: Option<String>) -> Option<Seq<char>> {
    match text {
        Some(s) => Some(s@),
        None => None,
    }
}

impl View for AudioServerCommand {
    type V = AudioServerModel;

    open spec fn view(&self) -> AudioServerModel {
        match *self {
            AudioServerCommand::ToggleOn => AudioServerModel::ToggleOn,
            AudioServerCommand::ToggleOff => AudioServerModel::ToggleOff,
            AudioServerCommand::AudioFrame => AudioServerModel::AudioFrame,
            AudioServerCommand::PlayBytes(id) => AudioServerModel::PlayBytes(id@),
            AudioServerCommand::PlayFinished => AudioServerModel::PlayFinished,
        }
    }
}

impl View for HermesTopic {
    type V = TopicModel;

    open spec fn view(&self) -> TopicModel {
        match *self {
            HermesTopic::Feedback(c) => TopicModel::Feedback(c),
            HermesTopic::Hotword(site, c) => TopicModel::Hotword(optional_text(site), c),
            HermesTopic::Asr(c) => TopicModel::Asr(c),
            HermesTopic::Tts(c) => TopicModel::Tts(c),
            HermesTopic::Nlu(c) => TopicModel::Nlu(c),
            HermesTopic::DialogueManager(c) => TopicModel::DialogueManager(c),
            HermesTopic::AudioServer(site, c) => TopicModel::AudioServer(optional_text(site), c@),
            HermesTopic::Intent(name) => TopicModel::Intent(name@),
            HermesTopic::Component(site, k, c) => TopicModel::Component(optional_text(site), k, c),
        }
    }
}

impl AudioServerModel {
    /// The word that stands for it in a topic name.
    pub open spec fn word(self) -> Seq<char> {
        match self {
            AudioServerModel::ToggleOn => "toggleOn"@,
            AudioServerModel::ToggleOff => "toggleOff"@,
            AudioServerModel::AudioFrame => "audioFrame"@,
            AudioServerModel::PlayBytes(_) => "playBytes"@,
            AudioServerModel::PlayFinished => "playFinished"@,
        }
    }

    /// The one without an identifier that a word stands for.
    pub open spec fn named(word: Seq<char>) -> Option<AudioServerModel> {
        if exists|c: AudioServerModel| !(c is PlayBytes) && #[trigger] c.word() == word {
            Some(choose|c: AudioServerModel| !(c is PlayBytes) && #[trigger] c.word() == word)
        } else {
            None
        }
    }

    /// Two of them never share a word, but for the identifier of the request.
    pub proof fn lemma_words_differ(a: AudioServerModel, b: AudioServerModel)
        requires
            a.word() == b.word(),
        ensures
            a == b || (a is PlayBytes && b is PlayBytes),
    {
        reveal_strlit("toggleOn");
        reveal_strlit("toggleOff");
        reveal_strlit("audioFrame");
        reveal_strlit("playBytes");
        reveal_strlit("playFinished");
        assert("toggleOn"@.len() == 8);
        assert("toggleOff"@.len() == 9 && "toggleOff"@[0] == 't');
        assert("audioFrame"@.len() == 10);
        assert("playBytes"@.len() == 9 && "playBytes"@[0] == 'p');
        assert("playFinished"@.len() == 12);
    }

    /// A word stands for one without an identifier exactly where it is the word
    /// of that one.
    pub proof fn lemma_named(word: Seq<char>, c: AudioServerModel)
        ensures
            AudioServerModel::named(word) == Some(c) <==> !(c is PlayBytes) && c.word() == word,
    {
        if !(c is PlayBytes) && c.word() == word {
            AudioServerModel::lemma_words_differ(c, AudioServerModel::named(word).unwrap());
        }
    }

    /// A word is one level of a topic name, and no wildcard.
    pub proof fn lemma_word_is_plain(self)
        ensures
            is_level(self.word()),
            self.word().len() >= 3,
    {
        match self {
            AudioServerModel::ToggleOn => reveal_strlit("toggleOn"),
            AudioServerModel::ToggleOff => reveal_strlit("toggleOff"),
            AudioServerModel::AudioFrame => reveal_strlit("audioFrame"),
            AudioServerModel::PlayBytes(_) => reveal_strlit("playBytes"),
            AudioServerModel::PlayFinished => reveal_strlit("playFinished"),
        }
    }
}

impl AudioServerModel {
    /// A word is none of those that any component uses.
    pub proof fn lemma_word_is_own(self)
        ensures
            ComponentCommand::named(self.word()) is None,
    {
        reveal_strlit("versionRequest");
        reveal_strlit("version");
        reveal_strlit("error");
        assert("versionRequest"@.len() == 14 && "version"@.len() == 7 && "error"@.len() == 5);
        match self {
            AudioServerModel::ToggleOn => {
                reveal_strlit("toggleOn");
                assert("toggleOn"@.len() == 8);
            },
            AudioServerModel::ToggleOff => {
                reveal_strlit("toggleOff");
                assert("toggleOff"@.len() == 9);
            },
            AudioServerModel::AudioFrame => {
                reveal_strlit("audioFrame");
                assert("audioFrame"@.len() == 10);
            },
            AudioServerModel::PlayBytes(_) => {
                reveal_strlit("playBytes");
                assert("playBytes"@.len() == 9);
            },
            AudioServerModel::PlayFinished => {
                reveal_strlit("playFinished");
                assert("playFinished"@.len() == 12);
            },
        }
    }
}

impl AudioServerCommand {
    /// The word that stands for it in a topic name.
    pub fn as_path(&self) -> (word: String)
        ensures
            word@ == self@.word(),
    {
        match self {
            AudioServerCommand::ToggleOn => "toggleOn".to_owned(),
            AudioServerCommand::ToggleOff => "toggleOff".to_owned(),
            AudioServerCommand::AudioFrame => "audioFrame".to_owned(),
            AudioServerCommand::PlayBytes(_) => "playBytes".to_owned(),
            AudioServerCommand::PlayFinished => "playFinished".to_owned(),
        }
    }

    /// The command without an identifier that a word stands for, if there is
    /// one.
    pub fn from_path(word: &String) -> (found: Option<AudioServerCommand>)
        ensures
            match found {
                Some(c) => AudioServerModel::named(word@) == Some(c@),
                None => AudioServerModel::named(word@) is None,
            },
    {
        proof {
            assert forall|c: AudioServerModel|
                !(c is PlayBytes) && #[trigger] c.word() == word@ implies AudioServerModel::named(
                word@,
            ) == Some(c) by {
                AudioServerModel::lemma_words_differ(c, AudioServerModel::named(word@).unwrap());
            }
        }
        if *word == AudioServerCommand::ToggleOn.as_path() {
            Some(AudioServerCommand::ToggleOn)
        } else if *word == AudioServerCommand::ToggleOff.as_path() {
            Some(AudioServerCommand::ToggleOff)
        } else if *word == AudioServerCommand::AudioFrame.as_path() {
            Some(AudioServerCommand::AudioFrame)
        } else if *word == AudioServerCommand::PlayFinished.as_path() {
            Some(AudioServerCommand::PlayFinished)
        } else {
            None
        }
    }
}

/// What a topic of one area is spelt with: the site, where there is one, stands
/// between the area and the command.
pub open spec fn area_parts(area: Seq<char>, site: Option<Seq<char>>, word: Seq<char>) -> Seq<
    Seq<char>,
> {
    match site {
        None => seq!["hermes"@, area, word],
        Some(s) => seq!["hermes"@, area, s, word],
    }
}

impl TopicModel {
    /// What the topic's name is spelt with.
    pub open spec fn parts(self) -> Seq<Seq<char>> {
        match self {
            TopicModel::Feedback(FeedbackCommand::Sound(c)) => seq![
                "hermes"@,
                "feedback"@,
                "sound"@,
                c.word(),
            ],
            TopicModel::Hotword(site, c) => area_parts(Component::Hotword.word(), site, c.word()),
            TopicModel::Asr(c) => area_parts(Component::Asr.word(), None, c.word()),
            TopicModel::Tts(c) => area_parts(Component::Tts.word(), None, c.word()),
            TopicModel::Nlu(c) => area_parts(Component::Nlu.word(), None, c.word()),
            TopicModel::DialogueManager(c) => area_parts(
                Component::DialogueManager.word(),
                None,
                c.word(),
            ),
            TopicModel::AudioServer(site, c) => match c {
                AudioServerModel::PlayBytes(id) => area_parts(
                    Component::AudioServer.word(),
                    site,
                    c.word(),
                ).push(id),
                _ => area_parts(Component::AudioServer.word(), site, c.word()),
            },
            TopicModel::Intent(name) => area_parts("intent"@, None, name),
            TopicModel::Component(site, k, c) => area_parts(k.word(), site, c.word()),
        }
    }

    /// The topic's name.
    pub open spec fn path(self) -> Seq<char> {
        join(self.parts())
    }

    /// Whether the topic can be told from its name: its site, where there is
    /// one, is one level, and bytes to play are bytes for a site.
    pub open spec fn well_formed(self) -> bool {
        match self {
            TopicModel::Hotword(Some(site), _) => is_level(site),
            TopicModel::AudioServer(None, c) => !(c is PlayBytes),
            TopicModel::AudioServer(Some(site), _) => is_level(site),
            TopicModel::Component(Some(site), _, _) => is_level(site),
            _ => true,
        }
    }
}

/// The topic that a topic name stands for.
pub open spec fn topic_at(path: Seq<char>) -> Option<TopicModel> {
    if exists|t: TopicModel| t.well_formed() && #[trigger] t.path() == path {
        Some(choose|t: TopicModel| t.well_formed() && #[trigger] t.path() == path)
    } else {
        None
    }
}

/// The topic of three levels whose last two are these, outside the intents.
spec fn parse_unsited(area: Seq<char>, word: Seq<char>) -> Option<TopicModel> {
    match (Component::named(area), ComponentCommand::named(word)) {
        (None, _) => None,
        (Some(k), Some(c)) => Some(TopicModel::Component(None, k, c)),
        (Some(Component::Hotword), None) => match HotwordCommand::named(word) {
            Some(c) => Some(TopicModel::Hotword(None, c)),
            None => None,
        },
        (Some(Component::Asr), None) => match AsrCommand::named(word) {
            Some(c) => Some(TopicModel::Asr(c)),
            None => None,
        },
        (Some(Component::Tts), None) => match TtsCommand::named(word) {
            Some(c) => Some(TopicModel::Tts(c)),
            None => None,
        },
        (Some(Component::Nlu), None) => match NluCommand::named(word) {
            Some(c) => Some(TopicModel::Nlu(c)),
            None => None,
        },
        (Some(Component::DialogueManager), None) => match DialogueManagerCommand::named(word) {
            Some(c) => Some(TopicModel::DialogueManager(c)),
            None => None,
        },
        (Some(Component::AudioServer), None) => match AudioServerModel::named(word) {
            Some(c) => Some(TopicModel::AudioServer(None, c)),
            None => None,
        },
    }
}

/// The topic of four levels whose last three are these, outside the feedback.
spec fn parse_sited(area: Seq<char>, site: Seq<char>, word: Seq<char>) -> Option<TopicModel> {
    match (Component::named(area), ComponentCommand::named(word)) {
        (None, _) => None,
        (Some(k), Some(c)) => Some(TopicModel::Component(Some(site), k, c)),
        (Some(Component::Hotword), None) => match HotwordCommand::named(word) {
            Some(c) => Some(TopicModel::Hotword(Some(site), c)),
            None => None,
        },
        (Some(Component::AudioServer), None) => match AudioServerModel::named(word) {
            Some(c) => Some(TopicModel::AudioServer(Some(site), c)),
            None => None,
        },
        (Some(_), None) => None,
    }
}

/// The topic of four levels under `feedback`.
spec fn parse_feedback(part: Seq<char>, word: Seq<char>) -> Option<TopicModel> {
    match SoundCommand::named(word) {
        Some(c) if part == "sound"@ => Some(TopicModel::Feedback(FeedbackCommand::Sound(c))),
        _ => None,
    }
}

/// The topic whose name has these levels.
spec fn parse(levels: Seq<Seq<char>>) -> Option<TopicModel> {
    if levels.len() < 3 || levels[0] != "hermes"@ {
        None
    } else if levels[1] == "intent"@ {
        Some(TopicModel::Intent(join(levels.skip(2))))
    } else if levels.len() == 3 {
        parse_unsited(levels[1], levels[2])
    } else if levels.len() == 4 {
        if levels[1] == "feedback"@ {
            parse_feedback(levels[2], levels[3])
        } else {
            parse_sited(levels[1], levels[2], levels[3])
        }
    } else if levels[1] == Component::AudioServer.word() && levels[3] == "playBytes"@ {
        Some(
            TopicModel::AudioServer(
                Some(levels[2]),
                AudioServerModel::PlayBytes(join(levels.skip(4))),
            ),
        )
    } else {
        None
    }
}

/// A list of levels is spelt like a list in which the levels from one on are
/// one part.
proof fn lemma_join_of_parts(levels: Seq<Seq<char>>, n: int)
    requires
        0 < n < levels.len(),
    ensures
        join(levels) == join(levels.take(n).push(join(levels.skip(n)))),
{
    lemma_join_of_concat(levels.take(n), levels.skip(n));
    assert(levels.take(n) + levels.skip(n) =~= levels);
    assert(levels.take(n).push(join(levels.skip(n))).drop_last() =~= levels.take(n));
}

/// What is parsed out of levels has the name that the levels spell.
proof fn lemma_path_of_parse(levels: Seq<Seq<char>>)
    requires
        are_levels(levels),
        parse(levels) is Some,
    ensures
        parse(levels).unwrap().path() == join(levels),
        parse(levels).unwrap().well_formed(),
{
    let t = parse(levels).unwrap();
    assert(is_level(levels[2]));
    if levels[1] == "intent"@ {
        lemma_join_of_parts(levels, 2);
        assert(t.parts() =~= levels.take(2).push(join(levels.skip(2))));
    } else if levels.len() >= 5 {
        lemma_join_of_parts(levels, 4);
        assert(t.parts() =~= levels.take(4).push(join(levels.skip(4))));
    } else {
        assert(t.parts() =~= levels);
    }
}

/// The areas that belong to no component share no word with one.
pub proof fn lemma_areas_differ(k: Component)
    ensures
        k.word() != "intent"@,
        k.word() != "feedback"@,
{
    reveal_strlit("intent");
    reveal_strlit("feedback");
    assert("intent"@.len() == 6 && "feedback"@.len() == 8);
    match k {
        Component::Hotword => {
            reveal_strlit("hotword");
            assert("hotword"@.len() == 7);
        },
        Component::Asr => {
            reveal_strlit("asr");
            assert("asr"@.len() == 3);
        },
        Component::Tts => {
            reveal_strlit("tts");
            assert("tts"@.len() == 3);
        },
        Component::Nlu => {
            reveal_strlit("nlu");
            assert("nlu"@.len() == 3);
        },
        Component::DialogueManager => {
            reveal_strlit("dialogueManager");
            assert("dialogueManager"@.len() == 15);
        },
        Component::AudioServer => {
            reveal_strlit("audioServer");
            assert("audioServer"@.len() == 11);
        },
    }
}

/// The area of a component is found by its word, and is no other area.
proof fn lemma_area_is_named(k: Component)
    ensures
        Component::named(k.word()) == Some(k),
        k.word() != "intent"@,
        k.word() != "feedback"@,
{
    Component::lemma_words_differ(k, Component::named(k.word()).unwrap());
    lemma_areas_differ(k);
}

/// The levels of a well-formed topic's name: the parts that it is spelt with,
/// the last of them level by level.
pub proof fn lemma_split_of_path(t: TopicModel)
    requires
        t.well_formed(),
    ensures
        split(t.path()) == t.parts().drop_last() + split(t.parts().last()),
        !(t is Intent) && !(t matches TopicModel::AudioServer(_, c) && c is PlayBytes) ==> split(
            t.path(),
        ) == t.parts(),
{
    reveal_strlit("hermes");
    reveal_strlit("feedback");
    reveal_strlit("sound");
    reveal_strlit("intent");
    assert(is_level("hermes"@));
    assert(is_level("feedback"@));
    assert(is_level("sound"@));
    assert(is_level("intent"@));
    match t {
        TopicModel::Feedback(FeedbackCommand::Sound(c)) => c.lemma_word_is_plain(),
        TopicModel::Hotword(_, c) => {
            Component::Hotword.lemma_word_is_plain();
            c.lemma_word_is_plain();
        },
        TopicModel::Asr(c) => {
            Component::Asr.lemma_word_is_plain();
            c.lemma_word_is_plain();
        },
        TopicModel::Tts(c) => {
            Component::Tts.lemma_word_is_plain();
            c.lemma_word_is_plain();
        },
        TopicModel::Nlu(c) => {
            Component::Nlu.lemma_word_is_plain();
            c.lemma_word_is_plain();
        },
        TopicModel::DialogueManager(c) => {
            Component::DialogueManager.lemma_word_is_plain();
            c.lemma_word_is_plain();
        },
        TopicModel::AudioServer(_, c) => {
            Component::AudioServer.lemma_word_is_plain();
            c.lemma_word_is_plain();
        },
        TopicModel::Intent(_) => {},
        TopicModel::Component(_, k, c) => {
            k.lemma_word_is_plain();
            c.lemma_word_is_plain();
        },
    }
    let front = t.parts().drop_last();
    let last = t.parts().last();
    assert(front.push(last) =~= t.parts());
    lemma_split_of_last(front, last);
    if is_level(last) {
        lemma_split_of_level(last);
    }
}

/// The levels of a well-formed topic's name parse to the topic.
proof fn lemma_parse_of_path(t: TopicModel)
    requires
        t.well_formed(),
    ensures
        parse(split(t.path())) == Some(t),
{
    lemma_split_of_path(t);
    let levels = split(t.path());
    match t {
        TopicModel::Feedback(FeedbackCommand::Sound(c)) => {
            reveal_strlit("intent");
            reveal_strlit("feedback");
            assert("intent"@.len() == 6 && "feedback"@.len() == 8);
            SoundCommand::lemma_words_differ(c, SoundCommand::named(c.word()).unwrap());
        },
        TopicModel::Hotword(_, c) => {
            lemma_area_is_named(Component::Hotword);
            c.lemma_word_is_own();
            HotwordCommand::lemma_words_differ(c, HotwordCommand::named(c.word()).unwrap());
        },
        TopicModel::Asr(c) => {
            lemma_area_is_named(Component::Asr);
            c.lemma_word_is_own();
            AsrCommand::lemma_words_differ(c, AsrCommand::named(c.word()).unwrap());
        },
        TopicModel::Tts(c) => {
            lemma_area_is_named(Component::Tts);
            c.lemma_word_is_own();
            TtsCommand::lemma_words_differ(c, TtsCommand::named(c.word()).unwrap());
        },
        TopicModel::Nlu(c) => {
            lemma_area_is_named(Component::Nlu);
            c.lemma_word_is_own();
            NluCommand::lemma_words_differ(c, NluCommand::named(c.word()).unwrap());
        },
        TopicModel::DialogueManager(c) => {
            lemma_area_is_named(Component::DialogueManager);
            c.lemma_word_is_own();
            DialogueManagerCommand::lemma_words_differ(
                c,
                DialogueManagerCommand::named(c.word()).unwrap(),
            );
        },
        TopicModel::AudioServer(_, c) => {
            lemma_area_is_named(Component::AudioServer);
            c.lemma_word_is_own();
            if let AudioServerModel::PlayBytes(id) = c {
                lemma_join_of_split(id);
                assert(levels.skip(4) =~= split(id));
            } else {
                AudioServerModel::lemma_words_differ(c, AudioServerModel::named(c.word()).unwrap());
            }
        },
        TopicModel::Intent(name) => {
            lemma_join_of_split(name);
            assert(levels.skip(2) =~= split(name));
        },
        TopicModel::Component(_, k, c) => {
            lemma_area_is_named(k);
            ComponentCommand::lemma_words_differ(c, ComponentCommand::named(c.word()).unwrap());
        },
    }
}

/// Reading a topic name amounts to parsing its levels.
proof fn lemma_topic_at_parses(path: Seq<char>)
    ensures
        topic_at(path) == parse(split(path)),
{
    lemma_join_of_split(path);
    assert forall|t: TopicModel| t.well_formed() && #[trigger] t.path() == path implies parse(
        split(path),
    ) == Some(t) by {
        lemma_parse_of_path(t);
    }
    if parse(split(path)) is Some {
        let t = parse(split(path)).unwrap();
        lemma_path_of_parse(split(path));
        assert(t.well_formed() && t.path() == path);
    }
}

/// A well-formed topic is read back from its name.
pub proof fn lemma_topic_at_path(t: TopicModel)
    requires
        t.well_formed(),
    ensures
        topic_at(t.path()) == Some(t),
{
    lemma_topic_at_parses(t.path());
    lemma_parse_of_path(t);
}

/// Whatever topic is read from a name, it is well formed and has that name.
pub proof fn lemma_path_of_topic_at(path: Seq<char>)
    requires
        topic_at(path) is Some,
    ensures
        topic_at(path).unwrap().well_formed(),
        topic_at(path).unwrap().path() == path,
{
}

/// Two well-formed topics with the same name are the same topic.
pub proof fn lemma_paths_differ(a: TopicModel, b: TopicModel)
    requires
        a.well_formed(),
        b.well_formed(),
        a.path() == b.path(),
    ensures
        a == b,
{
    lemma_topic_at_path(a);
    lemma_topic_at_path(b);
}

impl HermesTopic {
    /// The topic's name.
    pub fn as_path(&self) -> (path: String)
        ensures
            path@ == self@.path(),
    {
        let mut levels = match self {
            HermesTopic::Feedback(FeedbackCommand::Sound(c)) => {
                vec!["hermes".to_owned(), "feedback".to_owned(), "sound".to_owned(), c.as_path()]
            },
            HermesTopic::Hotword(site, c) => {
                spell_area(Component::Hotword.as_path(), site, c.as_path())
            },
            HermesTopic::Asr(c) => spell_area(Component::Asr.as_path(), &None, c.as_path()),
            HermesTopic::Tts(c) => spell_area(Component::Tts.as_path(), &None, c.as_path()),
            HermesTopic::Nlu(c) => spell_area(Component::Nlu.as_path(), &None, c.as_path()),
            HermesTopic::DialogueManager(c) => {
                spell_area(Component::DialogueManager.as_path(), &None, c.as_path())
            },
            HermesTopic::AudioServer(site, c) => {
                spell_area(Component::AudioServer.as_path(), site, c.as_path())
            },
            HermesTopic::Intent(name) => spell_area("intent".to_owned(), &None, name.clone()),
            HermesTopic::Component(site, k, c) => spell_area(k.as_path(), site, c.as_path()),
        };
        if let HermesTopic::AudioServer(_, AudioServerCommand::PlayBytes(id)) = self {
            let ghost before = texts(levels@);
            levels.push(id.clone());
            assert(texts(levels@) =~= before.push(id@));
        }
        assert(texts(levels@) =~= self@.parts());
        assert(texts(levels@).skip(0) =~= texts(levels@));
        join_levels(&levels, 0)
    }

    /// The topic's name, as it is written in a subscription.
    pub fn to_string(&self) -> (path: String)
        ensures
            path@ == self@.path(),
    {
        self.as_path()
    }

    /// The topic that a topic name stands for, if there is one.
    pub fn from_path(path: &str) -> (topic: Option<HermesTopic>)
        ensures
            match topic {
                Some(t) => topic_at(path@) == Some(t@),
                None => topic_at(path@) is None,
            },
    {
        let levels = split_levels(path);
        proof {
            lemma_topic_at_parses(path@);
            assert forall|i: int| 0 <= i < levels@.len() implies split(path@)[i] == (
            #[trigger] levels@[i])@ by {
                assert(texts(levels@)[i] == levels@[i]@);
            }
        }
        if levels.len() < 3 || levels[0] != "hermes".to_owned() {
            None
        } else if levels[1] == "intent".to_owned() {
            Some(HermesTopic::Intent(join_levels(&levels, 2)))
        } else if levels.len() == 3 {
            parse_unsited_levels(&levels[1], &levels[2])
        } else if levels.len() == 4 {
            if levels[1] == "feedback".to_owned() {
                parse_feedback_levels(&levels[2], &levels[3])
            } else {
                parse_sited_levels(&levels[1], &levels[2], &levels[3])
            }
        } else if levels[1] == Component::AudioServer.as_path() && levels[3]
            == "playBytes".to_owned() {
            let command = AudioServerCommand::PlayBytes(join_levels(&levels, 4));
            Some(HermesTopic::AudioServer(Some(levels[2].clone()), command))
        } else {
            None
        }
    }
}

/// What a topic of one area is spelt with.
fn spell_area(area: String, site: &Option<SiteId>, word: String) -> (levels: Vec<String>)
    ensures
        texts(levels@) == area_parts(area@, optional_text(*site), word@),
{
    let levels = match site {
        None => vec!["hermes".to_owned(), area, word],
        Some(s) => vec!["hermes".to_owned(), area, s.clone(), word],
    };
    assert(texts(levels@) =~= area_parts(area@, optional_text(*site), word@));
    levels
}

/// The topic of three levels whose last two are these, outside the intents.
fn parse_unsited_levels(area: &String, word: &String) -> (topic: Option<HermesTopic>)
    ensures
        match topic {
            Some(t) => parse_unsited(area@, word@) == Some(t@),
            None => parse_unsited(area@, word@) is None,
        },
{
    let component = match Component::from_path(area) {
        Some(k) => k,
        None => return None,
    };
    if let Some(c) = ComponentCommand::from_path(word) {
        return Some(HermesTopic::Component(None, component, c));
    }
    match component {
        Component::Hotword => match HotwordCommand::from_path(word) {
            Some(c) => Some(HermesTopic::Hotword(None, c)),
            None => None,
        },
        Component::Asr => match AsrCommand::from_path(word) {
            Some(c) => Some(HermesTopic::Asr(c)),
            None => None,
        },
        Component::Tts => match TtsCommand::from_path(word) {
            Some(c) => Some(HermesTopic::Tts(c)),
            None => None,
        },
        Component::Nlu => match NluCommand::from_path(word) {
            Some(c) => Some(HermesTopic::Nlu(c)),
            None => None,
        },
        Component::DialogueManager => match DialogueManagerCommand::from_path(word) {
            Some(c) => Some(HermesTopic::DialogueManager(c)),
            None => None,
        },
        Component::AudioServer => match AudioServerCommand::from_path(word) {
            Some(c) => Some(HermesTopic::AudioServer(None, c)),
            None => None,
        },
    }
}

/// The topic of four levels whose last three are these, outside the feedback.
fn parse_sited_levels(area: &String, site: &String, word: &String) -> (topic: Option<HermesTopic>)
    ensures
        match topic {
            Some(t) => parse_sited(area@, site@, word@) == Some(t@),
            None => parse_sited(area@, site@, word@) is None,
        },
{
    let component = match Component::from_path(area) {
        Some(k) => k,
        None => return None,
    };
    if let Some(c) = ComponentCommand::from_path(word) {
        return Some(HermesTopic::Component(Some(site.clone()), component, c));
    }
    match component {
        Component::Hotword => match HotwordCommand::from_path(word) {
            Some(c) => Some(HermesTopic::Hotword(Some(site.clone()), c)),
            None => None,
        },
        Component::AudioServer => match AudioServerCommand::from_path(word) {
            Some(c) => Some(HermesTopic::AudioServer(Some(site.clone()), c)),
            None => None,
        },
        _ => None,
    }
}

/// The topic of four levels under `feedback`.
fn parse_feedback_levels(part: &String, word: &String) -> (topic: Option<HermesTopic>)
    ensures
        match topic {
            Some(t) => parse_feedback(part@, word@) == Some(t@),
            None => parse_feedback(part@, word@) is None,
        },
{
    match SoundCommand::from_path(word) {
        Some(c) => {
            if *part == "sound".to_owned() {
                Some(HermesTopic::Feedback(FeedbackCommand::Sound(c)))
            } else {
                None
            }
        },
        None => None,
    }
}

} // verus!
