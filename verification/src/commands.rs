//! The words of the Hermes protocol: the components, and the commands that
//! each of them sends or understands. The word for a variant in a topic name
//! is the variant's name in camel case.
use crate::text::is_level;
use vstd::prelude::*;

verus! {

/// What a client asks of the feedback sounds.
#[derive(Clone, Copy, Debug, PartialEq, Eq, Structural)]
pub enum SoundCommand {
    ToggleOn,
    ToggleOff,
}

impl SoundCommand {
    /// The word that stands for it in a topic name.
    pub open spec fn word(self) -> Seq<char> {
        match self {
            SoundCommand::ToggleOn => "toggleOn"@,
            SoundCommand::ToggleOff => "toggleOff"@,
        }
    }

    /// The one that a word stands for.
    pub open spec fn named(word: Seq<char>) -> Option<SoundCommand> {
        if exists|c: SoundCommand| c.word() == word {
            Some(choose|c: SoundCommand| c.word() == word)
        } else {
            None
        }
    }

    /// Two of them never share a word.
    pub proof fn lemma_words_differ(a: SoundCommand, b: SoundCommand)
        requires
            a.word() == b.word(),
        ensures
            a == b,
    {
        reveal_strlit("toggleOn");
        reveal_strlit("toggleOff");
        assert("toggleOn"@.len() == 8);
        assert("toggleOff"@.len() == 9);
    }

    /// A word is one level of a topic name, and no wildcard.
    pub proof fn lemma_word_is_plain(self)
        ensures
            is_level(self.word()),
            self.word().len() >= 3,
    {
        match self {
            SoundCommand::ToggleOn => reveal_strlit("toggleOn"),
            SoundCommand::ToggleOff => reveal_strlit("toggleOff"),
        }
    }

    /// A word stands for one of them exactly where it is the word of that one.
    pub proof fn lemma_named(word: Seq<char>, c: SoundCommand)
        ensures
            SoundCommand::named(word) == Some(c) <==> c.word() == word,
    {
        if c.word() == word {
            SoundCommand::lemma_words_differ(c, SoundCommand::named(word).unwrap());
        }
    }

    /// Each of them comes back from the word that it gives.
    pub proof fn lemma_comes_back(c: SoundCommand, word: String, found: Option<SoundCommand>)
        requires
            call_ensures(SoundCommand::as_path, (&c,), word),
            call_ensures(SoundCommand::from_path, (&word,), found),
        ensures
            found == Some(c),
    {
        SoundCommand::lemma_named(word@, c);
    }

    /// The word that stands for it in a topic name.
    pub fn as_path(&self) -> (word: String)
        ensures
            word@ == self.word(),
    {
        match self {
            SoundCommand::ToggleOn => "toggleOn".to_owned(),
            SoundCommand::ToggleOff => "toggleOff".to_owned(),
        }
    }

    /// The one that a word stands for, if there is one.
    pub fn from_path(word: &String) -> (found: Option<SoundCommand>)
        ensures
            found == SoundCommand::named(word@),
    {
        proof {
            assert forall|c: SoundCommand| c.word() == word@ implies SoundCommand::named(
                word@,
            ) == Some(c) by {
                SoundCommand::lemma_words_differ(c, SoundCommand::named(word@).unwrap());
            }
        }
        if *word == SoundCommand::ToggleOn.as_path() {
            Some(SoundCommand::ToggleOn)
        } else if *word == SoundCommand::ToggleOff.as_path() {
            Some(SoundCommand::ToggleOff)
        } else {
            None
        }
    }
}

/// What is said to or by the hotword detector.
#[derive(Clone, Copy, Debug, PartialEq, Eq, Structural)]
pub enum HotwordCommand {
    ToggleOn,
    ToggleOff,
    Detected,
}

impl HotwordCommand {
    /// The word that stands for it in a topic name.
    pub open spec fn word(self) -> Seq<char> {
        match self {
            HotwordCommand::ToggleOn => "toggleOn"@,
            HotwordCommand::ToggleOff => "toggleOff"@,
            HotwordCommand::Detected => "detected"@,
        }
    }

    /// The one that a word stands for.
    pub open spec fn named(word: Seq<char>) -> Option<HotwordCommand> {
        if exists|c: HotwordCommand| c.word() == word {
            Some(choose|c: HotwordCommand| c.word() == word)
        } else {
            None
        }
    }

    /// Two of them never share a word.
    pub proof fn lemma_words_differ(a: HotwordCommand, b: HotwordCommand)
        requires
            a.word() == b.word(),
        ensures
            a == b,
    {
        reveal_strlit("toggleOn");
        reveal_strlit("toggleOff");
        reveal_strlit("detected");
        assert("toggleOn"@.len() == 8 && "toggleOn"@[0] == 't');
        assert("toggleOff"@.len() == 9 && "toggleOff"@[0] == 't');
        assert("detected"@.len() == 8 && "detected"@[0] == 'd');
    }

    /// A word is one level of a topic name, and no wildcard.
    pub proof fn lemma_word_is_plain(self)
        ensures
            is_level(self.word()),
            self.word().len() >= 3,
    {
        match self {
            HotwordCommand::ToggleOn => reveal_strlit("toggleOn"),
            HotwordCommand::ToggleOff => reveal_strlit("toggleOff"),
            HotwordCommand::Detected => reveal_strlit("detected"),
        }
    }

    /// A word is none of those that any component uses.
    pub proof fn lemma_word_is_own(self)
        ensures
            ComponentCommand::named(self.word()) is None,
    {
        reveal_strlit("versionRequest");
        reveal_strlit("version");
        reveal_strlit("error");
        assert("versionRequest"@.len() == 14 && "versionRequest"@[0] == 'v');
        assert("version"@.len() == 7 && "version"@[0] == 'v');
        assert("error"@.len() == 5 && "error"@[0] == 'e');
        match self {
            HotwordCommand::ToggleOn => {
                reveal_strlit("toggleOn");
                assert("toggleOn"@.len() == 8 && "toggleOn"@[0] == 't');
            },
            HotwordCommand::ToggleOff => {
                reveal_strlit("toggleOff");
                assert("toggleOff"@.len() == 9 && "toggleOff"@[0] == 't');
            },
            HotwordCommand::Detected => {
                reveal_strlit("detected");
                assert("detected"@.len() == 8 && "detected"@[0] == 'd');
            },
        }
    }

    /// A word stands for one of them exactly where it is the word of that one.
    pub proof fn lemma_named(word: Seq<char>, c: HotwordCommand)
        ensures
            HotwordCommand::named(word) == Some(c) <==> c.word() == word,
    {
        if c.word() == word {
            HotwordCommand::lemma_words_differ(c, HotwordCommand::named(word).unwrap());
        }
    }

    /// Each of them comes back from the word that it gives.
    pub proof fn lemma_comes_back(c: HotwordCommand, word: String, found: Option<HotwordCommand>)
        requires
            call_ensures(HotwordCommand::as_path, (&c,), word),
            call_ensures(HotwordCommand::from_path, (&word,), found),
        ensures
            found == Some(c),
    {
        HotwordCommand::lemma_named(word@, c);
    }

    /// The word that stands for it in a topic name.
    pub fn as_path(&self) -> (word: String)
        ensures
            word@ == self.word(),
    {
        match self {
            HotwordCommand::ToggleOn => "toggleOn".to_owned(),
            HotwordCommand::ToggleOff => "toggleOff".to_owned(),
            HotwordCommand::Detected => "detected".to_owned(),
        }
    }

    /// The one that a word stands for, if there is one.
    pub fn from_path(word: &String) -> (found: Option<HotwordCommand>)
        ensures
            found == HotwordCommand::named(word@),
    {
        proof {
            assert forall|c: HotwordCommand| c.word() == word@ implies HotwordCommand::named(
                word@,
            ) == Some(c) by {
                HotwordCommand::lemma_words_differ(c, HotwordCommand::named(word@).unwrap());
            }
        }
        if *word == HotwordCommand::ToggleOn.as_path() {
            Some(HotwordCommand::ToggleOn)
        } else if *word == HotwordCommand::ToggleOff.as_path() {
            Some(HotwordCommand::ToggleOff)
        } else if *word == HotwordCommand::Detected.as_path() {
            Some(HotwordCommand::Detected)
        } else {
            None
        }
    }
}

/// What is said to or by the speech recogniser.
#[derive(Clone, Copy, Debug, PartialEq, Eq, Structural)]
pub enum AsrCommand {
    ToggleOn,
    ToggleOff,
    StartListening,
    StopListening,
    Reload,
    TextCaptured,
    PartialTextCaptured,
    Inject,
    InjectStatusRequest,
    InjectStatus,
}

impl AsrCommand {
    /// The word that stands for it in a topic name.
    pub open spec fn word(self) -> Seq<char> {
        match self {
            AsrCommand::ToggleOn => "toggleOn"@,
            AsrCommand::ToggleOff => "toggleOff"@,
            AsrCommand::StartListening => "startListening"@,
            AsrCommand::StopListening => "stopListening"@,
            AsrCommand::Reload => "reload"@,
            AsrCommand::TextCaptured => "textCaptured"@,
            AsrCommand::PartialTextCaptured => "partialTextCaptured"@,
            AsrCommand::Inject => "inject"@,
            AsrCommand::InjectStatusRequest => "injectStatusRequest"@,
            AsrCommand::InjectStatus => "injectStatus"@,
        }
    }

    /// The one that a word stands for.
    pub open spec fn named(word: Seq<char>) -> Option<AsrCommand> {
        if exists|c: AsrCommand| c.word() == word {
            Some(choose|c: AsrCommand| c.word() == word)
        } else {
            None
        }
    }

    /// Two of them never share a word.
    pub proof fn lemma_words_differ(a: AsrCommand, b: AsrCommand)
        requires
            a.word() == b.word(),
        ensures
            a == b,
    {
        reveal_strlit("toggleOn");
        reveal_strlit("toggleOff");
        reveal_strlit("startListening");
        reveal_strlit("stopListening");
        reveal_strlit("reload");
        reveal_strlit("textCaptured");
        reveal_strlit("partialTextCaptured");
        reveal_strlit("inject");
        reveal_strlit("injectStatusRequest");
        reveal_strlit("injectStatus");
        assert("toggleOn"@.len() == 8 && "toggleOn"@[0] == 't');
        assert("toggleOff"@.len() == 9 && "toggleOff"@[0] == 't');
        assert("startListening"@.len() == 14 && "startListening"@[0] == 's');
        assert("stopListening"@.len() == 13 && "stopListening"@[0] == 's');
        assert("reload"@.len() == 6 && "reload"@[0] == 'r');
        assert("textCaptured"@.len() == 12 && "textCaptured"@[0] == 't');
        assert("partialTextCaptured"@.len() == 19 && "partialTextCaptured"@[0] == 'p');
        assert("inject"@.len() == 6 && "inject"@[0] == 'i');
        assert("injectStatusRequest"@.len() == 19 && "injectStatusRequest"@[0] == 'i');
        assert("injectStatus"@.len() == 12 && "injectStatus"@[0] == 'i');
    }

    /// A word is one level of a topic name, and no wildcard.
    pub proof fn lemma_word_is_plain(self)
        ensures
            is_level(self.word()),
            self.word().len() >= 3,
    {
        match self {
            AsrCommand::ToggleOn => reveal_strlit("toggleOn"),
            AsrCommand::ToggleOff => reveal_strlit("toggleOff"),
            AsrCommand::StartListening => reveal_strlit("startListening"),
            AsrCommand::StopListening => reveal_strlit("stopListening"),
            AsrCommand::Reload => reveal_strlit("reload"),
            AsrCommand::TextCaptured => reveal_strlit("textCaptured"),
            AsrCommand::PartialTextCaptured => reveal_strlit("partialTextCaptured"),
            AsrCommand::Inject => reveal_strlit("inject"),
            AsrCommand::InjectStatusRequest => reveal_strlit("injectStatusRequest"),
            AsrCommand::InjectStatus => reveal_strlit("injectStatus"),
        }
    }

    /// A word is none of those that any component uses.
    pub proof fn lemma_word_is_own(self)
        ensures
            ComponentCommand::named(self.word()) is None,
    {
        reveal_strlit("versionRequest");
        reveal_strlit("version");
        reveal_strlit("error");
        assert("versionRequest"@.len() == 14 && "versionRequest"@[0] == 'v');
        assert("version"@.len() == 7 && "version"@[0] == 'v');
        assert("error"@.len() == 5 && "error"@[0] == 'e');
        match self {
            AsrCommand::ToggleOn => {
                reveal_strlit("toggleOn");
                assert("toggleOn"@.len() == 8 && "toggleOn"@[0] == 't');
            },
            AsrCommand::ToggleOff => {
                reveal_strlit("toggleOff");
                assert("toggleOff"@.len() == 9 && "toggleOff"@[0] == 't');
            },
            AsrCommand::StartListening => {
                reveal_strlit("startListening");
                assert("startListening"@.len() == 14 && "startListening"@[0] == 's');
            },
            AsrCommand::StopListening => {
                reveal_strlit("stopListening");
                assert("stopListening"@.len() == 13 && "stopListening"@[0] == 's');
            },
            AsrCommand::Reload => {
                reveal_strlit("reload");
                assert("reload"@.len() == 6 && "reload"@[0] == 'r');
            },
            AsrCommand::TextCaptured => {
                reveal_strlit("textCaptured");
                assert("textCaptured"@.len() == 12 && "textCaptured"@[0] == 't');
            },
            AsrCommand::PartialTextCaptured => {
                reveal_strlit("partialTextCaptured");
                assert("partialTextCaptured"@.len() == 19 && "partialTextCaptured"@[0] == 'p');
            },
            AsrCommand::Inject => {
                reveal_strlit("inject");
                assert("inject"@.len() == 6 && "inject"@[0] == 'i');
            },
            AsrCommand::InjectStatusRequest => {
                reveal_strlit("injectStatusRequest");
                assert("injectStatusRequest"@.len() == 19 && "injectStatusRequest"@[0] == 'i');
            },
            AsrCommand::InjectStatus => {
                reveal_strlit("injectStatus");
                assert("injectStatus"@.len() == 12 && "injectStatus"@[0] == 'i');
            },
        }
    }

    /// A word stands for one of them exactly where it is the word of that one.
    pub proof fn lemma_named(word: Seq<char>, c: AsrCommand)
        ensures
            AsrCommand::named(word) == Some(c) <==> c.word() == word,
    {
        if c.word() == word {
            AsrCommand::lemma_words_differ(c, AsrCommand::named(word).unwrap());
        }
    }

    /// Each of them comes back from the word that it gives.
    pub proof fn lemma_comes_back(c: AsrCommand, word: String, found: Option<AsrCommand>)
        requires
            call_ensures(AsrCommand::as_path, (&c,), word),
            call_ensures(AsrCommand::from_path, (&word,), found),
        ensures
            found == Some(c),
    {
        AsrCommand::lemma_named(word@, c);
    }

    /// The word that stands for it in a topic name.
    pub fn as_path(&self) -> (word: String)
        ensures
            word@ == self.word(),
    {
        match self {
            AsrCommand::ToggleOn => "toggleOn".to_owned(),
            AsrCommand::ToggleOff => "toggleOff".to_owned(),
            AsrCommand::StartListening => "startListening".to_owned(),
            AsrCommand::StopListening => "stopListening".to_owned(),
            AsrCommand::Reload => "reload".to_owned(),
            AsrCommand::TextCaptured => "textCaptured".to_owned(),
            AsrCommand::PartialTextCaptured => "partialTextCaptured".to_owned(),
            AsrCommand::Inject => "inject".to_owned(),
            AsrCommand::InjectStatusRequest => "injectStatusRequest".to_owned(),
            AsrCommand::InjectStatus => "injectStatus".to_owned(),
        }
    }

    /// The one that a word stands for, if there is one.
    pub fn from_path(word: &String) -> (found: Option<AsrCommand>)
        ensures
            found == AsrCommand::named(word@),
    {
        proof {
            assert forall|c: AsrCommand| c.word() == word@ implies AsrCommand::named(
                word@,
            ) == Some(c) by {
                AsrCommand::lemma_words_differ(c, AsrCommand::named(word@).unwrap());
            }
        }
        if *word == AsrCommand::ToggleOn.as_path() {
            Some(AsrCommand::ToggleOn)
        } else if *word == AsrCommand::ToggleOff.as_path() {
            Some(AsrCommand::ToggleOff)
        } else if *word == AsrCommand::StartListening.as_path() {
            Some(AsrCommand::StartListening)
        } else if *word == AsrCommand::StopListening.as_path() {
            Some(AsrCommand::StopListening)
        } else if *word == AsrCommand::Reload.as_path() {
            Some(AsrCommand::Reload)
        } else if *word == AsrCommand::TextCaptured.as_path() {
            Some(AsrCommand::TextCaptured)
        } else if *word == AsrCommand::PartialTextCaptured.as_path() {
            Some(AsrCommand::PartialTextCaptured)
        } else if *word == AsrCommand::Inject.as_path() {
            Some(AsrCommand::Inject)
        } else if *word == AsrCommand::InjectStatusRequest.as_path() {
            Some(AsrCommand::InjectStatusRequest)
        } else if *word == AsrCommand::InjectStatus.as_path() {
            Some(AsrCommand::InjectStatus)
        } else {
            None
        }
    }
}

/// What is said to or by the speech synthesiser.
#[derive(Clone, Copy, Debug, PartialEq, Eq, Structural)]
pub enum TtsCommand {
    Say,
    SayFinished,
}

impl TtsCommand {
    /// The word that stands for it in a topic name.
    pub open spec fn word(self) -> Seq<char> {
        match self {
            TtsCommand::Say => "say"@,
            TtsCommand::SayFinished => "sayFinished"@,
        }
    }

    /// The one that a word stands for.
    pub open spec fn named(word: Seq<char>) -> Option<TtsCommand> {
        if exists|c: TtsCommand| c.word() == word {
            Some(choose|c: TtsCommand| c.word() == word)
        } else {
            None
        }
    }

    /// Two of them never share a word.
    pub proof fn lemma_words_differ(a: TtsCommand, b: TtsCommand)
        requires
            a.word() == b.word(),
        ensures
            a == b,
    {
        reveal_strlit("say");
        reveal_strlit("sayFinished");
        assert("say"@.len() == 3);
        assert("sayFinished"@.len() == 11);
    }

    /// A word is one level of a topic name, and no wildcard.
    pub proof fn lemma_word_is_plain(self)
        ensures
            is_level(self.word()),
            self.word().len() >= 3,
    {
        match self {
            TtsCommand::Say => reveal_strlit("say"),
            TtsCommand::SayFinished => reveal_strlit("sayFinished"),
        }
    }

    /// A word is none of those that any component uses.
    pub proof fn lemma_word_is_own(self)
        ensures
            ComponentCommand::named(self.word()) is None,
    {
        reveal_strlit("versionRequest");
        reveal_strlit("version");
        reveal_strlit("error");
        assert("versionRequest"@.len() == 14 && "versionRequest"@[0] == 'v');
        assert("version"@.len() == 7 && "version"@[0] == 'v');
        assert("error"@.len() == 5 && "error"@[0] == 'e');
        match self {
            TtsCommand::Say => {
                reveal_strlit("say");
                assert("say"@.len() == 3 && "say"@[0] == 's');
            },
            TtsCommand::SayFinished => {
                reveal_strlit("sayFinished");
                assert("sayFinished"@.len() == 11 && "sayFinished"@[0] == 's');
            },
        }
    }

    /// A word stands for one of them exactly where it is the word of that one.
    pub proof fn lemma_named(word: Seq<char>, c: TtsCommand)
        ensures
            TtsCommand::named(word) == Some(c) <==> c.word() == word,
    {
        if c.word() == word {
            TtsCommand::lemma_words_differ(c, TtsCommand::named(word).unwrap());
        }
    }

    /// Each of them comes back from the word that it gives.
    pub proof fn lemma_comes_back(c: TtsCommand, word: String, found: Option<TtsCommand>)
        requires
            call_ensures(TtsCommand::as_path, (&c,), word),
            call_ensures(TtsCommand::from_path, (&word,), found),
        ensures
            found == Some(c),
    {
        TtsCommand::lemma_named(word@, c);
    }

    /// The word that stands for it in a topic name.
    pub fn as_path(&self) -> (word: String)
        ensures
            word@ == self.word(),
    {
        match self {
            TtsCommand::Say => "say".to_owned(),
            TtsCommand::SayFinished => "sayFinished".to_owned(),
        }
    }

    /// The one that a word stands for, if there is one.
    pub fn from_path(word: &String) -> (found: Option<TtsCommand>)
        ensures
            found == TtsCommand::named(word@),
    {
        proof {
            assert forall|c: TtsCommand| c.word() == word@ implies TtsCommand::named(
                word@,
            ) == Some(c) by {
                TtsCommand::lemma_words_differ(c, TtsCommand::named(word@).unwrap());
            }
        }
        if *word == TtsCommand::Say.as_path() {
            Some(TtsCommand::Say)
        } else if *word == TtsCommand::SayFinished.as_path() {
            Some(TtsCommand::SayFinished)
        } else {
            None
        }
    }
}

/// What is said to or by the language understanding.
#[derive(Clone, Copy, Debug, PartialEq, Eq, Structural)]
pub enum NluCommand {
    Query,
    PartialQuery,
    SlotParsed,
    IntentParsed,
    IntentNotRecognized,
}

impl NluCommand {
    /// The word that stands for it in a topic name.
    pub open spec fn word(self) -> Seq<char> {
        match self {
            NluCommand::Query => "query"@,
            NluCommand::PartialQuery => "partialQuery"@,
            NluCommand::SlotParsed => "slotParsed"@,
            NluCommand::IntentParsed => "intentParsed"@,
            NluCommand::IntentNotRecognized => "intentNotRecognized"@,
        }
    }

    /// The one that a word stands for.
    pub open spec fn named(word: Seq<char>) -> Option<NluCommand> {
        if exists|c: NluCommand| c.word() == word {
            Some(choose|c: NluCommand| c.word() == word)
        } else {
            None
        }
    }

    /// Two of them never share a word.
    pub proof fn lemma_words_differ(a: NluCommand, b: NluCommand)
        requires
            a.word() == b.word(),
        ensures
            a == b,
    {
        reveal_strlit("query");
        reveal_strlit("partialQuery");
        reveal_strlit("slotParsed");
        reveal_strlit("intentParsed");
        reveal_strlit("intentNotRecognized");
        assert("query"@.len() == 5 && "query"@[0] == 'q');
        assert("partialQuery"@.len() == 12 && "partialQuery"@[0] == 'p');
        assert("slotParsed"@.len() == 10 && "slotParsed"@[0] == 's');
        assert("intentParsed"@.len() == 12 && "intentParsed"@[0] == 'i');
        assert("intentNotRecognized"@.len() == 19 && "intentNotRecognized"@[0] == 'i');
    }

    /// A word is one level of a topic name, and no wildcard.
    pub proof fn lemma_word_is_plain(self)
        ensures
            is_level(self.word()),
            self.word().len() >= 3,
    {
        match self {
            NluCommand::Query => reveal_strlit("query"),
            NluCommand::PartialQuery => reveal_strlit("partialQuery"),
            NluCommand::SlotParsed => reveal_strlit("slotParsed"),
            NluCommand::IntentParsed => reveal_strlit("intentParsed"),
            NluCommand::IntentNotRecognized => reveal_strlit("intentNotRecognized"),
        }
    }

    /// A word is none of those that any component uses.
    pub proof fn lemma_word_is_own(self)
        ensures
            ComponentCommand::named(self.word()) is None,
    {
        reveal_strlit("versionRequest");
        reveal_strlit("version");
        reveal_strlit("error");
        assert("versionRequest"@.len() == 14 && "versionRequest"@[0] == 'v');
        assert("version"@.len() == 7 && "version"@[0] == 'v');
        assert("error"@.len() == 5 && "error"@[0] == 'e');
        match self {
            NluCommand::Query => {
                reveal_strlit("query");
                assert("query"@.len() == 5 && "query"@[0] == 'q');
            },
            NluCommand::PartialQuery => {
                reveal_strlit("partialQuery");
                assert("partialQuery"@.len() == 12 && "partialQuery"@[0] == 'p');
            },
            NluCommand::SlotParsed => {
                reveal_strlit("slotParsed");
                assert("slotParsed"@.len() == 10 && "slotParsed"@[0] == 's');
            },
            NluCommand::IntentParsed => {
                reveal_strlit("intentParsed");
                assert("intentParsed"@.len() == 12 && "intentParsed"@[0] == 'i');
            },
            NluCommand::IntentNotRecognized => {
                reveal_strlit("intentNotRecognized");
                assert("intentNotRecognized"@.len() == 19 && "intentNotRecognized"@[0] == 'i');
            },
        }
    }

    /// A word stands for one of them exactly where it is the word of that one.
    pub proof fn lemma_named(word: Seq<char>, c: NluCommand)
        ensures
            NluCommand::named(word) == Some(c) <==> c.word() == word,
    {
        if c.word() == word {
            NluCommand::lemma_words_differ(c, NluCommand::named(word).unwrap());
        }
    }

    /// Each of them comes back from the word that it gives.
    pub proof fn lemma_comes_back(c: NluCommand, word: String, found: Option<NluCommand>)
        requires
            call_ensures(NluCommand::as_path, (&c,), word),
            call_ensures(NluCommand::from_path, (&word,), found),
        ensures
            found == Some(c),
    {
        NluCommand::lemma_named(word@, c);
    }

    /// The word that stands for it in a topic name.
    pub fn as_path(&self) -> (word: String)
        ensures
            word@ == self.word(),
    {
        match self {
            NluCommand::Query => "query".to_owned(),
            NluCommand::PartialQuery => "partialQuery".to_owned(),
            NluCommand::SlotParsed => "slotParsed".to_owned(),
            NluCommand::IntentParsed => "intentParsed".to_owned(),
            NluCommand::IntentNotRecognized => "intentNotRecognized".to_owned(),
        }
    }

    /// The one that a word stands for, if there is one.
    pub fn from_path(word: &String) -> (found: Option<NluCommand>)
        ensures
            found == NluCommand::named(word@),
    {
        proof {
            assert forall|c: NluCommand| c.word() == word@ implies NluCommand::named(
                word@,
            ) == Some(c) by {
                NluCommand::lemma_words_differ(c, NluCommand::named(word@).unwrap());
            }
        }
        if *word == NluCommand::Query.as_path() {
            Some(NluCommand::Query)
        } else if *word == NluCommand::PartialQuery.as_path() {
            Some(NluCommand::PartialQuery)
        } else if *word == NluCommand::SlotParsed.as_path() {
            Some(NluCommand::SlotParsed)
        } else if *word == NluCommand::IntentParsed.as_path() {
            Some(NluCommand::IntentParsed)
        } else if *word == NluCommand::IntentNotRecognized.as_path() {
            Some(NluCommand::IntentNotRecognized)
        } else {
            None
        }
    }
}

/// What is said to or by the dialogue manager.
#[derive(Clone, Copy, Debug, PartialEq, Eq, Structural)]
pub enum DialogueManagerCommand {
    ToggleOn,
    ToggleOff,
    StartSession,
    ContinueSession,
    EndSession,
    SessionQueued,
    SessionStarted,
    SessionEnded,
    IntentNotRecognized,
}

impl DialogueManagerCommand {
    /// The word that stands for it in a topic name.
    pub open spec fn word(self) -> Seq<char> {
        match self {
            DialogueManagerCommand::ToggleOn => "toggleOn"@,
            DialogueManagerCommand::ToggleOff => "toggleOff"@,
            DialogueManagerCommand::StartSession => "startSession"@,
            DialogueManagerCommand::ContinueSession => "continueSession"@,
            DialogueManagerCommand::EndSession => "endSession"@,
            DialogueManagerCommand::SessionQueued => "sessionQueued"@,
            DialogueManagerCommand::SessionStarted => "sessionStarted"@,
            DialogueManagerCommand::SessionEnded => "sessionEnded"@,
            DialogueManagerCommand::IntentNotRecognized => "intentNotRecognized"@,
        }
    }

    /// The one that a word stands for.
    pub open spec fn named(word: Seq<char>) -> Option<DialogueManagerCommand> {
        if exists|c: DialogueManagerCommand| c.word() == word {
            Some(choose|c: DialogueManagerCommand| c.word() == word)
        } else {
            None
        }
    }

    /// Two of them never share a word.
    pub proof fn lemma_words_differ(a: DialogueManagerCommand, b: DialogueManagerCommand)
        requires
            a.word() == b.word(),
        ensures
            a == b,
    {
        reveal_strlit("toggleOn");
        reveal_strlit("toggleOff");
        reveal_strlit("startSession");
        reveal_strlit("continueSession");
        reveal_strlit("endSession");
        reveal_strlit("sessionQueued");
        reveal_strlit("sessionStarted");
        reveal_strlit("sessionEnded");
        reveal_strlit("intentNotRecognized");
        assert("toggleOn"@.len() == 8 && "toggleOn"@[1] == 'o');
        assert("toggleOff"@.len() == 9 && "toggleOff"@[1] == 'o');
        assert("startSession"@.len() == 12 && "startSession"@[1] == 't');
        assert("continueSession"@.len() == 15 && "continueSession"@[1] == 'o');
        assert("endSession"@.len() == 10 && "endSession"@[1] == 'n');
        assert("sessionQueued"@.len() == 13 && "sessionQueued"@[1] == 'e');
        assert("sessionStarted"@.len() == 14 && "sessionStarted"@[1] == 'e');
        assert("sessionEnded"@.len() == 12 && "sessionEnded"@[1] == 'e');
        assert("intentNotRecognized"@.len() == 19 && "intentNotRecognized"@[1] == 'n');
    }

    /// A word is one level of a topic name, and no wildcard.
    pub proof fn lemma_word_is_plain(self)
        ensures
            is_level(self.word()),
            self.word().len() >= 3,
    {
        match self {
            DialogueManagerCommand::ToggleOn => reveal_strlit("toggleOn"),
            DialogueManagerCommand::ToggleOff => reveal_strlit("toggleOff"),
            DialogueManagerCommand::StartSession => reveal_strlit("startSession"),
            DialogueManagerCommand::ContinueSession => reveal_strlit("continueSession"),
            DialogueManagerCommand::EndSession => reveal_strlit("endSession"),
            DialogueManagerCommand::SessionQueued => reveal_strlit("sessionQueued"),
            DialogueManagerCommand::SessionStarted => reveal_strlit("sessionStarted"),
            DialogueManagerCommand::SessionEnded => reveal_strlit("sessionEnded"),
            DialogueManagerCommand::IntentNotRecognized => reveal_strlit("intentNotRecognized"),
        }
    }

    /// A word is none of those that any component uses.
    pub proof fn lemma_word_is_own(self)
        ensures
            ComponentCommand::named(self.word()) is None,
    {
        reveal_strlit("versionRequest");
        reveal_strlit("version");
        reveal_strlit("error");
        assert("versionRequest"@.len() == 14 && "versionRequest"@[0] == 'v');
        assert("version"@.len() == 7 && "version"@[0] == 'v');
        assert("error"@.len() == 5 && "error"@[0] == 'e');
        match self {
            DialogueManagerCommand::ToggleOn => {
                reveal_strlit("toggleOn");
                assert("toggleOn"@.len() == 8 && "toggleOn"@[0] == 't');
            },
            DialogueManagerCommand::ToggleOff => {
                reveal_strlit("toggleOff");
                assert("toggleOff"@.len() == 9 && "toggleOff"@[0] == 't');
            },
            DialogueManagerCommand::StartSession => {
                reveal_strlit("startSession");
                assert("startSession"@.len() == 12 && "startSession"@[0] == 's');
            },
            DialogueManagerCommand::ContinueSession => {
                reveal_strlit("continueSession");
                assert("continueSession"@.len() == 15 && "continueSession"@[0] == 'c');
            },
            DialogueManagerCommand::EndSession => {
                reveal_strlit("endSession");
                assert("endSession"@.len() == 10 && "endSession"@[0] == 'e');
            },
            DialogueManagerCommand::SessionQueued => {
                reveal_strlit("sessionQueued");
                assert("sessionQueued"@.len() == 13 && "sessionQueued"@[0] == 's');
            },
            DialogueManagerCommand::SessionStarted => {
                reveal_strlit("sessionStarted");
                assert("sessionStarted"@.len() == 14 && "sessionStarted"@[0] == 's');
            },
            DialogueManagerCommand::SessionEnded => {
                reveal_strlit("sessionEnded");
                assert("sessionEnded"@.len() == 12 && "sessionEnded"@[0] == 's');
            },
            DialogueManagerCommand::IntentNotRecognized => {
                reveal_strlit("intentNotRecognized");
                assert("intentNotRecognized"@.len() == 19 && "intentNotRecognized"@[0] == 'i');
            },
        }
    }

    /// A word stands for one of them exactly where it is the word of that one.
    pub proof fn lemma_named(word: Seq<char>, c: DialogueManagerCommand)
        ensures
            DialogueManagerCommand::named(word) == Some(c) <==> c.word() == word,
    {
        if c.word() == word {
            DialogueManagerCommand::lemma_words_differ(
                c,
                DialogueManagerCommand::named(word).unwrap(),
            );
        }
    }

    /// Each of them comes back from the word that it gives.
    pub proof fn lemma_comes_back(
        c: DialogueManagerCommand,
        word: String,
        found: Option<DialogueManagerCommand>,
    )
        requires
            call_ensures(DialogueManagerCommand::as_path, (&c,), word),
            call_ensures(DialogueManagerCommand::from_path, (&word,), found),
        ensures
            found == Some(c),
    {
        DialogueManagerCommand::lemma_named(word@, c);
    }

    /// The word that stands for it in a topic name.
    pub fn as_path(&self) -> (word: String)
        ensures
            word@ == self.word(),
    {
        match self {
            DialogueManagerCommand::ToggleOn => "toggleOn".to_owned(),
            DialogueManagerCommand::ToggleOff => "toggleOff".to_owned(),
            DialogueManagerCommand::StartSession => "startSession".to_owned(),
            DialogueManagerCommand::ContinueSession => "continueSession".to_owned(),
            DialogueManagerCommand::EndSession => "endSession".to_owned(),
            DialogueManagerCommand::SessionQueued => "sessionQueued".to_owned(),
            DialogueManagerCommand::SessionStarted => "sessionStarted".to_owned(),
            DialogueManagerCommand::SessionEnded => "sessionEnded".to_owned(),
            DialogueManagerCommand::IntentNotRecognized => "intentNotRecognized".to_owned(),
        }
    }

    /// The one that a word stands for, if there is one.
    pub fn from_path(word: &String) -> (found: Option<DialogueManagerCommand>)
        ensures
            found == DialogueManagerCommand::named(word@),
    {
        proof {
            assert forall|c: DialogueManagerCommand|
                c.word() == word@ implies DialogueManagerCommand::named(word@) == Some(c) by {
                DialogueManagerCommand::lemma_words_differ(
                    c,
                    DialogueManagerCommand::named(word@).unwrap(),
                );
            }
        }
        if *word == DialogueManagerCommand::ToggleOn.as_path() {
            Some(DialogueManagerCommand::ToggleOn)
        } else if *word == DialogueManagerCommand::ToggleOff.as_path() {
            Some(DialogueManagerCommand::ToggleOff)
        } else if *word == DialogueManagerCommand::StartSession.as_path() {
            Some(DialogueManagerCommand::StartSession)
        } else if *word == DialogueManagerCommand::ContinueSession.as_path() {
            Some(DialogueManagerCommand::ContinueSession)
        } else if *word == DialogueManagerCommand::EndSession.as_path() {
            Some(DialogueManagerCommand::EndSession)
        } else if *word == DialogueManagerCommand::SessionQueued.as_path() {
            Some(DialogueManagerCommand::SessionQueued)
        } else if *word == DialogueManagerCommand::SessionStarted.as_path() {
            Some(DialogueManagerCommand::SessionStarted)
        } else if *word == DialogueManagerCommand::SessionEnded.as_path() {
            Some(DialogueManagerCommand::SessionEnded)
        } else if *word == DialogueManagerCommand::IntentNotRecognized.as_path() {
            Some(DialogueManagerCommand::IntentNotRecognized)
        } else {
            None
        }
    }
}

/// What can be said to or by any component.
#[derive(Clone, Copy, Debug, PartialEq, Eq, Structural)]
pub enum ComponentCommand {
    VersionRequest,
    Version,
    Error,
}

impl ComponentCommand {
    /// The word that stands for it in a topic name.
    pub open spec fn word(self) -> Seq<char> {
        match self {
            ComponentCommand::VersionRequest => "versionRequest"@,
            ComponentCommand::Version => "version"@,
            ComponentCommand::Error => "error"@,
        }
    }

    /// The one that a word stands for.
    pub open spec fn named(word: Seq<char>) -> Option<ComponentCommand> {
        if exists|c: ComponentCommand| c.word() == word {
            Some(choose|c: ComponentCommand| c.word() == word)
        } else {
            None
        }
    }

    /// Two of them never share a word.
    pub proof fn lemma_words_differ(a: ComponentCommand, b: ComponentCommand)
        requires
            a.word() == b.word(),
        ensures
            a == b,
    {
        reveal_strlit("versionRequest");
        reveal_strlit("version");
        reveal_strlit("error");
        assert("versionRequest"@.len() == 14);
        assert("version"@.len() == 7);
        assert("error"@.len() == 5);
    }

    /// A word is one level of a topic name, and no wildcard.
    pub proof fn lemma_word_is_plain(self)
        ensures
            is_level(self.word()),
            self.word().len() >= 3,
    {
        match self {
            ComponentCommand::VersionRequest => reveal_strlit("versionRequest"),
            ComponentCommand::Version => reveal_strlit("version"),
            ComponentCommand::Error => reveal_strlit("error"),
        }
    }

    /// A word stands for one of them exactly where it is the word of that one.
    pub proof fn lemma_named(word: Seq<char>, c: ComponentCommand)
        ensures
            ComponentCommand::named(word) == Some(c) <==> c.word() == word,
    {
        if c.word() == word {
            ComponentCommand::lemma_words_differ(c, ComponentCommand::named(word).unwrap());
        }
    }

    /// Each of them comes back from the word that it gives.
    pub proof fn lemma_comes_back(
        c: ComponentCommand,
        word: String,
        found: Option<ComponentCommand>,
    )
        requires
            call_ensures(ComponentCommand::as_path, (&c,), word),
            call_ensures(ComponentCommand::from_path, (&word,), found),
        ensures
            found == Some(c),
    {
        ComponentCommand::lemma_named(word@, c);
    }

    /// The word that stands for it in a topic name.
    pub fn as_path(&self) -> (word: String)
        ensures
            word@ == self.word(),
    {
        match self {
            ComponentCommand::VersionRequest => "versionRequest".to_owned(),
            ComponentCommand::Version => "version".to_owned(),
            ComponentCommand::Error => "error".to_owned(),
        }
    }

    /// The one that a word stands for, if there is one.
    pub fn from_path(word: &String) -> (found: Option<ComponentCommand>)
        ensures
            found == ComponentCommand::named(word@),
    {
        proof {
            assert forall|c: ComponentCommand| c.word() == word@ implies ComponentCommand::named(
                word@,
            ) == Some(c) by {
                ComponentCommand::lemma_words_differ(c, ComponentCommand::named(word@).unwrap());
            }
        }
        if *word == ComponentCommand::VersionRequest.as_path() {
            Some(ComponentCommand::VersionRequest)
        } else if *word == ComponentCommand::Version.as_path() {
            Some(ComponentCommand::Version)
        } else if *word == ComponentCommand::Error.as_path() {
            Some(ComponentCommand::Error)
        } else {
            None
        }
    }
}

/// The components of the platform; each one names an area of topics.
#[derive(Clone, Copy, Debug, PartialEq, Eq, Structural)]
pub enum Component {
    Hotword,
    Asr,
    Tts,
    Nlu,
    DialogueManager,
    AudioServer,
}

impl Component {
    /// The word that stands for it in a topic name.
    pub open spec fn word(self) -> Seq<char> {
        match self {
            Component::Hotword => "hotword"@,
            Component::Asr => "asr"@,
            Component::Tts => "tts"@,
            Component::Nlu => "nlu"@,
            Component::DialogueManager => "dialogueManager"@,
            Component::AudioServer => "audioServer"@,
        }
    }

    /// The one that a word stands for.
    pub open spec fn named(word: Seq<char>) -> Option<Component> {
        if exists|c: Component| c.word() == word {
            Some(choose|c: Component| c.word() == word)
        } else {
            None
        }
    }

    /// Two of them never share a word.
    pub proof fn lemma_words_differ(a: Component, b: Component)
        requires
            a.word() == b.word(),
        ensures
            a == b,
    {
        reveal_strlit("hotword");
        reveal_strlit("asr");
        reveal_strlit("tts");
        reveal_strlit("nlu");
        reveal_strlit("dialogueManager");
        reveal_strlit("audioServer");
        assert("hotword"@.len() == 7 && "hotword"@[0] == 'h');
        assert("asr"@.len() == 3 && "asr"@[0] == 'a');
        assert("tts"@.len() == 3 && "tts"@[0] == 't');
        assert("nlu"@.len() == 3 && "nlu"@[0] == 'n');
        assert("dialogueManager"@.len() == 15 && "dialogueManager"@[0] == 'd');
        assert("audioServer"@.len() == 11 && "audioServer"@[0] == 'a');
    }

    /// A word is one level of a topic name, and no wildcard.
    pub proof fn lemma_word_is_plain(self)
        ensures
            is_level(self.word()),
            self.word().len() >= 3,
    {
        match self {
            Component::Hotword => reveal_strlit("hotword"),
            Component::Asr => reveal_strlit("asr"),
            Component::Tts => reveal_strlit("tts"),
            Component::Nlu => reveal_strlit("nlu"),
            Component::DialogueManager => reveal_strlit("dialogueManager"),
            Component::AudioServer => reveal_strlit("audioServer"),
        }
    }

    /// A word stands for one of them exactly where it is the word of that one.
    pub proof fn lemma_named(word: Seq<char>, c: Component)
        ensures
            Component::named(word) == Some(c) <==> c.word() == word,
    {
        if c.word() == word {
            Component::lemma_words_differ(c, Component::named(word).unwrap());
        }
    }

    /// Each of them comes back from the word that it gives.
    pub proof fn lemma_comes_back(c: Component, word: String, found: Option<Component>)
        requires
            call_ensures(Component::as_path, (&c,), word),
            call_ensures(Component::from_path, (&word,), found),
        ensures
            found == Some(c),
    {
        Component::lemma_named(word@, c);
    }

    /// The word that stands for it in a topic name.
    pub fn as_path(&self) -> (word: String)
        ensures
            word@ == self.word(),
    {
        match self {
            Component::Hotword => "hotword".to_owned(),
            Component::Asr => "asr".to_owned(),
            Component::Tts => "tts".to_owned(),
            Component::Nlu => "nlu".to_owned(),
            Component::DialogueManager => "dialogueManager".to_owned(),
            Component::AudioServer => "audioServer".to_owned(),
        }
    }

    /// The one that a word stands for, if there is one.
    pub fn from_path(word: &String) -> (found: Option<Component>)
        ensures
            found == Component::named(word@),
    {
        proof {
            assert forall|c: Component| c.word() == word@ implies Component::named(
                word@,
            ) == Some(c) by {
                Component::lemma_words_differ(c, Component::named(word@).unwrap());
            }
        }
        if *word == Component::Hotword.as_path() {
            Some(Component::Hotword)
        } else if *word == Component::Asr.as_path() {
            Some(Component::Asr)
        } else if *word == Component::Tts.as_path() {
            Some(Component::Tts)
        } else if *word == Component::Nlu.as_path() {
            Some(Component::Nlu)
        } else if *word == Component::DialogueManager.as_path() {
            Some(Component::DialogueManager)
        } else if *word == Component::AudioServer.as_path() {
            Some(Component::AudioServer)
        } else {
            None
        }
    }
}

} // verus!
