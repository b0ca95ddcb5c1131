//! The localised strings of the preferences window, with the localised
//! choices of its language and log level selections.

use crate::constants::APPLICATION_NAME_SHORT;
use crate::error::{CoreError, Placeholder};
use crate::foreign::LanguageTagRef;
use crate::error::is_text;
use crate::localisation::{
    format_request, is_format_with_text, is_window_title, literal_request, window_title, AvailableLanguage, Localisation,
    LocalisedTrait, Request,
};
use crate::localised::{LocalisedText, LocalisedTexts};
use crate::log::LogLevel;
use vstd::prelude::*;
use vstd::string::*;

verus! {

broadcast use crate::foreign::group_tag_ref;

/// The strings of the table.
pub enum Index {
    Title,
    Accept,
    Cancel,
    Language,
    LanguageUi,
    LanguagePlaceholder,
    Logs,
    LogLevelDefault,
    LogLevelApplication,
    LogLevelOther,
    LogLevelIced,
    LogLevelI18n,
    LogPlaceholder,
}

/// The number of strings of the table.
pub const STRING_COUNT: usize = 13;

/// The position of a string in the table.
pub open spec fn index_position(index: Index) -> int {
    match index {
        Index::Title => 0,
        Index::Accept => 1,
        Index::Cancel => 2,
        Index::Language => 3,
        Index::LanguageUi => 4,
        Index::LanguagePlaceholder => 5,
        Index::Logs => 6,
        Index::LogLevelDefault => 7,
        Index::LogLevelApplication => 8,
        Index::LogLevelOther => 9,
        Index::LogLevelIced => 10,
        Index::LogLevelI18n => 11,
        Index::LogPlaceholder => 12,
    }
}

impl Index {
    /// The position of the string in the table.
    pub fn index(&self) -> (index: usize)
        ensures
            index < STRING_COUNT,
            index == index_position(*self),
    {
        match self {
            Index::Title => 0,
            Index::Accept => 1,
            Index::Cancel => 2,
            Index::Language => 3,
            Index::LanguageUi => 4,
            Index::LanguagePlaceholder => 5,
            Index::Logs => 6,
            Index::LogLevelDefault => 7,
            Index::LogLevelApplication => 8,
            Index::LogLevelOther => 9,
            Index::LogLevelIced => 10,
            Index::LogLevelI18n => 11,
            Index::LogPlaceholder => 12,
        }
    }
}

/// The log levels offered for selection, in the order of their localised
/// names.
pub open spec fn selectable_log_levels() -> Seq<LogLevel> {
    seq![
        LogLevel::Default,
        LogLevel::Off,
        LogLevel::Error,
        LogLevel::Warn,
        LogLevel::Info,
        LogLevel::Debug,
        LogLevel::Trace,
    ]
}

/// The views of a list of strings.
pub open spec fn texts_view(list: Seq<String>) -> Seq<Seq<char>> {
    list.map_values(|s: String| s@)
}

/// The last position holding the value, or -1 when none does.
pub open spec fn last_position<T>(list: Seq<T>, value: T) -> int
    decreases list.len(),
{
    if list.len() == 0 {
        -1
    } else if list.last() == value {
        list.len() - 1
    } else {
        last_position(list.drop_last(), value)
    }
}

/// `last_position` finds the last occurrence.
pub proof fn lemma_last_position<T>(list: Seq<T>, value: T)
    ensures
        -1 <= last_position(list, value) < list.len(),
        last_position(list, value) >= 0 ==> list[last_position(list, value)] == value,
        forall|j: int| last_position(list, value) < j < list.len() ==> #[trigger] list[j] != value,
        (last_position(list, value) >= 0) == list.contains(value),
    decreases list.len(),
{
    if list.len() > 0 && list.last() != value {
        let rest = list.drop_last();
        lemma_last_position(rest, value);
        assert forall|j: int| last_position(list, value) < j < list.len() implies #[trigger] list[j] != value by {
            if j < list.len() - 1 {
                assert(list[j] == rest[j]);
            }
        }
        if list.contains(value) {
            let k = choose|k: int| 0 <= k < list.len() && list[k] == value;
            assert(rest[k] == value);
        }
    }
}

/// In a list of distinct values, the last occurrence is the only one.
pub proof fn lemma_last_position_distinct<T>(list: Seq<T>, index: int)
    requires
        0 <= index < list.len(),
        forall|i: int, j: int| 0 <= i < j < list.len() ==> list[i] != list[j],
    ensures
        last_position(list, list[index]) == index,
{
    lemma_last_position(list, list[index]);
}

/// The last position of a text in a list of strings.
fn find_last_text(list: &Vec<String>, text: &String) -> (position: Option<usize>)
    ensures
        match position {
            Some(i) => i == last_position(texts_view(list@), text@),
            None => last_position(texts_view(list@), text@) == -1,
        },
{
    let ghost view = texts_view(list@);
    proof {
        lemma_last_position(view, text@);
    }
    let mut i: usize = list.len();
    while i > 0
        invariant
            i <= list@.len(),
            view == texts_view(list@),
            view.len() == list@.len(),
            -1 <= last_position(view, text@) < i,
            -1 <= last_position(view, text@) < view.len(),
            last_position(view, text@) >= 0 ==> view[last_position(view, text@)] == text@,
            forall|j: int| last_position(view, text@) < j < view.len() ==> #[trigger] view[j] != text@,
        decreases i,
    {
        if list[i - 1] == *text {
            assert(view[i - 1] == text@);
            return Some(i - 1);
        }
        assert(view[i - 1] != text@);
        i = i - 1;
    }
    None
}

/// The localised strings of the preferences window, and the localised
/// choices of its selections: one per available language (with the
/// percentage of strings translated into it), and one per selectable log
/// level.
///
/// Each string and each choice keeps, as a ghost record, the request of
/// the localiser it answers.
pub struct Strings {
    language_tag: LanguageTagRef,
    strings: LocalisedTexts,
    title_window: Ghost<(Request, Seq<char>)>,
    language_list: LocalisedTexts,
    language_tags: Vec<LanguageTagRef>,
    log_list: LocalisedTexts,
    log_levels: Vec<LogLevel>,
}

/// The request answered by each string of the table after the title, by
/// position.
pub open spec fn string_request_at(position: int, request: Request) -> bool {
    if position == 1 {
        request == literal_request("word"@, "accept_i"@)
    } else if position == 2 {
        request == literal_request("word"@, "cancel_i"@)
    } else if position == 3 {
        request == literal_request("word"@, "language_i"@)
    } else if position == 4 {
        request == literal_request("application"@, "ui_language"@)
    } else if position == 5 {
        request == literal_request("application"@, "placeholder_language"@)
    } else if position == 6 {
        request == literal_request("word"@, "logs_i"@)
    } else if position == 7 {
        request == literal_request("application"@, "log_level_default"@)
    } else if position == 8 {
        request == literal_request("application"@, "log_level_application"@)
    } else if position == 9 {
        request == literal_request("application"@, "log_level_other"@)
    } else if position == 10 {
        is_format_with_text(request, "application"@, "log_level_component"@, "component"@, "iced"@)
    } else if position == 11 {
        is_format_with_text(request, "application"@, "log_level_component"@, "component"@, "i18n"@)
    } else if position == 12 {
        request == literal_request("application"@, "placeholder_log_level"@)
    } else {
        false
    }
}

/// The requests of the localised names of the selectable log levels, in
/// their order.
pub open spec fn log_word_requests() -> Seq<Option<Request>> {
    seq![
        Some(literal_request("word"@, "default_i"@)),
        Some(literal_request("word"@, "off_i"@)),
        Some(literal_request("word"@, "error_i"@)),
        Some(literal_request("word"@, "warning_i"@)),
        Some(literal_request("word"@, "information_i"@)),
        Some(literal_request("word"@, "debug_i"@)),
        Some(literal_request("word"@, "trace_i"@)),
    ]
}

/// Whether a string answers a request that meets a predicate.
pub open spec fn answers(source: Option<Request>, expected: spec_fn(Request) -> bool) -> bool {
    source matches Some(request) && expected(request)
}

/// Whether a request formats the localised name of an available language:
/// its tag name and the percentage translated.
pub open spec fn is_language_name(request: Request, language: AvailableLanguage) -> bool {
    &&& request.0 == "application"@
    &&& request.1 == "language_percent_format"@
    &&& request.2 is Some
    &&& {
        let values = request.2->0;
        &&& values.len() == 2
        &&& values[0].0 == "language"@
        &&& is_text(values[0].1, language.tag@)
        &&& values[1].0 == "percent"@
        &&& values[1].1 == Placeholder::Unsigned(language.percent)
    }
}

/// Whether each string and choice of the tables answers its own request:
/// the title is the window title of the word for preferences, the other
/// strings go by position, each language is named in turn, and the log
/// levels by their words.
pub open spec fn answers_requests(strings: Strings, languages: Seq<AvailableLanguage>) -> bool {
    &&& strings.sources().len() == STRING_COUNT
    &&& strings.title_window().0 == literal_request("word"@, "preferences_i"@)
    &&& answers(strings.sources()[0], |request: Request| is_window_title(request, strings.title_window().1))
    &&& forall|i: int| 1 <= i < STRING_COUNT ==> answers(#[trigger] strings.sources()[i], |request: Request| string_request_at(i, request))
    &&& strings.language_sources().len() == languages.len()
    &&& forall|j: int| 0 <= j < languages.len() ==> answers(#[trigger] strings.language_sources()[j], |request: Request| is_language_name(request, languages[j]))
    &&& strings.log_sources() == log_word_requests()
}

/// The tag names of languages.
pub open spec fn language_names(languages: Seq<AvailableLanguage>) -> Seq<Seq<char>> {
    languages.map_values(|language: AvailableLanguage| language.tag@)
}

/// The tag names of tag references.
pub open spec fn tag_names(tags: Seq<LanguageTagRef>) -> Seq<Seq<char>> {
    tags.map_values(|tag: LanguageTagRef| tag@)
}

impl Strings {
    /// The localised names of the languages.
    pub closed spec fn languages_view(&self) -> Seq<Seq<char>> {
        texts_view(self.language_list.strings())
    }

    /// The tag names of the languages, in the order of their localised
    /// names.
    pub open spec fn language_tags_view(&self) -> Seq<Seq<char>> {
        tag_names(self.tags())
    }

    /// The localised names of the log levels.
    pub closed spec fn logs_view(&self) -> Seq<Seq<char>> {
        texts_view(self.log_list.strings())
    }

    /// The language tags, in the order of their localised names.
    pub closed spec fn tags(&self) -> Seq<LanguageTagRef> {
        self.language_tags@
    }

    /// The log levels, in the order of their localised names.
    pub closed spec fn levels_view(&self) -> Seq<LogLevel> {
        self.log_levels@
    }

    /// The requests the strings answer, by position.
    pub closed spec fn sources(&self) -> Seq<Option<Request>> {
        self.strings.sources()
    }

    /// The request and the text of the window name in the title.
    pub closed spec fn title_window(&self) -> (Request, Seq<char>) {
        self.title_window@
    }

    /// The requests the localised language names answer.
    pub closed spec fn language_sources(&self) -> Seq<Option<Request>> {
        self.language_list.sources()
    }

    /// The requests the localised log level names answer.
    pub closed spec fn log_sources(&self) -> Seq<Option<Request>> {
        self.log_list.sources()
    }

    /// The shape of the tables: thirteen strings, one name per language tag
    /// and one per selectable log level, each with its request.
    #[verifier::type_invariant]
    pub closed spec fn wf(&self) -> bool {
        &&& self.strings.strings().len() == STRING_COUNT
        &&& self.strings.sources().len() == STRING_COUNT
        &&& self.language_list.strings().len() == self.language_tags@.len()
        &&& self.language_list.sources().len() == self.language_list.strings().len()
        &&& self.log_list.strings().len() == self.log_levels@.len()
        &&& self.log_list.sources().len() == self.log_list.strings().len()
        &&& self.log_levels@ == selectable_log_levels()
    }

    /// Localise the strings in the default language.
    pub fn try_new(localisation: &Localisation) -> (result: Result<Strings, CoreError>)
        ensures
            result matches Ok(strings) ==> {
                &&& strings.wf()
                &&& strings.tag() == localisation.language()
                &&& strings.texts().len() == STRING_COUNT
                &&& strings.language_tags_view() == language_names(localisation.languages())
                &&& strings.levels_view() == selectable_log_levels()
                &&& answers_requests(strings, localisation.languages())
            },
            result matches Err(error) ==> error is Localiser,
    {
        let (language_tag, mut strings, title_window) = localise(localisation)?;
        let ghost first = strings.sources();
        let (language_list, language_tags) = localise_i18n(localisation, &mut strings)?;
        let ghost second = strings.sources();
        let (log_list, log_levels) = localise_log(localisation, &mut strings)?;
        let result = Strings { language_tag, strings, title_window, language_list, language_tags, log_list, log_levels };
        proof {
            let last = result.sources();
            assert forall|i: int| 1 <= i < STRING_COUNT implies answers(
                #[trigger] result.sources()[i],
                |request: Request| string_request_at(i, request),
            ) by {
                if i < 6 {
                    assert(last[i] == last.subrange(0, 6)[i]);
                    if i < 3 {
                        assert(second[i] == first[i]);
                    }
                } else {
                    assert(answers(last[6 + (i - 6)], |request: Request| string_request_at((i - 6) + 6, request)));
                }
            }
            assert(last[0] == last.subrange(0, 6)[0]);
            assert(second[0] == first[0]);
        }
        Ok(result)
    }

    /// The string of the table at an index.
    pub fn text(&self, index: Index) -> (text: &String)
        ensures
            *text == self.texts()[index_position(index)],
    {
        proof {
            use_type_invariant(self);
        }
        self.strings.get(index.index())
    }

    /// The localised names of the languages, for selection.
    pub fn language_list(&self) -> (list: &Vec<String>)
        ensures
            texts_view(list@) == self.languages_view(),
    {
        self.language_list.as_vec()
    }

    /// The language tag of a localised language name (the last language
    /// with that name).
    pub fn language_map_to_tag(&self, string: &String) -> (tag: Option<&LanguageTagRef>)
        ensures
            match tag {
                Some(t) => {
                    let i = last_position(self.languages_view(), string@);
                    &&& 0 <= i < self.tags().len()
                    &&& *t == self.tags()[i]
                },
                None => !self.languages_view().contains(string@),
            },
    {
        proof {
            use_type_invariant(self);
        }
        proof {
            lemma_last_position(self.languages_view(), string@);
        }
        match find_last_text(self.language_list.as_vec(), string) {
            Some(i) => Some(&self.language_tags[i]),
            None => None,
        }
    }

    /// The localised name of a language (of the last language with that
    /// tag name).
    pub fn language_map_to_string(&self, tag: &LanguageTagRef) -> (string: Option<&String>)
        ensures
            match string {
                Some(s) => {
                    let i = last_position(self.language_tags_view(), tag@);
                    &&& i >= 0
                    &&& s@ == self.languages_view()[i]
                },
                None => !self.language_tags_view().contains(tag@),
            },
    {
        proof {
            use_type_invariant(self);
        }
        let ghost names = tag_names(self.language_tags@);
        proof {
            lemma_last_position(names, tag@);
        }
        let mut i: usize = self.language_tags.len();
        while i > 0
            invariant
                i <= self.language_tags@.len(),
                names == tag_names(self.language_tags@),
                names.len() == self.language_tags@.len(),
                self.language_list.strings().len() == self.language_tags@.len(),
                -1 <= last_position(names, tag@) < i,
                last_position(names, tag@) >= 0 ==> names[last_position(names, tag@)] == tag@,
                forall|j: int| last_position(names, tag@) < j < names.len() ==> #[trigger] names[j] != tag@,
            decreases i,
        {
            if self.language_tags[i - 1].name == tag.name {
                assert(names[i - 1] == tag@);
                return Some(self.language_list.get(i - 1));
            }
            assert(names[i - 1] != tag@);
            i = i - 1;
        }
        None
    }

    /// The localised names of the log levels, for selection.
    pub fn log_list(&self) -> (list: &Vec<String>)
        ensures
            texts_view(list@) == self.logs_view(),
    {
        self.log_list.as_vec()
    }

    /// The log level of a localised level name (the last level with that
    /// name).
    pub fn log_map_to_level(&self, string: &String) -> (level: Option<&LogLevel>)
        ensures
            match level {
                Some(l) => {
                    let i = last_position(self.logs_view(), string@);
                    &&& i >= 0
                    &&& *l == self.levels_view()[i]
                },
                None => !self.logs_view().contains(string@),
            },
    {
        proof {
            use_type_invariant(self);
        }
        proof {
            lemma_last_position(self.logs_view(), string@);
        }
        match find_last_text(self.log_list.as_vec(), string) {
            Some(i) => Some(&self.log_levels[i]),
            None => None,
        }
    }

    /// The localised name of a log level.
    pub fn log_map_to_string(&self, level: &LogLevel) -> (string: Option<&String>)
        ensures
            match string {
                Some(s) => {
                    let i = last_position(self.levels_view(), *level);
                    &&& i >= 0
                    &&& s@ == self.logs_view()[i]
                },
                None => !self.levels_view().contains(*level),
            },
    {
        proof {
            use_type_invariant(self);
        }
        proof {
            lemma_last_position(self.log_levels@, *level);
        }
        let mut i: usize = self.log_levels.len();
        while i > 0
            invariant
                i <= self.log_levels@.len(),
                self.log_list.strings().len() == self.log_levels@.len(),
                -1 <= last_position(self.log_levels@, *level) < i,
                last_position(self.log_levels@, *level) >= 0 ==> self.log_levels@[last_position(self.log_levels@, *level)] == *level,
                forall|j: int| last_position(self.log_levels@, *level) < j < self.log_levels@.len() ==> #[trigger] self.log_levels@[j] != *level,
            decreases i,
        {
            if self.log_levels[i - 1] == *level {
                return Some(self.log_list.get(i - 1));
            }
            i = i - 1;
        }
        None
    }
}

/// Each selectable log level is named, and where the localised names of
/// the log levels are distinct, the level of a level's name is the level
/// itself.
pub proof fn log_level_names_round_trip(strings: Strings, level: LogLevel)
    requires
        strings.wf(),
        forall|i: int, j: int| 0 <= i < j < strings.logs_view().len() ==> strings.logs_view()[i] != strings.logs_view()[j],
    ensures
        ({
            let i = last_position(strings.levels_view(), level);
            &&& i >= 0
            &&& last_position(strings.logs_view(), strings.logs_view()[i]) == i
            &&& strings.levels_view()[last_position(strings.logs_view(), strings.logs_view()[i])] == level
        }),
{
    let levels = strings.levels_view();
    lemma_last_position(levels, level);
    assert(levels == selectable_log_levels());
    assert(levels.contains(level)) by {
        match level {
            LogLevel::Default => assert(levels[0] == level),
            LogLevel::Off => assert(levels[1] == level),
            LogLevel::Error => assert(levels[2] == level),
            LogLevel::Warn => assert(levels[3] == level),
            LogLevel::Info => assert(levels[4] == level),
            LogLevel::Debug => assert(levels[5] == level),
            LogLevel::Trace => assert(levels[6] == level),
        }
    }
    let i = last_position(levels, level);
    assert(strings.logs_view().len() == levels.len());
    lemma_last_position_distinct(strings.logs_view(), i);
}

/// Where the localised names of the languages are distinct, the tag of a
/// language's name has that language's tag name.
pub proof fn language_names_round_trip(strings: Strings, name: Seq<char>)
    requires
        strings.wf(),
        strings.language_tags_view().contains(name),
        forall|i: int, j: int| 0 <= i < j < strings.languages_view().len() ==> strings.languages_view()[i] != strings.languages_view()[j],
    ensures
        ({
            let i = last_position(strings.language_tags_view(), name);
            &&& i >= 0
            &&& last_position(strings.languages_view(), strings.languages_view()[i]) == i
            &&& strings.language_tags_view()[last_position(strings.languages_view(), strings.languages_view()[i])] == name
        }),
{
    lemma_last_position(strings.language_tags_view(), name);
    let i = last_position(strings.language_tags_view(), name);
    lemma_last_position_distinct(strings.languages_view(), i);
}

impl LocalisedTrait for Strings {
    closed spec fn texts(&self) -> Seq<String> {
        self.strings.strings()
    }

    closed spec fn tag(&self) -> LanguageTagRef {
        self.language_tag
    }

    closed spec fn follows_language(&self) -> bool {
        true
    }

    fn try_update(&mut self, localisation: &Localisation) -> (result: Result<(), CoreError>)
        ensures
            old(self).wf() ==> final(self).wf(),
            result is Ok && old(self).tag()@ != localisation.language()@ ==> {
                &&& final(self).wf()
                &&& final(self).tag() == localisation.language()
                &&& final(self).language_tags_view() == language_names(localisation.languages())
                &&& answers_requests(*final(self), localisation.languages())
            },
    {
        if self.language_tag.name != localisation.default_language().name {
            *self = Strings::try_new(localisation)?;
        }
        Ok(())
    }

    fn title(&self) -> (title: &String) {
        self.strings.get(0)
    }

    fn string(&self, index: usize) -> (text: &String) {
        self.strings.get(index)
    }

    fn language_tag(&self) -> (tag: &LanguageTagRef) {
        &self.language_tag
    }
}

/// The window title and the words accept and cancel, with their requests,
/// and the request and text of the window name in the title.
fn localise(localisation: &Localisation) -> (result: Result<
    (LanguageTagRef, LocalisedTexts, Ghost<(Request, Seq<char>)>),
    CoreError,
>)
    ensures
        result matches Ok((tag, strings, title_window)) ==> {
            &&& tag == localisation.language()
            &&& strings.strings().len() == 3
            &&& strings.sources().len() == 3
            &&& title_window@.0 == literal_request("word"@, "preferences_i"@)
            &&& answers(strings.sources()[0], |request: Request| is_window_title(request, title_window@.1))
            &&& strings.sources()[1] == Some(literal_request("word"@, "accept_i"@))
            &&& strings.sources()[2] == Some(literal_request("word"@, "cancel_i"@))
        },
        result matches Err(error) ==> error is Localiser,
{
    let language_tag = localisation.default_language();
    let window = localisation.literal_with_defaults("word", "preferences_i")?;
    let ghost window_record = (window.source(), window.text_string()@);
    let title = window_title(localisation, window)?;
    let accept = localisation.literal_with_defaults("word", "accept_i")?;
    let cancel = localisation.literal_with_defaults("word", "cancel_i")?;
    let mut strings = LocalisedTexts::new();
    strings.push(title);
    strings.push(accept);
    strings.push(cancel);
    Ok((language_tag, strings, Ghost(window_record)))
}

/// The localised name of each available language (its tag and the
/// percentage translated, in the application's format), paired with its
/// tag; the labels of the language settings are appended to the strings.
fn localise_i18n(
    localisation: &Localisation,
    strings: &mut LocalisedTexts,
) -> (result: Result<(LocalisedTexts, Vec<LanguageTagRef>), CoreError>)
    ensures
        result matches Ok((list, tags)) ==> {
            &&& list.strings().len() == tags@.len()
            &&& tag_names(tags@) == language_names(localisation.languages())
            &&& list.sources().len() == list.strings().len()
            &&& list.sources().len() == localisation.languages().len()
            &&& forall|j: int| 0 <= j < localisation.languages().len() ==> answers(
                #[trigger] list.sources()[j],
                |request: Request| is_language_name(request, localisation.languages()[j]),
            )
            &&& final(strings).strings().len() == old(strings).strings().len() + 3
            &&& final(strings).sources() == old(strings).sources() + seq![
                Some(literal_request("word"@, "language_i"@)),
                Some(literal_request("application"@, "ui_language"@)),
                Some(literal_request("application"@, "placeholder_language"@)),
            ]
        },
        result matches Err(error) ==> error is Localiser,
{
    let languages = localisation.available_languages();
    let mut list = LocalisedTexts::new();
    let mut tags: Vec<LanguageTagRef> = Vec::new();
    let mut i: usize = 0;
    while i < languages.len()
        invariant
            i <= languages@.len(),
            languages@ == localisation.languages(),
            list.strings().len() == i,
            list.sources().len() == i,
            tags@.len() == i,
            tag_names(tags@) == language_names(languages@).subrange(0, i as int),
            forall|j: int| 0 <= j < i ==> answers(
                #[trigger] list.sources()[j],
                |request: Request| is_language_name(request, languages@[j]),
            ),
        decreases languages@.len() - i,
    {
        let language = &languages[i];
        let mut values: Vec<(String, Placeholder)> = Vec::new();
        values.push((String::from_str("language"), Placeholder::String(language.tag.name.clone())));
        values.push((String::from_str("percent"), Placeholder::Unsigned(language.percent)));
        let text = localisation.format_with_defaults("application", "language_percent_format", &values)?;
        let ghost before = list.sources();
        list.push(text);
        proof {
            assert(answers(list.sources()[i as int], |request: Request| is_language_name(request, languages@[i as int])));
            assert forall|j: int| 0 <= j < i + 1 implies answers(
                #[trigger] list.sources()[j],
                |request: Request| is_language_name(request, languages@[j]),
            ) by {
                if j < i {
                    assert(list.sources()[j] == before[j]);
                }
            }
        }
        tags.push(language.tag.clone());
        assert(tag_names(tags@) =~= language_names(languages@).subrange(0, i + 1));
        i = i + 1;
    }
    assert(language_names(languages@).subrange(0, i as int) =~= language_names(languages@));
    let ghost start = strings.sources();
    strings.push(localisation.literal_with_defaults("word", "language_i")?);
    strings.push(localisation.literal_with_defaults("application", "ui_language")?);
    strings.push(localisation.literal_with_defaults("application", "placeholder_language")?);
    proof {
        assert(strings.sources() =~= start + seq![
            Some(literal_request("word"@, "language_i"@)),
            Some(literal_request("application"@, "ui_language"@)),
            Some(literal_request("application"@, "placeholder_language"@)),
        ]);
    }
    Ok((list, tags))
}

/// A log level component label in the application's format.
fn log_level_component(localisation: &Localisation, component: &str) -> (result: Result<LocalisedText, CoreError>)
    ensures
        result matches Ok(text) ==> is_format_with_text(
            text.source(),
            "application"@,
            "log_level_component"@,
            "component"@,
            component@,
        ),
        result matches Err(error) ==> error is Localiser,
{
    let mut values: Vec<(String, Placeholder)> = Vec::new();
    values.push((String::from_str("component"), Placeholder::String(String::from_str(component))));
    localisation.format_with_defaults("application", "log_level_component", &values)
}

/// The localised name of each selectable log level, paired with the level;
/// the labels of the log settings are appended to the strings.
fn localise_log(
    localisation: &Localisation,
    strings: &mut LocalisedTexts,
) -> (result: Result<(LocalisedTexts, Vec<LogLevel>), CoreError>)
    ensures
        result matches Ok((list, levels)) ==> {
            &&& list.strings().len() == levels@.len()
            &&& levels@ == selectable_log_levels()
            &&& list.sources() == log_word_requests()
            &&& final(strings).strings().len() == old(strings).strings().len() + 7
            &&& final(strings).sources().len() == old(strings).sources().len() + 7
            &&& final(strings).sources().subrange(0, old(strings).sources().len() as int) == old(strings).sources()
            &&& forall|k: int| 0 <= k < 7 ==> answers(
                #[trigger] final(strings).sources()[old(strings).sources().len() + k],
                |request: Request| string_request_at(k + 6, request),
            )
        },
        result matches Err(error) ==> error is Localiser,
{
    let ghost start = strings.sources();
    strings.push(localisation.literal_with_defaults("word", "logs_i")?);
    strings.push(localisation.literal_with_defaults("application", "log_level_default")?);
    strings.push(localisation.literal_with_defaults("application", "log_level_application")?);
    strings.push(localisation.literal_with_defaults("application", "log_level_other")?);
    strings.push(log_level_component(localisation, "iced")?);
    strings.push(log_level_component(localisation, "i18n")?);
    strings.push(localisation.literal_with_defaults("application", "placeholder_log_level")?);
    proof {
        reveal_strlit("iced");
        reveal_strlit("i18n");
        assert(strings.sources().subrange(0, start.len() as int) =~= start);
        assert forall|k: int| 0 <= k < 7 implies answers(
            #[trigger] strings.sources()[start.len() + k],
            |request: Request| string_request_at(k + 6, request),
        ) by {
            assert(strings.sources()[start.len() + k] == strings.sources()[start.len() + k]);
        }
    }
    let mut list = LocalisedTexts::new();
    let mut levels: Vec<LogLevel> = Vec::new();
    list.push(localisation.literal_with_defaults("word", "default_i")?);
    levels.push(LogLevel::Default);
    list.push(localisation.literal_with_defaults("word", "off_i")?);
    levels.push(LogLevel::Off);
    list.push(localisation.literal_with_defaults("word", "error_i")?);
    levels.push(LogLevel::Error);
    list.push(localisation.literal_with_defaults("word", "warning_i")?);
    levels.push(LogLevel::Warn);
    list.push(localisation.literal_with_defaults("word", "information_i")?);
    levels.push(LogLevel::Info);
    list.push(localisation.literal_with_defaults("word", "debug_i")?);
    levels.push(LogLevel::Debug);
    list.push(localisation.literal_with_defaults("word", "trace_i")?);
    levels.push(LogLevel::Trace);
    assert(levels@ =~= selectable_log_levels());
    assert(list.sources() =~= log_word_requests());
    Ok((list, levels))
}

} // verus!
