//! The localised strings shared by the main windows: the menu labels.

use crate::error::{CoreError, Placeholder};
use crate::foreign::LanguageTagRef;
use crate::localisation::{is_format_with_localised, literal_request, Localisation, LocalisedTrait, Request};
use crate::localised::LocalisedTexts;
use vstd::prelude::*;
use vstd::string::*;

verus! {

broadcast use crate::foreign::group_tag_ref;

/// The strings of the table.
pub enum Index {
    Title,
    File,
    New,
    Open,
    Edit,
    Preferences,
    Help,
    About,
}

impl Index {
    /// The position of the string in the table.
    pub fn index(&self) -> (index: usize)
        ensures
            index == match self {
                Index::Title => 0usize,
                Index::File => 1usize,
                Index::New => 2usize,
                Index::Open => 3usize,
                Index::Edit => 4usize,
                Index::Preferences => 5usize,
                Index::Help => 6usize,
                Index::About => 7usize,
            },
    {
        match self {
            Index::Title => 0,
            Index::File => 1,
            Index::New => 2,
            Index::Open => 3,
            Index::Edit => 4,
            Index::Preferences => 5,
            Index::Help => 6,
            Index::About => 7,
        }
    }
}

/// The localised menu labels of the main windows. The title is not used
/// and is empty. Each label keeps the request of the localiser it answers
/// (a ghost record).
pub struct Strings {
    language_tag: LanguageTagRef,
    strings: LocalisedTexts,
    preferences_word: Ghost<(Request, Seq<char>)>,
}

/// Whether each label answers its own request: file, new, open, edit, the
/// word "preferences" with an ellipsis, help and about, after the title,
/// which is not localised.
pub open spec fn answers_requests(strings: Strings) -> bool {
    let sources = strings.sources();
    &&& sources.len() == 8
    &&& sources[0] is None
    &&& sources[1] == Some(literal_request("word"@, "file_i"@))
    &&& sources[2] == Some(literal_request("word"@, "new_i"@))
    &&& sources[3] == Some(literal_request("word"@, "open_i"@))
    &&& sources[4] == Some(literal_request("word"@, "edit_i"@))
    &&& strings.preferences_word().0 == literal_request("word"@, "preferences_i"@)
    &&& sources[5] is Some
    &&& is_format_with_localised(sources[5]->0, "application"@, "add_elipsis_format"@, "phrase"@, strings.preferences_word().1)
    &&& sources[6] == Some(literal_request("word"@, "help_i"@))
    &&& sources[7] == Some(literal_request("word"@, "about_i"@))
}

impl Strings {
    /// The requests the strings answer, by position; none for the title.
    pub closed spec fn sources(&self) -> Seq<Option<Request>> {
        self.strings.sources()
    }

    /// The request and the text of the word "preferences" in its label.
    pub closed spec fn preferences_word(&self) -> (Request, Seq<char>) {
        self.preferences_word@
    }

    /// Localise the strings in the default language: the menu labels file,
    /// new, open, edit, preferences (with an ellipsis), help and about,
    /// after an empty title.
    pub fn try_new(localisation: &Localisation) -> (result: Result<Strings, CoreError>)
        ensures
            result matches Ok(strings) ==> strings.tag() == localisation.language() && strings.texts().len() == 8
                && strings.texts()[0]@ == Seq::<char>::empty() && answers_requests(strings),
            result matches Err(error) ==> error is Localiser,
    {
        let language_tag = localisation.default_language();
        let mut strings = LocalisedTexts::new();
        strings.push_unlocalised(String::new());
        strings.push(localisation.literal_with_defaults("word", "file_i")?);
        strings.push(localisation.literal_with_defaults("word", "new_i")?);
        strings.push(localisation.literal_with_defaults("word", "open_i")?);
        strings.push(localisation.literal_with_defaults("word", "edit_i")?);
        let localised = localisation.literal_with_defaults("word", "preferences_i")?;
        let ghost word = (localised.source(), localised.text_string()@);
        let (text, tag) = localised.into_parts();
        let mut values: Vec<(String, Placeholder)> = Vec::new();
        values.push((String::from_str("phrase"), Placeholder::Localised(text, tag)));
        strings.push(localisation.format_with_defaults("application", "add_elipsis_format", &values)?);
        strings.push(localisation.literal_with_defaults("word", "help_i")?);
        strings.push(localisation.literal_with_defaults("word", "about_i")?);
        Ok(Strings { language_tag, strings, preferences_word: Ghost(word) })
    }
}

impl LocalisedTrait for Strings {
    closed spec fn texts(&self) -> Seq<String> {
        self.strings.strings()
    }

    closed spec fn tag(&self) -> LanguageTagRef {
        self.language_tag
    }

    closed spec fn follows_language(&self) -> bool {
        true
    }

    fn try_update(&mut self, localisation: &Localisation) -> (result: Result<(), CoreError>)
        ensures
            result is Ok && old(self).tag()@ != localisation.language()@ ==> final(self).tag() == localisation.language()
                && final(self).texts().len() == 8 && answers_requests(*final(self)),
    {
        if self.language_tag.name != localisation.default_language().name {
            *self = Strings::try_new(localisation)?;
        }
        Ok(())
    }

    fn title(&self) -> (title: &String) {
        self.strings.get(0)
    }

    fn string(&self, index: usize) -> (text: &String) {
        self.strings.get(index)
    }

    fn language_tag(&self) -> (tag: &LanguageTagRef) {
        &self.language_tag
    }
}

} // verus!
