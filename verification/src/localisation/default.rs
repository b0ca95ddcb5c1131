//! The localised strings of the default window.

use crate::error::CoreError;
use crate::foreign::LanguageTagRef;
use crate::localisation::{is_window_title, literal_request, window_title, Localisation, LocalisedTrait, Request};
use crate::localised::LocalisedTexts;
use vstd::prelude::*;

verus! {

broadcast use crate::foreign::group_tag_ref;

/// The strings of the table.
pub enum Index {
    Title,
    Exit,
}

impl Index {
    /// The position of the string in the table.
    pub fn index(&self) -> (index: usize)
        ensures
            index == match self {
                Index::Title => 0usize,
                Index::Exit => 1usize,
            },
    {
        match self {
            Index::Title => 0,
            Index::Exit => 1,
        }
    }
}

/// The localised strings of the default window: its title, and the label
/// of the exit menu item, each with the request of the localiser it
/// answers (a ghost record).
pub struct Strings {
    language_tag: LanguageTagRef,
    strings: LocalisedTexts,
    title_window: Ghost<(Request, Seq<char>)>,
}

/// Whether each string answers its own request: the title is the window
/// title of the word "default", then comes the word "exit".
pub open spec fn answers_requests(strings: Strings) -> bool {
    let sources = strings.sources();
    &&& sources.len() == 2
    &&& strings.title_window().0 == literal_request("word"@, "default_i"@)
    &&& sources[0] is Some
    &&& is_window_title(sources[0]->0, strings.title_window().1)
    &&& sources[1] == Some(literal_request("word"@, "exit_i"@))
}

impl Strings {
    /// The requests the strings answer, by position.
    pub closed spec fn sources(&self) -> Seq<Option<Request>> {
        self.strings.sources()
    }

    /// The request and the text of the window name in the title.
    pub closed spec fn title_window(&self) -> (Request, Seq<char>) {
        self.title_window@
    }

    /// Localise the strings in the default language.
    pub fn try_new(localisation: &Localisation) -> (result: Result<Strings, CoreError>)
        ensures
            result matches Ok(strings) ==> strings.tag() == localisation.language() && strings.texts().len() == 2
                && answers_requests(strings),
            result matches Err(error) ==> error is Localiser,
    {
        let language_tag = localisation.default_language();
        let window = localisation.literal_with_defaults("word", "default_i")?;
        let ghost window_record = (window.source(), window.text_string()@);
        let title = window_title(localisation, window)?;
        let exit = localisation.literal_with_defaults("word", "exit_i")?;
        let mut strings = LocalisedTexts::new();
        strings.push(title);
        strings.push(exit);
        Ok(Strings { language_tag, strings, title_window: Ghost(window_record) })
    }
}

impl LocalisedTrait for Strings {
    closed spec fn texts(&self) -> Seq<String> {
        self.strings.strings()
    }

    closed spec fn tag(&self) -> LanguageTagRef {
        self.language_tag
    }

    closed spec fn follows_language(&self) -> bool {
        true
    }

    fn try_update(&mut self, localisation: &Localisation) -> (result: Result<(), CoreError>)
        ensures
            result is Ok && old(self).tag()@ != localisation.language()@ ==> final(self).tag() == localisation.language()
                && final(self).texts().len() == 2 && answers_requests(*final(self)),
    {
        if self.language_tag.name != localisation.default_language().name {
            *self = Strings::try_new(localisation)?;
        }
        Ok(())
    }

    fn title(&self) -> (title: &String) {
        self.strings.get(0)
    }

    fn string(&self, index: usize) -> (text: &String) {
        self.strings.get(index)
    }

    fn language_tag(&self) -> (tag: &LanguageTagRef) {
        &self.language_tag
    }
}

} // verus!
