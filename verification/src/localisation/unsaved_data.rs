//! The localised strings of the unsaved data window: its button labels.

use crate::error::CoreError;
use crate::foreign::LanguageTagRef;
use crate::localisation::{literal_request, Localisation, LocalisedTrait, Request};
use crate::localised::LocalisedTexts;
use vstd::prelude::*;

verus! {

broadcast use crate::foreign::group_tag_ref;

/// The strings of the table.
pub enum Index {
    Title,
    Save,
    Discard,
    Cancel,
}

impl Index {
    /// The position of the string in the table.
    pub fn index(&self) -> (index: usize)
        ensures
            index == match self {
                Index::Title => 0usize,
                Index::Save => 1usize,
                Index::Discard => 2usize,
                Index::Cancel => 3usize,
            },
    {
        match self {
            Index::Title => 0,
            Index::Save => 1,
            Index::Discard => 2,
            Index::Cancel => 3,
        }
    }
}

/// The localised button labels of the unsaved data window. The title is not
/// used (the window's state has its own) and is empty. Each label keeps the
/// request of the localiser it answers (a ghost record).
pub struct Strings {
    language_tag: LanguageTagRef,
    strings: LocalisedTexts,
}

/// The requests of the strings: none for the title, which is not
/// localised, then the words save, discard and cancel.
pub open spec fn label_requests() -> Seq<Option<Request>> {
    seq![
        None,
        Some(literal_request("word"@, "save_i"@)),
        Some(literal_request("word"@, "discard_i"@)),
        Some(literal_request("word"@, "cancel_i"@)),
    ]
}

impl Strings {
    /// The requests the strings answer, by position.
    pub closed spec fn sources(&self) -> Seq<Option<Request>> {
        self.strings.sources()
    }

    /// Localise the strings in the default language: the words save,
    /// discard and cancel, after an empty title.
    pub fn try_new(localisation: &Localisation) -> (result: Result<Strings, CoreError>)
        ensures
            result matches Ok(strings) ==> strings.tag() == localisation.language() && strings.texts().len() == 4
                && strings.texts()[0]@ == Seq::<char>::empty() && strings.sources() == label_requests(),
            result matches Err(error) ==> error is Localiser,
    {
        let language_tag = localisation.default_language();
        let mut strings = LocalisedTexts::new();
        strings.push_unlocalised(String::new());
        strings.push(localisation.literal_with_defaults("word", "save_i")?);
        strings.push(localisation.literal_with_defaults("word", "discard_i")?);
        strings.push(localisation.literal_with_defaults("word", "cancel_i")?);
        let result = Strings { language_tag, strings };
        assert(result.sources() =~= label_requests());
        Ok(result)
    }
}

impl LocalisedTrait for Strings {
    closed spec fn texts(&self) -> Seq<String> {
        self.strings.strings()
    }

    closed spec fn tag(&self) -> LanguageTagRef {
        self.language_tag
    }

    closed spec fn follows_language(&self) -> bool {
        true
    }

    fn try_update(&mut self, localisation: &Localisation) -> (result: Result<(), CoreError>)
        ensures
            result is Ok && old(self).tag()@ != localisation.language()@ ==> final(self).tag() == localisation.language()
                && final(self).texts().len() == 4 && final(self).sources() == label_requests(),
    {
        if self.language_tag.name != localisation.default_language().name {
            *self = Strings::try_new(localisation)?;
        }
        Ok(())
    }

    fn title(&self) -> (title: &String) {
        self.strings.get(0)
    }

    fn string(&self, index: usize) -> (text: &String) {
        self.strings.get(index)
    }

    fn language_tag(&self) -> (tag: &LanguageTagRef) {
        &self.language_tag
    }
}

} // verus!
