//! The language tab of the preferences window.

use crate::error::{ApplicationError, CoreError};
use crate::foreign::LanguageTagRef;
use crate::localisation::preferences::{index_position, last_position, texts_view, Index, Strings};
use crate::localisation::LocalisedTrait;
use crate::localisation::Localisation;
use crate::session::Settings;
use crate::window::preferences::Setting;
use vstd::prelude::*;

verus! {

/// The messages of the language tab.
#[derive(Debug, Clone, PartialEq, Eq)]
pub enum Message {
    LanguageSelected(String),
}

/// The state of the language tab: the localised language names offered,
/// the name of the language of the settings and the name selected, whether
/// the interface is to return to the original language, and whether it is
/// to take on the selected language.
#[derive(Debug)]
pub struct Tab {
    list: Vec<String>,
    original: Option<String>,
    selected: Option<String>,
    changed: bool,
    update: bool,
}

/// The view of an optional string.
pub open spec fn option_view(value: Option<String>) -> Option<Seq<char>> {
    match value {
        Some(s) => Some(s@),
        None => None,
    }
}

impl Tab {
    /// The name of the language of the settings, if it is offered.
    pub closed spec fn original_view(&self) -> Option<Seq<char>> {
        option_view(self.original)
    }

    /// The name selected.
    pub closed spec fn selected_view(&self) -> Option<Seq<char>> {
        option_view(self.selected)
    }

    /// The names offered.
    pub closed spec fn list_view(&self) -> Seq<Seq<char>> {
        texts_view(self.list@)
    }

    /// Whether the interface is to return to the original language.
    pub closed spec fn changed_view(&self) -> bool {
        self.changed
    }

    /// Whether the interface is to take on the selected language.
    pub closed spec fn update_view(&self) -> bool {
        self.update
    }

    /// A selection differs from the original only by a name: nothing is
    /// selected only where the settings' language is not offered.
    #[verifier::type_invariant]
    closed spec fn inv(&self) -> bool {
        self.selected is Some || self.original is None
    }

    /// The tab for the settings: the language of the settings is both the
    /// original and the selected language.
    pub fn try_new(localisation: &Localisation, strings: &Strings, settings: &Settings) -> (result: Result<Tab, ApplicationError>)
        ensures
            result matches Ok(tab) ==> {
                &&& tab.selected_view() == tab.original_view()
                &&& tab.list_view() == strings.languages_view()
                &&& !tab.changed_view()
                &&& !tab.update_view()
            },
            result matches Err(error) ==> error matches ApplicationError::Core(core) && core is LanguageTagRegistry,
    {
        proof {
            use_type_invariant(strings);
        }
        let tag = match localisation.language_tag(settings.ui.language.as_str()) {
            Ok(tag) => tag,
            Err(error) => return Err(ApplicationError::Core(error)),
        };
        let original = match strings.language_map_to_string(&tag) {
            Some(name) => Some(name.clone()),
            None => None,
        };
        let selected = original.clone();
        let list = strings.language_list().clone();
        Ok(Tab { list, original, selected, changed: false, update: false })
    }

    /// The title of the tab.
    pub fn title(strings: &Strings) -> (title: String)
        ensures
            title == strings.texts()[index_position(Index::Language)],
    {
        strings.text(Index::Language).clone()
    }

    /// The label of the language setting.
    pub fn label(strings: &Strings) -> (label: String)
        ensures
            label == strings.texts()[index_position(Index::LanguageUi)],
    {
        strings.text(Index::LanguageUi).clone()
    }

    /// The names offered.
    pub fn list(&self) -> (list: &Vec<String>)
        ensures
            texts_view(list@) == self.list_view(),
    {
        &self.list
    }

    /// The name of the language of the settings, if it is offered.
    pub fn original(&self) -> (original: &Option<String>)
        ensures
            option_view(*original) == self.original_view(),
    {
        &self.original
    }

    /// The name selected.
    pub fn selected_language(&self) -> (selected: &Option<String>)
        ensures
            option_view(*selected) == self.selected_view(),
    {
        &self.selected
    }

    /// Whether the interface is to take on the selected language.
    pub fn update(&self) -> (update: bool)
        ensures
            update == self.update_view(),
    {
        self.update
    }

    /// Whether the interface is to return to the original language.
    pub fn changed(&self) -> (changed: bool)
        ensures
            changed == self.changed_view(),
    {
        self.changed
    }

    /// On cancelling: the interface is to return to the original language
    /// where another was selected.
    pub fn update_changed(&mut self)
        ensures
            final(self).changed_view() == (old(self).changed_view() || old(self).original_view() != old(self).selected_view()),
            final(self).selected_view() == old(self).selected_view(),
            final(self).original_view() == old(self).original_view(),
            final(self).update_view() == old(self).update_view(),
            final(self).list_view() == old(self).list_view(),
    {
        proof {
            use_type_invariant(&*self);
        }
        if !option_eq(&self.original, &self.selected) {
            self.changed = true;
        }
    }

    /// A language name was selected: the interface is to take it on when it
    /// is not the one selected already.
    pub fn selected(&mut self, message: Message)
        ensures
            ({
                let Message::LanguageSelected(name) = message;
                &&& final(self).update_view() == (old(self).selected_view() != Some(name@))
                &&& final(self).selected_view() == Some(name@)
            }),
            final(self).original_view() == old(self).original_view(),
            final(self).changed_view() == old(self).changed_view(),
            final(self).list_view() == old(self).list_view(),
    {
        proof {
            use_type_invariant(&*self);
        }
        match message {
            Message::LanguageSelected(language) => {
                let same = match &self.selected {
                    Some(current) => *current == language,
                    None => false,
                };
                if !same {
                    self.selected = Some(language);
                    self.update = true;
                } else {
                    self.update = false;
                }
            },
        }
    }

    /// On accepting: where another language was selected, the setting of
    /// the selected language's tag.
    pub fn check_change(&self, strings: &Strings, changed_settings: &mut Vec<Setting>)
        requires
            self.original_view() != self.selected_view() && self.selected_view() is Some
                ==> strings.languages_view().contains(self.selected_view()->0),
        ensures
            self.original_view() == self.selected_view() ==> final(changed_settings)@ == old(changed_settings)@,
            self.original_view() != self.selected_view() ==> {
                let i = last_position(strings.languages_view(), self.selected_view()->0);
                final(changed_settings)@ == old(changed_settings)@.push(Setting::Language(strings.tags()[i]))
            },
    {
        proof {
            use_type_invariant(self);
            use_type_invariant(strings);
        }
        if !option_eq(&self.original, &self.selected) {
            let selected = self.selected.as_ref().unwrap();
            let tag = strings.language_map_to_tag(selected).unwrap();
            changed_settings.push(Setting::Language(tag.clone()));
        }
    }
}

/// Whether two optional strings are equal.
pub fn option_eq(a: &Option<String>, b: &Option<String>) -> (equal: bool)
    ensures
        equal == (option_view(*a) == option_view(*b)),
{
    match (a, b) {
        (Some(x), Some(y)) => *x == *y,
        (None, None) => true,
        _ => false,
    }
}

} // verus!
