//! The localisation of the user interface: the languages it is available
//! in, the default language and its layout, the lookup of localised
//! messages, and the cache of the localised strings of the windows.

pub mod default;
pub mod fatal_error;
pub mod main_common;
pub mod preferences;
pub mod unsaved_data;

use crate::constants::APPLICATION_NAME_SHORT;
use crate::enums::{string_group_index, StringGroup, STRING_GROUP_COUNT};
use crate::error::{application_error_data_ok, is_text, ApplicationError, CoreError, MessageData, Placeholder};
use crate::foreign::{language_tag_ref, LanguageTagRef};
use crate::localised::{localiser_format, localiser_format_data, localiser_literal, LocalisedText};
use crate::layout::{layout_for, LayoutData, ScriptDirection};
use std::collections::HashMap;
use i18n::utility::ScriptDirection as IcuDirection;
use std::rc::Rc;
use vstd::prelude::*;

verus! {

broadcast use crate::foreign::group_tag_ref;

/// A language of the localisation repository, as the application component
/// offers it: its tag, the script directions of its script (`None` where
/// the script is unknown), and the percentage of the application's strings
/// translated into it.
#[derive(Debug, Clone)]
pub struct LanguageCandidate {
    pub tag: LanguageTagRef,
    pub directions: Option<Vec<ScriptDirection>>,
    pub percent: u128,
}

/// A language the user interface is available in.
#[derive(Debug)]
pub struct AvailableLanguage {
    pub tag: LanguageTagRef,
    pub layout: LayoutData,
    pub percent: u128,
}

impl Clone for AvailableLanguage {
    fn clone(&self) -> (copy: AvailableLanguage)
        ensures
            copy == *self,
    {
        AvailableLanguage { tag: self.tag.clone(), layout: self.layout, percent: self.percent }
    }
}

/// Whether the user interface supports a script direction: only top to
/// bottom lines are.
pub open spec fn is_supported_direction(direction: ScriptDirection) -> bool {
    direction == ScriptDirection::TopToBottomLeftToRight || direction == ScriptDirection::TopToBottomRightToLeft
}

/// The last supported direction of a list, which decides the layout.
pub open spec fn last_supported(directions: Seq<ScriptDirection>) -> Option<ScriptDirection>
    decreases directions.len(),
{
    if directions.len() == 0 {
        None
    } else if is_supported_direction(directions.last()) {
        Some(directions.last())
    } else {
        last_supported(directions.drop_last())
    }
}

/// The position of the first language with the given tag name, or the
/// number of languages when there is none.
pub open spec fn language_position(languages: Seq<AvailableLanguage>, name: Seq<char>) -> int
    decreases languages.len(),
{
    if languages.len() == 0 {
        0
    } else if languages[0].tag@ == name {
        0
    } else {
        1 + language_position(languages.subrange(1, languages.len() as int), name)
    }
}

/// Whether a language with the tag name is available.
pub open spec fn has_language(languages: Seq<AvailableLanguage>, name: Seq<char>) -> bool {
    exists|i: int| 0 <= i < languages.len() && #[trigger] languages[i].tag@ == name
}

/// Insert a language, replacing the one with the same tag name.
pub open spec fn upsert(languages: Seq<AvailableLanguage>, language: AvailableLanguage) -> Seq<AvailableLanguage> {
    let position = language_position(languages, language.tag@);
    if position < languages.len() {
        languages.update(position, language)
    } else {
        languages.push(language)
    }
}

/// The available languages selected from the candidates, in order: each
/// candidate with a supported direction, laid out by the last one.
pub open spec fn selected_languages(candidates: Seq<LanguageCandidate>) -> Seq<AvailableLanguage>
    decreases candidates.len(),
{
    if candidates.len() == 0 {
        Seq::empty()
    } else {
        let rest = selected_languages(candidates.drop_last());
        let candidate = candidates.last();
        match candidate.directions {
            None => rest,
            Some(directions) => match last_supported(directions@) {
                None => rest,
                Some(direction) => upsert(
                    rest,
                    AvailableLanguage { tag: candidate.tag, layout: layout_for(direction), percent: candidate.percent },
                ),
            },
        }
    }
}

/// `language_position` finds the first language with the name.
pub proof fn lemma_language_position(languages: Seq<AvailableLanguage>, name: Seq<char>)
    ensures
        0 <= language_position(languages, name) <= languages.len(),
        language_position(languages, name) < languages.len() ==> languages[language_position(languages, name)].tag@ == name,
        forall|j: int| 0 <= j < language_position(languages, name) ==> #[trigger] languages[j].tag@ != name,
        language_position(languages, name) < languages.len() <==> has_language(languages, name),
    decreases languages.len(),
{
    if languages.len() > 0 && languages[0].tag@ != name {
        let rest = languages.subrange(1, languages.len() as int);
        lemma_language_position(rest, name);
        assert forall|j: int| 0 <= j < language_position(languages, name) implies #[trigger] languages[j].tag@ != name by {
            if j > 0 {
                assert(languages[j] == rest[j - 1]);
            }
        }
        if has_language(languages, name) {
            let i = choose|i: int| 0 <= i < languages.len() && #[trigger] languages[i].tag@ == name;
            assert(rest[i - 1] == languages[i]);
        }
        if language_position(languages, name) < languages.len() {
            assert(languages[language_position(languages, name)] == rest[language_position(rest, name)]);
        }
    }
}

/// The position of the language with a tag name, found by a scan.
fn find_language(languages: &Vec<AvailableLanguage>, name: &String) -> (position: usize)
    ensures
        position == language_position(languages@, name@),
{
    proof {
        lemma_language_position(languages@, name@);
    }
    let mut i: usize = 0;
    while i < languages.len()
        invariant
            i <= languages@.len(),
            i <= language_position(languages@, name@),
            0 <= language_position(languages@, name@) <= languages@.len(),
            language_position(languages@, name@) < languages@.len() ==> languages@[language_position(languages@, name@)].tag@ == name@,
            forall|j: int| 0 <= j < language_position(languages@, name@) ==> #[trigger] languages@[j].tag@ != name@,
        decreases languages@.len() - i,
    {
        if languages[i].tag.name == *name {
            return i;
        }
        i = i + 1;
    }
    i
}

/// The last supported direction of a list, found by a scan.
fn find_last_supported(directions: &Vec<ScriptDirection>) -> (direction: Option<ScriptDirection>)
    ensures
        direction == last_supported(directions@),
{
    let mut i: usize = directions.len();
    assert(directions@.subrange(0, i as int) =~= directions@);
    while i > 0
        invariant
            i <= directions@.len(),
            last_supported(directions@) == last_supported(directions@.subrange(0, i as int)),
        decreases i,
    {
        let direction = directions[i - 1];
        assert(directions@.subrange(0, i as int).drop_last() =~= directions@.subrange(0, i - 1));
        if direction == ScriptDirection::TopToBottomLeftToRight || direction == ScriptDirection::TopToBottomRightToLeft {
            return Some(direction);
        }
        i = i - 1;
    }
    assert(directions@.subrange(0, 0) =~= Seq::<ScriptDirection>::empty());
    None
}

/// Select the languages the user interface is available in, from the
/// languages of the application component: those whose script has a
/// supported direction, laid out by the last supported direction of the
/// script; a later candidate with the same tag replaces an earlier one.
pub fn available_languages_from(candidates: &Vec<LanguageCandidate>) -> (languages: Vec<AvailableLanguage>)
    ensures
        languages@ == selected_languages(candidates@),
{
    let mut languages: Vec<AvailableLanguage> = Vec::new();
    let mut i: usize = 0;
    while i < candidates.len()
        invariant
            i <= candidates@.len(),
            languages@ == selected_languages(candidates@.subrange(0, i as int)),
        decreases candidates@.len() - i,
    {
        let candidate = &candidates[i];
        assert(candidates@.subrange(0, i + 1).drop_last() =~= candidates@.subrange(0, i as int));
        assert(candidates@.subrange(0, i + 1).last() == candidates@[i as int]);
        match &candidate.directions {
            None => {},
            Some(directions) => {
                match find_last_supported(directions) {
                    None => {},
                    Some(direction) => {
                        let language = AvailableLanguage {
                            tag: candidate.tag.clone(),
                            layout: LayoutData::new(&direction),
                            percent: candidate.percent,
                        };
                        let position = find_language(&languages, &candidate.tag.name);
                        if position < languages.len() {
                            languages.set(position, language);
                        } else {
                            languages.push(language);
                        }
                    },
                }
            },
        }
        i = i + 1;
    }
    assert(candidates@.subrange(0, candidates@.len() as int) =~= candidates@);
    languages
}

/// The name of the default language a localiser holds: the language its
/// messages are looked up in (`Localiser::default_language`). It changes
/// only through `Localiser::defaults`, which the library calls with the
/// localiser borrowed mutably.
pub uninterp spec fn localiser_language(localiser: i18n::localiser::Localiser) -> Seq<char>;

/// Obtains the default language of the localiser
/// (`Localiser::default_language`), named by its own string.
#[verifier::external_body]
fn localiser_default_language(localiser: &i18n::localiser::Localiser) -> (tag: LanguageTagRef)
    ensures
        tag@ == localiser_language(*localiser),
{
    let tag = localiser.default_language();
    LanguageTagRef { name: tag.as_str().to_string(), tag }
}

/// Sets the default language of the localiser (`Localiser::defaults` with
/// only a language tag), which in its source always succeeds and replaces
/// the default language by the tag; the reference's name is the tag's own
/// string.
#[verifier::external_body]
fn localiser_set_default_language(
    localiser: &mut i18n::localiser::Localiser,
    tag: &LanguageTagRef,
) -> (result: Result<(), i18n::localiser::LocaliserError>)
    ensures
        result is Ok,
        localiser_language(*final(localiser)) == tag@,
{
    localiser.defaults(Some(Rc::clone(&tag.tag)), None, None)
}

/// The placeholder value of the localisation system for a placeholder of
/// the library, field by field.
#[verifier::external_body]
pub(crate) fn placeholder_value(value: &Placeholder) -> i18n::utility::PlaceholderValue {
    match value {
        Placeholder::String(text) => i18n::utility::PlaceholderValue::String(text.clone()),
        Placeholder::Unsigned(number) => i18n::utility::PlaceholderValue::Unsigned(*number),
        Placeholder::TaggedString(text, tag) => i18n::utility::PlaceholderValue::TaggedString(
            i18n::utility::TaggedString::new(text.clone(), &tag.tag),
        ),
        Placeholder::Localised(text, tag) => i18n::utility::PlaceholderValue::Localised(
            Rc::new(text.clone()),
            Rc::clone(&tag.tag),
        ),
        Placeholder::Message(data) => i18n::utility::PlaceholderValue::LocalisationData(localisation_data_value(data)),
        Placeholder::Foreign(data) => i18n::utility::PlaceholderValue::LocalisationData(data.data().clone()),
    }
}

/// The localisation data of the localisation system for the library's
/// message data, field by field.
#[verifier::external_body]
pub(crate) fn localisation_data_value(data: &MessageData) -> i18n::utility::LocalisationData {
    i18n::utility::LocalisationData {
        component: data.component.clone(),
        identifier: data.identifier.clone(),
        values: data.values.as_ref().map(|values| values.iter().map(|(key, value)| (key.clone(), placeholder_value(value))).collect()),
    }
}

/// The script directions that ICU's script data gives for a language tag
/// name, through the localiser (`Localiser::script_data_for_language_tag`);
/// none where the script of the language is unknown.
pub uninterp spec fn script_directions(name: Seq<char>) -> Option<Seq<ScriptDirection>>;

/// The view of optional script directions.
pub open spec fn directions_view(directions: Option<Vec<ScriptDirection>>) -> Option<Seq<ScriptDirection>> {
    match directions {
        Some(list) => Some(list@),
        None => None,
    }
}

/// Obtains the script directions of a language tag's script
/// (`Localiser::script_data_for_language_tag`), each converted variant for
/// variant.
///
/// The localiser looks the script data up by the tag's own string, which
/// is the reference's name: the fields of a reference are private to the
/// library, and each is made from its tag. The data comes from ICU and is
/// named by `script_directions`.
#[verifier::external_body]
fn localiser_script_directions(localiser: &i18n::localiser::Localiser, tag: &LanguageTagRef) -> (directions: Option<Vec<ScriptDirection>>)
    ensures
        directions_view(directions) == script_directions(tag@),
{
    let data = localiser.script_data_for_language_tag(&tag.tag)?;
    let mut directions = Vec::new();
    for direction in data.directions.iter() {
        directions.push(match direction {
            IcuDirection::TopToBottomLeftToRight => ScriptDirection::TopToBottomLeftToRight,
            IcuDirection::TopToBottomRightToLeft => ScriptDirection::TopToBottomRightToLeft,
            IcuDirection::BottomToTopLeftToRight => ScriptDirection::BottomToTopLeftToRight,
            IcuDirection::BottomToTopRightToLeft => ScriptDirection::BottomToTopRightToLeft,
            IcuDirection::LeftToRightTopToBottom => ScriptDirection::LeftToRightTopToBottom,
            IcuDirection::LeftToRightBottomToTop => ScriptDirection::LeftToRightBottomToTop,
            IcuDirection::RightToLeftTopToBottom => ScriptDirection::RightToLeftTopToBottom,
            IcuDirection::RightToLeftBottomToTop => ScriptDirection::RightToLeftBottomToTop,
        });
    }
    Some(directions)
}

/// Whether candidates are the languages given, in order, each with the
/// script directions of its tag and its percentage translated.
pub open spec fn candidates_of(candidates: Seq<LanguageCandidate>, languages: Seq<(LanguageTagRef, u128)>) -> bool {
    &&& candidates.len() == languages.len()
    &&& forall|i: int| 0 <= i < languages.len() ==> {
        &&& #[trigger] candidates[i].tag == languages[i].0
        &&& candidates[i].percent == languages[i].1
        &&& directions_view(candidates[i].directions) == script_directions(languages[i].0@)
    }
}

/// The candidate languages for languages of the repository, each with the
/// script directions of its tag.
pub fn language_candidates(
    localiser: &i18n::localiser::Localiser,
    languages: &Vec<(LanguageTagRef, u128)>,
) -> (candidates: Vec<LanguageCandidate>)
    ensures
        candidates_of(candidates@, languages@),
{
    let mut candidates: Vec<LanguageCandidate> = Vec::new();
    let mut i: usize = 0;
    while i < languages.len()
        invariant
            i <= languages@.len(),
            candidates_of(candidates@, languages@.subrange(0, i as int)),
        decreases languages@.len() - i,
    {
        let (tag, percent) = &languages[i];
        let directions = localiser_script_directions(localiser, tag);
        candidates.push(LanguageCandidate { tag: tag.clone(), directions, percent: *percent });
        i = i + 1;
    }
    assert(languages@.subrange(0, i as int) =~= languages@);
    candidates
}

/// The name of the language tag that the localiser's registry gives for a
/// name (`LanguageTagRegistry::tag`): the name brought to its canonical
/// BCP 47 form, or none for a malformed name.
pub uninterp spec fn registered_tag_name(name: Seq<char>) -> Option<Seq<char>>;

/// Obtains the language tag for a name from the localiser's registry
/// (`LanguageTagRegistry::tag`), which brings the name to its canonical
/// form, and pairs it with its name (`LanguageTag::as_str`).
///
/// The canonical form, which ICU computes, is named by
/// `registered_tag_name`; the registry's cache hands out the same tag for
/// the same name.
#[verifier::external_body]
fn registry_tag(
    localiser: &i18n::localiser::Localiser,
    name: &str,
) -> (result: Result<LanguageTagRef, i18n::utility::RegistryError>)
    ensures
        match result {
            Ok(tag) => registered_tag_name(name@) == Some(tag@),
            Err(_) => registered_tag_name(name@) is None,
        },
{
    let tag = localiser.language_tag_registry().tag(name)?;
    Ok(LanguageTagRef { name: tag.as_str().to_string(), tag })
}

/// Obtains the contributors of the localisation repository
/// (`LocalisationProviderTrait::repository_details`).
///
/// The contributors come from the repository, so no clause describes them.
#[verifier::external_body]
fn localiser_contributors(
    localiser: &i18n::localiser::Localiser,
) -> Result<Vec<String>, i18n::provider::ProviderError> {
    Ok(localiser.localisation_provider().repository_details()?.contributors.clone())
}

/// The default language and its layout after changing the default
/// language to a tag: unchanged for the current language or a language the
/// interface is not available in; else the tag, laid out as that language.
pub open spec fn language_after_change(
    language: LanguageTagRef,
    layout: LayoutData,
    languages: Seq<AvailableLanguage>,
    tag: LanguageTagRef,
) -> (LanguageTagRef, LayoutData) {
    if tag@ == language@ || !has_language(languages, tag@) {
        (language, layout)
    } else {
        (tag, languages[language_position(languages, tag@)].layout)
    }
}

/// Trying another default language and returning to the original one
/// restores the original language and its layout, whatever the other
/// language was (this is what cancelling the preferences relies on).
pub proof fn change_and_return_restores(
    language: LanguageTagRef,
    layout: LayoutData,
    languages: Seq<AvailableLanguage>,
    tag: LanguageTagRef,
)
    requires
        language_position(languages, language@) < languages.len(),
        languages[language_position(languages, language@)].layout == layout,
    ensures
        ({
            let (tried, tried_layout) = language_after_change(language, layout, languages, tag);
            language_after_change(tried, tried_layout, languages, language) == (language, layout)
        }),
{
    lemma_language_position(languages, language@);
    lemma_language_position(languages, tag@);
}

/// What a localised text was asked of the localiser: the component, the
/// identifier of the message and, for a formatted message, the names and
/// values of its placeholders.
pub type Request = (Seq<char>, Seq<char>, Option<Seq<(Seq<char>, Placeholder)>>);

/// The request of a literal message.
pub open spec fn literal_request(component: Seq<char>, identifier: Seq<char>) -> Request {
    (component, identifier, None)
}

/// The names and values of placeholders.
pub open spec fn placeholders_view(values: Seq<(String, Placeholder)>) -> Seq<(Seq<char>, Placeholder)> {
    values.map_values(|value: (String, Placeholder)| (value.0@, value.1))
}

/// The request of a formatted message.
pub open spec fn format_request(component: Seq<char>, identifier: Seq<char>, values: Seq<(String, Placeholder)>) -> Request {
    (component, identifier, Some(placeholders_view(values)))
}

/// The request of formatting message data: its component, its identifier
/// and its placeholder values, if it has any.
pub open spec fn data_request(data: MessageData) -> Request {
    (
        data.component@,
        data.identifier@,
        match data.values {
            Some(values) => Some(placeholders_view(values@)),
            None => None,
        },
    )
}

/// Whether a request formats a message with one text placeholder.
pub open spec fn is_format_with_text(
    request: Request,
    component: Seq<char>,
    identifier: Seq<char>,
    key: Seq<char>,
    text: Seq<char>,
) -> bool {
    &&& request.0 == component
    &&& request.1 == identifier
    &&& request.2 matches Some(values) && values.len() == 1 && values[0].0 == key && is_text(values[0].1, text)
}

/// Whether a request formats a message with one placeholder holding a
/// localised text.
pub open spec fn is_format_with_localised(
    request: Request,
    component: Seq<char>,
    identifier: Seq<char>,
    key: Seq<char>,
    text: Seq<char>,
) -> bool {
    &&& request.0 == component
    &&& request.1 == identifier
    &&& request.2 is Some
    &&& {
        let values = request.2->0;
        &&& values.len() == 1
        &&& values[0].0 == key
        &&& values[0].1 matches Placeholder::Localised(_, _)
        &&& (values[0].1->Localised_0)@ == text
    }
}

/// Whether a request formats the window title of a localised window name
/// followed by the name of the data shown.
pub open spec fn is_window_title_with_name(request: Request, window: Seq<char>, name: Seq<char>) -> bool {
    &&& request.0 == "application"@
    &&& request.1 == "window_title_name_format"@
    &&& request.2 is Some
    &&& {
        let values = request.2->0;
        &&& values.len() == 3
        &&& values[0].0 == "application"@
        &&& is_text(values[0].1, APPLICATION_NAME_SHORT@)
        &&& values[1].0 == "window"@
        &&& values[1].1 matches Placeholder::Localised(_, _)
        &&& (values[1].1->Localised_0)@ == window
        &&& values[2].0 == "name"@
        &&& is_text(values[2].1, name)
    }
}

/// Whether a request formats the window title of a window name.
pub open spec fn is_window_title(request: Request, window: Seq<char>) -> bool {
    &&& request.0 == "application"@
    &&& request.1 == "window_title_format"@
    &&& request.2 is Some
    &&& {
        let values = request.2->0;
        &&& values.len() == 2
        &&& values[0].0 == "application"@
        &&& is_text(values[0].1, APPLICATION_NAME_SHORT@)
        &&& values[1].0 == "window"@
        &&& values[1].1 matches Placeholder::TaggedString(text, _)
        &&& (values[1].1->TaggedString_0)@ == window
    }
}

/// The localisation of the user interface.
pub struct Localisation {
    localiser: i18n::localiser::Localiser,
    default_language: LanguageTagRef,
    layout_data: LayoutData,
    available_languages: Vec<AvailableLanguage>,
}

impl Localisation {
    /// The default language.
    pub closed spec fn language(&self) -> LanguageTagRef {
        self.default_language
    }

    /// The layout of the default language.
    pub closed spec fn layout(&self) -> LayoutData {
        self.layout_data
    }

    /// The languages the user interface is available in.
    pub closed spec fn languages(&self) -> Seq<AvailableLanguage> {
        self.available_languages@
    }

    /// The name of the default language the localiser holds.
    pub closed spec fn localiser_default(&self) -> Seq<char> {
        localiser_language(self.localiser)
    }

    /// The layout is that of the default language, which is available and
    /// is the localiser's default language.
    pub closed spec fn wf(&self) -> bool {
        let position = language_position(self.available_languages@, self.default_language@);
        &&& position < self.available_languages@.len()
        &&& self.available_languages@[position].layout == self.layout_data
        &&& localiser_language(self.localiser) == self.default_language@
    }

    /// Set up the localisation around a localiser, for the languages of the
    /// application component (each tag with the percentage of strings
    /// translated into it): the languages whose script has a supported
    /// direction are available, and the localiser's default language must
    /// be one of them.
    pub fn try_new(
        localiser: i18n::localiser::Localiser,
        languages: &Vec<(LanguageTagRef, u128)>,
    ) -> (result: Result<Localisation, CoreError>)
        ensures
            exists|candidates: Seq<LanguageCandidate>| {
                &&& candidates_of(candidates, languages@)
                &&& result is Ok <==> has_language(selected_languages(candidates), localiser_language(localiser))
                &&& match result {
                    Ok(localisation) => {
                        &&& localisation.wf()
                        &&& localisation.languages() == selected_languages(candidates)
                        &&& localisation.language()@ == localiser_language(localiser)
                        &&& localisation.localiser_default() == localiser_language(localiser)
                    },
                    Err(error) => error matches CoreError::LanguageTagNotSupported(name) && name@ == localiser_language(
                        localiser,
                    ),
                }
            },
    {
        let candidates = language_candidates(&localiser, languages);
        let result = Localisation::from_candidates(localiser, &candidates);
        assert(candidates_of(candidates@, languages@));
        result
    }

    /// Set up the localisation around a localiser, from the languages of the
    /// application component; the localiser's default language must be one
    /// the user interface is available in.
    pub fn from_candidates(
        localiser: i18n::localiser::Localiser,
        candidates: &Vec<LanguageCandidate>,
    ) -> (result: Result<Localisation, CoreError>)
        ensures
            result is Ok <==> has_language(selected_languages(candidates@), localiser_language(localiser)),
            match result {
                Ok(localisation) => {
                    &&& localisation.wf()
                    &&& localisation.languages() == selected_languages(candidates@)
                    &&& localisation.language()@ == localiser_language(localiser)
                    &&& localisation.localiser_default() == localiser_language(localiser)
                }
                Err(error) => {
                    &&& error matches CoreError::LanguageTagNotSupported(name)
                    &&& name@ == localiser_language(localiser)
                }
            },
    {
        let available_languages = available_languages_from(candidates);
        let default_language = localiser_default_language(&localiser);
        let position = find_language(&available_languages, &default_language.name);
        proof {
            lemma_language_position(available_languages@, default_language@);
        }
        if position >= available_languages.len() {
            return Err(CoreError::LanguageTagNotSupported(default_language.name.clone()));
        }
        let layout_data = available_languages[position].layout;
        Ok(Localisation { localiser, default_language, layout_data, available_languages })
    }

    /// The default language.
    pub fn default_language(&self) -> (tag: LanguageTagRef)
        ensures
            tag == self.language(),
    {
        self.default_language.clone()
    }

    /// The layout of the default language.
    pub fn layout_data(&self) -> (layout: &LayoutData)
        ensures
            *layout == self.layout(),
    {
        &self.layout_data
    }

    /// The languages the user interface is available in.
    pub fn available_languages(&self) -> (languages: &Vec<AvailableLanguage>)
        ensures
            languages@ == self.languages(),
    {
        &self.available_languages
    }

    /// Change the default language. Nothing changes, and `false` is
    /// returned, when the tag is already the default language; a tag the
    /// user interface is not available in is refused.
    pub fn change_default_language(&mut self, tag: LanguageTagRef) -> (result: Result<bool, CoreError>)
        requires
            old(self).wf(),
        ensures
            final(self).wf(),
            final(self).localiser_default() == final(self).language()@,
            result is Ok ==> final(self).language()@ == tag@,
            final(self).languages() == old(self).languages(),
            (final(self).language(), final(self).layout()) == language_after_change(
                old(self).language(),
                old(self).layout(),
                old(self).languages(),
                tag,
            ),
            tag@ == old(self).language()@ ==> result == Ok::<bool, CoreError>(false)
                && final(self).language() == old(self).language() && final(self).layout() == old(self).layout(),
            tag@ != old(self).language()@ && !has_language(old(self).languages(), tag@) ==> {
                &&& result matches Err(CoreError::LanguageTagNotSupported(name))
                &&& name@ == tag@
                &&& final(self).language() == old(self).language()
                &&& final(self).layout() == old(self).layout()
            },
            tag@ != old(self).language()@ && has_language(old(self).languages(), tag@) ==> {
                &&& result == Ok::<bool, CoreError>(true)
                &&& final(self).language() == tag
                &&& final(self).localiser_default() == tag@
                &&& final(self).layout() == old(self).languages()[language_position(old(self).languages(), tag@)].layout
            },
    {
        proof {
            lemma_language_position(self.available_languages@, tag@);
        }
        if tag.name != self.default_language.name {
            let position = find_language(&self.available_languages, &tag.name);
            if position >= self.available_languages.len() {
                return Err(CoreError::LanguageTagNotSupported(tag.name.clone()));
            }
            let layout = self.available_languages[position].layout;
            let _ = localiser_set_default_language(&mut self.localiser, &tag);
            self.default_language = tag;
            self.layout_data = layout;
            return Ok(true);
        }
        Ok(false)
    }

    /// A literal message of a component for the default language.
    pub fn literal_with_defaults(&self, component: &str, identifier: &str) -> (result: Result<LocalisedText, CoreError>)
        ensures
            result matches Ok(text) ==> text.source() == literal_request(component@, identifier@),
            result matches Err(error) ==> error is Localiser,
    {
        match localiser_literal(&self.localiser, component, identifier) {
            Ok(text) => Ok(text),
            Err(error) => Err(CoreError::Localiser(error)),
        }
    }

    /// A message of a component for the default language, formatted with
    /// the placeholder values.
    pub fn format_with_defaults(
        &self,
        component: &str,
        identifier: &str,
        values: &Vec<(String, Placeholder)>,
    ) -> (result: Result<LocalisedText, CoreError>)
        ensures
            result matches Ok(text) ==> text.source() == format_request(component@, identifier@, values@),
            result matches Err(error) ==> error is Localiser,
    {
        match localiser_format(&self.localiser, component, identifier, values) {
            Ok(text) => Ok(text),
            Err(error) => Err(CoreError::Localiser(error)),
        }
    }

    /// Message data formatted for the default language.
    pub fn format_localisation_data_with_defaults(&self, data: &MessageData) -> (result: Result<LocalisedText, CoreError>)
        ensures
            result matches Ok(text) ==> text.source() == data_request(*data),
            result matches Err(error) ==> error is Localiser,
    {
        match localiser_format_data(&self.localiser, data) {
            Ok(text) => Ok(text),
            Err(error) => Err(CoreError::Localiser(error)),
        }
    }

    /// An error's description formatted for the default language: its
    /// localisation data, formatted.
    pub fn format_error_with_defaults(&self, error: &ApplicationError) -> (result: Result<LocalisedText, CoreError>)
        ensures
            result matches Ok(text) ==> exists|data: MessageData| application_error_data_ok(*error, data)
                && text.source() == data_request(data),
            result matches Err(error) ==> error is Localiser,
    {
        let data = error.localisation_data();
        self.format_localisation_data_with_defaults(&data)
    }

    /// The language tag of a name, from the registry of the localiser.
    pub fn language_tag(&self, name: &str) -> (result: Result<LanguageTagRef, CoreError>)
        ensures
            match result {
                Ok(tag) => registered_tag_name(name@) == Some(tag@),
                Err(error) => error is LanguageTagRegistry && registered_tag_name(name@) is None,
            },
    {
        match registry_tag(&self.localiser, name) {
            Ok(tag) => Ok(tag),
            Err(error) => Err(CoreError::LanguageTagRegistry(error)),
        }
    }

    /// The contributors of the localisation repository.
    pub fn repository_contributors(&self) -> (result: Result<Vec<String>, CoreError>)
        ensures
            result matches Err(error) ==> error is Provider,
    {
        match localiser_contributors(&self.localiser) {
            Ok(contributors) => Ok(contributors),
            Err(error) => Err(CoreError::Provider(error)),
        }
    }
}

/// The title of a window: the application's short name and the window's
/// localised name, in the application's window title format.
pub fn window_title(localisation: &Localisation, window: LocalisedText) -> (result: Result<LocalisedText, CoreError>)
    ensures
        result matches Ok(title) ==> is_window_title(title.source(), window.text_string()@),
        result matches Err(error) ==> error is Localiser,
{
    let (text, tag) = window.into_parts();
    let mut values: Vec<(String, Placeholder)> = Vec::new();
    values.push((String::from_str("application"), Placeholder::String(String::from_str(APPLICATION_NAME_SHORT))));
    values.push((String::from_str("window"), Placeholder::TaggedString(text, tag)));
    localisation.format_with_defaults("application", "window_title_format", &values)
}

/// A table of localised strings of one language.
pub trait LocalisedTrait: Sized {
    /// The strings of the table.
    spec fn texts(&self) -> Seq<String>;

    /// The language of the strings.
    spec fn tag(&self) -> LanguageTagRef;

    /// Whether the table follows changes of the default language.
    spec fn follows_language(&self) -> bool;

    /// Localise the strings again, where the default language has changed;
    /// a table already in the default language is left as it is.
    fn try_update(&mut self, localisation: &Localisation) -> (result: Result<(), CoreError>)
        ensures
            old(self).tag()@ == localisation.language()@ ==> result is Ok && *final(self) == *old(self),
            final(self).follows_language() == old(self).follows_language(),
            result is Ok && old(self).follows_language() ==> final(self).tag()@ == localisation.language()@,
            !old(self).follows_language() ==> result is Ok && *final(self) == *old(self),
            result matches Err(error) ==> error is Localiser,
    ;

    /// The title string.
    fn title(&self) -> (title: &String)
        requires
            self.texts().len() > 0,
        ensures
            *title == self.texts()[0],
    ;

    /// The string at an index.
    fn string(&self, index: usize) -> (text: &String)
        requires
            index < self.texts().len(),
        ensures
            *text == self.texts()[index as int],
    ;

    /// The language of the strings.
    fn language_tag(&self) -> (tag: &LanguageTagRef)
        ensures
            *tag == self.tag(),
    ;
}

/// The localised strings of a string group.
pub enum LocalisedStrings {
    Default(default::Strings),
    MainCommon(main_common::Strings),
    UnsavedData(unsaved_data::Strings),
    FatalError(fatal_error::Strings),
    Preferences(preferences::Strings),
}

/// A table of localised strings, which may also hold the tables of a
/// particular string group.
pub trait AnyLocalisedTrait: LocalisedTrait {
    /// The preferences tables, where the strings are those of the
    /// preferences window.
    fn as_preferences(&self) -> (strings: Option<&preferences::Strings>);
}

impl LocalisedTrait for LocalisedStrings {
    open spec fn texts(&self) -> Seq<String> {
        match self {
            LocalisedStrings::Default(s) => s.texts(),
            LocalisedStrings::MainCommon(s) => s.texts(),
            LocalisedStrings::UnsavedData(s) => s.texts(),
            LocalisedStrings::FatalError(s) => s.texts(),
            LocalisedStrings::Preferences(s) => s.texts(),
        }
    }

    open spec fn tag(&self) -> LanguageTagRef {
        match self {
            LocalisedStrings::Default(s) => s.tag(),
            LocalisedStrings::MainCommon(s) => s.tag(),
            LocalisedStrings::UnsavedData(s) => s.tag(),
            LocalisedStrings::FatalError(s) => s.tag(),
            LocalisedStrings::Preferences(s) => s.tag(),
        }
    }

    open spec fn follows_language(&self) -> bool {
        match self {
            LocalisedStrings::Default(s) => s.follows_language(),
            LocalisedStrings::MainCommon(s) => s.follows_language(),
            LocalisedStrings::UnsavedData(s) => s.follows_language(),
            LocalisedStrings::FatalError(s) => s.follows_language(),
            LocalisedStrings::Preferences(s) => s.follows_language(),
        }
    }

    fn try_update(&mut self, localisation: &Localisation) -> (result: Result<(), CoreError>)
        ensures
            table_group(*final(self)) == table_group(*old(self)),
            result is Ok && old(self).follows_language() && old(self).tag()@ != localisation.language()@
                ==> answers_own_requests(*final(self), localisation.languages()),
    {
        match self {
            LocalisedStrings::Default(s) => s.try_update(localisation),
            LocalisedStrings::MainCommon(s) => s.try_update(localisation),
            LocalisedStrings::UnsavedData(s) => s.try_update(localisation),
            LocalisedStrings::FatalError(s) => s.try_update(localisation),
            LocalisedStrings::Preferences(s) => s.try_update(localisation),
        }
    }

    fn title(&self) -> (title: &String) {
        match self {
            LocalisedStrings::Default(s) => s.title(),
            LocalisedStrings::MainCommon(s) => s.title(),
            LocalisedStrings::UnsavedData(s) => s.title(),
            LocalisedStrings::FatalError(s) => s.title(),
            LocalisedStrings::Preferences(s) => s.title(),
        }
    }

    fn string(&self, index: usize) -> (text: &String) {
        match self {
            LocalisedStrings::Default(s) => s.string(index),
            LocalisedStrings::MainCommon(s) => s.string(index),
            LocalisedStrings::UnsavedData(s) => s.string(index),
            LocalisedStrings::FatalError(s) => s.string(index),
            LocalisedStrings::Preferences(s) => s.string(index),
        }
    }

    fn language_tag(&self) -> (tag: &LanguageTagRef) {
        match self {
            LocalisedStrings::Default(s) => s.language_tag(),
            LocalisedStrings::MainCommon(s) => s.language_tag(),
            LocalisedStrings::UnsavedData(s) => s.language_tag(),
            LocalisedStrings::FatalError(s) => s.language_tag(),
            LocalisedStrings::Preferences(s) => s.language_tag(),
        }
    }
}

impl AnyLocalisedTrait for LocalisedStrings {
    fn as_preferences(&self) -> (strings: Option<&preferences::Strings>)
        ensures
            match self {
                LocalisedStrings::Preferences(s) => strings == Some(s),
                _ => strings is None,
            },
    {
        match self {
            LocalisedStrings::Preferences(s) => Some(s),
            _ => None,
        }
    }
}

/// Whether a table, if any, is in the language (or does not follow it).
pub open spec fn in_language(entry: Option<LocalisedStrings>, name: Seq<char>) -> bool {
    match entry {
        Some(strings) => strings.follows_language() ==> strings.tag()@ == name,
        None => true,
    }
}

/// Whether the strings of a table answer their own requests, as each
/// table made anew states them (the fatal error table, which is never made
/// anew, states its own).
pub open spec fn answers_own_requests(strings: LocalisedStrings, languages: Seq<AvailableLanguage>) -> bool {
    match strings {
        LocalisedStrings::Default(s) => default::answers_requests(s),
        LocalisedStrings::MainCommon(s) => main_common::answers_requests(s),
        LocalisedStrings::UnsavedData(s) => s.sources() == unsaved_data::label_requests(),
        LocalisedStrings::Preferences(s) => preferences::answers_requests(s, languages),
        LocalisedStrings::FatalError(_) => true,
    }
}

/// Whether a table that followed the language and was in another one was
/// made anew, answering its own requests.
pub open spec fn remade_for(
    old_entry: Option<LocalisedStrings>,
    new_entry: Option<LocalisedStrings>,
    languages: Seq<AvailableLanguage>,
    name: Seq<char>,
) -> bool {
    old_entry matches Some(table) && table.follows_language() && table.tag()@ != name ==> (new_entry matches Some(
        remade,
    ) && answers_own_requests(remade, languages))
}

/// The string group whose strings a table holds.
pub open spec fn table_group(strings: LocalisedStrings) -> StringGroup {
    match strings {
        LocalisedStrings::Default(_) => StringGroup::Default,
        LocalisedStrings::MainCommon(_) => StringGroup::MainCommon,
        LocalisedStrings::UnsavedData(_) => StringGroup::UnsavedData,
        LocalisedStrings::FatalError(_) => StringGroup::FatalError,
        LocalisedStrings::Preferences(_) => StringGroup::Preferences,
    }
}

/// Whether two slots are both empty, or both hold tables of the same
/// string group, which alike follow the language or not.
pub open spec fn same_table_kind(new: Option<LocalisedStrings>, old: Option<LocalisedStrings>) -> bool {
    match (new, old) {
        (Some(n), Some(o)) => table_group(n) == table_group(o) && n.follows_language() == o.follows_language(),
        (None, None) => true,
        _ => false,
    }
}

/// Whether a table already in the language is kept unchanged.
pub open spec fn kept_if_current(old: Option<LocalisedStrings>, new: Option<LocalisedStrings>, name: Seq<char>) -> bool {
    match old {
        Some(strings) => strings.tag()@ == name ==> new == old,
        None => true,
    }
}

/// The shared localised strings of the windows, one table per string
/// group; the strings specific to a window instance stay in its state.
pub struct StringCache {
    cache: Vec<Option<LocalisedStrings>>,
}

impl StringCache {
    /// One slot per string group.
    pub closed spec fn wf(&self) -> bool {
        self.cache@.len() == STRING_GROUP_COUNT
    }

    /// The table of a string group, if any.
    pub closed spec fn entry(&self, group: StringGroup) -> Option<LocalisedStrings> {
        self.cache@[string_group_index(group)]
    }

    /// An empty cache.
    pub fn try_new() -> (result: Result<StringCache, CoreError>)
        ensures
            result matches Ok(cache) && cache.wf() && forall|g: StringGroup| #[trigger] cache.entry(g) is None,
    {
        let mut cache: Vec<Option<LocalisedStrings>> = Vec::new();
        let mut i: usize = 0;
        while i < STRING_GROUP_COUNT
            invariant
                i <= STRING_GROUP_COUNT,
                cache@.len() == i,
                forall|j: int| 0 <= j < i ==> cache@[j] is None,
            decreases STRING_GROUP_COUNT - i,
        {
            cache.push(None);
            i = i + 1;
        }
        Ok(StringCache { cache })
    }

    /// Whether the string group has a table.
    pub fn contains_group(&self, string_group: &StringGroup) -> (found: bool)
        requires
            self.wf(),
        ensures
            found == self.entry(*string_group) is Some,
    {
        self.cache[string_group.index()].is_some()
    }

    /// Set the table of a string group.
    pub fn insert(&mut self, string_group: StringGroup, localised_strings: LocalisedStrings)
        requires
            old(self).wf(),
        ensures
            final(self).wf(),
            final(self).entry(string_group) == Some(localised_strings),
            forall|g: StringGroup| g != string_group ==> #[trigger] final(self).entry(g) == old(self).entry(g),
            after_insert(*old(self), *final(self), string_group, localised_strings),
    {
        let index = string_group.index();
        self.cache.set(index, Some(localised_strings));
        proof {
            assert forall|g: StringGroup| g != string_group implies #[trigger] self.entry(g) == old(self).entry(g) by {
                crate::enums::string_group_index_injective(g, string_group);
            }
        }
    }

    /// The table of a string group.
    pub fn get(&self, string_group: &StringGroup) -> (strings: Option<&LocalisedStrings>)
        requires
            self.wf(),
        ensures
            match self.entry(*string_group) {
                Some(entry) => strings == Some(&entry),
                None => strings is None,
            },
    {
        match &self.cache[string_group.index()] {
            Some(strings) => Some(strings),
            None => None,
        }
    }

    /// Localise every table again that is not in the default language, in
    /// the order of the string groups; the first error stops the update.
    pub fn try_update(&mut self, localisation: &Localisation) -> (result: Result<(), CoreError>)
        requires
            old(self).wf(),
        ensures
            final(self).wf(),
            forall|g: StringGroup| same_table_kind(#[trigger] final(self).entry(g), old(self).entry(g)),
            forall|g: StringGroup| kept_if_current(old(self).entry(g), #[trigger] final(self).entry(g), localisation.language()@),
            result is Ok ==> forall|g: StringGroup| in_language(#[trigger] final(self).entry(g), localisation.language()@),
            result is Ok ==> forall|g: StringGroup| remade_for(
                old(self).entry(g),
                #[trigger] final(self).entry(g),
                localisation.languages(),
                localisation.language()@,
            ),
            result matches Err(error) ==> error is Localiser,
            (forall|g: StringGroup| in_language(#[trigger] old(self).entry(g), localisation.language()@)) ==> {
                &&& result is Ok
                &&& forall|g: StringGroup| #[trigger] final(self).entry(g) == old(self).entry(g)
            },
    {
        let ghost current = forall|j: int| 0 <= j < STRING_GROUP_COUNT ==> in_language(
            #[trigger] old(self).cache@[j],
            localisation.language()@,
        );
        proof {
            if forall|g: StringGroup| in_language(#[trigger] old(self).entry(g), localisation.language()@) {
                assert forall|j: int| 0 <= j < STRING_GROUP_COUNT implies in_language(
                    #[trigger] old(self).cache@[j],
                    localisation.language()@,
                ) by {
                    let g = crate::enums::string_group_at(j);
                    assert(old(self).entry(g) == old(self).cache@[j]);
                }
            }
        }
        let mut i: usize = 0;
        while i < STRING_GROUP_COUNT
            invariant
                i <= STRING_GROUP_COUNT,
                self.cache@.len() == STRING_GROUP_COUNT,
                forall|j: int| 0 <= j < STRING_GROUP_COUNT ==> same_table_kind(#[trigger] self.cache@[j], old(self).cache@[j]),
                forall|j: int| 0 <= j < STRING_GROUP_COUNT ==> kept_if_current(old(self).cache@[j], #[trigger] self.cache@[j], localisation.language()@),
                forall|j: int| i <= j < STRING_GROUP_COUNT ==> #[trigger] self.cache@[j] == old(self).cache@[j],
                forall|j: int| 0 <= j < i ==> in_language(#[trigger] self.cache@[j], localisation.language()@),
                forall|j: int| 0 <= j < i ==> remade_for(
                    old(self).cache@[j],
                    #[trigger] self.cache@[j],
                    localisation.languages(),
                    localisation.language()@,
                ),
                current == forall|j: int| 0 <= j < STRING_GROUP_COUNT ==> in_language(
                    #[trigger] old(self).cache@[j],
                    localisation.language()@,
                ),
                current ==> forall|j: int| 0 <= j < STRING_GROUP_COUNT ==> #[trigger] self.cache@[j] == old(self).cache@[j],
                (forall|g: StringGroup| in_language(#[trigger] old(self).entry(g), localisation.language()@)) ==> current,
            decreases STRING_GROUP_COUNT - i,
        {
            if self.cache[i].is_some() {
                let mut strings = self.cache[i].take().unwrap();
                let ghost before = strings;
                proof {
                    if current {
                        assert(Some(before) == old(self).cache@[i as int]);
                        assert(in_language(old(self).cache@[i as int], localisation.language()@));
                    }
                }
                let outcome = strings.try_update(localisation);
                self.cache.set(i, Some(strings));
                proof {
                    if current {
                        assert(outcome is Ok);
                        assert(self.cache@[i as int] == old(self).cache@[i as int]);
                    }
                }
                match outcome {
                    Ok(()) => {},
                    Err(error) => return Err(error),
                }
            }
            i = i + 1;
        }
        Ok(())
    }
}

/// Whether a cache is another with the table of a group set.
pub open spec fn after_insert(before: StringCache, after: StringCache, group: StringGroup, table: LocalisedStrings) -> bool {
    &&& after.entry(group) == Some(table)
    &&& forall|g: StringGroup| g != group ==> #[trigger] after.entry(g) == before.entry(g)
}

/// A cache made empty and then given tables holds a table for a group
/// exactly when a table of that group was inserted.
pub proof fn present_exactly_when_inserted(caches: Seq<StringCache>, groups: Seq<StringGroup>, tables: Seq<LocalisedStrings>)
    requires
        caches.len() == groups.len() + 1,
        tables.len() == groups.len(),
        forall|g: StringGroup| #[trigger] caches[0].entry(g) is None,
        forall|k: int| 0 <= k < groups.len() ==> after_insert(caches[k], #[trigger] caches[k + 1], groups[k], tables[k]),
    ensures
        forall|g: StringGroup| #[trigger] caches.last().entry(g) is Some <==> groups.contains(g),
    decreases groups.len(),
{
    if groups.len() > 0 {
        let n = groups.len() - 1;
        let before = caches.drop_last();
        assert forall|k: int| 0 <= k < groups.drop_last().len() implies after_insert(
            before[k],
            #[trigger] before[k + 1],
            groups.drop_last()[k],
            tables.drop_last()[k],
        ) by {
            assert(after_insert(caches[k], caches[k + 1], groups[k], tables[k]));
        }
        present_exactly_when_inserted(before, groups.drop_last(), tables.drop_last());
        assert(after_insert(caches[n], caches[n + 1], groups[n], tables[n]));
        assert forall|g: StringGroup| #[trigger] caches.last().entry(g) is Some <==> groups.contains(g) by {
            assert(before.last() == caches[n]);
            if g == groups[n] {
                assert(groups.contains(g));
            } else {
                assert(caches.last().entry(g) == before.last().entry(g));
                if groups.contains(g) {
                    let k = choose|k: int| 0 <= k < groups.len() && groups[k] == g;
                    assert(groups.drop_last()[k] == g);
                }
                if groups.drop_last().contains(g) {
                    let k = choose|k: int| 0 <= k < groups.drop_last().len() && groups.drop_last()[k] == g;
                    assert(groups[k] == g);
                }
            }
        }
    }
}

} // verus!
