//! Localised texts, each paired with the request of the localiser that it
//! answers (a ghost record). Only the lookups of the localiser make a
//! localised text, so a text and its request never part.

use crate::error::{MessageData, Placeholder};
use crate::foreign::LanguageTagRef;
use crate::localisation::{data_request, format_request, literal_request, localisation_data_value, placeholder_value, Request};
use std::collections::HashMap;
use vstd::prelude::*;

verus! {

/// A localised text and the language it is in, with the request it
/// answers.
pub struct LocalisedText {
    text: String,
    tag: LanguageTagRef,
    source: Ghost<Request>,
}

impl LocalisedText {
    /// The text.
    pub closed spec fn text_string(&self) -> String {
        self.text
    }

    /// The language of the text.
    pub closed spec fn tag_view(&self) -> LanguageTagRef {
        self.tag
    }

    /// The request the text answers.
    pub closed spec fn source(&self) -> Request {
        self.source@
    }

    /// The text.
    pub fn text(&self) -> (text: &String)
        ensures
            *text == self.text_string(),
    {
        &self.text
    }

    /// The text and its language, parted from the request.
    pub fn into_parts(self) -> (parts: (String, LanguageTagRef))
        ensures
            parts.0 == self.text_string(),
            parts.1 == self.tag_view(),
    {
        (self.text, self.tag)
    }
}

/// Obtains a literal message for the default language
/// (`Localiser::literal_with_defaults`): its text and language tag, with
/// the request handed to the localiser (the component and the identifier).
///
/// The message comes from the localisation repository, so no clause
/// describes the text.
#[verifier::external_body]
pub(crate) fn localiser_literal(
    localiser: &i18n::localiser::Localiser,
    component: &str,
    identifier: &str,
) -> (result: Result<LocalisedText, i18n::localiser::LocaliserError>)
    ensures
        result matches Ok(text) ==> text.source() == literal_request(component@, identifier@),
{
    let (text, tag) = localiser.literal_with_defaults(component, identifier)?;
    let tag = LanguageTagRef { name: tag.as_str().to_string(), tag };
    Ok(LocalisedText { text: text.to_string(), tag, source: Ghost(literal_request(component@, identifier@)) })
}

/// Formats a message for the default language
/// (`Localiser::format_with_defaults`), with the placeholder values given:
/// its text and language tag, with the request handed to the localiser
/// (the component, the identifier and the values).
///
/// The message comes from the localisation repository, so no clause
/// describes the text.
#[verifier::external_body]
pub(crate) fn localiser_format(
    localiser: &i18n::localiser::Localiser,
    component: &str,
    identifier: &str,
    values: &Vec<(String, Placeholder)>,
) -> (result: Result<LocalisedText, i18n::localiser::LocaliserError>)
    ensures
        result matches Ok(text) ==> text.source() == format_request(component@, identifier@, values@),
{
    let map: HashMap<String, i18n::utility::PlaceholderValue> =
        values.iter().map(|(key, value)| (key.clone(), placeholder_value(value))).collect();
    let (text, tag) = localiser.format_with_defaults(component, identifier, &map)?;
    let tag = LanguageTagRef { name: tag.as_str().to_string(), tag };
    Ok(LocalisedText { text: text.to_string(), tag, source: Ghost(format_request(component@, identifier@, values@)) })
}

/// Formats message data for the default language
/// (`Localiser::format_localisation_data_with_defaults`), the data
/// converted field by field: its text and language tag, with the request
/// handed to the localiser (the data's component, identifier and values).
///
/// The message comes from the localisation repository, so no clause
/// describes the text.
#[verifier::external_body]
pub(crate) fn localiser_format_data(
    localiser: &i18n::localiser::Localiser,
    data: &MessageData,
) -> (result: Result<LocalisedText, i18n::localiser::LocaliserError>)
    ensures
        result matches Ok(text) ==> text.source() == data_request(*data),
{
    let (text, tag) = localiser.format_localisation_data_with_defaults(&localisation_data_value(data))?;
    let tag = LanguageTagRef { name: tag.as_str().to_string(), tag };
    Ok(LocalisedText { text: text.to_string(), tag, source: Ghost(data_request(*data)) })
}

/// A list of strings, each with the request of the localiser it answers,
/// or none for a string that is not localised.
pub struct LocalisedTexts {
    texts: Vec<String>,
    sources: Ghost<Seq<Option<Request>>>,
}

impl LocalisedTexts {
    /// The strings.
    pub closed spec fn strings(&self) -> Seq<String> {
        self.texts@
    }

    /// The requests the strings answer, by position.
    pub closed spec fn sources(&self) -> Seq<Option<Request>> {
        self.sources@
    }

    /// No strings.
    pub fn new() -> (texts: LocalisedTexts)
        ensures
            texts.strings().len() == 0,
            texts.sources().len() == 0,
    {
        LocalisedTexts { texts: Vec::new(), sources: Ghost(Seq::empty()) }
    }

    /// Append a localised text, with the request it answers.
    pub fn push(&mut self, text: LocalisedText)
        ensures
            final(self).strings() == old(self).strings().push(text.text_string()),
            final(self).sources() == old(self).sources().push(Some(text.source())),
    {
        let ghost source = text.source();
        let (string, _) = text.into_parts();
        self.texts.push(string);
        self.sources = Ghost(self.sources@.push(Some(source)));
    }

    /// Append a string that is not localised.
    pub fn push_unlocalised(&mut self, text: String)
        ensures
            final(self).strings() == old(self).strings().push(text),
            final(self).sources() == old(self).sources().push(None),
    {
        self.texts.push(text);
        self.sources = Ghost(self.sources@.push(None));
    }

    /// The string at a position.
    pub fn get(&self, index: usize) -> (text: &String)
        requires
            index < self.strings().len(),
        ensures
            *text == self.strings()[index as int],
    {
        &self.texts[index]
    }

    /// The strings, as a vector.
    pub fn as_vec(&self) -> (texts: &Vec<String>)
        ensures
            texts@ == self.strings(),
    {
        &self.texts
    }
}

} // verus!
