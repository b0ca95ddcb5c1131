//! The types of the localisation crate that the library carries, and the
//! calls into it that do not belong to one of the library's modules.

use vstd::prelude::*;
use std::rc::Rc;

verus! {

/// A language tag of the localisation system.
#[verifier::external_type_specification]
#[verifier::external_body]
pub struct ExLanguageTag(i18n::utility::LanguageTag);

/// The localisation data of the localisation system: a message identifier
/// and the values of its placeholders.
#[verifier::external_type_specification]
#[verifier::external_body]
pub struct ExLocalisationData(i18n::utility::LocalisationData);

/// An error of the language tag registry.
#[verifier::external_type_specification]
#[verifier::external_body]
pub struct ExRegistryError(i18n::utility::RegistryError);

/// An error of the localiser.
#[verifier::external_type_specification]
#[verifier::external_body]
pub struct ExLocaliserError(i18n::localiser::LocaliserError);

/// An error of a localisation provider.
#[verifier::external_type_specification]
#[verifier::external_body]
pub struct ExProviderError(i18n::provider::ProviderError);

/// An error of the Sqlite3 localisation provider.
#[verifier::external_type_specification]
#[verifier::external_body]
pub struct ExProviderSqlite3Error(i18n::provider_sqlite3::ProviderSqlite3Error);

/// An error of the ICU data provider.
#[verifier::external_type_specification]
#[verifier::external_body]
pub struct ExIcuError(i18n::lexer::IcuError);

/// `Clone` of a registry error (derived), which the derived `Clone` of the
/// library's errors calls; nothing is claimed of the copy.
pub assume_specification[ <i18n::utility::RegistryError as std::clone::Clone>::clone ](
    error: &i18n::utility::RegistryError,
) -> i18n::utility::RegistryError;

/// `Clone` of a localiser error (derived), which the derived `Clone` of the
/// library's errors calls; nothing is claimed of the copy.
pub assume_specification[ <i18n::localiser::LocaliserError as std::clone::Clone>::clone ](
    error: &i18n::localiser::LocaliserError,
) -> i18n::localiser::LocaliserError;

/// `Clone` of a provider error (derived), which the derived `Clone` of the
/// library's errors calls; nothing is claimed of the copy.
pub assume_specification[ <i18n::provider::ProviderError as std::clone::Clone>::clone ](
    error: &i18n::provider::ProviderError,
) -> i18n::provider::ProviderError;

/// `Clone` of a Sqlite3 provider error (derived), which the derived `Clone`
/// of the library's errors calls; nothing is claimed of the copy.
pub assume_specification[ <i18n::provider_sqlite3::ProviderSqlite3Error as std::clone::Clone>::clone ](
    error: &i18n::provider_sqlite3::ProviderSqlite3Error,
) -> i18n::provider_sqlite3::ProviderSqlite3Error;

/// `Clone` of an ICU error (derived), which the derived `Clone` of the
/// library's errors calls; nothing is claimed of the copy.
pub assume_specification[ <i18n::lexer::IcuError as std::clone::Clone>::clone ](
    error: &i18n::lexer::IcuError,
) -> i18n::lexer::IcuError;

/// A language tag, together with its name (`LanguageTag::as_str`).
///
/// The library compares and reports tags by their names; the tag itself is
/// carried to the calls that need it. The name is always the tag's own
/// string: the fields are private to the library, and every reference is
/// made from its tag (`language_tag_ref`, the registry lookup) or copied.
#[derive(Debug)]
pub struct LanguageTagRef {
    pub(crate) tag: Rc<i18n::utility::LanguageTag>,
    pub(crate) name: String,
}

impl View for LanguageTagRef {
    type V = Seq<char>;

    /// The name of the tag.
    closed spec fn view(&self) -> Seq<char> {
        self.name@
    }
}

/// The view of a tag reference is its name, found from the view.
pub(crate) broadcast proof fn lemma_tag_view(tag_ref: LanguageTagRef)
    ensures
        #[trigger] tag_ref@ == tag_ref.name@,
{
}

/// The view of a tag reference is its name, found from the name.
pub(crate) broadcast proof fn lemma_tag_name(tag_ref: LanguageTagRef)
    ensures
        tag_ref@ == (#[trigger] tag_ref.name)@,
{
}

/// The name string of a tag reference is its name field.
pub(crate) broadcast proof fn lemma_tag_name_string(tag_ref: LanguageTagRef)
    ensures
        #[trigger] tag_ref.name_string() == tag_ref.name,
{
}

/// The tag of a tag reference is its tag field.
pub(crate) broadcast proof fn lemma_tag_of(tag_ref: LanguageTagRef)
    ensures
        #[trigger] tag_ref.tag_of() == tag_ref.tag,
{
}

/// The facts relating a tag reference's fields to its spec functions.
pub(crate) broadcast group group_tag_ref {
    lemma_tag_view,
    lemma_tag_name,
    lemma_tag_name_string,
    lemma_tag_of,
}

impl LanguageTagRef {
    /// The reference of a language tag, named by the tag's own string.
    pub fn from_tag(tag: Rc<i18n::utility::LanguageTag>) -> (tag_ref: LanguageTagRef)
        ensures
            tag_ref.tag_of() == tag,
    {
        language_tag_ref(tag)
    }

    /// The tag itself.
    pub closed spec fn tag_of(&self) -> Rc<i18n::utility::LanguageTag> {
        self.tag
    }

    /// The name of the tag, as a string.
    pub closed spec fn name_string(&self) -> String {
        self.name
    }

    /// The name of the tag.
    pub fn name(&self) -> (name: &String)
        ensures
            name@ == self@,
    {
        &self.name
    }

    /// The tag.
    pub fn tag(&self) -> (tag: &Rc<i18n::utility::LanguageTag>)
        ensures
            *tag == self.tag_of(),
    {
        &self.tag
    }
}

impl Clone for LanguageTagRef {
    fn clone(&self) -> (copy: LanguageTagRef)
        ensures
            copy == *self,
    {
        LanguageTagRef { tag: Rc::clone(&self.tag), name: self.name.clone() }
    }
}

/// Pairs a language tag with its name, which `LanguageTag::as_str` gives.
///
/// The name is the tag's own string; as the tag is opaque here, no clause
/// states that beyond carrying the tag unchanged.
#[verifier::external_body]
pub(crate) fn language_tag_ref(tag: Rc<i18n::utility::LanguageTag>) -> (tag_ref: LanguageTagRef)
    ensures
        tag_ref.tag == tag,
{
    let name = tag.as_str().to_string();
    LanguageTagRef { tag, name }
}

/// An error of the localisation system that an error of the library wraps.
pub enum WrappedError {
    Registry(i18n::utility::RegistryError),
    Localiser(i18n::localiser::LocaliserError),
    Provider(i18n::provider::ProviderError),
    ProviderSqlite3(i18n::provider_sqlite3::ProviderSqlite3Error),
    Icu(i18n::lexer::IcuError),
}

/// Localisation data that the localisation system produced for one of its
/// errors, with a ghost record of the error it describes. Only the calls
/// of `LocalisationTrait::localisation_data` below make it.
pub struct ForeignData {
    data: i18n::utility::LocalisationData,
    origin: Ghost<WrappedError>,
}

impl ForeignData {
    /// The error the data describes.
    pub closed spec fn origin(&self) -> WrappedError {
        self.origin@
    }

    /// The data.
    pub fn data(&self) -> &i18n::utility::LocalisationData {
        &self.data
    }
}

/// The record of a registry error.
pub open spec fn registry_origin(error: &i18n::utility::RegistryError) -> WrappedError {
    WrappedError::Registry(*error)
}

/// The record of a localiser error.
pub open spec fn localiser_origin(error: &i18n::localiser::LocaliserError) -> WrappedError {
    WrappedError::Localiser(*error)
}

/// The record of a provider error.
pub open spec fn provider_origin(error: &i18n::provider::ProviderError) -> WrappedError {
    WrappedError::Provider(*error)
}

/// The record of a Sqlite3 provider error.
pub open spec fn provider_sqlite3_origin(error: &i18n::provider_sqlite3::ProviderSqlite3Error) -> WrappedError {
    WrappedError::ProviderSqlite3(*error)
}

/// The record of an ICU error.
pub open spec fn icu_origin(error: &i18n::lexer::IcuError) -> WrappedError {
    WrappedError::Icu(*error)
}

/// Calls `LocalisationTrait::localisation_data` of a registry error, and
/// records that error with the data.
///
/// The data is opaque here; it is carried into the error's own data.
#[verifier::external_body]
pub(crate) fn registry_error_data(error: &i18n::utility::RegistryError) -> (data: ForeignData)
    ensures
        data.origin() == WrappedError::Registry(*error),
{
    ForeignData { data: i18n::utility::LocalisationTrait::localisation_data(error), origin: Ghost(registry_origin(error)) }
}

/// Calls `LocalisationTrait::localisation_data` of a localiser error, and
/// records that error with the data.
///
/// The data is opaque here; it is carried into the error's own data.
#[verifier::external_body]
pub(crate) fn localiser_error_data(error: &i18n::localiser::LocaliserError) -> (data: ForeignData)
    ensures
        data.origin() == WrappedError::Localiser(*error),
{
    ForeignData { data: i18n::utility::LocalisationTrait::localisation_data(error), origin: Ghost(localiser_origin(error)) }
}

/// Calls `LocalisationTrait::localisation_data` of a provider error, and
/// records that error with the data.
///
/// The data is opaque here; it is carried into the error's own data.
#[verifier::external_body]
pub(crate) fn provider_error_data(error: &i18n::provider::ProviderError) -> (data: ForeignData)
    ensures
        data.origin() == WrappedError::Provider(*error),
{
    ForeignData { data: i18n::utility::LocalisationTrait::localisation_data(error), origin: Ghost(provider_origin(error)) }
}

/// Calls `LocalisationTrait::localisation_data` of a Sqlite3 provider
/// error, and records that error with the data.
///
/// The data is opaque here; it is carried into the error's own data.
#[verifier::external_body]
pub(crate) fn provider_sqlite3_error_data(error: &i18n::provider_sqlite3::ProviderSqlite3Error) -> (data: ForeignData)
    ensures
        data.origin() == WrappedError::ProviderSqlite3(*error),
{
    ForeignData {
        data: i18n::utility::LocalisationTrait::localisation_data(error),
        origin: Ghost(provider_sqlite3_origin(error)),
    }
}

/// Calls `LocalisationTrait::localisation_data` of an ICU error, and
/// records that error with the data.
///
/// The data is opaque here; it is carried into the error's own data.
#[verifier::external_body]
pub(crate) fn icu_error_data(error: &i18n::lexer::IcuError) -> (data: ForeignData)
    ensures
        data.origin() == WrappedError::Icu(*error),
{
    ForeignData { data: i18n::utility::LocalisationTrait::localisation_data(error), origin: Ghost(icu_origin(error)) }
}

} // verus!

verus! {

/// The localiser of the localisation system.
#[verifier::external_type_specification]
#[verifier::external_body]
pub struct ExLocaliser(i18n::localiser::Localiser);

/// A placeholder value of the localisation system.
#[verifier::external_type_specification]
#[verifier::external_body]
pub struct ExPlaceholderValue(i18n::utility::PlaceholderValue);

} // verus!
