//! The errors of the framework and of the application, and the
//! localisation data that describes each of them.

use crate::enums::{window_type_name, WindowType};
use crate::foreign::{
    icu_error_data, localiser_error_data, provider_error_data, provider_sqlite3_error_data,
    registry_error_data, ForeignData, LanguageTagRef, WrappedError,
};
use crate::text::{concat3, concat_str, decimal, integer_debug_text, string_debug, string_debug_text};
use vstd::prelude::*;
use vstd::string::*;

verus! {

/// An identifier of a window.
pub type WindowId = u64;

/// The value of a placeholder of a localised message.
pub enum Placeholder {
    String(String),
    Unsigned(u128),
    TaggedString(String, LanguageTagRef),
    Localised(String, LanguageTagRef),
    Message(Box<MessageData>),
    /// Data that the localisation system itself produced for one of its
    /// errors.
    Foreign(ForeignData),
}

/// A message of a localisation component, and the values of its
/// placeholders.
pub struct MessageData {
    pub component: String,
    pub identifier: String,
    pub values: Option<Vec<(String, Placeholder)>>,
}

/// Whether a placeholder is the given plain string.
pub open spec fn is_text(value: Placeholder, text: Seq<char>) -> bool {
    value matches Placeholder::String(s) && s@ == text
}

/// Whether an entry has the given key and its value satisfies `value_ok`.
pub open spec fn entry_is(entry: (String, Placeholder), key: Seq<char>, value_ok: spec_fn(Placeholder) -> bool) -> bool {
    entry.0@ == key && value_ok(entry.1)
}

/// Whether localisation data is the message of `component` and `identifier`
/// with no values.
pub open spec fn is_plain_message(data: MessageData, component: Seq<char>, identifier: Seq<char>) -> bool {
    &&& data.component@ == component
    &&& data.identifier@ == identifier
    &&& data.values is None
}

/// Whether localisation data is the application message `identifier` with
/// exactly the given text values, in order.
pub open spec fn is_application_message(
    data: MessageData,
    identifier: Seq<char>,
    entries: Seq<(Seq<char>, Seq<char>)>,
) -> bool {
    &&& data.component@ == "application"@
    &&& data.identifier@ == identifier
    &&& if entries.len() == 0 {
        data.values is None
    } else {
        &&& data.values matches Some(values)
        &&& values@.len() == entries.len()
        &&& forall|i: int| 0 <= i < entries.len() ==>
            #[trigger] values@[i].0@ == entries[i].0 && is_text(values@[i].1, entries[i].1)
    }
}

/// Whether localisation data is the `i18n_localiser` message `identifier`
/// describing the variant of an error type, whose last value, under `key`,
/// satisfies `value_ok`.
pub open spec fn is_error_format(
    data: MessageData,
    identifier: Seq<char>,
    kind_name: Seq<char>,
    variant: Seq<char>,
    key: Seq<char>,
    value_ok: spec_fn(Placeholder) -> bool,
) -> bool {
    &&& data.component@ == "i18n_localiser"@
    &&& data.identifier@ == identifier
    &&& data.values matches Some(values)
    &&& values@.len() == 3
    &&& entry_is(values@[0], "type"@, |p: Placeholder| is_text(p, kind_name))
    &&& entry_is(values@[1], "variant"@, |p: Placeholder| is_text(p, variant))
    &&& entry_is(values@[2], key, value_ok)
}

/// The error format of a variant that embeds a further message under
/// `message`.
pub open spec fn is_error_with_message(
    data: MessageData,
    kind_name: Seq<char>,
    variant: Seq<char>,
    message_ok: spec_fn(MessageData) -> bool,
) -> bool {
    is_error_format(
        data,
        "error_format_enum"@,
        kind_name,
        variant,
        "message"@,
        |p: Placeholder| p matches Placeholder::Message(m) && message_ok(*m),
    )
}

/// The error format of a variant that embeds the text of a wrapped error
/// under `error`.
pub open spec fn is_error_with_text(data: MessageData, kind_name: Seq<char>, variant: Seq<char>, text: Seq<char>) -> bool {
    is_error_format(data, "error_format_enum_embedded"@, kind_name, variant, "error"@, |p: Placeholder| is_text(p, text))
}

/// The error format of a variant that embeds the localisation data the
/// localisation system gave for a wrapped error, under `error`.
pub open spec fn is_error_with_foreign_data(
    data: MessageData,
    kind_name: Seq<char>,
    variant: Seq<char>,
    origin: WrappedError,
) -> bool {
    is_error_format(
        data,
        "error_format_enum_embedded"@,
        kind_name,
        variant,
        "error"@,
        |p: Placeholder| p matches Placeholder::Foreign(foreign) && foreign.origin() == origin,
    )
}

/// A plain string placeholder.
pub fn text_value(text: &str) -> (value: Placeholder)
    ensures
        is_text(value, text@),
{
    Placeholder::String(String::from_str(text))
}

/// A message of a component without values.
pub fn plain_message(component: &str, identifier: &str) -> (data: MessageData)
    ensures
        is_plain_message(data, component@, identifier@),
{
    MessageData { component: String::from_str(component), identifier: String::from_str(identifier), values: None }
}

/// An application message with one text value.
fn application_message_1(identifier: &str, key: &str, value: String) -> (data: MessageData)
    ensures
        is_application_message(data, identifier@, seq![(key@, value@)]),
{
    let mut values: Vec<(String, Placeholder)> = Vec::new();
    values.push((String::from_str(key), Placeholder::String(value)));
    MessageData {
        component: String::from_str("application"),
        identifier: String::from_str(identifier),
        values: Some(values),
    }
}

/// An application message with two text values.
fn application_message_2(identifier: &str, key1: &str, value1: String, key2: &str, value2: String) -> (data: MessageData)
    ensures
        is_application_message(data, identifier@, seq![(key1@, value1@), (key2@, value2@)]),
{
    let mut values: Vec<(String, Placeholder)> = Vec::new();
    values.push((String::from_str(key1), Placeholder::String(value1)));
    values.push((String::from_str(key2), Placeholder::String(value2)));
    MessageData {
        component: String::from_str("application"),
        identifier: String::from_str(identifier),
        values: Some(values),
    }
}

/// The error format data: the type and variant of an error, and one more
/// value under `key`.
pub fn error_format(identifier: &str, kind_name: &str, variant: &str, key: &str, value: Placeholder) -> (data: MessageData)
    ensures
        data.component@ == "i18n_localiser"@,
        data.identifier@ == identifier@,
        data.values matches Some(values) && values@.len() == 3
            && values@[0].0@ == "type"@ && is_text(values@[0].1, kind_name@)
            && values@[1].0@ == "variant"@ && is_text(values@[1].1, variant@)
            && values@[2].0@ == key@ && values@[2].1 == value,
{
    let mut values: Vec<(String, Placeholder)> = Vec::new();
    values.push((String::from_str("type"), text_value(kind_name)));
    values.push((String::from_str("variant"), text_value(variant)));
    values.push((String::from_str(key), value));
    MessageData {
        component: String::from_str("i18n_localiser"),
        identifier: String::from_str(identifier),
        values: Some(values),
    }
}

/// The errors of the framework.
#[derive(Debug, Clone)]
pub enum CoreError {
    /// A deserialising error, by its message.
    RonSpannedError(String),
    /// A serialising error, by its message.
    RonError(String),
    LanguageTagRegistry(i18n::utility::RegistryError),
    Localiser(i18n::localiser::LocaliserError),
    Provider(i18n::provider::ProviderError),
    ProviderSqlite3(i18n::provider_sqlite3::ProviderSqlite3Error),
    Icu(i18n::lexer::IcuError),
    /// A database error, by its message.
    Sqlite3(String),
    /// An input/output error, by its message (which cannot be translated).
    Io(String),
    ApplicationPath,
    ConfigDirNotFound,
    /// The vendor directory, by its displayed path.
    NoVendorDir(String),
    /// The configuration file, by its displayed path.
    NoConfigFile(String),
    WindowIdNotFound(WindowId, String),
    WindowTypeNotFound(WindowType, String),
    ExpectedWindowParent(WindowType),
    LanguageTagNotSupported(String),
    InvalidWindowTypeMain(WindowType),
    StateNotReusable(WindowType),
    PlaceholderNotFound(WindowType),
}

/// The localisation data of a framework error.
pub open spec fn core_error_data_ok(error: CoreError, data: MessageData) -> bool {
    let t = "CoreError"@;
    match error {
        CoreError::RonSpannedError(message) => is_error_with_text(data, t, "RonSpannedError"@, message@),
        CoreError::RonError(message) => is_error_with_text(data, t, "RonError"@, message@),
        CoreError::Localiser(e) => is_error_with_foreign_data(data, t, "Localiser"@, WrappedError::Localiser(e)),
        CoreError::Provider(e) => is_error_with_foreign_data(data, t, "Provider"@, WrappedError::Provider(e)),
        CoreError::ProviderSqlite3(e) => is_error_with_foreign_data(data, t, "ProviderSqlite3"@, WrappedError::ProviderSqlite3(e)),
        CoreError::Icu(e) => is_error_with_foreign_data(data, t, "Icu"@, WrappedError::Icu(e)),
        CoreError::Sqlite3(message) => is_error_with_text(data, t, "Sqlite3"@, message@),
        CoreError::LanguageTagRegistry(e) => is_error_with_foreign_data(data, t, "LanguageTagRegistry"@, WrappedError::Registry(e)),
        CoreError::Io(message) => is_error_with_text(data, t, "Io"@, message@),
        CoreError::ApplicationPath => is_error_with_message(data, t, "ApplicationPath"@,
            |m: MessageData| is_application_message(m, "application_data"@, seq![])),
        CoreError::ConfigDirNotFound => is_error_with_message(data, t, "ConfigDirNotFound"@,
            |m: MessageData| is_application_message(m, "config_directory_not_found"@, seq![])),
        CoreError::NoVendorDir(path) => is_error_with_message(data, t, "NoVendorDir"@,
            |m: MessageData| is_application_message(m, "no_vendor_directory"@, seq![("path"@, path@)])),
        CoreError::NoConfigFile(path) => is_error_with_message(data, t, "NoConfigFile"@,
            |m: MessageData| is_application_message(m, "no_config_file"@, seq![("path"@, path@)])),
        CoreError::WindowIdNotFound(id, field) => is_error_with_message(data, t, "WindowIdNotFound"@,
            |m: MessageData| is_application_message(m, "window_id_not_found"@,
                seq![("id"@, window_id_text(id)), ("field"@, string_debug_text(field@))])),
        CoreError::WindowTypeNotFound(window_type, field) => is_error_with_message(data, t, "WindowTypeNotFound"@,
            |m: MessageData| is_application_message(m, "window_type_not_found"@,
                seq![("type"@, window_type_name(window_type)), ("field"@, string_debug_text(field@))])),
        CoreError::ExpectedWindowParent(window_type) => is_error_with_message(data, t, "ExpectedWindowParent"@,
            |m: MessageData| is_application_message(m, "expected_window_parent"@,
                seq![("window_type"@, window_type_name(window_type))])),
        CoreError::LanguageTagNotSupported(tag) => is_error_with_message(data, t, "LanguageTagNotSupported"@,
            |m: MessageData| is_application_message(m, "language_tag"@, seq![("tag"@, tag@)])),
        CoreError::InvalidWindowTypeMain(window_type) => is_error_with_message(data, t, "InvalidWindowTypeMain"@,
            |m: MessageData| is_application_message(m, "window_id_not_found"@,
                seq![("type"@, window_type_name(window_type))])),
        CoreError::StateNotReusable(window_type) => is_error_with_message(data, t, "StateNotReusable"@,
            |m: MessageData| is_application_message(m, "state_not_reusable"@,
                seq![("type"@, window_type_name(window_type))])),
        CoreError::PlaceholderNotFound(window_type) => is_error_with_message(data, t, "PlaceholderNotFound"@,
            |m: MessageData| is_application_message(m, "placeholder_not_found"@,
                seq![("type"@, window_type_name(window_type))])),
    }
}

/// The `{:?}` text of a window identifier: its number in `Id(..)`.
pub open spec fn window_id_text(id: WindowId) -> Seq<char> {
    "Id("@ + decimal(id as nat) + ")"@
}

/// Formats a window identifier as `{:?}` does.
pub fn window_id_debug(id: WindowId) -> (text: String)
    ensures
        text@ == window_id_text(id),
{
    concat3("Id(", integer_debug_text(id).as_str(), ")")
}

/// The error format data embedding a text.
fn with_text(variant: &str, text: String) -> (data: MessageData)
    ensures
        is_error_with_text(data, "CoreError"@, variant@, text@),
{
    error_format("error_format_enum_embedded", "CoreError", variant, "error", Placeholder::String(text))
}

/// The error format data embedding the data of a wrapped error.
fn with_foreign(variant: &str, foreign: ForeignData) -> (data: MessageData)
    ensures
        is_error_with_foreign_data(data, "CoreError"@, variant@, foreign.origin()),
        data.values matches Some(values) && values@[2].1 == Placeholder::Foreign(foreign),
{
    error_format("error_format_enum_embedded", "CoreError", variant, "error", Placeholder::Foreign(foreign))
}

/// The error format data embedding a further message.
fn with_message(kind_name: &str, variant: &str, message: MessageData) -> (data: MessageData)
    ensures
        is_error_format(
            data,
            "error_format_enum"@,
            kind_name@,
            variant@,
            "message"@,
            |p: Placeholder| p matches Placeholder::Message(m) && *m == message,
        ),
{
    error_format("error_format_enum", kind_name, variant, "message", Placeholder::Message(Box::new(message)))
}

/// The display text of a framework error.
pub open spec fn core_error_text(error: CoreError, string: String) -> bool {
    let text = string@;
    match error {
        CoreError::RonSpannedError(message) => text == message@,
        CoreError::RonError(message) => text == message@,
        CoreError::Sqlite3(message) => text == message@,
        CoreError::Io(message) => text == message@,
        CoreError::LanguageTagRegistry(e) => vstd::string::to_string_from_display_ensures::<i18n::utility::RegistryError>(&e, string),
        CoreError::Localiser(e) => vstd::string::to_string_from_display_ensures::<i18n::localiser::LocaliserError>(&e, string),
        CoreError::Provider(e) => vstd::string::to_string_from_display_ensures::<i18n::provider::ProviderError>(&e, string),
        CoreError::ProviderSqlite3(e) => vstd::string::to_string_from_display_ensures::<i18n::provider_sqlite3::ProviderSqlite3Error>(&e, string),
        CoreError::Icu(e) => vstd::string::to_string_from_display_ensures::<i18n::lexer::IcuError>(&e, string),
        CoreError::ApplicationPath => text == "Failed to retrieve the application path."@,
        CoreError::ConfigDirNotFound => text == "Failed to retrieve the user's configuration path."@,
        CoreError::NoVendorDir(path) => text == "The vendor directory ‘"@ + path@ + "’ does not exist."@,
        CoreError::NoConfigFile(path) => text == "The file ‘"@ + path@ + "’ does not exist."@,
        CoreError::WindowIdNotFound(id, field) => text == "The window Id ‘"@ + window_id_text(id)
            + "’ was not found in the struct field ‘"@ + string_debug_text(field@) + "’."@,
        CoreError::WindowTypeNotFound(window_type, field) => text == "The window type ‘"@ + window_type_name(window_type)
            + "’ was not found in the struct field ‘"@ + string_debug_text(field@) + "’."@,
        CoreError::ExpectedWindowParent(window_type) => text == "Expected to get the parent window for the window type ‘"@
            + window_type_name(window_type) + "’."@,
        CoreError::LanguageTagNotSupported(tag) => text == "The language tag ‘"@ + tag@
            + "’ is supported for the application's user interface."@,
        CoreError::InvalidWindowTypeMain(window_type) => text == "The window type ‘"@ + window_type_name(window_type)
            + "’ is invalid for a main window."@,
        CoreError::StateNotReusable(window_type) => text == "The window type ‘"@ + window_type_name(window_type)
            + "’ is not a reusable state."@,
        CoreError::PlaceholderNotFound(window_type) => text == "The placeholder of window type ‘"@
            + window_type_name(window_type) + "’ is not found."@,
    }
}

impl CoreError {
    /// The localisation data describing the error.
    pub fn localisation_data(&self) -> (data: MessageData)
        ensures
            core_error_data_ok(*self, data),
    {
        match self {
            CoreError::RonSpannedError(error) => with_text("RonSpannedError", error.clone()),
            CoreError::RonError(error) => with_text("RonError", error.clone()),
            CoreError::Localiser(error) => with_foreign("Localiser", localiser_error_data(error)),
            CoreError::Provider(error) => with_foreign("Provider", provider_error_data(error)),
            CoreError::ProviderSqlite3(error) => with_foreign("ProviderSqlite3", provider_sqlite3_error_data(error)),
            CoreError::Icu(error) => with_foreign("Icu", icu_error_data(error)),
            CoreError::Sqlite3(error) => with_text("Sqlite3", error.clone()),
            CoreError::LanguageTagRegistry(error) => with_foreign("LanguageTagRegistry", registry_error_data(error)),
            CoreError::Io(error) => with_text("Io", error.clone()),
            CoreError::ApplicationPath => {
                let message = plain_message("application", "application_data");
                with_message("CoreError", "ApplicationPath", message)
            },
            CoreError::ConfigDirNotFound => {
                let message = plain_message("application", "config_directory_not_found");
                with_message("CoreError", "ConfigDirNotFound", message)
            },
            CoreError::NoVendorDir(path) => {
                let message = application_message_1("no_vendor_directory", "path", path.clone());
                with_message("CoreError", "NoVendorDir", message)
            },
            CoreError::NoConfigFile(path) => {
                let message = application_message_1("no_config_file", "path", path.clone());
                with_message("CoreError", "NoConfigFile", message)
            },
            CoreError::WindowIdNotFound(id, field) => {
                let message = application_message_2(
                    "window_id_not_found",
                    "id",
                    window_id_debug(*id),
                    "field",
                    string_debug(field),
                );
                with_message("CoreError", "WindowIdNotFound", message)
            },
            CoreError::WindowTypeNotFound(window_type, field) => {
                let message = application_message_2(
                    "window_type_not_found",
                    "type",
                    String::from_str(window_type.as_str()),
                    "field",
                    string_debug(field),
                );
                with_message("CoreError", "WindowTypeNotFound", message)
            },
            CoreError::ExpectedWindowParent(window_type) => {
                let message = application_message_1(
                    "expected_window_parent",
                    "window_type",
                    String::from_str(window_type.as_str()),
                );
                with_message("CoreError", "ExpectedWindowParent", message)
            },
            CoreError::LanguageTagNotSupported(tag) => {
                let message = application_message_1("language_tag", "tag", tag.clone());
                with_message("CoreError", "LanguageTagNotSupported", message)
            },
            CoreError::InvalidWindowTypeMain(window_type) => {
                let message = application_message_1(
                    "window_id_not_found",
                    "type",
                    String::from_str(window_type.as_str()),
                );
                with_message("CoreError", "InvalidWindowTypeMain", message)
            },
            CoreError::StateNotReusable(window_type) => {
                let message = application_message_1(
                    "state_not_reusable",
                    "type",
                    String::from_str(window_type.as_str()),
                );
                with_message("CoreError", "StateNotReusable", message)
            },
            CoreError::PlaceholderNotFound(window_type) => {
                let message = application_message_1(
                    "placeholder_not_found",
                    "type",
                    String::from_str(window_type.as_str()),
                );
                with_message("CoreError", "PlaceholderNotFound", message)
            },
        }
    }

    /// The display text of the error.
    pub fn to_string(&self) -> (text: String)
        ensures
            core_error_text(*self, text),
    {
        match self {
            CoreError::RonSpannedError(error) => error.clone(),
            CoreError::RonError(error) => error.clone(),
            CoreError::LanguageTagRegistry(error) => error.to_string(),
            CoreError::Localiser(error) => error.to_string(),
            CoreError::Provider(error) => error.to_string(),
            CoreError::ProviderSqlite3(error) => error.to_string(),
            CoreError::Icu(error) => error.to_string(),
            CoreError::Sqlite3(error) => error.clone(),
            CoreError::Io(error) => error.clone(),
            CoreError::ApplicationPath => String::from_str("Failed to retrieve the application path."),
            CoreError::ConfigDirNotFound => String::from_str("Failed to retrieve the user's configuration path."),
            CoreError::NoVendorDir(path) => concat3("The vendor directory ‘", path.as_str(), "’ does not exist."),
            CoreError::NoConfigFile(path) => concat3("The file ‘", path.as_str(), "’ does not exist."),
            CoreError::WindowIdNotFound(id, field) => {
                let mut text = concat3("The window Id ‘", window_id_debug(*id).as_str(), "’ was not found in the struct field ‘");
                text.append(string_debug(field).as_str());
                text.append("’.");
                text
            },
            CoreError::WindowTypeNotFound(window_type, field) => {
                let mut text = concat3("The window type ‘", window_type.as_str(), "’ was not found in the struct field ‘");
                text.append(string_debug(field).as_str());
                text.append("’.");
                text
            },
            CoreError::ExpectedWindowParent(window_type) => concat3(
                "Expected to get the parent window for the window type ‘",
                window_type.as_str(),
                "’.",
            ),
            CoreError::LanguageTagNotSupported(tag) => concat3(
                "The language tag ‘",
                tag.as_str(),
                "’ is supported for the application's user interface.",
            ),
            CoreError::InvalidWindowTypeMain(window_type) => concat3(
                "The window type ‘",
                window_type.as_str(),
                "’ is invalid for a main window.",
            ),
            CoreError::StateNotReusable(window_type) => concat3(
                "The window type ‘",
                window_type.as_str(),
                "’ is not a reusable state.",
            ),
            CoreError::PlaceholderNotFound(window_type) => concat3(
                "The placeholder of window type ‘",
                window_type.as_str(),
                "’ is not found.",
            ),
        }
    }
}

/// The errors of the application, in addition to those of the framework.
#[derive(Debug, Clone)]
pub enum ApplicationError {
    Core(CoreError),
    DatabaseAlreadyOpen,
    InvalidSchema(String),
}

/// The localisation data of an application error.
pub open spec fn application_error_data_ok(error: ApplicationError, data: MessageData) -> bool {
    let t = "ApplicationError"@;
    match error {
        ApplicationError::Core(core) => is_error_format(data, "error_format_enum_embedded"@, t, "Core"@, "error"@,
            |p: Placeholder| p matches Placeholder::Message(m) && core_error_data_ok(core, *m)),
        ApplicationError::DatabaseAlreadyOpen => is_error_with_message(data, t, "DatabaseAlreadyOpen"@,
            |m: MessageData| is_application_message(m, "database_already_opened"@, seq![])),
        ApplicationError::InvalidSchema(name) => is_error_with_message(data, t, "InvalidSchema"@,
            |m: MessageData| is_application_message(m, "schema_invalid"@, seq![("name"@, name@)])),
    }
}

/// The display text of an application error.
pub open spec fn application_error_text(error: ApplicationError, string: String) -> bool {
    let text = string@;
    match error {
        ApplicationError::Core(core) => core_error_text(core, string),
        ApplicationError::DatabaseAlreadyOpen => text == "The database is already opened."@,
        ApplicationError::InvalidSchema(name) => text == "The Sqlite3 file schema is invalid for the database ‘"@
            + name@ + "’."@,
    }
}

impl ApplicationError {
    /// The localisation data describing the error.
    pub fn localisation_data(&self) -> (data: MessageData)
        ensures
            application_error_data_ok(*self, data),
    {
        match self {
            ApplicationError::Core(error) => {
                let inner = error.localisation_data();
                error_format(
                    "error_format_enum_embedded",
                    "ApplicationError",
                    "Core",
                    "error",
                    Placeholder::Message(Box::new(inner)),
                )
            },
            ApplicationError::DatabaseAlreadyOpen => {
                let message = plain_message("application", "database_already_opened");
                with_message("ApplicationError", "DatabaseAlreadyOpen", message)
            },
            ApplicationError::InvalidSchema(name) => {
                let message = application_message_1("schema_invalid", "name", name.clone());
                with_message("ApplicationError", "InvalidSchema", message)
            },
        }
    }

    /// The display text of the error.
    pub fn to_string(&self) -> (text: String)
        ensures
            application_error_text(*self, text),
    {
        match self {
            ApplicationError::Core(error) => error.to_string(),
            ApplicationError::DatabaseAlreadyOpen => String::from_str("The database is already opened."),
            ApplicationError::InvalidSchema(name) => concat3(
                "The Sqlite3 file schema is invalid for the database ‘",
                name.as_str(),
                "’.",
            ),
        }
    }
}

impl From<CoreError> for ApplicationError {
    fn from(error: CoreError) -> (converted: ApplicationError) {
        ApplicationError::Core(error)
    }
}

impl vstd::std_specs::convert::FromSpecImpl<CoreError> for ApplicationError {
    open spec fn obeys_from_spec() -> bool {
        true
    }

    open spec fn from_spec(error: CoreError) -> ApplicationError {
        ApplicationError::Core(error)
    }
}

} // verus!
