//! The localised strings of the fatal error window. Every string has an
//! English fallback, as the localisation itself may be what failed.

use crate::constants::APPLICATION_NAME_SHORT;
use crate::error::{application_error_text, is_text, ApplicationError, CoreError, Placeholder};
use crate::foreign::LanguageTagRef;
use crate::localisation::{literal_request, Localisation, LocalisedTrait, Request};
use crate::localised::LocalisedTexts;
use crate::text::concat3;
use vstd::prelude::*;
use vstd::string::*;

verus! {

/// The strings of the table.
pub enum Index {
    Title,
    UncaughtError,
    Exit,
}

impl Index {
    /// The position of the string in the table.
    pub fn index(&self) -> (index: usize)
        ensures
            index == match self {
                Index::Title => 0usize,
                Index::UncaughtError => 1usize,
                Index::Exit => 2usize,
            },
    {
        match self {
            Index::Title => 0,
            Index::UncaughtError => 1,
            Index::Exit => 2,
        }
    }
}

/// The localised strings of the fatal error window: its title, the message
/// naming the error, and the label of the exit button. They are not
/// localised again when the language changes.
///
/// Each string keeps, as a ghost record, the request of the localiser it
/// answers, or none where it is the fallback.
pub struct Strings {
    language_tag: LanguageTagRef,
    strings: LocalisedTexts,
    title_window: Ghost<(Option<Request>, Seq<char>)>,
}

/// Whether a request formats the window title of the fatal error window
/// for a window name.
pub open spec fn is_fatal_error_title(request: Request, window: Seq<char>) -> bool {
    &&& request.0 == "application"@
    &&& request.1 == "window_title_format"@
    &&& request.2 is Some
    &&& {
        let values = request.2->0;
        &&& values.len() == 2
        &&& values[0].0 == "application"@
        &&& is_text(values[0].1, APPLICATION_NAME_SHORT@)
        &&& values[1].0 == "window"@
        &&& is_text(values[1].1, window)
    }
}

/// Whether each string answers its own request or, where the localisation
/// failed, is its English fallback: the title (over the name "fatal error",
/// localised or not), the message naming the error, and the word "exit".
pub open spec fn answers_or_falls_back(strings: Strings, error: ApplicationError) -> bool {
    let sources = strings.sources();
    let texts = strings.texts();
    let window = strings.title_window();
    &&& sources.len() == 3
    &&& texts.len() == 3
    &&& match window.0 {
        Some(request) => request == literal_request("application"@, "fatal_error"@),
        None => window.1 == "Fatal error"@,
    }
    &&& match sources[0] {
        Some(request) => is_fatal_error_title(request, window.1),
        None => texts[0]@ == APPLICATION_NAME_SHORT@ + " - Fatal error"@,
    }
    &&& match sources[1] {
        Some(request) => {
            &&& request.0 == "application"@
            &&& request.1 == "uncaught_error"@
            &&& request.2 matches Some(values) && values.len() == 1 && values[0].0 == "error"@
                && values[0].1 is Message
        },
        None => exists|text: String| application_error_text(error, text) && texts[1]@ == uncaught_error_fallback(text@),
    }
    &&& match sources[2] {
        Some(request) => request == literal_request("word"@, "exit_i"@),
        None => texts[2]@ == "Exit"@,
    }
}

impl Strings {
    /// There are three strings.
    #[verifier::type_invariant]
    closed spec fn three_strings(&self) -> bool {
        self.strings.strings().len() == 3
    }

    /// The message naming the uncaught error.
    pub fn uncaught_error(&self) -> (text: &String)
        ensures
            self.texts().len() == 3,
            *text == self.texts()[1],
    {
        proof {
            use_type_invariant(self);
        }
        self.strings.get(1)
    }

    /// The requests the strings answer, by position; none for a fallback.
    pub closed spec fn sources(&self) -> Seq<Option<Request>> {
        self.strings.sources()
    }

    /// The request and the text of the window name in the title; no request
    /// for the fallback name.
    pub closed spec fn title_window(&self) -> (Option<Request>, Seq<char>) {
        self.title_window@
    }

    /// Localise the strings for the error, in the default language: the
    /// title, the message naming the error, and the word "exit"; each falls
    /// back to English where its localisation fails.
    pub fn new(localisation: &Localisation, error: ApplicationError) -> (strings: Strings)
        ensures
            strings.tag() == localisation.language(),
            strings.texts().len() == 3,
            answers_or_falls_back(strings, error),
    {
        let ghost error_view = error;
        let language_tag = localisation.default_language();
        let (window, window_source): (String, Ghost<Option<Request>>) = match localisation.literal_with_defaults(
            "application",
            "fatal_error",
        ) {
            Ok(value) => {
                let source = Ghost(Some(value.source()));
                (value.into_parts().0, source)
            },
            Err(_) => (String::from_str("Fatal error"), Ghost(None)),
        };
        let ghost window_text = window@;
        let mut strings = LocalisedTexts::new();
        let mut values: Vec<(String, Placeholder)> = Vec::new();
        values.push((String::from_str("application"), Placeholder::String(String::from_str(APPLICATION_NAME_SHORT))));
        values.push((String::from_str("window"), Placeholder::String(window)));
        match localisation.format_with_defaults("application", "window_title_format", &values) {
            Ok(value) => strings.push(value),
            Err(_) => strings.push_unlocalised(fatal_error_title_fallback()),
        }
        let mut values: Vec<(String, Placeholder)> = Vec::new();
        values.push((String::from_str("error"), Placeholder::Message(Box::new(error.localisation_data()))));
        match localisation.format_with_defaults("application", "uncaught_error", &values) {
            Ok(value) => strings.push(value),
            Err(_) => strings.push_unlocalised(uncaught_error_text(&error)),
        }
        match localisation.literal_with_defaults("word", "exit_i") {
            Ok(value) => strings.push(value),
            Err(_) => strings.push_unlocalised(String::from_str("Exit")),
        }
        let result = Strings { language_tag, strings, title_window: Ghost((window_source@, window_text)) };
        assert(answers_or_falls_back(result, error_view));
        result
    }
}

impl LocalisedTrait for Strings {
    closed spec fn texts(&self) -> Seq<String> {
        self.strings.strings()
    }

    closed spec fn tag(&self) -> LanguageTagRef {
        self.language_tag
    }

    closed spec fn follows_language(&self) -> bool {
        false
    }

    fn try_update(&mut self, localisation: &Localisation) -> (result: Result<(), CoreError>)
        ensures
            result is Ok,
            *final(self) == *old(self),
    {
        Ok(())
    }

    fn title(&self) -> (title: &String) {
        self.strings.get(0)
    }

    fn string(&self, index: usize) -> (text: &String) {
        self.strings.get(index)
    }

    fn language_tag(&self) -> (tag: &LanguageTagRef) {
        &self.language_tag
    }
}

/// The fallback of the message naming an uncaught error.
pub open spec fn uncaught_error_fallback(error_text: Seq<char>) -> Seq<char> {
    "The following error was not caught: '"@ + error_text + "'"@
}

/// The English fallback of the title: the application's short name and
/// "Fatal error".
pub fn fatal_error_title_fallback() -> (title: String)
    ensures
        title@ == APPLICATION_NAME_SHORT@ + " - Fatal error"@,
{
    let mut title = String::from_str(APPLICATION_NAME_SHORT);
    title.append(" - Fatal error");
    title
}

/// The English fallback of the message naming an uncaught error.
pub fn uncaught_error_text(error: &ApplicationError) -> (text: String)
    ensures
        exists|s: String| application_error_text(*error, s) && text@ == uncaught_error_fallback(s@),
{
    let error_text = error.to_string();
    concat3("The following error was not caught: '", error_text.as_str(), "'")
}

} // verus!
