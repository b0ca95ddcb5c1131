//! The information window: a message of a given kind, titled with the
//! localised name of its kind.

use crate::constants::APPLICATION_NAME_SHORT;
use crate::application::{Command, State as Application};
use crate::error::{is_text, ApplicationError, CoreError, Placeholder, WindowId};
use crate::window::WindowState;
use crate::localisation::{Localisation, Request};
use crate::localised::LocalisedText;
use vstd::prelude::*;
use vstd::string::*;

verus! {

/// The kind of an information window.
#[derive(Debug, Clone, Copy, PartialEq, Eq, Structural)]
pub enum InformationType {
    Error,
    Warning,
    Information,
}

/// The state of an information window.
///
/// The title keeps, as a ghost record, the request of the localiser it
/// answers.
pub struct State {
    information_type: InformationType,
    title: String,
    title_source: Ghost<Request>,
    message: String,
}

/// Whether a request formats the window title of an information window:
/// the application's short name, the word for its kind and its title.
pub open spec fn is_kind_title(request: Request, kind: Seq<char>, title: Seq<char>) -> bool {
    &&& request.0 == "application"@
    &&& request.1 == "window_type_title_format"@
    &&& request.2 is Some
    &&& {
        let values = request.2->0;
        &&& values.len() == 3
        &&& values[0].0 == "application"@
        &&& is_text(values[0].1, APPLICATION_NAME_SHORT@)
        &&& values[1].0 == "type"@
        &&& is_text(values[1].1, kind)
        &&& values[2].0 == "window"@
        &&& is_text(values[2].1, title)
    }
}

/// The window title: the application's short name, the localised name of
/// the window's kind, and the title given, in the application's format.
fn titled(localisation: &Localisation, kind: &String, title: String) -> (result: Result<LocalisedText, ApplicationError>)
    ensures
        result matches Ok(text) ==> is_kind_title(text.source(), kind@, title@),
        result matches Err(error) ==> error matches ApplicationError::Core(core) && core is Localiser,
{
    let ghost title_view = title@;
    let mut values: Vec<(String, Placeholder)> = Vec::new();
    values.push((String::from_str("application"), Placeholder::String(String::from_str(APPLICATION_NAME_SHORT))));
    values.push((String::from_str("type"), Placeholder::String(kind.clone())));
    values.push((String::from_str("window"), Placeholder::String(title)));
    match localisation.format_with_defaults("application", "window_type_title_format", &values) {
        Ok(text) => Ok(text),
        Err(error) => Err(ApplicationError::Core(error)),
    }
}

impl State {
    /// The kind of the window.
    pub closed spec fn kind(&self) -> InformationType {
        self.information_type
    }

    /// The message shown.
    pub closed spec fn message_view(&self) -> Seq<char> {
        self.message@
    }

    /// A general purpose information window; `kind` is the localised word
    /// for information.
    pub fn try_information(localisation: &Localisation, title: String, message: String, kind: &String) -> (result: Result<State, ApplicationError>)
        ensures
            result matches Ok(state) ==> state.kind() == InformationType::Information && state.message_view() == message@
                && is_kind_title(state.title_source(), kind@, title@),
            result matches Err(error) ==> error matches ApplicationError::Core(core) && core is Localiser,
    {
        let titled = titled(localisation, kind, title)?;
        let title_source = Ghost(titled.source());
        Ok(State { information_type: InformationType::Information, title: titled.into_parts().0, title_source, message })
    }

    /// A warning window; `kind` is the localised word for warning.
    pub fn try_warning(localisation: &Localisation, title: String, message: String, kind: &String) -> (result: Result<State, ApplicationError>)
        ensures
            result matches Ok(state) ==> state.kind() == InformationType::Warning && state.message_view() == message@
                && is_kind_title(state.title_source(), kind@, title@),
            result matches Err(error) ==> error matches ApplicationError::Core(core) && core is Localiser,
    {
        let titled = titled(localisation, kind, title)?;
        let title_source = Ghost(titled.source());
        Ok(State { information_type: InformationType::Warning, title: titled.into_parts().0, title_source, message })
    }

    /// An error window; `kind` is the localised word that names the kind
    /// in the title (the word for warning, in this framework).
    pub fn try_error(localisation: &Localisation, title: String, message: String, kind: &String) -> (result: Result<State, ApplicationError>)
        ensures
            result matches Ok(state) ==> state.kind() == InformationType::Error && state.message_view() == message@
                && is_kind_title(state.title_source(), kind@, title@),
            result matches Err(error) ==> error matches ApplicationError::Core(core) && core is Localiser,
    {
        let titled = titled(localisation, kind, title)?;
        let title_source = Ghost(titled.source());
        Ok(State { information_type: InformationType::Error, title: titled.into_parts().0, title_source, message })
    }

    /// The request the window title answers.
    pub closed spec fn title_source(&self) -> Request {
        self.title_source@
    }

    /// The window title, as the state holds it.
    pub closed spec fn title_view(&self) -> Seq<char> {
        self.title@
    }

    /// The window title.
    pub fn title(&self) -> (title: &String)
        ensures
            title@ == self.title_view(),
    {
        &self.title
    }

    /// The message shown.
    pub fn message(&self) -> (message: &String)
        ensures
            message@ == self.message_view(),
    {
        &self.message
    }
}

/// Show an information window of a kind over its parent window, titled
/// with the localised word for its kind (`kind`).
pub fn display(
    application: &mut Application,
    title: String,
    message: String,
    information_type: InformationType,
    kind: &String,
    parent: WindowId,
) -> (result: Result<Vec<Command>, ApplicationError>)
    requires
        old(application).wf(),
    ensures
        final(application).wf(),
        !old(application).manager.states_view().contains_key(parent) ==> result is Err,
        result is Ok ==> {
            let id = old(application).next_id;
            &&& final(application).manager.states_view().contains_key(id)
            &&& final(application).manager.states_view()[id].parent == Some(parent)
            &&& final(application).manager.states_view()[id].state matches WindowState::Information(state)
                && state.kind() == information_type && state.message_view() == message@
                && is_kind_title(state.title_source(), kind@, title@)
        },
        result matches Err(error) ==> {
            ||| error matches ApplicationError::Core(core) && core is Localiser
            ||| error matches ApplicationError::Core(CoreError::WindowIdNotFound(missing, _)) && missing == parent
                && !old(application).manager.states_view().contains_key(parent)
        },
{
    let state = match information_type {
        InformationType::Information => State::try_information(&application.localisation, title, message, kind)?,
        InformationType::Warning => State::try_warning(&application.localisation, title, message, kind)?,
        InformationType::Error => State::try_error(&application.localisation, title, message, kind)?,
    };
    application.spawn(WindowState::Information(state), parent)
}

} // verus!
