//! The window asking what to do with unsaved data before closing.

use crate::application::{Command, State as Application};
use crate::constants::APPLICATION_NAME_SHORT;
use crate::enums::{StringGroup, WindowType};
use crate::error::{ApplicationError, CoreError, Placeholder, WindowId};
use crate::window::WindowState;
use crate::localisation::{is_format_with_text, is_window_title_with_name, literal_request, Localisation, Request};
use vstd::prelude::*;
use vstd::string::*;

verus! {

/// The messages of the unsaved data window.
#[derive(Debug, Clone, PartialEq, Eq, Structural)]
pub enum Message {
    Save,
    Discard,
    Cancel,
}

/// The state of the unsaved data window: its title and its statement, both
/// naming the data. Each keeps, as a ghost record, the request of the
/// localiser it answers (and, for the title, the request and text of the
/// window's name in it).
pub struct State {
    title: String,
    title_source: Ghost<(Request, (Request, Seq<char>))>,
    message: String,
    message_source: Ghost<Request>,
}

/// Whether the title and the statement of a state answer their requests
/// for the data of a name.
pub open spec fn localised_for_name(state: State, name: Seq<char>) -> bool {
    &&& state.title_word().0 == literal_request("application"@, "unsaved_data"@)
    &&& is_window_title_with_name(state.title_source(), state.title_word().1, name)
    &&& is_format_with_text(state.message_source(), "application"@, "unsaved_data_statement"@, "name"@, name)
}

impl State {
    /// The state for the data of the given name (a file or database name).
    pub fn try_new(localisation: &Localisation, name: &str) -> (result: Result<State, ApplicationError>)
        ensures
            result matches Ok(state) ==> localised_for_name(state, name@),
            result matches Err(error) ==> error matches ApplicationError::Core(core) && core is Localiser,
    {
        let localised = match localisation.literal_with_defaults("application", "unsaved_data") {
            Ok(value) => value,
            Err(error) => return Err(ApplicationError::Core(error)),
        };
        let ghost word = (localised.source(), localised.text_string()@);
        let (text, tag) = localised.into_parts();
        let mut values: Vec<(String, Placeholder)> = Vec::new();
        values.push((String::from_str("application"), Placeholder::String(String::from_str(APPLICATION_NAME_SHORT))));
        values.push((String::from_str("window"), Placeholder::Localised(text, tag)));
        values.push((String::from_str("name"), Placeholder::String(String::from_str(name))));
        let (title, title_source) = match localisation.format_with_defaults("application", "window_title_name_format", &values) {
            Ok(value) => {
                let source = Ghost((value.source(), word));
                (value.into_parts().0, source)
            },
            Err(error) => return Err(ApplicationError::Core(error)),
        };
        let mut values: Vec<(String, Placeholder)> = Vec::new();
        values.push((String::from_str("name"), Placeholder::String(String::from_str(name))));
        let (message, message_source) = match localisation.format_with_defaults("application", "unsaved_data_statement", &values) {
            Ok(value) => {
                let source = Ghost(value.source());
                (value.into_parts().0, source)
            },
            Err(error) => return Err(ApplicationError::Core(error)),
        };
        Ok(State { title, title_source, message, message_source })
    }

    /// The request the title answers.
    pub closed spec fn title_source(&self) -> Request {
        self.title_source@.0
    }

    /// The request and the text of the window's name in the title.
    pub closed spec fn title_word(&self) -> (Request, Seq<char>) {
        self.title_source@.1
    }

    /// The request the statement answers.
    pub closed spec fn message_source(&self) -> Request {
        self.message_source@
    }

    /// The window title, as the state holds it.
    pub closed spec fn title_view(&self) -> Seq<char> {
        self.title@
    }

    /// The statement naming the unsaved data, as the state holds it.
    pub closed spec fn message_view(&self) -> Seq<char> {
        self.message@
    }

    /// The window title.
    pub fn title(&self) -> (title: &String)
        ensures
            title@ == self.title_view(),
    {
        &self.title
    }

    /// The statement naming the unsaved data.
    pub fn message(&self) -> (message: &String)
        ensures
            message@ == self.message_view(),
    {
        &self.message
    }
}

/// Show the unsaved data window for the data of the given name over its
/// parent window; the window's strings are localised first where the
/// cache lacks them.
pub fn display(application: &mut Application, parent: WindowId, name: &str) -> (result: Result<Vec<Command>, ApplicationError>)
    requires
        old(application).wf(),
    ensures
        final(application).wf(),
        final(application).localisation == old(application).localisation,
        result is Ok ==> {
            let id = old(application).next_id;
            &&& final(application).manager.states_view().contains_key(id)
            &&& final(application).manager.states_view()[id].state is UnsavedData
            &&& final(application).manager.states_view()[id].parent == Some(parent)
            &&& final(application).string_cache.entry(StringGroup::UnsavedData) is Some
            &&& final(application).manager.states_view().contains_key(parent)
            &&& parent != id ==> final(application).manager.states_view()[parent].state
                == old(application).manager.states_view()[parent].state
            &&& result->Ok_0@.len() == 1
            &&& result->Ok_0@[0] matches Command::Window(crate::manager::Action::Open(opened, _)) && opened == id
        },
        !old(application).manager.states_view().contains_key(parent) ==> result is Err,
        result matches Err(error) ==> {
            ||| error matches ApplicationError::Core(core) && core is Localiser
            ||| error matches ApplicationError::Core(CoreError::WindowIdNotFound(missing, _)) && missing == parent
                && !old(application).manager.states_view().contains_key(parent)
        },
{
    application.cache_strings(StringGroup::UnsavedData)?;
    let state = State::try_new(&application.localisation, name)?;
    application.spawn(WindowState::UnsavedData(state), parent)
}

/// Handle a message of the unsaved data window: `Cancel` closes the
/// window; `Discard` closes the thread without saving; `Save` saves the
/// data of the parent main window, then closes the thread.
pub fn try_update(application: &mut Application, id: WindowId, message: Message) -> (result: Result<Vec<Command>, ApplicationError>)
    requires
        old(application).wf(),
    ensures
        final(application).wf(),
        message == Message::Cancel ==> (result matches Ok(commands) && commands@ == seq![
            Command::Window(crate::manager::Action::Close(id)),
            Command::Window(crate::manager::Action::Closed(id)),
        ]),
        message == Message::Save && (!old(application).manager.states_view().contains_key(id)
            || old(application).manager.states_view()[id].parent is None) ==> (result matches Err(ApplicationError::Core(
            CoreError::ExpectedWindowParent(window_type),
        )) && window_type == WindowType::UnsavedData),
{
    match message {
        Message::Cancel => {
            let actions = application.manager.close_window(id).unwrap();
            Ok(crate::application::to_commands(actions))
        },
        Message::Discard => application.close_thread(id),
        Message::Save => {
            let parent = match application.manager.parent(&id) {
                Some(parent) => parent,
                None => return Err(ApplicationError::Core(CoreError::ExpectedWindowParent(WindowType::UnsavedData))),
            };
            // The state is taken out of the manager while it is updated, an empty
            // default window state standing in for it.
            let placeholder = WindowState::Default(crate::window::default::State::new());
            match application.manager.replace_state(parent, placeholder) {
                Some(WindowState::Main(mut main)) => {
                    let _ = main.try_save();
                    let _ = application.manager.replace_state(parent, WindowState::Main(main));
                },
                Some(other) => {
                    let _ = application.manager.replace_state(parent, other);
                },
                None => return Err(ApplicationError::Core(CoreError::WindowIdNotFound(id, String::from_str("window_states")))),
            }
            application.close_thread(id)
        },
    }
}

} // verus!
