//! The main window: a document (a file or database) with unsaved data or
//! not, titled with its name.

use crate::application::{thread_close_commands, threads_after_spawn, Command, State as Application};
use crate::manager::{thread_holding, Action};
use crate::constants::APPLICATION_NAME_SHORT;
use crate::enums::{StringGroup, WindowType};
use crate::error::{ApplicationError, CoreError, Placeholder, WindowId};
use crate::window::{state_type, AnyWindowTrait, WindowState, WindowTrait};
use crate::localisation::{is_window_title_with_name, literal_request, Localisation, Request};
use crate::localised::LocalisedText;
use vstd::prelude::*;
use vstd::string::*;

verus! {

/// The messages of the main window's menu bar.
#[derive(Debug, Clone, PartialEq, Eq, Structural)]
pub enum MenuBarMessage {
    /// The menu bar button, and buttons that open sub menus.
    NoAction,
    New(WindowType),
    Close(WindowId),
    CloseAll,
    Preferences,
    About,
}

/// The messages of the main window.
#[derive(Debug, Clone, PartialEq, Eq, Structural)]
pub enum Message {
    MenuBar(MenuBarMessage),
    /// Toggles whether there is unsaved data.
    Toggle,
}

/// The messages of a plain main window menu bar: preferences, exit and
/// about only.
#[derive(Debug, Clone, PartialEq, Eq, Structural)]
pub enum MainMenuBarMessage {
    NoAction,
    Preferences,
    Exit,
    About,
}

/// The messages of a main window with a plain menu bar.
#[derive(Debug, Clone, PartialEq, Eq, Structural)]
pub enum MainMessage {
    MenuBar(MainMenuBarMessage),
}

/// Obtains the number of seconds since the Unix epoch in the local time
/// zone, formatted as `%s` (`chrono::Local::now().format("%s")`).
///
/// The result depends on the time of the call, so no clause describes it.
#[verifier::external_body]
fn current_timestamp_name() -> String {
    chrono::Local::now().format("%s").to_string()
}

/// The state of a main window. The title keeps, as a ghost record, the
/// request of the localiser it answers, and the request and text of the
/// word for a main window in it.
pub struct State {
    unsaved: bool,
    path: String,
    title: String,
    title_source: Ghost<(Request, (Request, Seq<char>))>,
}

/// Whether a main window's title is the window title of the word for a
/// main window followed by the name of its data.
pub open spec fn titled_for_name(state: State) -> bool {
    &&& state.title_word().0 == literal_request("word"@, "main_i"@)
    &&& is_window_title_with_name(state.title_source(), state.title_word().1, state.name_view())
}

/// The title of a main window for the data of the given name, with the
/// request and the text of the word for a main window in it.
fn localise(localisation: &Localisation, name: String) -> (result: Result<(LocalisedText, Ghost<(Request, Seq<char>)>), CoreError>)
    ensures
        result matches Ok((title, word)) ==> {
            &&& word@.0 == literal_request("word"@, "main_i"@)
            &&& is_window_title_with_name(title.source(), word@.1, name@)
        },
        result matches Err(error) ==> error is Localiser,
{
    let ghost name_view = name@;
    let localised = localisation.literal_with_defaults("word", "main_i")?;
    let ghost word = (localised.source(), localised.text_string()@);
    let (text, tag) = localised.into_parts();
    let mut values: Vec<(String, Placeholder)> = Vec::new();
    values.push((String::from_str("application"), Placeholder::String(String::from_str(APPLICATION_NAME_SHORT))));
    values.push((String::from_str("window"), Placeholder::Localised(text, tag)));
    values.push((String::from_str("name"), Placeholder::String(name)));
    let title = localisation.format_with_defaults("application", "window_title_name_format", &values)?;
    Ok((title, Ghost(word)))
}

impl State {
    /// Whether there is unsaved data.
    pub closed spec fn unsaved_view(&self) -> bool {
        self.unsaved
    }

    /// The name of the data.
    pub closed spec fn name_view(&self) -> Seq<char> {
        self.path@
    }

    /// The request the title answers.
    pub closed spec fn title_source(&self) -> Request {
        self.title_source@.0
    }

    /// The request and the text of the word for a main window in the title.
    pub closed spec fn title_word(&self) -> (Request, Seq<char>) {
        self.title_source@.1
    }

    /// A main window with all data saved, named by the current time, and
    /// titled by that name.
    pub fn try_new(localisation: &Localisation) -> (result: Result<State, ApplicationError>)
        ensures
            result matches Ok(state) ==> !state.unsaved_view() && titled_for_name(state),
            result matches Err(error) ==> error matches ApplicationError::Core(core) && core is Localiser,
    {
        let name = current_timestamp_name();
        let (title, title_source) = match localise(localisation, name.clone()) {
            Ok((text, word)) => {
                let source = Ghost((text.source(), word@));
                (text.into_parts().0, source)
            },
            Err(error) => return Err(ApplicationError::Core(error)),
        };
        Ok(State { unsaved: false, path: name, title, title_source })
    }

    /// Handle a message of the window: `Toggle` toggles whether there is
    /// unsaved data.
    pub fn try_update(&mut self, message: &Message) -> (result: Result<(), ApplicationError>)
        ensures
            result is Ok,
            final(self).name_view() == old(self).name_view(),
            final(self).unsaved_view() == (if *message == Message::Toggle {
                !old(self).unsaved_view()
            } else {
                old(self).unsaved_view()
            }),
    {
        match message {
            Message::Toggle => self.unsaved = !self.unsaved,
            _ => {},
        }
        Ok(())
    }

    /// Localise the title again.
    pub fn try_localise(&mut self, localisation: &Localisation) -> (result: Result<(), ApplicationError>)
        ensures
            final(self).name_view() == old(self).name_view(),
            final(self).unsaved_view() == old(self).unsaved_view(),
            result matches Err(error) ==> (error matches ApplicationError::Core(core) && core is Localiser)
                && *final(self) == *old(self),
            result is Ok ==> titled_for_name(*final(self)),
    {
        let (title, title_source) = match localise(localisation, self.path.clone()) {
            Ok((text, word)) => {
                let source = Ghost((text.source(), word@));
                (text.into_parts().0, source)
            },
            Err(error) => return Err(ApplicationError::Core(error)),
        };
        self.title = title;
        self.title_source = title_source;
        Ok(())
    }

    /// Save the data.
    pub fn try_save(&mut self) -> (result: Result<(), ApplicationError>)
        ensures
            result is Ok,
            !final(self).unsaved_view(),
            final(self).name_view() == old(self).name_view(),
    {
        self.unsaved = false;
        Ok(())
    }

    /// Whether there is unsaved data.
    pub fn is_unsaved(&self) -> (unsaved: bool)
        ensures
            unsaved == self.unsaved_view(),
    {
        self.unsaved
    }

    /// The name of the data.
    pub fn name(&self) -> (name: &str)
        ensures
            name@ == self.name_view(),
    {
        self.path.as_str()
    }

    /// The window title, as the state holds it.
    pub closed spec fn title_view(&self) -> Seq<char> {
        self.title@
    }

    /// The window title.
    pub fn title(&self) -> (title: &String)
        ensures
            title@ == self.title_view(),
    {
        &self.title
    }
}

/// Open a main window as a new thread; the strings shared by main windows
/// are localised first where the cache lacks them.
pub fn display(application: &mut Application) -> (result: Result<Vec<Command>, ApplicationError>)
    requires
        old(application).wf(),
    ensures
        final(application).wf(),
        final(application).localisation == old(application).localisation,
        result is Ok ==> {
            let id = old(application).next_id;
            &&& final(application).manager.states_view().contains_key(id)
            &&& final(application).manager.states_view()[id].state matches WindowState::Main(state) && !state.unsaved_view()
            &&& final(application).manager.states_view()[id].parent is None
            &&& final(application).manager.thread_count_view() == old(application).manager.thread_count_view() + 1
            &&& final(application).manager.threads_view() == threads_after_spawn(*old(application))
            &&& final(application).string_cache.entry(StringGroup::MainCommon) is Some
            &&& result->Ok_0@.len() == 1
            &&& result->Ok_0@[0] matches Command::Window(Action::Open(opened, _)) && opened == id
        },
        result matches Err(error) ==> error matches ApplicationError::Core(core) && core is Localiser,
{
    let state = State::try_new(&application.localisation)?;
    application.cache_strings(StringGroup::MainCommon)?;
    Ok(application.spawn_thread(WindowState::Main(state)))
}

/// Handle a message of a main window: the window's own state takes it,
/// then a menu bar choice opens a thread, closes a window or every thread,
/// or shows the preferences or the about window over this one.
pub fn try_update(application: &mut Application, id: WindowId, message: Message) -> (result: Result<Vec<Command>, ApplicationError>)
    requires
        old(application).wf(),
    ensures
        final(application).wf(),
        !old(application).manager.states_view().contains_key(id) ==> (result matches Err(ApplicationError::Core(
            CoreError::WindowIdNotFound(missing, _),
        )) && missing == id),
        message == Message::Toggle && old(application).manager.states_view().contains_key(id) ==> {
            &&& result matches Ok(commands) && commands@.len() == 0
            &&& final(application).manager.states_view().dom() == old(application).manager.states_view().dom()
            &&& old(application).manager.states_view()[id].state matches WindowState::Main(before)
                ==> final(application).manager.states_view()[id].state matches WindowState::Main(after)
                && after.unsaved_view() == !before.unsaved_view()
        },
        message matches Message::MenuBar(MenuBarMessage::Close(_)) ==> {
            let window = message->MenuBar_0->Close_0;
            let opened = old(application).next_id;
            &&& old(application).manager.states_view().contains_key(window) && (old(application).manager.states_view()[window].state matches
                WindowState::Main(state) && state.unsaved_view()) && result is Ok ==> {
                &&& final(application).manager.states_view().contains_key(opened)
                &&& final(application).manager.states_view()[opened].state is UnsavedData
                &&& final(application).manager.states_view()[opened].parent == Some(window)
                &&& final(application).manager.states_view().contains_key(window)
                &&& result->Ok_0@.len() == 1
                &&& result->Ok_0@[0] matches Command::Window(Action::Open(new_id, _)) && new_id == opened
            }
            &&& old(application).manager.states_view().contains_key(window) && (old(application).manager.states_view()[window].state
                matches WindowState::Main(state) && !state.unsaved_view()) && thread_holding(
                old(application).manager.threads_view(),
                window,
            ) >= 0 && old(application).manager.states_view().contains_key(id) ==> (result matches Ok(commands)
                && commands@ == thread_close_commands(old(application).manager.threads_view(), window))
        },
        message == Message::MenuBar(MenuBarMessage::NoAction) && old(application).manager.states_view().contains_key(id) ==> (
        result matches Ok(commands) && commands@.len() == 0),
        message matches Message::MenuBar(MenuBarMessage::New(_)) && result is Ok ==> {
            let window_type = message->MenuBar_0->New_0;
            let opened = old(application).next_id;
            &&& window_type == WindowType::Main ==> {
                &&& final(application).manager.states_view().contains_key(opened)
                &&& final(application).manager.states_view()[opened].state is Main
                &&& final(application).manager.states_view()[opened].parent is None
                &&& result->Ok_0@.len() >= 1
                &&& result->Ok_0@[0] matches Command::Window(Action::Open(new_id, _)) && new_id == opened
            }
            &&& window_type != WindowType::Main ==> result->Ok_0@.len() == 0
        },
        message == Message::MenuBar(MenuBarMessage::Preferences) && result is Ok ==> {
            let opened = old(application).next_id;
            &&& final(application).manager.states_view().contains_key(opened)
            &&& final(application).manager.states_view()[opened].state matches WindowState::Preferences(state)
                && !state.first_use_view()
            &&& final(application).manager.states_view()[opened].parent == Some(id)
        },
        message == Message::MenuBar(MenuBarMessage::About) && result is Ok ==> {
            let opened = old(application).next_id;
            &&& final(application).manager.states_view().contains_key(opened)
            &&& final(application).manager.states_view()[opened].state is About
            &&& final(application).manager.states_view()[opened].parent == Some(id)
        },
{
    // The state is taken out of the manager while it is updated, an empty
    // default window state standing in for it.
    let placeholder = WindowState::Default(crate::window::default::State::new());
    match application.manager.replace_state(id, placeholder) {
        Some(WindowState::Main(mut state)) => {
            let _ = state.try_update(&message);
            let _ = application.manager.replace_state(id, WindowState::Main(state));
        },
        Some(other) => {
            let _ = application.manager.replace_state(id, other);
        },
        None => return Err(ApplicationError::Core(CoreError::WindowIdNotFound(id, String::from_str("window_states")))),
    }
    match message {
        Message::MenuBar(menu_bar) => match menu_bar {
            MenuBarMessage::NoAction => Ok(Vec::new()),
            MenuBarMessage::New(window_type) => application.open_thread(window_type),
            MenuBarMessage::Close(window) => try_to_close(application, window),
            MenuBarMessage::CloseAll => application.close_all(),
            MenuBarMessage::Preferences => crate::window::preferences::display(application, id),
            MenuBarMessage::About => crate::window::about::display(application, id),
        },
        Message::Toggle => Ok(Vec::new()),
    }
}

/// Close a main window's thread, first asking what to do with its data
/// where it has unsaved data.
pub fn try_to_close(application: &mut Application, id: WindowId) -> (result: Result<Vec<Command>, ApplicationError>)
    requires
        old(application).wf(),
    ensures
        final(application).wf(),
        !old(application).manager.states_view().contains_key(id) ==> (result matches Err(ApplicationError::Core(
            CoreError::WindowIdNotFound(missing, _),
        )) && missing == id),
        old(application).manager.states_view().contains_key(id) && !(old(application).manager.states_view()[id].state is Main)
            ==> (result matches Err(ApplicationError::Core(CoreError::InvalidWindowTypeMain(window_type)))
            && window_type == state_type(old(application).manager.states_view()[id].state)),
        old(application).manager.states_view().contains_key(id) && (old(application).manager.states_view()[id].state matches
            WindowState::Main(state) && state.unsaved_view()) && result is Ok ==> {
            let opened = old(application).next_id;
            &&& final(application).manager.states_view().contains_key(opened)
            &&& final(application).manager.states_view()[opened].state is UnsavedData
            &&& final(application).manager.states_view()[opened].parent == Some(id)
            &&& final(application).manager.states_view().contains_key(id)
            &&& id != opened ==> final(application).manager.states_view()[id].state == old(application).manager.states_view()[id].state
            &&& result->Ok_0@.len() == 1
            &&& result->Ok_0@[0] matches Command::Window(Action::Open(new_id, _)) && new_id == opened
        },
        old(application).manager.states_view().contains_key(id) && (old(application).manager.states_view()[id].state matches
            WindowState::Main(state) && !state.unsaved_view()) ==> {
            &&& *final(application) == *old(application)
            &&& thread_holding(old(application).manager.threads_view(), id) >= 0 ==> (result matches Ok(commands)
                && commands@ == thread_close_commands(old(application).manager.threads_view(), id))
        },
{
    let (unsaved, name) = match application.manager.state(&id) {
        None => return Err(ApplicationError::Core(CoreError::WindowIdNotFound(id, String::from_str("window_states")))),
        Some(state) => match state.as_main() {
            Some(main) => (main.is_unsaved(), String::from_str(main.name())),
            None => return Err(ApplicationError::Core(CoreError::InvalidWindowTypeMain(state.window_type()))),
        },
    };
    if unsaved {
        return crate::window::unsaved_data::display(application, id, name.as_str());
    }
    application.close_thread(id)
}

} // verus!
