//! The default window: the window shown when nothing is open, with a
//! minimal menu bar. The window manager starts with its state cached.

use crate::application::{last_root_found, Command, State as Application};
use crate::enums::{StringGroup, WindowType};
use crate::error::{ApplicationError, CoreError, WindowId};
use crate::manager::{thread_roots, Action};
use crate::window::WindowState;
use vstd::prelude::*;

verus! {

/// The messages of the default window's menu bar.
#[derive(Debug, Clone, PartialEq, Eq, Structural)]
pub enum MenuBarMessage {
    /// The menu bar button, and buttons that open sub menus.
    NoAction,
    New(WindowType),
    Exit,
    Preferences,
    About,
}

/// The messages of the default window.
#[derive(Debug, Clone, PartialEq, Eq, Structural)]
pub enum Message {
    MenuBar(MenuBarMessage),
}

/// The state of the default window, which holds nothing.
#[derive(Debug)]
pub struct State {}

impl State {
    /// The state.
    pub fn new() -> (state: State) {
        State {}
    }
}

/// Open the default window as a new thread, reusing its cached state
/// where there is one; its strings and the strings shared by main windows
/// are localised first where the cache lacks them.
pub fn display(application: &mut Application) -> (result: Result<Vec<Command>, ApplicationError>)
    requires
        old(application).wf(),
    ensures
        final(application).wf(),
        final(application).localisation == old(application).localisation,
        result matches Ok(commands) ==> {
            let id = old(application).next_id;
            &&& commands@.len() == 1
            &&& commands@[0] matches Command::Window(Action::Open(opened, _)) && opened == id
            &&& final(application).manager.states_view().contains_key(id)
            &&& final(application).manager.states_view()[id].state is Default
            &&& final(application).manager.states_view()[id].parent is None
            &&& final(application).manager.thread_count_view() == old(application).manager.thread_count_view() + 1
            &&& final(application).string_cache.entry(StringGroup::Default) is Some
            &&& final(application).string_cache.entry(StringGroup::MainCommon) is Some
        },
        result matches Err(error) ==> error matches ApplicationError::Core(core) && core is Localiser,
{
    application.cache_strings(StringGroup::Default)?;
    application.cache_strings(StringGroup::MainCommon)?;
    let state = match application.manager.use_reusable(WindowType::Default) {
        Some(state) => state,
        None => WindowState::Default(State::new()),
    };
    Ok(application.spawn_thread(state))
}

/// Handle a message of the default window's menu bar: open a new main
/// window thread, close the window (asking to confirm the exit), or show
/// the preferences or the about window over it.
pub fn try_update(application: &mut Application, id: WindowId, message: Message) -> (result: Result<Vec<Command>, ApplicationError>)
    requires
        old(application).wf(),
    ensures
        final(application).wf(),
        message == Message::MenuBar(MenuBarMessage::NoAction) ==> (result matches Ok(commands) && commands@.len() == 0
            && *final(application) == *old(application)),
        message matches Message::MenuBar(MenuBarMessage::New(window_type)) ==> (window_type != WindowType::Main ==> {
            &&& *final(application) == *old(application)
            &&& result matches Ok(commands) ==> commands@.len() == 0
            &&& if last_root_found(old(application).manager) {
                result is Ok
            } else {
                result matches Err(ApplicationError::Core(CoreError::WindowIdNotFound(missing, _)))
                    && missing == thread_roots(old(application).manager.threads_view()).last()
            }
        }),
        message matches Message::MenuBar(MenuBarMessage::New(window_type)) ==> (window_type == WindowType::Main
            && result is Ok ==> {
            let opened = old(application).next_id;
            &&& final(application).manager.states_view().contains_key(opened)
            &&& final(application).manager.states_view()[opened].state is Main
            &&& final(application).manager.states_view()[opened].parent is None
        }),
        message == Message::MenuBar(MenuBarMessage::Exit) ==> {
            &&& !old(application).manager.states_view().contains_key(id) ==> (result matches Err(ApplicationError::Core(
                CoreError::WindowIdNotFound(missing, _),
            )) && missing == id)
            &&& old(application).manager.states_view().contains_key(id) && old(application).manager.states_view()[id].state is Default
                && result is Ok ==> {
                let opened = old(application).next_id;
                &&& final(application).manager.states_view().contains_key(opened)
                &&& final(application).manager.states_view()[opened].state is ConfirmExit
                &&& final(application).manager.states_view()[opened].parent == Some(id)
            }
        },
        message == Message::MenuBar(MenuBarMessage::Preferences) || message == Message::MenuBar(MenuBarMessage::About) ==> {
            &&& !old(application).manager.states_view().contains_key(id) ==> result is Err
            &&& result is Ok ==> {
                let opened = old(application).next_id;
                &&& final(application).manager.states_view().contains_key(opened)
                &&& final(application).manager.states_view()[opened].parent == Some(id)
                &&& message == Message::MenuBar(MenuBarMessage::Preferences) ==> final(application).manager.states_view()[opened].state is Preferences
                &&& message == Message::MenuBar(MenuBarMessage::About) ==> final(application).manager.states_view()[opened].state is About
            }
        },
        message == Message::MenuBar(MenuBarMessage::About) && old(application).manager.states_view().contains_key(id)
            && old(application).manager.reusable_view(WindowType::About) is Some ==> result is Ok,
{
    match message {
        Message::MenuBar(menu_bar) => match menu_bar {
            MenuBarMessage::NoAction => Ok(Vec::new()),
            MenuBarMessage::New(window_type) => application.open_thread(window_type),
            MenuBarMessage::Exit => application.close_thread(id),
            MenuBarMessage::Preferences => crate::window::preferences::display(application, id),
            MenuBarMessage::About => crate::window::about::display(application, id),
        },
    }
}

} // verus!
