//! The headless application state: the session, the localisation of the
//! user interface, the shared localised strings and the window manager,
//! with the handler of every message of the application.
//!
//! Handling a message yields commands for the runtime to perform: window
//! actions, saving the session, reconfiguring the logger, exiting.

use crate::enums::{StringGroup, WindowType};
use crate::error::{ApplicationError, CoreError, WindowId};
use crate::localisation::{main_common, table_group, Localisation, LocalisedStrings, LocalisedTrait, StringCache};
use crate::manager::{close_actions_reversed, thread_holding, thread_roots, Action, Entry, Manager};
use crate::session::{FloatPair, Session, WindowData};
use crate::vec_option::push_model;
use crate::window::{confirm_exit, fatal_error, main, preferences, state_type, unsaved_data, WindowState, WindowTrait};
use vstd::prelude::*;
use vstd::string::*;

verus! {

/// The messages of the application. Window specific messages are grouped
/// in the messages of their window.
#[derive(Debug, Clone, PartialEq, Eq)]
pub enum Message {
    /// The window's close decoration was pressed.
    CloseRequested(WindowId),
    /// The window was resized to the size given.
    Resized(WindowId, FloatPair),
    /// The window was moved to the position given.
    Moved(WindowId, FloatPair),
    /// Continue initialising once the application state exists.
    Initialise,
    /// The window has opened.
    WindowOpened(WindowId),
    /// The window has closed: its state is removed.
    WindowClosed(WindowId),
    /// Every window of the thread at the index has closed.
    ThreadClosed(usize),
    /// Save the session and exit.
    Exit,
    /// Exit without saving anything.
    Terminate,
    /// Close the window, doing nothing else.
    Close(WindowId),
    UnsavedData(WindowId, unsaved_data::Message),
    Default(WindowId, crate::window::default::Message),
    Main(WindowId, main::Message),
    Preferences(WindowId, preferences::Message),
}

/// What the runtime is to do.
#[derive(Debug, Clone, Copy, PartialEq, Eq, Structural)]
pub enum Command {
    /// A window action.
    Window(Action),
    /// Save the session.
    SaveSession,
    /// Configure the logger again for the log levels of the session's
    /// settings.
    UpdateLogger,
    /// Exit the application.
    Exit,
    /// Print the message naming an uncaught error to the console.
    PrintUncaughtError,
}

/// The window commands of window actions.
pub open spec fn window_commands(actions: Seq<Action>) -> Seq<Command> {
    actions.map_values(|action: Action| Command::Window(action))
}

/// The window commands of window actions.
pub fn to_commands(actions: Vec<Action>) -> (commands: Vec<Command>)
    ensures
        commands@ == window_commands(actions@),
{
    let mut commands: Vec<Command> = Vec::new();
    let mut i: usize = 0;
    while i < actions.len()
        invariant
            i <= actions@.len(),
            commands@ == window_commands(actions@.subrange(0, i as int)),
        decreases actions@.len() - i,
    {
        commands.push(Command::Window(actions[i]));
        assert(commands@ =~= window_commands(actions@.subrange(0, i + 1)));
        i = i + 1;
    }
    assert(actions@.subrange(0, i as int) =~= actions@);
    commands
}

/// Append commands to commands.
pub fn append_commands(commands: &mut Vec<Command>, more: Vec<Command>)
    ensures
        final(commands)@ == old(commands)@ + more@,
{
    let mut i: usize = 0;
    let ghost start = commands@;
    while i < more.len()
        invariant
            i <= more@.len(),
            commands@ == start + more@.subrange(0, i as int),
        decreases more@.len() - i,
    {
        commands.push(more[i]);
        assert(commands@ =~= start + more@.subrange(0, i + 1));
        i = i + 1;
    }
    assert(more@.subrange(0, i as int) =~= more@);
}

/// Whether each table of a string cache holds the strings of its group.
pub open spec fn cache_by_group(cache: StringCache) -> bool {
    forall|g: StringGroup| #[trigger] cache.entry(g) matches Some(t) ==> table_group(t) == g
}

/// The window states after their strings are localised again: the same
/// windows with the same flags and relations; a main window keeps its data
/// and the other states are unchanged.
pub open spec fn relocalised(old_states: Map<WindowId, Entry>, new_states: Map<WindowId, Entry>) -> bool {
    &&& new_states.dom() == old_states.dom()
    &&& forall|k: WindowId| #[trigger] old_states.contains_key(k) ==> relocalised_entry(old_states[k], new_states[k])
}

/// A window's entry after its strings are localised again.
pub open spec fn relocalised_entry(old_entry: Entry, new_entry: Entry) -> bool {
    &&& new_entry.enabled == old_entry.enabled
    &&& new_entry.parent == old_entry.parent
    &&& new_entry.disabled == old_entry.disabled
    &&& !(old_entry.state is Main) ==> new_entry.state == old_entry.state
    &&& old_entry.state matches WindowState::Main(before) ==> (new_entry.state matches WindowState::Main(after)
        && after.name_view() == before.name_view() && after.unsaved_view() == before.unsaved_view())
}

/// Whether no thread's main window is a main window state.
pub open spec fn no_main_root(manager: Manager) -> bool {
    let roots = thread_roots(manager.threads_view());
    forall|j: int| 0 <= j < roots.len() && manager.states_view().contains_key(#[trigger] roots[j])
        ==> !(manager.states_view()[roots[j]].state is Main)
}

/// Whether the main window of every thread has a state.
pub open spec fn all_roots_have_states(manager: Manager) -> bool {
    let roots = thread_roots(manager.threads_view());
    forall|j: int| 0 <= j < roots.len() ==> manager.states_view().contains_key(#[trigger] roots[j])
}

/// Localising one more window keeps the states relocalised.
proof fn lemma_relocalised_step(start: Map<WindowId, Entry>, current: Map<WindowId, Entry>, root: WindowId, state: WindowState)
    requires
        relocalised(start, current),
        current.contains_key(root),
        relocalised_entry(current[root], Entry {
            state,
            enabled: current[root].enabled,
            parent: current[root].parent,
            disabled: current[root].disabled,
        }),
    ensures
        relocalised(start, current.insert(root, Entry {
            state,
            enabled: current[root].enabled,
            parent: current[root].parent,
            disabled: current[root].disabled,
        })),
{
    let next = current.insert(root, Entry {
        state,
        enabled: current[root].enabled,
        parent: current[root].parent,
        disabled: current[root].disabled,
    });
    assert(next.dom() =~= start.dom());
    assert forall|k: WindowId| #[trigger] start.contains_key(k) implies relocalised_entry(start[k], next[k]) by {
        assert(relocalised_entry(start[k], current[k]));
    }
}

/// What taking the message to initialise does: once initialised, nothing
/// and no command; else, on success, the application is initialised.
pub open spec fn initialise_taken(before: State, after: State, result: Result<Vec<Command>, ApplicationError>) -> bool {
    &&& before.initialised ==> (result matches Ok(commands) && commands@.len() == 0 && after == before)
    &&& !before.initialised && result is Ok ==> after.initialised
}

/// Initialising happens once: after the message to initialise has been
/// taken with success, taking it again changes nothing and opens no
/// window.
pub proof fn initialising_again_changes_nothing(
    first: State,
    second: State,
    third: State,
    first_result: Result<Vec<Command>, ApplicationError>,
    second_result: Result<Vec<Command>, ApplicationError>,
)
    requires
        initialise_taken(first, second, first_result),
        first_result is Ok,
        initialise_taken(second, third, second_result),
    ensures
        second_result matches Ok(commands) && commands@.len() == 0,
        third == second,
{
}

/// Whether opening a thread finds what it looks up: there are several
/// threads, or none, or the main window of the last thread has a state.
pub open spec fn last_root_found(manager: Manager) -> bool {
    let roots = thread_roots(manager.threads_view());
    manager.thread_count_view() > 1 || roots.len() == 0 || manager.states_view().contains_key(roots.last())
}

/// The number of threads left once the thread in a slot has closed.
pub open spec fn threads_left(manager: Manager, index: int) -> nat {
    if 0 <= index < manager.threads_view().len() {
        crate::vec_option::take_model(manager.threads_view(), manager.thread_count_view(), index).1
    } else {
        manager.thread_count_view()
    }
}

/// The commands that close the thread holding a window: its windows from
/// the top down, then the thread.
pub open spec fn thread_close_commands(threads: Seq<Option<Seq<WindowId>>>, id: WindowId) -> Seq<Command> {
    let i = thread_holding(threads, id);
    window_commands(close_actions_reversed(threads[i]->0).push(Action::ThreadClosed(i as usize)))
}

/// The threads once a window opens as a new thread of its own, under the
/// next window id.
pub open spec fn threads_after_spawn(application: State) -> Seq<Option<Seq<WindowId>>> {
    push_model(application.manager.threads_view(), application.manager.thread_count_view(), seq![application.next_id]).0
}

/// The commands that close the threads of the listed windows, in order.
pub open spec fn closing_commands(threads: Seq<Option<Seq<WindowId>>>, ids: Seq<WindowId>) -> Seq<Command>
    decreases ids.len(),
{
    if ids.len() == 0 {
        Seq::empty()
    } else {
        closing_commands(threads, ids.drop_last()) + thread_close_commands(threads, ids.last())
    }
}

/// Whether a window is a main window without unsaved data, which closes
/// without asking.
pub open spec fn quietly_closable(states: Map<WindowId, Entry>, id: WindowId) -> bool {
    &&& states.contains_key(id)
    &&& states[id].state matches WindowState::Main(window)
    &&& !window.unsaved_view()
}

/// Whether each of the first `k` listed windows closes without asking.
pub open spec fn quiet_before(states: Map<WindowId, Entry>, ids: Seq<WindowId>, k: int) -> bool {
    forall|j: int| 0 <= j < k ==> quietly_closable(states, #[trigger] ids[j])
}

/// The main window of each thread is held by a thread.
proof fn lemma_roots_are_held(threads: Seq<Option<Seq<WindowId>>>)
    ensures
        forall|j: int| 0 <= j < thread_roots(threads).len() ==> thread_holding(threads, #[trigger] thread_roots(threads)[j]) >= 0,
    decreases threads.len(),
{
    if threads.len() > 0 {
        let before = threads.drop_last();
        lemma_roots_are_held(before);
        let roots = thread_roots(threads);
        assert forall|j: int| 0 <= j < roots.len() implies thread_holding(threads, #[trigger] roots[j]) >= 0 by {
            if j < thread_roots(before).len() {
                assert(roots[j] == thread_roots(before)[j]);
                assert(thread_holding(before, thread_roots(before)[j]) >= 0);
            } else {
                let ids = threads.last()->0;
                assert(roots[j] == ids[0]);
                assert(ids.contains(ids[0]));
            }
        }
    }
}

/// Whether a string group's strings are localised by the application
/// itself (the groups with a table of their own).
pub open spec fn localisable_group(group: StringGroup) -> bool {
    group == StringGroup::Default || group == StringGroup::MainCommon || group == StringGroup::UnsavedData
        || group == StringGroup::Preferences
}

/// Whether the application can take a message: a message for the
/// preferences window, or a request to close it, which cancels the
/// preferences, is one the window can take.
pub open spec fn message_accepted(application: State, message: Message) -> bool {
    match message {
        Message::Preferences(id, inner) => preferences::update_accepted(application, id, inner),
        Message::CloseRequested(id) => application.manager.states_view().contains_key(id)
            && application.manager.states_view()[id].state is Preferences
            ==> preferences::update_accepted(application, id, preferences::Message::Cancel),
        _ => true,
    }
}

/// Whether the application can take a message.
pub fn is_message_accepted(application: &State, message: &Message) -> (accepted: bool)
    requires
        application.wf(),
    ensures
        accepted == message_accepted(*application, *message),
{
    match message {
        Message::Preferences(id, inner) => preferences::is_update_accepted(application, *id, inner),
        Message::CloseRequested(id) => match application.manager.state(id) {
            Some(WindowState::Preferences(_)) => preferences::is_update_accepted(application, *id, &preferences::Message::Cancel),
            _ => true,
        },
        _ => true,
    }
}

/// The application state. It has no window of its own: it holds what the
/// windows share and hands each window's messages to it.
pub struct State {
    /// Whether the first window has been opened.
    pub initialised: bool,
    /// Data that persists between runs.
    pub session: Session,
    /// The localisation of the user interface.
    pub localisation: Localisation,
    /// The shared localised strings.
    pub string_cache: StringCache,
    /// The window manager.
    pub manager: Manager,
    /// Whether the application is running for the first time.
    pub first_use: bool,
    /// The identifier the next window opened takes.
    pub next_id: WindowId,
    /// The authors of the application, comma separated.
    pub authors: String,
}

impl State {
    /// The parts are well formed, and each string group's table holds the
    /// strings of that group.
    pub open spec fn wf(&self) -> bool {
        &&& self.session.windows.wf()
        &&& self.localisation.wf()
        &&& self.string_cache.wf()
        &&& self.manager.wf()
        &&& cache_by_group(self.string_cache)
    }

    /// The application state for a session and a localisation, with no
    /// window yet; `first_use` tells that no saved session was found, and
    /// `authors` lists the application's authors (comma separated).
    pub fn new(session: Session, localisation: Localisation, first_use: bool, authors: String) -> (result: Result<
        State,
        ApplicationError,
    >)
        requires
            session.windows.wf(),
            localisation.wf(),
        ensures
            result matches Ok(state) && {
                &&& state.wf()
                &&& state.session == session
                &&& state.localisation == localisation
                &&& state.first_use == first_use
                &&& !state.initialised
                &&& state.manager.states_view() == Map::<WindowId, crate::manager::Entry>::empty()
                &&& state.manager.thread_count_view() == 0
                &&& forall|g: StringGroup| #[trigger] state.string_cache.entry(g) is None
            },
    {
        let string_cache = match StringCache::try_new() {
            Ok(cache) => cache,
            Err(error) => return Err(ApplicationError::Core(error)),
        };
        let manager = Manager::try_new()?;
        Ok(State { initialised: false, session, localisation, string_cache, manager, first_use, next_id: 1, authors })
    }

    /// Whether the application is running for the first time.
    pub fn first_use(&self) -> (first_use: bool)
        ensures
            first_use == self.first_use,
    {
        self.first_use
    }

    /// The authors of the application.
    pub fn authors(&self) -> (authors: &str)
        ensures
            authors@ == self.authors@,
    {
        self.authors.as_str()
    }

    /// Localise the strings of a string group into the cache, unless it
    /// holds them already.
    pub fn cache_strings(&mut self, group: StringGroup) -> (result: Result<(), ApplicationError>)
        requires
            old(self).wf(),
            localisable_group(group),
        ensures
            final(self).wf(),
            final(self).session == old(self).session,
            final(self).localisation == old(self).localisation,
            final(self).manager == old(self).manager,
            final(self).next_id == old(self).next_id,
            final(self).first_use == old(self).first_use,
            final(self).initialised == old(self).initialised,
            old(self).string_cache.entry(group) is Some ==> final(self).string_cache == old(self).string_cache && result is Ok,
            old(self).string_cache.entry(group) is None ==> match result {
                Ok(()) => {
                    &&& final(self).string_cache.entry(group) matches Some(t)
                    &&& t.tag() == old(self).localisation.language()
                    &&& forall|g: StringGroup| g != group ==> #[trigger] final(self).string_cache.entry(g) == old(self).string_cache.entry(g)
                },
                Err(error) => error matches ApplicationError::Core(core) && core is Localiser
                    && final(self).string_cache == old(self).string_cache,
            },
    {
        if self.string_cache.contains_group(&group) {
            return Ok(());
        }
        let strings = match group {
            StringGroup::Default => match crate::localisation::default::Strings::try_new(&self.localisation) {
                Ok(strings) => LocalisedStrings::Default(strings),
                Err(error) => return Err(ApplicationError::Core(error)),
            },
            StringGroup::MainCommon => match main_common::Strings::try_new(&self.localisation) {
                Ok(strings) => LocalisedStrings::MainCommon(strings),
                Err(error) => return Err(ApplicationError::Core(error)),
            },
            StringGroup::UnsavedData => match crate::localisation::unsaved_data::Strings::try_new(&self.localisation) {
                Ok(strings) => LocalisedStrings::UnsavedData(strings),
                Err(error) => return Err(ApplicationError::Core(error)),
            },
            _ => match crate::localisation::preferences::Strings::try_new(&self.localisation) {
                Ok(strings) => LocalisedStrings::Preferences(strings),
                Err(error) => return Err(ApplicationError::Core(error)),
            },
        };
        self.string_cache.insert(group, strings);
        Ok(())
    }

    /// Open a window over its parent window.
    pub fn spawn(&mut self, state: WindowState, parent: WindowId) -> (result: Result<Vec<Command>, ApplicationError>)
        requires
            old(self).wf(),
        ensures
            final(self).wf(),
            final(self).localisation == old(self).localisation,
            final(self).string_cache == old(self).string_cache,
            final(self).first_use == old(self).first_use,
            final(self).initialised == old(self).initialised,
            !old(self).manager.states_view().contains_key(parent) ==> (result matches Err(ApplicationError::Core(
                CoreError::WindowIdNotFound(missing, _),
            )) && missing == parent),
            old(self).manager.states_view().contains_key(parent) ==> {
                let id = old(self).next_id;
                &&& result matches Ok(commands)
                &&& commands@.len() == 1
                &&& commands@[0] matches Command::Window(Action::Open(opened, _)) && opened == id
                &&& final(self).manager.states_view().contains_key(id)
                &&& final(self).manager.states_view()[id].state == state
                &&& final(self).manager.states_view()[id].parent == Some(parent)
                &&& final(self).manager.states_view()[id].enabled
                &&& final(self).manager.thread_count_view() == old(self).manager.thread_count_view()
                &&& final(self).manager.states_view().contains_key(parent)
                &&& parent != id ==> final(self).manager.states_view()[parent].state == old(self).manager.states_view()[parent].state
            },
    {
        let id = self.fresh_id();
        match self.manager.try_create_window(&mut self.session, state, parent, id) {
            Ok(action) => {
                let mut commands: Vec<Command> = Vec::new();
                commands.push(Command::Window(action));
                Ok(commands)
            },
            Err(error) => Err(ApplicationError::Core(error)),
        }
    }

    /// Open a window as the main window of a new thread.
    pub fn spawn_thread(&mut self, state: WindowState) -> (commands: Vec<Command>)
        requires
            old(self).wf(),
        ensures
            final(self).wf(),
            final(self).localisation == old(self).localisation,
            final(self).string_cache == old(self).string_cache,
            final(self).first_use == old(self).first_use,
            final(self).initialised == old(self).initialised,
            ({
                let id = old(self).next_id;
                &&& commands@.len() == 1
                &&& commands@[0] matches Command::Window(Action::Open(opened, _)) && opened == id
                &&& final(self).manager.states_view().contains_key(id)
                &&& final(self).manager.states_view()[id].state == state
                &&& final(self).manager.states_view()[id].parent is None
                &&& final(self).manager.thread_count_view() == old(self).manager.thread_count_view() + 1
                &&& final(self).manager.threads_view() == threads_after_spawn(*old(self))
            }),
    {
        let id = self.fresh_id();
        let action = self.manager.try_create_thread(&mut self.session, state, id).unwrap();
        let mut commands: Vec<Command> = Vec::new();
        commands.push(Command::Window(action));
        commands
    }

    /// Localise again the strings the main window of each thread holds
    /// itself, in the order of the threads; `id` is the window that asked,
    /// named where a thread's main window has no state. The first error
    /// stops the work.
    pub fn localise_threads(&mut self, id: WindowId) -> (result: Result<(), ApplicationError>)
        requires
            old(self).wf(),
        ensures
            final(self).wf(),
            final(self).session == old(self).session,
            final(self).localisation == old(self).localisation,
            final(self).string_cache == old(self).string_cache,
            final(self).manager.states_view().dom() == old(self).manager.states_view().dom(),
            final(self).manager.thread_count_view() == old(self).manager.thread_count_view(),
            final(self).manager.same_threads(old(self).manager),
            final(self).manager.same_reusable(old(self).manager),
            final(self).next_id == old(self).next_id,
            final(self).first_use == old(self).first_use,
            final(self).initialised == old(self).initialised,
            relocalised(old(self).manager.states_view(), final(self).manager.states_view()),
            result matches Err(error) ==> (error matches ApplicationError::Core(CoreError::WindowIdNotFound(missing, field))
                && missing == id && field@ == "window_states"@) || (error matches ApplicationError::Core(core)
                && core is Localiser),
            no_main_root(old(self).manager) ==> {
                &&& final(self).manager.states_view() == old(self).manager.states_view()
                &&& (result is Ok <==> all_roots_have_states(old(self).manager))
                &&& result is Err ==> (result matches Err(ApplicationError::Core(CoreError::WindowIdNotFound(missing, _)))
                    && missing == id)
            },
    {
        let ghost start = self.manager.states_view();
        let ghost rs = thread_roots(self.manager.threads_view());
        let roots = self.manager.thread_list();
        let mut i: usize = 0;
        while i < roots.len()
            invariant
                i <= roots@.len(),
                roots@ == rs,
                rs == thread_roots(old(self).manager.threads_view()),
                start == old(self).manager.states_view(),
                self.wf(),
                self.session == old(self).session,
                self.localisation == old(self).localisation,
                self.string_cache == old(self).string_cache,
                self.manager.states_view().dom() == old(self).manager.states_view().dom(),
                self.manager.thread_count_view() == old(self).manager.thread_count_view(),
                self.manager.same_threads(old(self).manager),
                self.manager.same_reusable(old(self).manager),
                self.next_id == old(self).next_id,
                self.first_use == old(self).first_use,
                self.initialised == old(self).initialised,
                relocalised(start, self.manager.states_view()),
                no_main_root(old(self).manager) ==> self.manager.states_view() == start,
                forall|j: int| 0 <= j < i ==> start.contains_key(#[trigger] rs[j]),
            decreases roots@.len() - i,
        {
            let root = roots[i];
            let ghost current = self.manager.states_view();
            // The state is taken out of the manager while it is updated, an empty
            // default window state standing in for it.
            let placeholder = WindowState::Default(crate::window::default::State::new());
            let mut state = match self.manager.replace_state(root, placeholder) {
                Some(state) => state,
                None => {
                    proof {
                        if all_roots_have_states(old(self).manager) {
                            assert(start.contains_key(rs[i as int]));
                        }
                    }
                    return Err(ApplicationError::Core(CoreError::WindowIdNotFound(id, String::from_str("window_states"))));
                },
            };
            let ghost before = state;
            let outcome = state.try_localise(&self.localisation);
            let _ = self.manager.replace_state(root, state);
            proof {
                let entry = current[root];
                assert(self.manager.states_view() == current.insert(
                    root,
                    Entry { state, enabled: entry.enabled, parent: entry.parent, disabled: entry.disabled },
                ));
                lemma_relocalised_step(start, current, root, state);
                if no_main_root(old(self).manager) {
                    assert(start.contains_key(rs[i as int]));
                    assert(!(before is Main));
                    assert(self.manager.states_view() =~= current);
                }
            }
            match outcome {
                Ok(()) => {},
                Err(error) => return Err(error),
            }
            i = i + 1;
        }
        Ok(())
    }

    /// The window was resized: the session keeps the size for its window
    /// type.
    pub fn resized(&mut self, id: &WindowId, size: FloatPair) -> (result: Result<Vec<Command>, CoreError>)
        requires
            old(self).wf(),
        ensures
            final(self).wf(),
            final(self).manager == old(self).manager,
            final(self).string_cache == old(self).string_cache,
            final(self).session.settings == old(self).session.settings,
            !old(self).manager.states_view().contains_key(*id) ==> (result matches Err(CoreError::WindowIdNotFound(missing, field))
                && missing == *id && field@ == "Manager.states"@),
            old(self).manager.states_view().contains_key(*id) ==> {
                let window_type = state_type(old(self).manager.states_view()[*id].state);
                match old(self).session.windows.entry(window_type) {
                    None => result matches Err(CoreError::WindowTypeNotFound(t, field)) && t == window_type
                        && field@ == "session.windows"@,
                    Some(data) => {
                        &&& result matches Ok(commands) && commands@.len() == 0
                        &&& final(self).session.windows.entry(window_type) == Some(WindowData { size, position: data.position })
                        &&& forall|t: WindowType| t != window_type ==> #[trigger] final(self).session.windows.entry(t)
                            == old(self).session.windows.entry(t)
                    },
                }
            },
    {
        let window_type = match self.manager.state(id) {
            Some(state) => state.window_type(),
            None => return Err(CoreError::WindowIdNotFound(*id, String::from_str("Manager.states"))),
        };
        match self.session.windows.get(window_type) {
            Some(data) => {
                self.session.windows.insert(window_type, WindowData { size, position: data.position });
                Ok(Vec::new())
            },
            None => Err(CoreError::WindowTypeNotFound(window_type, String::from_str("session.windows"))),
        }
    }

    /// The window was moved: the session keeps the position for its window
    /// type.
    pub fn moved(&mut self, id: &WindowId, position: FloatPair) -> (result: Result<Vec<Command>, CoreError>)
        requires
            old(self).wf(),
        ensures
            final(self).wf(),
            final(self).manager == old(self).manager,
            final(self).string_cache == old(self).string_cache,
            final(self).session.settings == old(self).session.settings,
            !old(self).manager.states_view().contains_key(*id) ==> (result matches Err(CoreError::WindowIdNotFound(missing, field))
                && missing == *id && field@ == "window_states"@),
            old(self).manager.states_view().contains_key(*id) ==> {
                let window_type = state_type(old(self).manager.states_view()[*id].state);
                match old(self).session.windows.entry(window_type) {
                    None => result matches Err(CoreError::WindowTypeNotFound(t, field)) && t == window_type
                        && field@ == "session.windows"@,
                    Some(data) => {
                        &&& result matches Ok(commands) && commands@.len() == 0
                        &&& final(self).session.windows.entry(window_type) == Some(WindowData { size: data.size, position: Some(position) })
                        &&& forall|t: WindowType| t != window_type ==> #[trigger] final(self).session.windows.entry(t)
                            == old(self).session.windows.entry(t)
                    },
                }
            },
    {
        let window_type = match self.manager.state(id) {
            Some(state) => state.window_type(),
            None => return Err(CoreError::WindowIdNotFound(*id, String::from_str("window_states"))),
        };
        match self.session.windows.get(window_type) {
            Some(data) => {
                self.session.windows.insert(window_type, WindowData { size: data.size, position: Some(position) });
                Ok(Vec::new())
            },
            None => Err(CoreError::WindowTypeNotFound(window_type, String::from_str("session.windows"))),
        }
    }

    /// Open a new thread of the window type (only main windows open
    /// threads). Where the only thread is the default window's, it closes
    /// once the main window is open.
    pub fn open_thread(&mut self, window_type: WindowType) -> (result: Result<Vec<Command>, ApplicationError>)
        requires
            old(self).wf(),
        ensures
            final(self).wf(),
            window_type != WindowType::Main ==> *final(self) == *old(self) && (result matches Ok(commands) ==> commands@.len()
                == 0),
            window_type != WindowType::Main ==> if last_root_found(old(self).manager) {
                result is Ok
            } else {
                result matches Err(ApplicationError::Core(CoreError::WindowIdNotFound(missing, field)))
                    && missing == thread_roots(old(self).manager.threads_view()).last() && field@ == "Manager.states"@
            },
            window_type == WindowType::Main && result is Ok ==> {
                let id = old(self).next_id;
                &&& final(self).manager.states_view().contains_key(id)
                &&& final(self).manager.states_view()[id].state is Main
                &&& final(self).manager.states_view()[id].parent is None
            },
            window_type == WindowType::Main && result is Ok ==> {
                let commands = result->Ok_0@;
                let roots = thread_roots(old(self).manager.threads_view());
                let states = old(self).manager.states_view();
                let closes_default = old(self).manager.thread_count_view() <= 1 && roots.len() > 0 && states.contains_key(
                    roots.last(),
                ) && states[roots.last()].state is Default;
                &&& commands.len() >= 1
                &&& commands[0] matches Command::Window(Action::Open(new_id, _)) && new_id == old(self).next_id
                &&& closes_default ==> commands.subrange(1, commands.len() as int) == thread_close_commands(
                    threads_after_spawn(*old(self)),
                    roots.last(),
                )
                &&& closes_default && roots.last() != old(self).next_id ==> commands.subrange(1, commands.len() as int)
                    == thread_close_commands(old(self).manager.threads_view(), roots.last())
                &&& !closes_default ==> commands.len() == 1
            },
    {
        if self.manager.thread_count() > 1 {
            return match window_type {
                WindowType::Main => main::display(self),
                _ => Ok(Vec::new()),
            };
        }
        let mut roots = self.manager.thread_list();
        let root = roots.pop();
        let is_default = match root {
            Some(id) => match self.manager.state(&id) {
                Some(state) => state.window_type() == WindowType::Default,
                None => return Err(ApplicationError::Core(CoreError::WindowIdNotFound(id, String::from_str("Manager.states")))),
            },
            None => false,
        };
        proof {
            self.manager.lemma_threads_counted();
            let threads = self.manager.threads_view();
            if thread_roots(threads).len() > 0 && thread_roots(threads).last() != self.next_id {
                crate::manager::new_thread_keeps_other_threads(
                    threads,
                    self.manager.thread_count_view(),
                    self.next_id,
                    thread_roots(threads).last(),
                );
            }
        }
        match window_type {
            WindowType::Main => {
                let mut commands = main::display(self)?;
                if is_default {
                    let id = root.unwrap();
                    let closing = match self.manager.close_thread(id) {
                        Ok(actions) => actions,
                        Err(error) => return Err(ApplicationError::Core(error)),
                    };
                    append_commands(&mut commands, to_commands(closing));
                }
                Ok(commands)
            },
            _ => Ok(Vec::new()),
        }
    }

    /// Close a thread: the default window's thread asks to confirm the
    /// exit first.
    pub fn close_thread(&mut self, id: WindowId) -> (result: Result<Vec<Command>, ApplicationError>)
        requires
            old(self).wf(),
        ensures
            final(self).wf(),
            !old(self).manager.states_view().contains_key(id) ==> (result matches Err(ApplicationError::Core(
                CoreError::WindowIdNotFound(missing, field),
            )) && missing == id && field@ == "Manager.states"@),
            old(self).manager.states_view().contains_key(id) && old(self).manager.states_view()[id].state is Default
                && result is Ok ==> {
                let opened = old(self).next_id;
                &&& final(self).manager.states_view().contains_key(opened)
                &&& final(self).manager.states_view()[opened].state is ConfirmExit
                &&& final(self).manager.states_view()[opened].parent == Some(id)
            },
            old(self).manager.states_view().contains_key(id) && !(old(self).manager.states_view()[id].state is Default)
                ==> *final(self) == *old(self),
            old(self).manager.states_view().contains_key(id) && !(old(self).manager.states_view()[id].state is Default)
                && thread_holding(old(self).manager.threads_view(), id) >= 0 ==> (result matches Ok(commands)
                && commands@ == thread_close_commands(old(self).manager.threads_view(), id)),
    {
        let is_default = match self.manager.state(&id) {
            Some(state) => state.window_type() == WindowType::Default,
            None => return Err(ApplicationError::Core(CoreError::WindowIdNotFound(id, String::from_str("Manager.states")))),
        };
        if is_default {
            confirm_exit::display(self, id)
        } else {
            match self.manager.close_thread(id) {
                Ok(actions) => Ok(to_commands(actions)),
                Err(error) => Err(ApplicationError::Core(error)),
            }
        }
    }

    /// Save the session, and exit (unsaved data is not saved).
    pub fn exit(&mut self) -> (commands: Vec<Command>)
        ensures
            commands@ == seq![Command::SaveSession, Command::Exit],
            *final(self) == *old(self),
    {
        let mut commands: Vec<Command> = Vec::new();
        commands.push(Command::SaveSession);
        commands.push(Command::Exit);
        commands
    }

    /// Close every thread, each of which has a main window: a window with
    /// unsaved data asks what to do with it first.
    pub fn close_all(&mut self) -> (result: Result<Vec<Command>, ApplicationError>)
        requires
            old(self).wf(),
        ensures
            final(self).wf(),
            ({
                let threads = old(self).manager.threads_view();
                let roots = thread_roots(threads);
                let states = old(self).manager.states_view();
                &&& quiet_before(states, roots, roots.len() as int) ==> (result matches Ok(commands)
                    && commands@ == closing_commands(threads, roots) && *final(self) == *old(self))
                &&& forall|k: int| 0 <= k < roots.len() && #[trigger] quiet_before(states, roots, k)
                    && !states.contains_key(roots[k]) ==> (result matches Err(ApplicationError::Core(
                    CoreError::WindowIdNotFound(missing, field),
                )) && missing == roots[k] && field@ == "window_states"@ && *final(self) == *old(self))
                &&& forall|k: int| 0 <= k < roots.len() && #[trigger] quiet_before(states, roots, k)
                    && states.contains_key(roots[k]) && !(states[roots[k]].state is Main) ==> (result matches Err(
                    ApplicationError::Core(CoreError::InvalidWindowTypeMain(window_type)),
                ) && window_type == state_type(states[roots[k]].state) && *final(self) == *old(self))
            }),
    {
        let roots = self.manager.thread_list();
        let ghost threads = self.manager.threads_view();
        let ghost states = self.manager.states_view();
        proof {
            lemma_roots_are_held(threads);
        }
        let mut commands: Vec<Command> = Vec::new();
        let mut i: usize = 0;
        while i < roots.len()
            invariant
                i <= roots@.len(),
                self.wf(),
                threads == old(self).manager.threads_view(),
                states == old(self).manager.states_view(),
                roots@ == thread_roots(threads),
                forall|j: int| 0 <= j < roots@.len() ==> thread_holding(threads, #[trigger] roots@[j]) >= 0,
                forall|k: int| 0 <= k < i && #[trigger] quiet_before(states, roots@, k) ==> states.contains_key(roots@[k])
                    && states[roots@[k]].state is Main,
                quiet_before(states, roots@, i as int) ==> *self == *old(self) && commands@ == closing_commands(
                    threads,
                    roots@.subrange(0, i as int),
                ),
            decreases roots@.len() - i,
        {
            let id = roots[i];
            let is_main = match self.manager.state(&id) {
                Some(state) => match state.window_type() {
                    WindowType::Main => true,
                    other => return Err(ApplicationError::Core(CoreError::InvalidWindowTypeMain(other))),
                },
                None => return Err(ApplicationError::Core(CoreError::WindowIdNotFound(id, String::from_str("window_states")))),
            };
            let ghost quiet = quiet_before(states, roots@, i as int);
            let ghost before = commands@;
            if is_main {
                let more = main::try_to_close(self, id)?;
                append_commands(&mut commands, more);
            }
            proof {
                assert(roots@.subrange(0, i + 1).drop_last() =~= roots@.subrange(0, i as int));
                if quiet_before(states, roots@, i + 1) {
                    assert(quietly_closable(states, roots@[i as int]));
                    assert(quiet_before(states, roots@, i as int));
                }
            }
            i = i + 1;
        }
        proof {
            assert(roots@.subrange(0, i as int) =~= roots@);
        }
        Ok(commands)
    }

    /// Open the first window: the preferences window, as a thread of its
    /// own, on the first use of the application, else the default window.
    fn initialise(&mut self) -> (result: Result<Vec<Command>, ApplicationError>)
        requires
            old(self).wf(),
        ensures
            final(self).wf(),
            old(self).initialised ==> (result matches Ok(commands) && commands@.len() == 0 && *final(self) == *old(self)),
            !old(self).initialised && result is Ok ==> {
                let id = old(self).next_id;
                &&& final(self).initialised
                &&& final(self).manager.states_view().contains_key(id)
                &&& old(self).first_use ==> (final(self).manager.states_view()[id].state matches WindowState::Preferences(state)
                    && state.first_use_view())
                &&& !old(self).first_use ==> final(self).manager.states_view()[id].state is Default
            },
    {
        if self.initialised {
            return Ok(Vec::new());
        }
        let commands = if self.first_use {
            self.cache_strings(StringGroup::Preferences)?;
            let state = preferences::State::try_new(&self.localisation, &self.string_cache, &self.session.settings, true)?;
            self.spawn_thread(WindowState::Preferences(state))
        } else {
            crate::window::default::display(self)?
        };
        self.initialised = true;
        Ok(commands)
    }

    /// Handle a message of the application, handing window messages to
    /// their window.
    pub fn try_update(&mut self, message: Message) -> (result: Result<Vec<Command>, ApplicationError>)
        requires
            old(self).wf(),
            message_accepted(*old(self), message),
        ensures
            final(self).wf(),
            message == Message::Exit ==> (result matches Ok(commands) && commands@ == seq![Command::SaveSession, Command::Exit]
                && *final(self) == *old(self)),
            message == Message::Terminate ==> (result matches Ok(commands) && commands@ == seq![Command::Exit]
                && *final(self) == *old(self)),
            message matches Message::WindowOpened(_) ==> (result matches Ok(commands) && commands@.len() == 0
                && *final(self) == *old(self)),
            message matches Message::Close(id) ==> (result matches Ok(commands) && commands@ == seq![
                Command::Window(Action::Close(id)),
                Command::Window(Action::Closed(id)),
            ]),
            message matches Message::WindowClosed(id) ==> (old(self).manager.states_view().contains_key(id) <==> result is Ok)
                && !final(self).manager.states_view().contains_key(id) && (result matches Ok(commands) ==> commands@.len() == 0),
            message matches Message::CloseRequested(id) ==> {
                &&& !old(self).manager.states_view().contains_key(id) ==> {
                    &&& result matches Ok(commands) && commands@.len() >= 1 && commands@[0] == Command::Window(
                        Action::Open(old(self).next_id, commands@[0]->Window_0->Open_1),
                    )
                    &&& final(self).manager.states_view().contains_key(old(self).next_id)
                    &&& final(self).manager.states_view()[old(self).next_id].state is FatalError
                }
                &&& old(self).manager.states_view().contains_key(id) && !old(self).manager.states_view()[id].enabled
                    ==> (result matches Ok(commands) && commands@.len() == 0 && *final(self) == *old(self))
                &&& old(self).manager.states_view().contains_key(id) && old(self).manager.states_view()[id].enabled
                    && old(self).manager.states_view()[id].state is FatalError ==> (result matches Ok(commands)
                    && commands@ == seq![Command::Exit] && *final(self) == *old(self))
                &&& old(self).manager.states_view().contains_key(id) && old(self).manager.states_view()[id].enabled && {
                    let state = old(self).manager.states_view()[id].state;
                    !(state is Default) && !(state is Main) && !(state is FatalError) && !(state is Preferences)
                } ==> (result matches Ok(commands) && commands@ == seq![
                    Command::Window(Action::Close(id)),
                    Command::Window(Action::Closed(id)),
                ] && *final(self) == *old(self))
                &&& old(self).manager.states_view().contains_key(id) && old(self).manager.states_view()[id].enabled
                    && old(self).manager.states_view()[id].state is Default && result is Ok ==> {
                    let opened = old(self).next_id;
                    &&& final(self).manager.states_view().contains_key(opened)
                    &&& final(self).manager.states_view()[opened].state is ConfirmExit
                    &&& final(self).manager.states_view()[opened].parent == Some(id)
                }
                &&& old(self).manager.states_view().contains_key(id) && old(self).manager.states_view()[id].enabled
                    && (old(self).manager.states_view()[id].state matches WindowState::Main(state) && !state.unsaved_view())
                    && thread_holding(old(self).manager.threads_view(), id) >= 0 ==> (result matches Ok(commands)
                    && commands@ == thread_close_commands(old(self).manager.threads_view(), id) && *final(self) == *old(self))
                &&& old(self).manager.states_view().contains_key(id) && old(self).manager.states_view()[id].enabled
                    && (old(self).manager.states_view()[id].state matches WindowState::Main(state) && state.unsaved_view())
                    && result is Ok ==> {
                    let opened = old(self).next_id;
                    &&& final(self).manager.states_view().contains_key(opened)
                    &&& final(self).manager.states_view()[opened].state is UnsavedData
                    &&& final(self).manager.states_view()[opened].parent == Some(id)
                    &&& final(self).manager.states_view().contains_key(id)
                    &&& result->Ok_0@.len() == 1
                    &&& result->Ok_0@[0] matches Command::Window(Action::Open(new_id, _)) && new_id == opened
                }
                &&& old(self).manager.states_view().contains_key(id) && old(self).manager.states_view()[id].enabled
                    && (old(self).manager.states_view()[id].state matches WindowState::Preferences(state) && !state.first_use_view()
                    && !state.language_tab().changed_view() && state.language_tab().original_view()
                    == state.language_tab().selected_view()) ==> (result matches Ok(commands) && commands@ == seq![
                    Command::Window(Action::Close(id)),
                    Command::Window(Action::Closed(id)),
                ])
            },
            message matches Message::ThreadClosed(index) ==> {
                &&& threads_left(old(self).manager, index as int) > 0 ==> (result matches Ok(commands) && commands@.len()
                    == 0)
                &&& threads_left(old(self).manager, index as int) == 0 && result is Ok ==> {
                    let id = old(self).next_id;
                    &&& final(self).manager.thread_count_view() == 1
                    &&& final(self).manager.states_view().contains_key(id)
                    &&& final(self).manager.states_view()[id].state is Default
                    &&& final(self).manager.states_view()[id].parent is None
                }
                &&& result matches Err(error) ==> error matches ApplicationError::Core(core) && core is Localiser
            },
            message == Message::Initialise ==> initialise_taken(*old(self), *final(self), result),
            message == Message::Initialise && old(self).initialised ==> (result matches Ok(commands) && commands@.len() == 0
                && *final(self) == *old(self)),
            message == Message::Initialise && !old(self).initialised && result is Ok ==> {
                let id = old(self).next_id;
                &&& final(self).initialised
                &&& final(self).manager.states_view().contains_key(id)
                &&& old(self).first_use ==> (final(self).manager.states_view()[id].state matches WindowState::Preferences(state)
                    && state.first_use_view())
                &&& !old(self).first_use ==> final(self).manager.states_view()[id].state is Default
            },
    {
        match message {
            Message::CloseRequested(id) => {
                let (window_type, enabled) = match self.manager.state(&id) {
                    Some(state) => (state.window_type(), self.manager.is_enabled(&id).unwrap()),
                    None => {
                        let error = ApplicationError::Core(CoreError::WindowIdNotFound(id, String::from_str("window_states")));
                        return Ok(fatal_error::display(self, error));
                    },
                };
                if !enabled {
                    return Ok(Vec::new());
                }
                match window_type {
                    WindowType::Default => self.close_thread(id),
                    WindowType::Main => main::try_to_close(self, id),
                    WindowType::FatalError => {
                        let mut commands: Vec<Command> = Vec::new();
                        commands.push(Command::Exit);
                        Ok(commands)
                    },
                    WindowType::Preferences => preferences::cancel_and_close(self, id),
                    _ => Ok(to_commands(self.manager.close_window(id).unwrap())),
                }
            },
            Message::Resized(id, size) => match self.resized(&id, size) {
                Ok(commands) => Ok(commands),
                Err(error) => Err(ApplicationError::Core(error)),
            },
            Message::Moved(id, position) => match self.moved(&id, position) {
                Ok(commands) => Ok(commands),
                Err(error) => Err(ApplicationError::Core(error)),
            },
            Message::Initialise => self.initialise(),
            Message::WindowOpened(_) => Ok(Vec::new()),
            Message::WindowClosed(id) => match self.manager.window_closed(id) {
                Ok(()) => Ok(Vec::new()),
                Err(error) => Err(ApplicationError::Core(error)),
            },
            Message::ThreadClosed(index) => {
                let _ = self.manager.thread_closed(index);
                if self.manager.thread_count() == 0 {
                    crate::window::default::display(self)
                } else {
                    Ok(Vec::new())
                }
            },
            Message::Exit => Ok(self.exit()),
            Message::Terminate => {
                let mut commands: Vec<Command> = Vec::new();
                commands.push(Command::Exit);
                Ok(commands)
            },
            Message::Close(id) => Ok(to_commands(self.manager.close_window(id).unwrap())),
            Message::UnsavedData(id, inner) => unsaved_data::try_update(self, id, inner),
            Message::Default(id, inner) => crate::window::default::try_update(self, id, inner),
            Message::Main(id, inner) => main::try_update(self, id, inner),
            Message::Preferences(id, inner) => preferences::try_update(self, id, inner),
        }
    }

    /// Handle a message of the application; an error no handler caught
    /// shows the fatal error window.
    pub fn update(&mut self, message: Message) -> (commands: Vec<Command>)
        requires
            old(self).wf(),
            message_accepted(*old(self), message),
        ensures
            final(self).wf(),
            message == Message::Exit ==> commands@ == seq![Command::SaveSession, Command::Exit] && *final(self) == *old(self),
            message == Message::Terminate ==> commands@ == seq![Command::Exit] && *final(self) == *old(self),
            message matches Message::WindowOpened(_) ==> commands@.len() == 0 && *final(self) == *old(self),
            message matches Message::Close(id) ==> commands@ == seq![
                Command::Window(Action::Close(id)),
                Command::Window(Action::Closed(id)),
            ],
            message matches Message::WindowClosed(id) ==> (old(self).manager.states_view().contains_key(id)
                ==> commands@.len() == 0 && !final(self).manager.states_view().contains_key(id)),
    {
        match self.try_update(message) {
            Ok(commands) => commands,
            Err(error) => fatal_error::display(self, error),
        }
    }

    /// The identifier for a window about to open; the next one follows it.
    pub fn fresh_id(&mut self) -> (id: WindowId)
        ensures
            id == old(self).next_id,
            final(self).next_id == id.wrapping_add(1),
            final(self).session == old(self).session,
            final(self).localisation == old(self).localisation,
            final(self).string_cache == old(self).string_cache,
            final(self).manager == old(self).manager,
            final(self).first_use == old(self).first_use,
            final(self).initialised == old(self).initialised,
    {
        let id = self.next_id;
        self.next_id = self.next_id.wrapping_add(1);
        id
    }
}

} // verus!
