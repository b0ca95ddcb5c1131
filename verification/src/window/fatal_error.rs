//! The fatal error window: the final window displayed, with every other
//! window disabled.

use crate::application::{Command, State as Application};
use crate::enums::StringGroup;
use crate::error::ApplicationError;
use crate::localisation::{LocalisedStrings, LocalisedTrait};
use vstd::prelude::*;

verus! {

/// The state of the fatal error window, which holds nothing.
#[derive(Debug)]
pub struct State {}

impl State {
    /// The state.
    pub fn new() -> (state: State) {
        State {}
    }
}

/// Show the fatal error window for an error no handler caught: its
/// strings, which describe the error, are localised first where the cache
/// lacks them, and every thread's top window is disabled.
pub fn display(application: &mut Application, error: ApplicationError) -> (commands: Vec<Command>)
    requires
        old(application).wf(),
    ensures
        final(application).wf(),
        ({
            let id = old(application).next_id;
            &&& commands@[0] matches Command::Window(crate::manager::Action::Open(opened, _)) && opened == id
            &&& old(application).string_cache.entry(StringGroup::FatalError) is Some ==> commands@.len() == 1
            &&& old(application).string_cache.entry(StringGroup::FatalError) is None ==> commands@.len() == 2
                && commands@[1] == Command::PrintUncaughtError
            &&& final(application).manager.states_view().contains_key(id)
            &&& final(application).manager.states_view()[id].state is FatalError
            &&& final(application).manager.states_view()[id].enabled
            &&& final(application).string_cache.entry(StringGroup::FatalError) is Some
        }),
{
    let localised = !application.string_cache.contains_group(&StringGroup::FatalError);
    if localised {
        let strings = crate::localisation::fatal_error::Strings::new(&application.localisation, error);
        application.string_cache.insert(StringGroup::FatalError, LocalisedStrings::FatalError(strings));
    }
    let id = application.fresh_id();
    let action = application.manager.create_fatal_error_window(&mut application.session, id);
    let mut commands: Vec<Command> = Vec::new();
    commands.push(Command::Window(action));
    if localised {
        commands.push(Command::PrintUncaughtError);
    }
    commands
}

/// The message naming the uncaught error, as the fatal error window shows
/// it, where its strings are cached.
pub fn uncaught_error_message(application: &Application) -> (message: Option<String>)
    requires
        application.wf(),
    ensures
        match application.string_cache.entry(StringGroup::FatalError) {
            Some(LocalisedStrings::FatalError(strings)) => message matches Some(text) && text@ == strings.texts()[1]@,
            _ => message is None,
        },
{
    match application.string_cache.get(&StringGroup::FatalError) {
        Some(LocalisedStrings::FatalError(strings)) => Some(strings.uncaught_error().clone()),
        _ => None,
    }
}

} // verus!
