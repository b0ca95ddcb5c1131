//! The window asking to confirm exiting the application.

use crate::application::{Command, State as Application};
use crate::enums::WindowType;
use crate::error::{ApplicationError, WindowId};
use crate::window::WindowState;
use vstd::prelude::*;

verus! {

/// The state of the confirm exit window, which holds nothing.
#[derive(Debug)]
pub struct State {}

impl State {
    /// The state.
    pub fn new() -> (state: State) {
        State {}
    }
}

/// Show the confirm exit window over its parent window, reusing its
/// cached state where there is one.
pub fn display(application: &mut Application, parent: WindowId) -> (result: Result<Vec<Command>, ApplicationError>)
    requires
        old(application).wf(),
    ensures
        final(application).wf(),
        final(application).localisation == old(application).localisation,
        final(application).string_cache == old(application).string_cache,
        old(application).manager.states_view().contains_key(parent) ==> {
            let id = old(application).next_id;
            &&& result matches Ok(commands) && commands@.len() == 1
            &&& final(application).manager.states_view().contains_key(id)
            &&& final(application).manager.states_view()[id].state is ConfirmExit
            &&& final(application).manager.states_view()[id].parent == Some(parent)
        },
        !old(application).manager.states_view().contains_key(parent) ==> result is Err,
{
    let state = match application.manager.use_reusable(WindowType::ConfirmExit) {
        Some(state) => state,
        None => WindowState::ConfirmExit(State::new()),
    };
    application.spawn(state, parent)
}

} // verus!
