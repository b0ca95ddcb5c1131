//! The about window: the application's contributors, and the contributors
//! of its localisation.

use crate::application::{Command, State as Application};
use crate::enums::WindowType;
use crate::error::{ApplicationError, CoreError, WindowId};
use crate::window::WindowState;
use crate::localisation::Localisation;
use crate::text::{split, split_fields, trim, trimmed};
use vstd::prelude::*;

verus! {

/// The contributors named in a comma separated list, each without its
/// surrounding whitespace.
pub open spec fn listed_contributors(authors: Seq<char>) -> Seq<Seq<char>> {
    split_fields(authors, ',').map_values(|field: Seq<char>| trimmed(field))
}

/// The contributors named in a comma separated list, each without its
/// surrounding whitespace.
pub fn contributors_of(authors: &str) -> (contributors: Vec<String>)
    ensures
        contributors@.map_values(|s: String| s@) == listed_contributors(authors@),
{
    let fields = split(authors, ',');
    let ghost fields_view = fields@.map_values(|f: String| f@);
    let mut contributors: Vec<String> = Vec::new();
    let mut i: usize = 0;
    while i < fields.len()
        invariant
            i <= fields@.len(),
            fields_view == fields@.map_values(|f: String| f@),
            fields_view == split_fields(authors@, ','),
            contributors@.len() == i,
            forall|j: int| 0 <= j < i ==> #[trigger] contributors@[j]@ == trimmed(fields_view[j]),
        decreases fields@.len() - i,
    {
        let field = fields[i].as_str();
        assert(field@ == fields_view[i as int]);
        contributors.push(trim(field));
        i = i + 1;
    }
    assert(contributors@.map_values(|s: String| s@) =~= listed_contributors(authors@));
    contributors
}

/// The state of the about window.
#[derive(Debug)]
pub struct State {
    contributors: Vec<String>,
    localisation_contributors: Vec<String>,
}

impl State {
    /// The contributors of the application.
    pub closed spec fn contributors_view(&self) -> Seq<Seq<char>> {
        self.contributors@.map_values(|s: String| s@)
    }

    /// The state for the application's authors (a comma separated list),
    /// and the contributors of the localisation repository.
    pub fn try_new(localisation: &Localisation, authors: &str) -> (result: Result<State, ApplicationError>)
        ensures
            result matches Ok(state) ==> state.contributors_view() == listed_contributors(authors@),
            result matches Err(error) ==> error matches ApplicationError::Core(core) && core is Provider,
    {
        let contributors = contributors_of(authors);
        let localisation_contributors = match localisation.repository_contributors() {
            Ok(value) => value,
            Err(error) => return Err(ApplicationError::Core(error)),
        };
        Ok(State { contributors, localisation_contributors })
    }

    /// The contributors of the application.
    pub fn contributors(&self) -> (contributors: &Vec<String>)
        ensures
            contributors@.map_values(|s: String| s@) == self.contributors_view(),
    {
        &self.contributors
    }

    /// The contributors of the localisation repository, as the state holds
    /// them.
    pub closed spec fn localisation_contributors_view(&self) -> Seq<Seq<char>> {
        self.localisation_contributors@.map_values(|s: String| s@)
    }

    /// The contributors of the localisation repository.
    pub fn localisation_contributors(&self) -> (contributors: &Vec<String>)
        ensures
            contributors@.map_values(|s: String| s@) == self.localisation_contributors_view(),
    {
        &self.localisation_contributors
    }
}

/// Show the about window over its parent window, reusing its cached state
/// where there is one.
pub fn display(application: &mut Application, parent: WindowId) -> (result: Result<Vec<Command>, ApplicationError>)
    requires
        old(application).wf(),
    ensures
        final(application).wf(),
        final(application).localisation == old(application).localisation,
        final(application).string_cache == old(application).string_cache,
        result is Ok ==> {
            let id = old(application).next_id;
            &&& final(application).manager.states_view().contains_key(id)
            &&& final(application).manager.states_view()[id].state is About
            &&& final(application).manager.states_view()[id].parent == Some(parent)
        },
        !old(application).manager.states_view().contains_key(parent) ==> result is Err,
        old(application).manager.states_view().contains_key(parent) ==> (old(application).manager.reusable_view(
            WindowType::About,
        ) matches Some(cached) ==> {
            &&& result is Ok
            &&& final(application).manager.states_view()[old(application).next_id].state == cached
        }),
        result matches Err(error) ==> {
            ||| error matches ApplicationError::Core(core) && core is Provider
            ||| error matches ApplicationError::Core(CoreError::WindowIdNotFound(missing, _)) && missing == parent
                && !old(application).manager.states_view().contains_key(parent)
        },
{
    let state = match application.manager.use_reusable(WindowType::About) {
        Some(state) => state,
        None => WindowState::About(State::try_new(&application.localisation, application.authors.as_str())?),
    };
    application.spawn(state, parent)
}

} // verus!
