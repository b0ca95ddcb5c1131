//! The window manager of the multi-window application: it keeps the window
//! states and the window identifiers in step, arranges the windows in
//! threads (a main window and the windows opened on top of it), disables
//! the windows below an opened window, and caches reusable states.
//!
//! The manager does not open or close windows itself: it returns the
//! actions for the windowing system to perform. The identifier of a new
//! window is the one the windowing system gives it when asked to open it.

use crate::constants::{window_default_data, window_defaults, F32_200, F32_500};
use crate::enums::WindowType;
use crate::error::{ApplicationError, CoreError, WindowId};
use crate::session::{window_type_index, window_type_position, FloatPair, Session, WindowData, WINDOW_TYPE_COUNT};
use crate::vec_option::{first_free, first_free_index, lemma_count_some_bound, lemma_first_free_index, push_model, VecOption};
use crate::window::{fatal_error, state_type, type_is_global_disable, type_is_reusable, WindowState, WindowTrait};
use std::collections::BTreeMap;
use vstd::prelude::*;
use vstd::string::*;

verus! {

/// The settings of a window to open.
#[derive(Debug, Clone, Copy, PartialEq, Eq, Structural)]
pub struct WindowSettings {
    pub size: FloatPair,
    /// The position, or `None` to centre the window.
    pub position: Option<FloatPair>,
    pub resizable: bool,
    /// Whether the window closes by itself when asked to; the application
    /// always decides.
    pub exit_on_close_request: bool,
}

/// What the windowing system is to do.
#[derive(Debug, Clone, Copy, PartialEq, Eq, Structural)]
pub enum Action {
    /// Open the window with these settings, then report it opened.
    Open(WindowId, WindowSettings),
    /// Close the window.
    Close(WindowId),
    /// Report the window closed.
    Closed(WindowId),
    /// Report that every window of the thread at this index is closed.
    ThreadClosed(usize),
}

/// A window's state, whether it takes events, the window it was opened
/// from, and the windows it disabled.
pub struct Entry {
    pub state: WindowState,
    pub enabled: bool,
    pub parent: Option<WindowId>,
    pub disabled: Option<Vec<WindowId>>,
}

/// The entry with its enabled flag set.
pub open spec fn with_enabled(entry: Entry, enabled: bool) -> Entry {
    Entry { state: entry.state, enabled, parent: entry.parent, disabled: entry.disabled }
}

/// The windows an entry disabled.
pub open spec fn disabled_ids(entry: Entry) -> Seq<WindowId> {
    match entry.disabled {
        Some(ids) => ids@,
        None => Seq::empty(),
    }
}

/// The view of the window identifiers of a thread slot.
pub open spec fn thread_view(thread: Option<Vec<WindowId>>) -> Option<Seq<WindowId>> {
    match thread {
        Some(ids) => Some(ids@),
        None => None,
    }
}

/// The first window of each occupied thread with a window, in the order
/// of the slots.
pub open spec fn thread_roots(threads: Seq<Option<Seq<WindowId>>>) -> Seq<WindowId>
    decreases threads.len(),
{
    if threads.len() == 0 {
        Seq::empty()
    } else {
        thread_roots(threads.drop_last()) + match threads.last() {
            Some(ids) => if ids.len() > 0 { seq![ids[0]] } else { Seq::empty() },
            None => Seq::empty(),
        }
    }
}

/// The last window of each occupied thread with a window that has a
/// state, in the order of the slots.
pub open spec fn thread_lasts(threads: Seq<Option<Seq<WindowId>>>, states: Map<WindowId, Entry>) -> Seq<WindowId>
    decreases threads.len(),
{
    if threads.len() == 0 {
        Seq::empty()
    } else {
        thread_lasts(threads.drop_last(), states) + match threads.last() {
            Some(ids) => if ids.len() > 0 && states.contains_key(ids.last()) {
                seq![ids.last()]
            } else {
                Seq::empty()
            },
            None => Seq::empty(),
        }
    }
}

/// The index of the first occupied thread whose last window is `last`
/// (for `None`, the first occupied thread without windows), or -1.
pub open spec fn thread_ending(threads: Seq<Option<Seq<WindowId>>>, last: Option<WindowId>) -> int
    decreases threads.len(),
{
    if threads.len() == 0 {
        -1
    } else {
        let before = thread_ending(threads.drop_last(), last);
        if before >= 0 {
            before
        } else if threads.last() matches Some(ids) && (if ids.len() > 0 {
            last == Some(ids.last())
        } else {
            last is None
        }) {
            threads.len() - 1
        } else {
            -1
        }
    }
}

/// The index of the first occupied thread holding the window, or -1.
pub open spec fn thread_holding(threads: Seq<Option<Seq<WindowId>>>, id: WindowId) -> int
    decreases threads.len(),
{
    if threads.len() == 0 {
        -1
    } else {
        let before = thread_holding(threads.drop_last(), id);
        if before >= 0 {
            before
        } else if threads.last() matches Some(ids) && ids.contains(id) {
            threads.len() - 1
        } else {
            -1
        }
    }
}

/// The windows that opening a window of a type over a parent disables: the
/// top window of every thread for a type whose effect reaches all threads,
/// else the parent.
pub open spec fn disabled_by_opening(
    threads: Seq<Option<Seq<WindowId>>>,
    states: Map<WindowId, Entry>,
    window_type: WindowType,
    parent: WindowId,
) -> Seq<WindowId> {
    if type_is_global_disable(window_type) {
        thread_lasts(threads, states)
    } else {
        seq![parent]
    }
}

/// The threads with a window pushed onto the first thread whose top window
/// is `last`, if there is one.
pub open spec fn threads_pushed(threads: Seq<Option<Seq<WindowId>>>, last: WindowId, id: WindowId) -> Seq<Option<Seq<WindowId>>> {
    let i = thread_ending(threads, Some(last));
    if i >= 0 {
        threads.update(i, Some(threads[i]->0.push(id)))
    } else {
        threads
    }
}

/// The threads with the top window taken off the first thread whose top
/// window is `id`, if there is one.
pub open spec fn threads_popped(threads: Seq<Option<Seq<WindowId>>>, id: WindowId) -> Seq<Option<Seq<WindowId>>> {
    let i = thread_ending(threads, Some(id));
    if i >= 0 {
        threads.update(i, Some(threads[i]->0.drop_last()))
    } else {
        threads
    }
}

/// The states, with the listed windows that have a state set to enabled
/// or disabled.
pub open spec fn states_set_enabled(states: Map<WindowId, Entry>, ids: Seq<WindowId>, enabled: bool) -> Map<WindowId, Entry> {
    Map::new(
        |k: WindowId| states.contains_key(k),
        |k: WindowId| if ids.contains(k) { with_enabled(states[k], enabled) } else { states[k] },
    )
}

/// The settings of a window of a type, whose saved geometry is `data`.
pub open spec fn settings_for(window_type: WindowType, data: WindowData) -> WindowSettings {
    WindowSettings {
        size: data.size,
        position: data.position,
        resizable: window_defaults(window_type).resizable,
        exit_on_close_request: false,
    }
}

/// The geometry saved for a window type once a window of it is opened:
/// the saved geometry, or else the type's default size, centred.
pub open spec fn opened_geometry(saved: Option<WindowData>, window_type: WindowType) -> WindowData {
    match saved {
        Some(data) => data,
        None => WindowData { size: window_defaults(window_type).size, position: None },
    }
}

/// The settings of the fatal error window where its type has no defaults:
/// 500 by 200, fixed, centred.
pub open spec fn fatal_error_fallback_settings() -> WindowSettings {
    WindowSettings {
        size: FloatPair { first: F32_500, second: F32_200 },
        position: None,
        resizable: false,
        exit_on_close_request: false,
    }
}

/// The session after a window of the type is opened: the type's geometry
/// is saved if it was not, and nothing else changes.
pub open spec fn session_opened(old_session: Session, new_session: Session, window_type: WindowType) -> bool {
    &&& new_session.windows.wf()
    &&& new_session.settings == old_session.settings
    &&& new_session.history == old_session.history
    &&& new_session.windows.entry(window_type) == Some(opened_geometry(old_session.windows.entry(window_type), window_type))
    &&& forall|t: WindowType| t != window_type ==> #[trigger] new_session.windows.entry(t) == old_session.windows.entry(t)
}

/// The settings to open a window of a type with, from the geometry saved
/// in the session, which is first set to the type's default where none is
/// saved.
pub fn try_create(session: &mut Session, window_type: WindowType) -> (result: Result<WindowSettings, CoreError>)
    requires
        old(session).windows.wf(),
    ensures
        session_opened(*old(session), *final(session), window_type),
        result == Ok::<WindowSettings, CoreError>(
            settings_for(window_type, opened_geometry(old(session).windows.entry(window_type), window_type)),
        ),
{
    let defaults = window_default_data(window_type);
    if !session.windows.contains_key(window_type) {
        session.windows.insert(window_type, WindowData { size: defaults.size, position: None });
    }
    let data = session.windows.get(window_type).unwrap();
    Ok(WindowSettings { size: data.size, position: data.position, resizable: defaults.resizable, exit_on_close_request: false })
}

/// A copy of a list of window identifiers.
fn copy_ids(ids: &Vec<WindowId>) -> (copy: Vec<WindowId>)
    ensures
        copy@ == ids@,
{
    let mut copy: Vec<WindowId> = Vec::new();
    let mut i: usize = 0;
    while i < ids.len()
        invariant
            i <= ids@.len(),
            copy@ == ids@.subrange(0, i as int),
        decreases ids@.len() - i,
    {
        copy.push(ids[i]);
        assert(copy@ =~= ids@.subrange(0, i + 1));
        i = i + 1;
    }
    assert(ids@.subrange(0, i as int) =~= ids@);
    copy
}

/// Whether a list of window identifiers holds one.
fn contains_id(ids: &Vec<WindowId>, id: WindowId) -> (found: bool)
    ensures
        found == ids@.contains(id),
{
    let mut j: usize = 0;
    while j < ids.len()
        invariant
            j <= ids@.len(),
            forall|k: int| 0 <= k < j ==> ids@[k] != id,
        decreases ids@.len() - j,
    {
        if ids[j] == id {
            assert(ids@[j as int] == id);
            return true;
        }
        j = j + 1;
    }
    false
}

/// Set whether a window takes events; nothing is done for a window without
/// a state.
fn set_enabled(states: &mut BTreeMap<WindowId, Entry>, id: WindowId, enabled: bool) -> (found: bool)
    ensures
        found == old(states)@.contains_key(id),
        found ==> final(states)@ == old(states)@.insert(id, with_enabled(old(states)@[id], enabled)),
        !found ==> final(states)@ == old(states)@,
{
    match states.remove(&id) {
        Some(mut entry) => {
            entry.enabled = enabled;
            states.insert(id, entry);
            true
        },
        None => false,
    }
}

/// Each cached state is of the type of its slot.
pub open spec fn cached_by_type(slots: Seq<Option<WindowState>>) -> bool {
    forall|t: WindowType| #[trigger] slots[window_type_index(t)] matches Some(s) ==> state_type(s) == t
}

/// The window manager.
pub struct Manager {
    states: BTreeMap<WindowId, Entry>,
    threads: VecOption<Vec<WindowId>>,
    reusable: Vec<Option<WindowState>>,
}

impl Manager {
    /// The state of each open window.
    pub closed spec fn states_view(&self) -> Map<WindowId, Entry> {
        self.states@
    }

    /// The window threads: each slot, when occupied, lists the windows of a
    /// thread from its main window up.
    pub closed spec fn threads_view(&self) -> Seq<Option<Seq<WindowId>>> {
        self.threads.slots().map_values(|thread: Option<Vec<WindowId>>| thread_view(thread))
    }

    /// The number of window threads.
    pub closed spec fn thread_count_view(&self) -> nat {
        self.threads.count()
    }

    /// The cached reusable state of a window type.
    pub closed spec fn reusable_view(&self, window_type: WindowType) -> Option<WindowState> {
        self.reusable@[window_type_index(window_type)]
    }

    /// The threads are counted, there is one reusable slot per window
    /// type, and each cached state is of its slot's type.
    pub closed spec fn wf(&self) -> bool {
        &&& self.threads.wf()
        &&& self.reusable@.len() == WINDOW_TYPE_COUNT
        &&& cached_by_type(self.reusable@)
    }

    /// The thread count is the number of occupied thread slots.
    pub proof fn lemma_threads_counted(&self)
        requires
            self.wf(),
        ensures
            crate::vec_option::count_some(self.threads_view()) == self.thread_count_view(),
    {
        lemma_count_threads(self.threads.slots());
    }

    /// The same threads.
    pub open spec fn same_threads(&self, other: Manager) -> bool {
        &&& self.threads_view() == other.threads_view()
        &&& self.thread_count_view() == other.thread_count_view()
    }

    /// The same cached reusable states.
    pub open spec fn same_reusable(&self, other: Manager) -> bool {
        forall|t: WindowType| #[trigger] self.reusable_view(t) == other.reusable_view(t)
    }

    /// Whether this manager is `before` with a window of a state opened
    /// over a parent: the windows it disables are disabled, the new window
    /// (enabled, recording them) is on its parent's thread, and the rest is
    /// unchanged.
    pub open spec fn opened_over(&self, before: Manager, state: WindowState, parent: WindowId, id: WindowId) -> bool {
        let disabled = disabled_by_opening(before.threads_view(), before.states_view(), state_type(state), parent);
        &&& self.states_view().contains_key(id)
        &&& self.states_view()[id].state == state
        &&& self.states_view()[id].enabled
        &&& self.states_view()[id].parent == Some(parent)
        &&& disabled_ids(self.states_view()[id]) == disabled
        &&& self.states_view() == states_set_enabled(before.states_view(), disabled, false).insert(id, self.states_view()[id])
        &&& self.threads_view() == threads_pushed(before.threads_view(), parent, id)
        &&& self.thread_count_view() == before.thread_count_view()
        &&& self.same_reusable(before)
    }

    /// Whether this manager is `before` with a window closed: the windows it
    /// disabled are enabled, it is taken off the top of its thread, and its
    /// state is cached where its type is reusable.
    pub open spec fn closed_from(&self, before: Manager, id: WindowId) -> bool {
        let entry = before.states_view()[id];
        let window_type = state_type(entry.state);
        &&& self.states_view() == states_set_enabled(before.states_view().remove(id), disabled_ids(entry), true)
        &&& self.threads_view() == threads_popped(before.threads_view(), id)
        &&& self.thread_count_view() == before.thread_count_view()
        &&& self.reusable_view(window_type) == if type_is_reusable(window_type) {
            Some(entry.state)
        } else {
            before.reusable_view(window_type)
        }
        &&& forall|t: WindowType| t != window_type ==> #[trigger] self.reusable_view(t) == before.reusable_view(t)
    }

    /// The manager with no window, and the default window's state cached.
    pub fn try_new() -> (result: Result<Manager, ApplicationError>)
        ensures
            result matches Ok(manager) && {
                &&& manager.wf()
                &&& manager.states_view() == Map::<WindowId, Entry>::empty()
                &&& manager.threads_view() == Seq::<Option<Seq<WindowId>>>::empty()
                &&& manager.thread_count_view() == 0
                &&& manager.reusable_view(WindowType::Default) is Some
                &&& forall|t: WindowType| t != WindowType::Default ==> #[trigger] manager.reusable_view(t) is None
            },
    {
        let mut reusable: Vec<Option<WindowState>> = Vec::new();
        let mut i: usize = 0;
        while i < WINDOW_TYPE_COUNT
            invariant
                i <= WINDOW_TYPE_COUNT,
                reusable@.len() == i,
                forall|j: int| 0 <= j < i ==> #[trigger] reusable@[j] is None,
            decreases WINDOW_TYPE_COUNT - i,
        {
            reusable.push(None);
            i = i + 1;
        }
        reusable.set(window_type_position(WindowType::Default), Some(WindowState::Default(crate::window::default::State::new())));
        let manager = Manager { states: BTreeMap::new(), threads: VecOption::new(), reusable };
        proof {
            assert(manager.threads_view() =~= Seq::<Option<Seq<WindowId>>>::empty());
            assert forall|t: WindowType| #[trigger] manager.reusable@[window_type_index(t)] is Some implies state_type(manager.reusable@[window_type_index(t)]->0) == t by {
                crate::session::window_type_index_injective(t, WindowType::Default);
            }
            assert forall|t: WindowType| t != WindowType::Default implies #[trigger] manager.reusable_view(t) is None by {
                crate::session::window_type_index_injective(t, WindowType::Default);
            }
        }
        Ok(manager)
    }

    /// The state of a window.
    pub fn state(&self, id: &WindowId) -> (state: Option<&WindowState>)
        ensures
            match state {
                Some(s) => self.states_view().contains_key(*id) && *s == self.states_view()[*id].state,
                None => !self.states_view().contains_key(*id),
            },
    {
        match self.states.get(id) {
            Some(entry) => Some(&entry.state),
            None => None,
        }
    }

    /// Put a new state in place of a window's state, and return the state
    /// it replaces; nothing changes for a window without a state.
    pub fn replace_state(&mut self, id: WindowId, state: WindowState) -> (previous: Option<WindowState>)
        ensures
            match previous {
                Some(s) => {
                    &&& old(self).states_view().contains_key(id)
                    &&& s == old(self).states_view()[id].state
                    &&& final(self).states_view() == old(self).states_view().insert(id, Entry {
                        state,
                        enabled: old(self).states_view()[id].enabled,
                        parent: old(self).states_view()[id].parent,
                        disabled: old(self).states_view()[id].disabled,
                    })
                },
                None => !old(self).states_view().contains_key(id) && final(self).states_view() == old(self).states_view(),
            },
            old(self).wf() ==> final(self).wf(),
            final(self).same_threads(*old(self)),
            final(self).same_reusable(*old(self)),
    {
        match self.states.remove(&id) {
            Some(entry) => {
                let Entry { state: previous, enabled, parent, disabled } = entry;
                self.states.insert(id, Entry { state, enabled, parent, disabled });
                Some(previous)
            },
            None => None,
        }
    }

    /// The number of window threads.
    pub fn thread_count(&self) -> (count: usize)
        ensures
            count == self.thread_count_view(),
    {
        self.threads.occupied()
    }

    /// The main window of each thread, in the order of the threads.
    pub fn thread_list(&self) -> (roots: Vec<WindowId>)
        ensures
            roots@ == thread_roots(self.threads_view()),
    {
        let ghost threads = self.threads_view();
        let mut roots: Vec<WindowId> = Vec::new();
        let mut i: usize = 0;
        while i < self.threads.len()
            invariant
                i <= self.threads.slots().len(),
                threads == self.threads_view(),
                threads.len() == self.threads.slots().len(),
                roots@ == thread_roots(threads.subrange(0, i as int)),
            decreases self.threads.slots().len() - i,
        {
            assert(threads.subrange(0, i + 1).drop_last() =~= threads.subrange(0, i as int));
            match self.threads.slot(i) {
                Some(thread) => {
                    assert(threads[i as int] == Some(thread@));
                    if thread.len() > 0 {
                        roots.push(thread[0]);
                    }
                },
                None => {},
            }
            i = i + 1;
        }
        assert(threads.subrange(0, i as int) =~= threads);
        roots
    }

    /// Whether a window takes events.
    pub fn is_enabled(&self, id: &WindowId) -> (enabled: Option<bool>)
        ensures
            enabled == if self.states_view().contains_key(*id) {
                Some(self.states_view()[*id].enabled)
            } else {
                None::<bool>
            },
    {
        match self.states.get(id) {
            Some(entry) => Some(entry.enabled),
            None => None,
        }
    }

    /// The window a window was opened from.
    pub fn parent(&self, id: &WindowId) -> (parent: Option<WindowId>)
        ensures
            parent == if self.states_view().contains_key(*id) {
                self.states_view()[*id].parent
            } else {
                None::<WindowId>
            },
    {
        match self.states.get(id) {
            Some(entry) => entry.parent,
            None => None,
        }
    }

    /// Disable the top window of every thread.
    fn disable_all(&mut self) -> (disabled: Vec<WindowId>)
        ensures
            disabled@ == thread_lasts(old(self).threads_view(), old(self).states_view()),
            final(self).states_view() == states_set_enabled(old(self).states_view(), disabled@, false),
            final(self).threads == old(self).threads,
            final(self).reusable == old(self).reusable,
    {
        let ghost threads = self.threads_view();
        let ghost start = self.states_view();
        let mut disabled: Vec<WindowId> = Vec::new();
        let mut i: usize = 0;
        while i < self.threads.len()
            invariant
                i <= self.threads.slots().len(),
                threads == self.threads_view(),
                threads.len() == self.threads.slots().len(),
                self.threads == old(self).threads,
                self.reusable == old(self).reusable,
                start == old(self).states_view(),
                disabled@ == thread_lasts(threads.subrange(0, i as int), start),
                self.states_view() == states_set_enabled(start, disabled@, false),
            decreases self.threads.slots().len() - i,
        {
            assert(threads.subrange(0, i + 1).drop_last() =~= threads.subrange(0, i as int));
            let last = match self.threads.slot(i) {
                Some(thread) => {
                    assert(threads[i as int] == Some(thread@));
                    if thread.len() > 0 {
                        Some(thread[thread.len() - 1])
                    } else {
                        None
                    }
                },
                None => None,
            };
            match last {
                Some(id) => {
                    let ghost ids_before = disabled@;
                    let found = set_enabled(&mut self.states, id, false);
                    if found {
                        proof {
                            lemma_set_enabled_step(start, ids_before, id, false);
                        }
                        disabled.push(id);
                    }
                },
                None => {},
            }
            i = i + 1;
        }
        assert(threads.subrange(0, i as int) =~= threads);
        disabled
    }

    /// Disable the windows below a new window: the top window of every
    /// thread, or the parent only.
    fn disable_windows(&mut self, parent: Option<WindowId>) -> (disabled: Vec<WindowId>)
        requires
            parent matches Some(id) ==> old(self).states_view().contains_key(id),
        ensures
            disabled@ == match parent {
                Some(id) => seq![id],
                None => thread_lasts(old(self).threads_view(), old(self).states_view()),
            },
            final(self).states_view() == states_set_enabled(old(self).states_view(), disabled@, false),
            final(self).threads == old(self).threads,
            final(self).reusable == old(self).reusable,
    {
        match parent {
            None => self.disable_all(),
            Some(id) => {
                proof {
                    lemma_set_enabled_step(old(self).states_view(), Seq::empty(), id, false);
                    assert(states_set_enabled(old(self).states_view(), Seq::empty(), false) =~= old(self).states_view());
                    assert(Seq::<WindowId>::empty().push(id) =~= seq![id]);
                }
                let _ = set_enabled(&mut self.states, id, false);
                let mut disabled: Vec<WindowId> = Vec::new();
                disabled.push(id);
                disabled
            },
        }
    }

    /// Open a new window thread, with the new window as its main window.
    pub fn try_create_thread(
        &mut self,
        session: &mut Session,
        state: WindowState,
        id: WindowId,
    ) -> (result: Result<Action, CoreError>)
        requires
            old(self).wf(),
            old(session).windows.wf(),
        ensures
            final(self).wf(),
            session_opened(*old(session), *final(session), state_type(state)),
            result == Ok::<Action, CoreError>(Action::Open(
                id,
                settings_for(state_type(state), opened_geometry(old(session).windows.entry(state_type(state)), state_type(state))),
            )),
            final(self).states_view() == old(self).states_view().insert(id, Entry { state, enabled: true, parent: None, disabled: None }),
            ({
                let (slots, count, index) = push_model(old(self).threads_view(), old(self).thread_count_view(), seq![id]);
                &&& final(self).threads_view() == slots
                &&& final(self).thread_count_view() == count
            }),
            forall|t: WindowType| #[trigger] final(self).reusable_view(t) == old(self).reusable_view(t),
    {
        let ghost before = self.threads_view();
        let window_type = state.window_type();
        let settings = try_create(session, window_type)?;
        let mut thread: Vec<WindowId> = Vec::new();
        thread.push(id);
        let index = self.threads.push(thread);
        proof {
            lemma_count_some_bound(old(self).threads.slots());
            lemma_first_free_index(before);
            if old(self).threads.count() < before.len() {
                assert(first_free(before, index as int));
                lemma_first_free_unique(before, index as int, first_free_index(before));
                assert(self.threads_view() =~= before.update(index as int, Some(seq![id])));
            } else {
                assert(self.threads_view() =~= before.push(Some(seq![id])));
            }
        }
        self.states.insert(id, Entry { state, enabled: true, parent: None, disabled: None });
        Ok(Action::Open(id, settings))
    }

    /// Push a window onto the first thread whose top window is `last`.
    fn push_on_thread(&mut self, last: Option<WindowId>, id: WindowId)
        requires
            old(self).threads.wf(),
        ensures
            final(self).threads.wf(),
            final(self).threads.count() == old(self).threads.count(),
            final(self).threads_view() == ({
                let i = thread_ending(old(self).threads_view(), last);
                if i >= 0 {
                    old(self).threads_view().update(i, Some(old(self).threads_view()[i]->0.push(id)))
                } else {
                    old(self).threads_view()
                }
            }),
            final(self).states == old(self).states,
            final(self).reusable == old(self).reusable,
    {
        let ghost threads = self.threads_view();
        let mut i: usize = 0;
        while i < self.threads.len()
            invariant
                i <= self.threads.slots().len(),
                threads == self.threads_view(),
                threads == old(self).threads_view(),
                threads.len() == self.threads.slots().len(),
                self.threads == old(self).threads,
                self.threads.wf(),
                self.states == old(self).states,
                self.reusable == old(self).reusable,
                thread_ending(threads.subrange(0, i as int), last) == -1,
            decreases self.threads.slots().len() - i,
        {
            assert(threads.subrange(0, i + 1).drop_last() =~= threads.subrange(0, i as int));
            let matched = match self.threads.slot(i) {
                Some(thread) => {
                    assert(threads[i as int] == Some(thread@));
                    if thread.len() > 0 {
                        last == Some(thread[thread.len() - 1])
                    } else {
                        last.is_none()
                    }
                },
                None => false,
            };
            if matched {
                let mut thread = copy_ids(self.threads.slot(i).as_ref().unwrap());
                thread.push(id);
                let ghost pushed = thread@;
                let _ = self.threads.replace(i, Some(thread));
                proof {
                    lemma_thread_ending_prefix(threads, last, i as int);
                    assert(self.threads_view() =~= threads.update(i as int, Some(threads[i as int]->0.push(id))));
                }
                return;
            }
            i = i + 1;
        }
        assert(threads.subrange(0, i as int) =~= threads);
    }

    /// Open a window on the thread of its parent window (the window it is
    /// opened from), disabling the parent, or the top window of every
    /// thread where the new window's effect reaches all threads.
    pub fn try_create_window(
        &mut self,
        session: &mut Session,
        state: WindowState,
        parent: WindowId,
        id: WindowId,
    ) -> (result: Result<Action, CoreError>)
        requires
            old(self).wf(),
            old(session).windows.wf(),
        ensures
            final(self).wf(),
            !old(self).states_view().contains_key(parent) ==> {
                &&& result matches Err(CoreError::WindowIdNotFound(missing, field))
                &&& missing == parent
                &&& field@ == "Manager.state"@
                &&& *final(self) == *old(self)
                &&& *final(session) == *old(session)
            },
            old(self).states_view().contains_key(parent) ==> {
                let window_type = state_type(state);
                let disabled = if type_is_global_disable(window_type) {
                    thread_lasts(old(self).threads_view(), old(self).states_view())
                } else {
                    seq![parent]
                };
                let i = thread_ending(old(self).threads_view(), Some(parent));
                &&& session_opened(*old(session), *final(session), window_type)
                &&& result == Ok::<Action, CoreError>(Action::Open(
                    id,
                    settings_for(window_type, opened_geometry(old(session).windows.entry(window_type), window_type)),
                ))
                &&& final(self).states_view().contains_key(id)
                &&& final(self).states_view()[id].state == state
                &&& final(self).states_view()[id].enabled
                &&& final(self).states_view()[id].parent == Some(parent)
                &&& final(self).states_view()[id].disabled matches Some(ids) && ids@ == disabled
                &&& final(self).states_view() == states_set_enabled(old(self).states_view(), disabled, false).insert(
                    id,
                    final(self).states_view()[id],
                )
                &&& final(self).threads_view() == if i >= 0 {
                    old(self).threads_view().update(i, Some(old(self).threads_view()[i]->0.push(id)))
                } else {
                    old(self).threads_view()
                }
                &&& final(self).thread_count_view() == old(self).thread_count_view()
                &&& forall|t: WindowType| #[trigger] final(self).reusable_view(t) == old(self).reusable_view(t)
                &&& final(self).opened_over(*old(self), state, parent, id)
            },
    {
        if !self.states.contains_key(&parent) {
            return Err(CoreError::WindowIdNotFound(parent, String::from_str("Manager.state")));
        }
        let disabled = if state.is_global_disable() {
            self.disable_windows(None)
        } else {
            self.disable_windows(Some(parent))
        };
        let window_type = state.window_type();
        let settings = match try_create(session, window_type) {
            Ok(settings) => settings,
            Err(error) => return Err(error),
        };
        self.push_on_thread(Some(parent), id);
        self.states.insert(id, Entry { state, enabled: true, parent: Some(parent), disabled: Some(disabled) });
        Ok(Action::Open(id, settings))
    }

    /// Take the cached reusable state of a window type, if there is one.
    pub fn use_reusable(&mut self, window_type: WindowType) -> (state: Option<WindowState>)
        requires
            old(self).wf(),
        ensures
            final(self).wf(),
            state == old(self).reusable_view(window_type),
            state matches Some(s) ==> state_type(s) == window_type,
            final(self).reusable_view(window_type) is None,
            forall|t: WindowType| t != window_type ==> #[trigger] final(self).reusable_view(t) == old(self).reusable_view(t),
            final(self).states_view() == old(self).states_view(),
            final(self).same_threads(*old(self)),
    {
        let index = window_type_position(window_type);
        let mut state: Option<WindowState> = None;
        std::mem::swap(&mut state, &mut self.reusable[index]);
        proof {
            assert forall|t: WindowType| t != window_type implies #[trigger] self.reusable_view(t) == old(self).reusable_view(t) by {
                crate::session::window_type_index_injective(t, window_type);
            }
        }
        state
    }

    /// Open the fatal error window, after disabling the top window of
    /// every thread so that no further error can arise from them.
    pub fn create_fatal_error_window(&mut self, session: &mut Session, id: WindowId) -> (action: Action)
        requires
            old(self).wf(),
            old(session).windows.wf(),
        ensures
            final(self).wf(),
            session_opened(*old(session), *final(session), WindowType::FatalError),
            action == Action::Open(
                id,
                settings_for(WindowType::FatalError, opened_geometry(old(session).windows.entry(WindowType::FatalError), WindowType::FatalError)),
            ),
            ({
                let disabled = thread_lasts(old(self).threads_view(), old(self).states_view());
                let i = thread_ending(old(self).threads_view(), None);
                &&& final(self).states_view() == states_set_enabled(old(self).states_view(), disabled, false).insert(
                    id,
                    final(self).states_view()[id],
                )
                &&& final(self).states_view()[id].state is FatalError
                &&& final(self).states_view()[id].enabled
                &&& final(self).states_view()[id].parent is None
                &&& final(self).states_view()[id].disabled is None
                &&& final(self).threads_view() == if i >= 0 {
                    old(self).threads_view().update(i, Some(old(self).threads_view()[i]->0.push(id)))
                } else {
                    old(self).threads_view()
                }
            }),
            final(self).thread_count_view() == old(self).thread_count_view(),
            forall|t: WindowType| #[trigger] final(self).reusable_view(t) == old(self).reusable_view(t),
    {
        let state = WindowState::FatalError(fatal_error::State::new());
        let settings = match try_create(session, WindowType::FatalError) {
            Ok(settings) => settings,
            Err(_) => WindowSettings {
                size: FloatPair { first: F32_500, second: F32_200 },
                position: None,
                resizable: false,
                exit_on_close_request: false,
            },
        };
        let _ = self.disable_windows(None);
        self.push_on_thread(None, id);
        self.states.insert(id, Entry { state, enabled: true, parent: None, disabled: None });
        Action::Open(id, settings)
    }

    /// Close a single window.
    pub fn close_window(&mut self, id: WindowId) -> (result: Result<Vec<Action>, CoreError>)
        ensures
            result matches Ok(actions) && actions@ == seq![Action::Close(id), Action::Closed(id)],
            *final(self) == *old(self),
    {
        let mut actions: Vec<Action> = Vec::new();
        actions.push(Action::Close(id));
        actions.push(Action::Closed(id));
        Ok(actions)
    }

    /// Close several windows at once, in the order given (from the newest
    /// window to the oldest).
    pub fn close_multiple(&mut self, ids: Vec<WindowId>) -> (result: Result<Vec<Action>, CoreError>)
        ensures
            result matches Ok(actions) && actions@ == close_actions(ids@),
            *final(self) == *old(self),
    {
        let mut actions: Vec<Action> = Vec::new();
        let mut i: usize = 0;
        while i < ids.len()
            invariant
                i <= ids@.len(),
                actions@ == close_actions(ids@.subrange(0, i as int)),
            decreases ids@.len() - i,
        {
            assert(ids@.subrange(0, i + 1).drop_last() =~= ids@.subrange(0, i as int));
            actions.push(Action::Close(ids[i]));
            actions.push(Action::Closed(ids[i]));
            assert(actions@ =~= close_actions(ids@.subrange(0, i + 1)));
            i = i + 1;
        }
        assert(ids@.subrange(0, i as int) =~= ids@);
        Ok(actions)
    }

    /// The index of the first thread holding the window.
    fn find_thread(&self, id: WindowId) -> (index: Option<usize>)
        ensures
            match index {
                Some(i) => i == thread_holding(self.threads_view(), id) && 0 <= i < self.threads_view().len(),
                None => thread_holding(self.threads_view(), id) == -1,
            },
    {
        let ghost threads = self.threads_view();
        let mut i: usize = 0;
        while i < self.threads.len()
            invariant
                i <= self.threads.slots().len(),
                threads == self.threads_view(),
                threads.len() == self.threads.slots().len(),
                thread_holding(threads.subrange(0, i as int), id) == -1,
            decreases self.threads.slots().len() - i,
        {
            assert(threads.subrange(0, i + 1).drop_last() =~= threads.subrange(0, i as int));
            match self.threads.slot(i) {
                Some(thread) => {
                    assert(threads[i as int] == Some(thread@));
                    if contains_id(thread, id) {
                        proof {
                            lemma_thread_holding_prefix(threads, id, i as int);
                        }
                        return Some(i);
                    }
                },
                None => {},
            }
            i = i + 1;
        }
        assert(threads.subrange(0, i as int) =~= threads);
        None
    }

    /// Close every window of the thread holding a window, from the top
    /// window down, then report the thread closed. The caller has checked
    /// for unsaved data.
    pub fn close_thread(&mut self, id: WindowId) -> (result: Result<Vec<Action>, CoreError>)
        requires
            old(self).wf(),
        ensures
            *final(self) == *old(self),
            !old(self).states_view().contains_key(id) ==> {
                &&& result matches Err(CoreError::WindowIdNotFound(missing, field))
                &&& missing == id
                &&& field@ == "Manager.states"@
            },
            old(self).states_view().contains_key(id) && thread_holding(old(self).threads_view(), id) == -1 ==> {
                &&& result matches Err(CoreError::WindowIdNotFound(missing, field))
                &&& missing == id
                &&& field@ == "Manager.threads"@
            },
            old(self).states_view().contains_key(id) && thread_holding(old(self).threads_view(), id) >= 0 ==> {
                let i = thread_holding(old(self).threads_view(), id);
                result matches Ok(actions) && actions@ == close_actions_reversed(old(self).threads_view()[i]->0).push(
                    Action::ThreadClosed(i as usize),
                )
            },
    {
        if !self.states.contains_key(&id) {
            return Err(CoreError::WindowIdNotFound(id, String::from_str("Manager.states")));
        }
        let index = match self.find_thread(id) {
            Some(index) => index,
            None => return Err(CoreError::WindowIdNotFound(id, String::from_str("Manager.threads"))),
        };
        proof {
            lemma_thread_holding(self.threads_view(), id);
            assert(self.threads_view()[index as int] == thread_view(self.threads.slots()[index as int]));
        }
        let thread = self.threads.slot(index).as_ref().unwrap();
        let ghost ids = thread@;
        let mut actions: Vec<Action> = Vec::new();
        let mut j: usize = thread.len();
        while j > 0
            invariant
                j <= ids.len(),
                ids == thread@,
                actions@ == close_actions_reversed(ids.subrange(j as int, ids.len() as int)),
            decreases j,
        {
            assert(ids.subrange(j - 1, ids.len() as int).drop_first() =~= ids.subrange(j as int, ids.len() as int));
            actions.push(Action::Close(thread[j - 1]));
            j = j - 1;
        }
        assert(ids.subrange(0, ids.len() as int) =~= ids);
        actions.push(Action::ThreadClosed(index));
        Ok(actions)
    }

    /// Pop a window off the first thread whose top window it is.
    fn pop_from_thread(&mut self, id: WindowId)
        requires
            old(self).threads.wf(),
        ensures
            final(self).threads.wf(),
            final(self).threads.count() == old(self).threads.count(),
            final(self).threads_view() == ({
                let i = thread_ending(old(self).threads_view(), Some(id));
                if i >= 0 {
                    old(self).threads_view().update(i, Some(old(self).threads_view()[i]->0.drop_last()))
                } else {
                    old(self).threads_view()
                }
            }),
            final(self).states == old(self).states,
            final(self).reusable == old(self).reusable,
    {
        let ghost threads = self.threads_view();
        let mut i: usize = 0;
        while i < self.threads.len()
            invariant
                i <= self.threads.slots().len(),
                threads == self.threads_view(),
                threads == old(self).threads_view(),
                threads.len() == self.threads.slots().len(),
                self.threads == old(self).threads,
                self.threads.wf(),
                self.states == old(self).states,
                self.reusable == old(self).reusable,
                thread_ending(threads.subrange(0, i as int), Some(id)) == -1,
            decreases self.threads.slots().len() - i,
        {
            assert(threads.subrange(0, i + 1).drop_last() =~= threads.subrange(0, i as int));
            let matched = match self.threads.slot(i) {
                Some(thread) => {
                    assert(threads[i as int] == Some(thread@));
                    thread.len() > 0 && thread[thread.len() - 1] == id
                },
                None => false,
            };
            if matched {
                let mut thread = copy_ids(self.threads.slot(i).as_ref().unwrap());
                let _ = thread.pop();
                let _ = self.threads.replace(i, Some(thread));
                proof {
                    lemma_thread_ending_prefix(threads, Some(id), i as int);
                    assert(self.threads_view() =~= threads.update(i as int, Some(threads[i as int]->0.drop_last())));
                }
                return;
            }
            i = i + 1;
        }
        assert(threads.subrange(0, i as int) =~= threads);
    }

    /// Enable the listed windows again; those without a state are skipped.
    fn enable_windows(&mut self, ids: &Vec<WindowId>)
        ensures
            final(self).states_view() == states_set_enabled(old(self).states_view(), ids@, true),
            final(self).threads == old(self).threads,
            final(self).reusable == old(self).reusable,
    {
        let ghost start = self.states_view();
        let mut i: usize = 0;
        while i < ids.len()
            invariant
                i <= ids@.len(),
                start == old(self).states_view(),
                self.threads == old(self).threads,
                self.reusable == old(self).reusable,
                self.states_view() == states_set_enabled(start, ids@.subrange(0, i as int), true),
            decreases ids@.len() - i,
        {
            proof {
                lemma_set_enabled_extend(start, ids@.subrange(0, i as int), ids@[i as int], true);
                assert(ids@.subrange(0, i + 1) =~= ids@.subrange(0, i as int).push(ids@[i as int]));
            }
            let _ = set_enabled(&mut self.states, ids[i], true);
            i = i + 1;
        }
        assert(ids@.subrange(0, i as int) =~= ids@);
    }

    /// A window closed: enable again the windows it disabled, take it off
    /// the top of its thread, remove its state, and cache the state where
    /// its type is reusable.
    pub fn window_closed(&mut self, id: WindowId) -> (result: Result<(), CoreError>)
        requires
            old(self).wf(),
        ensures
            final(self).wf(),
            !old(self).states_view().contains_key(id) ==> {
                &&& result matches Err(CoreError::WindowIdNotFound(missing, field))
                &&& missing == id
                &&& field@ == "Manager.states"@
                &&& *final(self) == *old(self)
            },
            old(self).states_view().contains_key(id) ==> {
                let entry = old(self).states_view()[id];
                let i = thread_ending(old(self).threads_view(), Some(id));
                let window_type = state_type(entry.state);
                &&& result is Ok
                &&& final(self).states_view() == states_set_enabled(old(self).states_view().remove(id), disabled_ids(entry), true)
                &&& final(self).threads_view() == if i >= 0 {
                    old(self).threads_view().update(i, Some(old(self).threads_view()[i]->0.drop_last()))
                } else {
                    old(self).threads_view()
                }
                &&& final(self).thread_count_view() == old(self).thread_count_view()
                &&& final(self).reusable_view(window_type) == if type_is_reusable(window_type) {
                    Some(entry.state)
                } else {
                    old(self).reusable_view(window_type)
                }
                &&& forall|t: WindowType| t != window_type ==> #[trigger] final(self).reusable_view(t) == old(self).reusable_view(t)
                &&& final(self).closed_from(*old(self), id)
            },
    {
        if !self.states.contains_key(&id) {
            return Err(CoreError::WindowIdNotFound(id, String::from_str("Manager.states")));
        }
        let entry = self.states.remove(&id).unwrap();
        let ghost removed = self.states_view();
        let Entry { state, enabled: _, parent: _, disabled } = entry;
        match disabled {
            Some(ids) => self.enable_windows(&ids),
            None => {
                assert(self.states_view() =~= states_set_enabled(removed, Seq::<WindowId>::empty(), true));
            },
        }
        self.pop_from_thread(id);
        if state.is_reusable() {
            let window_type = state.window_type();
            let index = window_type_position(window_type);
            self.reusable.set(index, Some(state));
            proof {
                assert forall|t: WindowType| t != window_type implies #[trigger] self.reusable_view(t) == old(self).reusable_view(t) by {
                    crate::session::window_type_index_injective(t, window_type);
                }
            }
        }
        Ok(())
    }

    /// Remove a thread, once all its windows are closed; an index past the
    /// threads leaves them as they are.
    pub fn thread_closed(&mut self, index: usize) -> (result: Result<(), CoreError>)
        requires
            old(self).wf(),
        ensures
            final(self).wf(),
            result is Ok,
            final(self).states_view() == old(self).states_view(),
            final(self).same_reusable(*old(self)),
            index < old(self).threads_view().len() ==> {
                let (slots, count, element) = crate::vec_option::take_model(
                    old(self).threads_view(),
                    old(self).thread_count_view(),
                    index as int,
                );
                &&& final(self).threads_view() == slots
                &&& final(self).thread_count_view() == count
            },
            index >= old(self).threads_view().len() ==> final(self).same_threads(*old(self)),
    {
        if index < self.threads.len() {
            let _ = self.threads.take(index);
            assert(self.threads_view() =~= crate::vec_option::take_model(
                old(self).threads_view(),
                old(self).thread_count_view(),
                index as int,
            ).0);
        }
        Ok(())
    }
}

/// Closing a window enables again exactly the windows its opening
/// disabled: every other window ends as it was, and a disabled window that
/// was enabled before ends as it was too.
pub proof fn closing_restores_disabled(states: Map<WindowId, Entry>, disabled: Seq<WindowId>, id: WindowId, entry: Entry)
    requires
        !states.contains_key(id),
    ensures
        states_set_enabled(states_set_enabled(states, disabled, false).insert(id, entry).remove(id), disabled, true)
            == states_set_enabled(states, disabled, true),
        (forall|k: WindowId| disabled.contains(k) && states.contains_key(k) ==> #[trigger] states[k].enabled)
            ==> states_set_enabled(states_set_enabled(states, disabled, false).insert(id, entry).remove(id), disabled, true)
            == states,
{
    let closed = states_set_enabled(states_set_enabled(states, disabled, false).insert(id, entry).remove(id), disabled, true);
    assert(closed =~= states_set_enabled(states, disabled, true));
    if forall|k: WindowId| disabled.contains(k) && states.contains_key(k) ==> #[trigger] states[k].enabled {
        let enabled = states_set_enabled(states, disabled, true);
        assert forall|k: WindowId| #[trigger] states.contains_key(k) implies enabled[k] == states[k] by {
            if disabled.contains(k) {
                assert(states[k].enabled);
                assert(with_enabled(states[k], true) == states[k]);
            }
        }
        assert(enabled =~= states);
    }
}

/// The window of a new thread is listed among the main windows of the
/// threads.
pub proof fn new_thread_is_listed(threads: Seq<Option<Seq<WindowId>>>, count: nat, id: WindowId)
    requires
        count == crate::vec_option::count_some(threads),
    ensures
        thread_roots(push_model(threads, count, seq![id]).0).contains(id),
{
    if count < threads.len() {
        lemma_count_some_bound(threads);
        lemma_first_free_index(threads);
        let i = first_free_index(threads);
        if i == threads.len() {
            let k = choose|k: int| 0 <= k < threads.len() && threads[k] is None;
            assert(threads[k] is Some);
        }
        lemma_roots_of_update(threads, i, id);
    } else {
        let pushed = threads.push(Some(seq![id]));
        assert(pushed.drop_last() =~= threads);
        let roots = thread_roots(pushed);
        assert(roots[roots.len() - 1] == id);
    }
}

/// A thread slot set to a single window lists that window.
proof fn lemma_roots_of_update(threads: Seq<Option<Seq<WindowId>>>, i: int, id: WindowId)
    requires
        0 <= i < threads.len(),
    ensures
        thread_roots(threads.update(i, Some(seq![id]))).contains(id),
    decreases threads.len(),
{
    let updated = threads.update(i, Some(seq![id]));
    let roots = thread_roots(updated);
    if i == threads.len() - 1 {
        assert(updated.last() == Some(seq![id]));
        assert(roots[roots.len() - 1] == id);
    } else {
        assert(updated.drop_last() =~= threads.drop_last().update(i, Some(seq![id])));
        lemma_roots_of_update(threads.drop_last(), i, id);
        let before = thread_roots(updated.drop_last());
        let j = choose|j: int| 0 <= j < before.len() && before[j] == id;
        assert(roots[j] == before[j]);
    }
}

/// Closing a thread closes each of its windows, one action per window.
pub proof fn closing_thread_closes_each_window(ids: Seq<WindowId>)
    ensures
        close_actions_reversed(ids).len() == ids.len(),
        forall|k: int| 0 <= k < ids.len() ==> close_actions_reversed(ids).contains(Action::Close(#[trigger] ids[k])),
    decreases ids.len(),
{
    if ids.len() > 0 {
        let rest = ids.drop_first();
        closing_thread_closes_each_window(rest);
        let actions = close_actions_reversed(ids);
        assert forall|k: int| 0 <= k < ids.len() implies actions.contains(Action::Close(#[trigger] ids[k])) by {
            if k == 0 {
                assert(actions[actions.len() - 1] == Action::Close(ids[0]));
            } else {
                assert(ids[k] == rest[k - 1]);
                let before = close_actions_reversed(rest);
                let j = choose|j: int| 0 <= j < before.len() && before[j] == Action::Close(rest[k - 1]);
                assert(actions[j] == before[j]);
            }
        }
    }
}

/// Once a window type's geometry is saved, later windows of the type open
/// with it: opening again keeps the geometry and gives the same settings,
/// and a window resized or moved opens the next time with that size and
/// position.
pub proof fn saved_geometry_is_kept(saved: Option<WindowData>, window_type: WindowType, size: FloatPair, position: Option<FloatPair>)
    ensures
        opened_geometry(Some(opened_geometry(saved, window_type)), window_type) == opened_geometry(saved, window_type),
        settings_for(window_type, opened_geometry(Some(WindowData { size, position }), window_type)).size == size,
        settings_for(window_type, opened_geometry(Some(WindowData { size, position }), window_type)).position == position,
{
}

/// Setting one more window's flag extends the list of windows set.
proof fn lemma_set_enabled_step(start: Map<WindowId, Entry>, ids: Seq<WindowId>, id: WindowId, enabled: bool)
    requires
        start.contains_key(id),
    ensures
        ({
            let before = states_set_enabled(start, ids, enabled);
            before.insert(id, with_enabled(before[id], enabled)) == states_set_enabled(start, ids.push(id), enabled)
        }),
{
    let before = states_set_enabled(start, ids, enabled);
    assert forall|k: WindowId| #[trigger] ids.push(id).contains(k) <==> (ids.contains(k) || k == id) by {
        if ids.contains(k) {
            let j = choose|j: int| 0 <= j < ids.len() && ids[j] == k;
            assert(ids.push(id)[j] == k);
        }
        if k == id {
            assert(ids.push(id)[ids.len() as int] == k);
        }
        if ids.push(id).contains(k) && k != id {
            let j = choose|j: int| 0 <= j < ids.len() + 1 && ids.push(id)[j] == k;
            assert(j < ids.len());
            assert(ids[j] == k);
        }
    }
    assert(before.insert(id, with_enabled(before[id], enabled)) =~= states_set_enabled(start, ids.push(id), enabled));
}

/// Setting the flag of one more window, with or without a state.
proof fn lemma_set_enabled_extend(start: Map<WindowId, Entry>, ids: Seq<WindowId>, id: WindowId, enabled: bool)
    ensures
        ({
            let before = states_set_enabled(start, ids, enabled);
            &&& before.contains_key(id) == start.contains_key(id)
            &&& start.contains_key(id) ==> before.insert(id, with_enabled(before[id], enabled))
                == states_set_enabled(start, ids.push(id), enabled)
            &&& !start.contains_key(id) ==> before == states_set_enabled(start, ids.push(id), enabled)
        }),
{
    if start.contains_key(id) {
        lemma_set_enabled_step(start, ids, id, enabled);
    } else {
        assert forall|k: WindowId| start.contains_key(k) implies #[trigger] ids.push(id).contains(k) == ids.contains(k) by {
            if ids.contains(k) {
                let j = choose|j: int| 0 <= j < ids.len() && ids[j] == k;
                assert(ids.push(id)[j] == k);
            }
            if ids.push(id).contains(k) {
                let j = choose|j: int| 0 <= j < ids.len() + 1 && ids.push(id)[j] == k;
                assert(j < ids.len());
                assert(ids[j] == k);
            }
        }
        assert(states_set_enabled(start, ids, enabled) =~= states_set_enabled(start, ids.push(id), enabled));
    }
}

/// Viewing the thread slots keeps which are occupied.
proof fn lemma_count_threads(slots: Seq<Option<Vec<WindowId>>>)
    ensures
        crate::vec_option::count_some(slots.map_values(|thread: Option<Vec<WindowId>>| thread_view(thread)))
            == crate::vec_option::count_some(slots),
    decreases slots.len(),
{
    if slots.len() > 0 {
        let viewed = slots.map_values(|thread: Option<Vec<WindowId>>| thread_view(thread));
        assert(viewed.drop_last() =~= slots.drop_last().map_values(|thread: Option<Vec<WindowId>>| thread_view(thread)));
        lemma_count_threads(slots.drop_last());
    }
}

/// A free thread slot taken by a new thread of another window leaves the
/// thread holding a window where it was.
proof fn lemma_holding_after_update(threads: Seq<Option<Seq<WindowId>>>, j: int, new_id: WindowId, id: WindowId)
    requires
        0 <= j < threads.len(),
        threads[j] is None,
        new_id != id,
    ensures
        thread_holding(threads.update(j, Some(seq![new_id])), id) == thread_holding(threads, id),
    decreases threads.len(),
{
    let updated = threads.update(j, Some(seq![new_id]));
    assert(!seq![new_id].contains(id)) by {
        if seq![new_id].contains(id) {
            let k = choose|k: int| 0 <= k < 1 && seq![new_id][k] == id;
        }
    }
    lemma_thread_holding(threads.drop_last(), id);
    if j == threads.len() - 1 {
        assert(updated.drop_last() =~= threads.drop_last());
    } else {
        assert(updated.drop_last() =~= threads.drop_last().update(j, Some(seq![new_id])));
        lemma_holding_after_update(threads.drop_last(), j, new_id, id);
    }
}

/// A new thread of another window pushed after the others leaves the
/// thread holding a window where it was.
proof fn lemma_holding_after_push(threads: Seq<Option<Seq<WindowId>>>, new_id: WindowId, id: WindowId)
    requires
        new_id != id,
    ensures
        thread_holding(threads.push(Some(seq![new_id])), id) == thread_holding(threads, id),
{
    let pushed = threads.push(Some(seq![new_id]));
    assert(pushed.drop_last() =~= threads);
    assert(!seq![new_id].contains(id)) by {
        if seq![new_id].contains(id) {
            let k = choose|k: int| 0 <= k < 1 && seq![new_id][k] == id;
        }
    }
    lemma_thread_holding(threads, id);
}

/// Opening a new thread for a window leaves every other window in the
/// thread that held it, and that thread unchanged.
pub proof fn new_thread_keeps_other_threads(threads: Seq<Option<Seq<WindowId>>>, count: nat, new_id: WindowId, id: WindowId)
    requires
        count == crate::vec_option::count_some(threads),
        new_id != id,
    ensures
        ({
            let pushed = push_model(threads, count, seq![new_id]).0;
            let i = thread_holding(threads, id);
            &&& thread_holding(pushed, id) == i
            &&& i >= 0 ==> pushed[i] == threads[i]
        }),
{
    lemma_thread_holding(threads, id);
    if count < threads.len() {
        lemma_count_some_bound(threads);
        lemma_first_free_index(threads);
        let j = first_free_index(threads);
        if j == threads.len() {
            let k = choose|k: int| 0 <= k < threads.len() && threads[k] is None;
            assert(threads[k] is Some);
        }
        lemma_holding_after_update(threads, j, new_id, id);
    } else {
        lemma_holding_after_push(threads, new_id, id);
    }
}

/// The first thread holding a window holds it.
proof fn lemma_thread_holding(threads: Seq<Option<Seq<WindowId>>>, id: WindowId)
    ensures
        -1 <= thread_holding(threads, id) < threads.len(),
        thread_holding(threads, id) >= 0 ==> (threads[thread_holding(threads, id)] matches Some(ids) && ids.contains(id)),
    decreases threads.len(),
{
    if threads.len() > 0 {
        lemma_thread_holding(threads.drop_last(), id);
    }
}

/// There is one first free slot.
proof fn lemma_first_free_unique<T>(slots: Seq<Option<T>>, a: int, b: int)
    requires
        first_free(slots, a),
        b < slots.len() ==> first_free(slots, b),
        b == slots.len() ==> forall|j: int| 0 <= j < slots.len() ==> #[trigger] slots[j] is Some,
        0 <= b <= slots.len(),
    ensures
        a == b,
{
    if a < b {
        assert(slots[a] is Some);
    } else if b < a {
        assert(slots[b] is Some);
    }
}

/// The actions closing each window, in order, each reported closed.
pub open spec fn close_actions(ids: Seq<WindowId>) -> Seq<Action>
    decreases ids.len(),
{
    if ids.len() == 0 {
        Seq::empty()
    } else {
        close_actions(ids.drop_last()) + seq![Action::Close(ids.last()), Action::Closed(ids.last())]
    }
}

/// The actions closing each window, from the last to the first.
pub open spec fn close_actions_reversed(ids: Seq<WindowId>) -> Seq<Action>
    decreases ids.len(),
{
    if ids.len() == 0 {
        Seq::empty()
    } else {
        close_actions_reversed(ids.drop_first()).push(Action::Close(ids[0]))
    }
}

/// The first thread ending with a window, found past a prefix without one.
proof fn lemma_thread_ending_prefix(threads: Seq<Option<Seq<WindowId>>>, last: Option<WindowId>, i: int)
    requires
        0 <= i < threads.len(),
        thread_ending(threads.subrange(0, i), last) == -1,
        threads[i] matches Some(ids) && (if ids.len() > 0 { last == Some(ids.last()) } else { last is None }),
    ensures
        thread_ending(threads, last) == i,
    decreases threads.len(),
{
    if threads.len() - 1 == i {
        assert(threads.drop_last() =~= threads.subrange(0, i));
    } else {
        assert(threads.drop_last().subrange(0, i) =~= threads.subrange(0, i));
        lemma_thread_ending_prefix(threads.drop_last(), last, i);
    }
}

/// The first thread holding a window, found past a prefix without it.
proof fn lemma_thread_holding_prefix(threads: Seq<Option<Seq<WindowId>>>, id: WindowId, i: int)
    requires
        0 <= i < threads.len(),
        thread_holding(threads.subrange(0, i), id) == -1,
        threads[i] matches Some(ids) && ids.contains(id),
    ensures
        thread_holding(threads, id) == i,
    decreases threads.len(),
{
    if threads.len() - 1 == i {
        assert(threads.drop_last() =~= threads.subrange(0, i));
    } else {
        assert(threads.drop_last().subrange(0, i) =~= threads.subrange(0, i));
        lemma_thread_holding_prefix(threads.drop_last(), id, i);
    }
}

/// A thread ending in a window is found at an occupied slot whose top
/// window it is.
proof fn lemma_thread_ending_found(threads: Seq<Option<Seq<WindowId>>>, last: WindowId)
    requires
        thread_ending(threads, Some(last)) >= 0,
    ensures
        ({
            let i = thread_ending(threads, Some(last));
            &&& i < threads.len()
            &&& threads[i] is Some
            &&& (threads[i]->0).len() > 0
            &&& (threads[i]->0).last() == last
            &&& thread_ending(threads.subrange(0, i), Some(last)) == -1
        }),
    decreases threads.len(),
{
    let before = threads.drop_last();
    if thread_ending(before, Some(last)) >= 0 {
        lemma_thread_ending_found(before, last);
        let i = thread_ending(before, Some(last));
        assert(before.subrange(0, i) =~= threads.subrange(0, i));
    } else {
        assert(threads.subrange(0, threads.len() - 1) =~= before);
    }
}

/// No thread ends in a window that no thread holds.
proof fn lemma_thread_ending_absent(threads: Seq<Option<Seq<WindowId>>>, id: WindowId)
    requires
        forall|j: int| 0 <= j < threads.len() && #[trigger] threads[j] is Some ==> !(threads[j]->0).contains(id),
    ensures
        thread_ending(threads, Some(id)) == -1,
    decreases threads.len(),
{
    if threads.len() > 0 {
        let before = threads.drop_last();
        assert forall|j: int| 0 <= j < before.len() && #[trigger] before[j] is Some implies !(before[j]->0).contains(id) by {
            assert(before[j] == threads[j]);
        }
        lemma_thread_ending_absent(before, id);
        if threads.last() is Some {
            let ids = threads.last()->0;
            assert(threads[threads.len() - 1] is Some);
            if ids.len() > 0 {
                assert(ids.contains(ids.last()));
            }
        }
    }
}

/// Opening a window over the top window of its parent's thread, then
/// closing it, leaves the manager as it was before the opening, provided
/// the windows the opening disables were enabled and the new window was
/// unknown: the same windows with the same states, enabled flags, parents
/// and threads; only the cache of the window's type changes, taking the
/// window's state where the type is reusable.
pub proof fn opening_then_closing_restores(
    before: Manager,
    opened: Manager,
    closed: Manager,
    state: WindowState,
    parent: WindowId,
    id: WindowId,
)
    requires
        !before.states_view().contains_key(id),
        forall|j: int| 0 <= j < before.threads_view().len() && #[trigger] before.threads_view()[j] is Some
            ==> !(before.threads_view()[j]->0).contains(id),
        thread_ending(before.threads_view(), Some(parent)) >= 0,
        forall|k: WindowId| disabled_by_opening(before.threads_view(), before.states_view(), state_type(state), parent).contains(k)
            && before.states_view().contains_key(k) ==> #[trigger] before.states_view()[k].enabled,
        opened.opened_over(before, state, parent, id),
        closed.closed_from(opened, id),
    ensures
        closed.states_view() == before.states_view(),
        closed.threads_view() == before.threads_view(),
        closed.thread_count_view() == before.thread_count_view(),
        closed.reusable_view(state_type(state)) == if type_is_reusable(state_type(state)) {
            Some(state)
        } else {
            before.reusable_view(state_type(state))
        },
        forall|t: WindowType| t != state_type(state) ==> #[trigger] closed.reusable_view(t) == before.reusable_view(t),
{
    let disabled = disabled_by_opening(before.threads_view(), before.states_view(), state_type(state), parent);
    let entry = opened.states_view()[id];
    closing_restores_disabled(before.states_view(), disabled, id, entry);
    let threads = before.threads_view();
    let i = thread_ending(threads, Some(parent));
    lemma_thread_ending_found(threads, parent);
    let pushed = opened.threads_view();
    assert(pushed == threads.update(i, Some(threads[i]->0.push(id))));
    assert(pushed.subrange(0, i) =~= threads.subrange(0, i));
    assert forall|j: int| 0 <= j < threads.subrange(0, i).len() && #[trigger] threads.subrange(0, i)[j] is Some
        implies !(threads.subrange(0, i)[j]->0).contains(id) by {
        assert(threads.subrange(0, i)[j] == threads[j]);
    }
    lemma_thread_ending_absent(threads.subrange(0, i), id);
    assert((pushed[i]->0).last() == id);
    lemma_thread_ending_prefix(pushed, Some(id), i);
    assert(threads[i]->0.push(id).drop_last() =~= threads[i]->0);
    assert(closed.threads_view() =~= threads);
    assert(state_type(entry.state) == state_type(state));
    assert forall|t: WindowType| t != state_type(state) implies #[trigger] closed.reusable_view(t) == before.reusable_view(t) by {
        assert(opened.reusable_view(t) == before.reusable_view(t));
    }
    assert(opened.reusable_view(state_type(state)) == before.reusable_view(state_type(state)));
}

} // verus!
