//! Session data kept between runs of the application: the settings, the
//! recently opened databases, and the geometry of each window type.
//!
//! Window sizes and positions are single-precision floating point values
//! in logical pixels; the library only stores and copies them, so it holds
//! each as its IEEE-754 bit pattern (what `f32::to_bits` gives).

use crate::enums::WindowType;
use crate::log::{default_log_levels, LogLevels};
use vstd::prelude::*;
use vstd::string::*;

verus! {

/// A pair of single-precision values (width and height, or x and y), each
/// held by its bit pattern.
#[derive(Debug, Clone, Copy, PartialEq, Eq, Structural)]
pub struct FloatPair {
    pub first: u32,
    pub second: u32,
}

/// The saved geometry of a window type.
#[derive(Debug, Clone, Copy, PartialEq, Eq, Structural)]
pub struct WindowData {
    pub size: FloatPair,
    pub position: Option<FloatPair>,
}

/// The user interface settings.
#[derive(Debug, Clone)]
pub struct Ui {
    pub language: String,
}

/// The name of the default user interface language, the same as the
/// default language of the "application" component in the localisation
/// database.
pub open spec fn default_ui_language() -> Seq<char> {
    "en_ZA"@
}

impl Default for Ui {
    /// The default user interface settings.
    fn default() -> (ui: Ui)
        ensures
            ui.language@ == default_ui_language(),
    {
        Ui { language: String::from_str("en_ZA") }
    }
}

/// The application settings.
#[derive(Debug, Clone)]
pub struct Settings {
    pub ui: Ui,
    pub log_levels: LogLevels,
}

impl Default for Settings {
    /// The default settings.
    fn default() -> (settings: Settings)
        ensures
            settings.ui.language@ == default_ui_language(),
            settings.log_levels == default_log_levels(),
    {
        Settings { ui: Ui::default(), log_levels: LogLevels::default() }
    }
}

/// The number of window types, and so of the entries of a window table.
pub const WINDOW_TYPE_COUNT: usize = 8;

/// The position of a window type in a table of all window types.
pub open spec fn window_type_index(window_type: WindowType) -> int {
    match window_type {
        WindowType::Default => 0,
        WindowType::ConfirmExit => 1,
        WindowType::FatalError => 2,
        WindowType::Information => 3,
        WindowType::Preferences => 4,
        WindowType::About => 5,
        WindowType::UnsavedData => 6,
        WindowType::Main => 7,
    }
}

/// The position of a window type in a table of all window types.
pub fn window_type_position(window_type: WindowType) -> (index: usize)
    ensures
        index == window_type_index(window_type),
        index < WINDOW_TYPE_COUNT,
{
    match window_type {
        WindowType::Default => 0,
        WindowType::ConfirmExit => 1,
        WindowType::FatalError => 2,
        WindowType::Information => 3,
        WindowType::Preferences => 4,
        WindowType::About => 5,
        WindowType::UnsavedData => 6,
        WindowType::Main => 7,
    }
}

/// Distinct window types take distinct positions.
pub proof fn window_type_index_injective(a: WindowType, b: WindowType)
    ensures
        window_type_index(a) == window_type_index(b) ==> a == b,
        0 <= window_type_index(a) < WINDOW_TYPE_COUNT,
{
}

/// The saved geometry of each window type that has been opened.
#[derive(Debug, Clone)]
pub struct WindowTable {
    entries: Vec<Option<WindowData>>,
}

impl WindowTable {
    /// One entry per window type.
    pub closed spec fn wf(&self) -> bool {
        self.entries@.len() == WINDOW_TYPE_COUNT
    }

    /// The geometry saved for a window type, if any.
    pub closed spec fn entry(&self, window_type: WindowType) -> Option<WindowData> {
        self.entries@[window_type_index(window_type)]
    }

    /// A table with no saved geometry.
    pub fn new() -> (table: WindowTable)
        ensures
            table.wf(),
            forall|t: WindowType| #[trigger] table.entry(t) is None,
    {
        let mut entries: Vec<Option<WindowData>> = Vec::new();
        let mut i: usize = 0;
        while i < WINDOW_TYPE_COUNT
            invariant
                i <= WINDOW_TYPE_COUNT,
                entries@.len() == i,
                forall|j: int| 0 <= j < i ==> entries@[j] is None,
            decreases WINDOW_TYPE_COUNT - i,
        {
            entries.push(None);
            i = i + 1;
        }
        WindowTable { entries }
    }

    /// Whether geometry is saved for the window type.
    pub fn contains_key(&self, window_type: WindowType) -> (found: bool)
        requires
            self.wf(),
        ensures
            found == self.entry(window_type) is Some,
    {
        self.entries[window_type_position(window_type)].is_some()
    }

    /// The geometry saved for the window type.
    pub fn get(&self, window_type: WindowType) -> (data: Option<WindowData>)
        requires
            self.wf(),
        ensures
            data == self.entry(window_type),
    {
        self.entries[window_type_position(window_type)]
    }

    /// Save the geometry of the window type.
    pub fn insert(&mut self, window_type: WindowType, data: WindowData)
        requires
            old(self).wf(),
        ensures
            final(self).wf(),
            final(self).entry(window_type) == Some(data),
            forall|t: WindowType| t != window_type ==> #[trigger] final(self).entry(t) == old(self).entry(t),
    {
        let index = window_type_position(window_type);
        self.entries.set(index, Some(data));
        proof {
            assert forall|t: WindowType| t != window_type implies #[trigger] self.entry(t) == old(self).entry(t) by {
                window_type_index_injective(t, window_type);
            }
        }
    }
}

/// Data that persists between runs.
#[derive(Debug, Clone)]
pub struct Session {
    pub settings: Settings,
    /// The paths of the last opened databases.
    pub history: Vec<String>,
    pub windows: WindowTable,
}

impl Default for Session {
    /// A fresh session: default settings, no history, no saved geometry.
    fn default() -> (session: Session)
        ensures
            session.settings.ui.language@ == default_ui_language(),
            session.settings.log_levels == default_log_levels(),
            session.history@.len() == 0,
            session.windows.wf(),
            forall|t: WindowType| #[trigger] session.windows.entry(t) is None,
    {
        Session { settings: Settings::default(), history: Vec::new(), windows: WindowTable::new() }
    }
}

/// Whether a session is a fresh one: default settings, no history and no
/// saved geometry.
pub open spec fn is_fresh(session: Session) -> bool {
    &&& session.settings.ui.language@ == default_ui_language()
    &&& session.settings.log_levels == default_log_levels()
    &&& session.history@.len() == 0
    &&& session.windows.wf()
    &&& forall|t: WindowType| #[trigger] session.windows.entry(t) is None
}

/// The session to start with, and whether the application is used for the
/// first time: where the command line asks to restore the saved session,
/// the session restored, or a fresh one on first use where none could be
/// restored; else a fresh session.
pub fn starting_session(restores: bool, restored: Option<Session>) -> (start: (Session, bool))
    ensures
        restores && restored is Some ==> start.0 == restored->0 && !start.1,
        restores && restored is None ==> is_fresh(start.0) && start.1,
        !restores ==> is_fresh(start.0) && !start.1,
{
    if restores {
        match restored {
            Some(session) => (session, false),
            None => (Session::default(), true),
        }
    } else {
        (Session::default(), false)
    }
}

} // verus!
