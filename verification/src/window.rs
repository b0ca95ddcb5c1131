//! The windows of the application, each with its state, and the state of a
//! window of any type.

pub mod about;
pub mod confirm_exit;
pub mod default;
pub mod fatal_error;
pub mod information;
pub mod main;
pub mod preferences;
pub mod unsaved_data;

use crate::enums::WindowType;
use crate::error::ApplicationError;
use crate::localisation::Localisation;
use vstd::prelude::*;

verus! {

/// The state of a window of any type.
pub enum WindowState {
    Default(default::State),
    Main(main::State),
    Preferences(preferences::State),
    UnsavedData(unsaved_data::State),
    About(about::State),
    ConfirmExit(confirm_exit::State),
    Information(information::State),
    FatalError(fatal_error::State),
}

/// The type of a window state.
pub open spec fn state_type(state: WindowState) -> WindowType {
    match state {
        WindowState::Default(_) => WindowType::Default,
        WindowState::Main(_) => WindowType::Main,
        WindowState::Preferences(_) => WindowType::Preferences,
        WindowState::UnsavedData(_) => WindowType::UnsavedData,
        WindowState::About(_) => WindowType::About,
        WindowState::ConfirmExit(_) => WindowType::ConfirmExit,
        WindowState::Information(_) => WindowType::Information,
        WindowState::FatalError(_) => WindowType::FatalError,
    }
}

/// Whether the states of a window type are kept for reuse once their
/// window closes: those of the frequently shown default, about and confirm
/// exit windows.
pub open spec fn type_is_reusable(window_type: WindowType) -> bool {
    window_type == WindowType::Default || window_type == WindowType::About || window_type == WindowType::ConfirmExit
}

/// Whether a window of the type disables every window thread, rather than
/// only its parent: the preferences, about and confirm exit windows, whose
/// effect reaches all threads.
pub open spec fn type_is_global_disable(window_type: WindowType) -> bool {
    window_type == WindowType::Preferences || window_type == WindowType::About || window_type
        == WindowType::ConfirmExit
}

/// The basic methods of a window state.
pub trait WindowTrait {
    /// The type of the window.
    spec fn kind(&self) -> WindowType;

    /// The type of the window.
    fn window_type(&self) -> (window_type: WindowType)
        ensures
            window_type == self.kind(),
    ;

    /// Whether the state is kept for reuse once the window closes.
    fn is_reusable(&self) -> (reusable: bool)
        ensures
            reusable == type_is_reusable(self.kind()),
    ;

    /// Whether the window disables every window thread rather than only
    /// its parent.
    fn is_global_disable(&self) -> (global: bool)
        ensures
            global == type_is_global_disable(self.kind()),
    ;
}

/// Access to the state of a particular window type, within a state of any
/// type.
pub trait AnyWindowTrait: WindowTrait {
    /// The main window state, where the state is one.
    fn as_main(&self) -> (state: Option<&main::State>);

    /// The preferences window state, where the state is one.
    fn as_preferences(&self) -> (state: Option<&preferences::State>);
}

impl WindowTrait for WindowState {
    open spec fn kind(&self) -> WindowType {
        state_type(*self)
    }

    fn window_type(&self) -> (window_type: WindowType) {
        match self {
            WindowState::Default(_) => WindowType::Default,
            WindowState::Main(_) => WindowType::Main,
            WindowState::Preferences(_) => WindowType::Preferences,
            WindowState::UnsavedData(_) => WindowType::UnsavedData,
            WindowState::About(_) => WindowType::About,
            WindowState::ConfirmExit(_) => WindowType::ConfirmExit,
            WindowState::Information(_) => WindowType::Information,
            WindowState::FatalError(_) => WindowType::FatalError,
        }
    }

    fn is_reusable(&self) -> (reusable: bool) {
        match self {
            WindowState::Default(_) | WindowState::About(_) | WindowState::ConfirmExit(_) => true,
            _ => false,
        }
    }

    fn is_global_disable(&self) -> (global: bool) {
        match self {
            WindowState::Preferences(_) | WindowState::About(_) | WindowState::ConfirmExit(_) => true,
            _ => false,
        }
    }
}

impl AnyWindowTrait for WindowState {
    fn as_main(&self) -> (state: Option<&main::State>)
        ensures
            match self {
                WindowState::Main(s) => state == Some(s),
                _ => state is None,
            },
    {
        match self {
            WindowState::Main(s) => Some(s),
            _ => None,
        }
    }

    fn as_preferences(&self) -> (state: Option<&preferences::State>)
        ensures
            match self {
                WindowState::Preferences(s) => state == Some(s),
                _ => state is None,
            },
    {
        match self {
            WindowState::Preferences(s) => Some(s),
            _ => None,
        }
    }
}

impl WindowState {
    /// Localise again the strings the state holds itself: the title of a
    /// main window; the other states hold none.
    pub fn try_localise(&mut self, localisation: &Localisation) -> (result: Result<(), ApplicationError>)
        ensures
            state_type(*final(self)) == state_type(*old(self)),
            !(*old(self) is Main) ==> result is Ok && *final(self) == *old(self),
            *old(self) matches WindowState::Main(before) ==> *final(self) matches WindowState::Main(after)
                && after.name_view() == before.name_view() && after.unsaved_view() == before.unsaved_view(),
            result matches Err(error) ==> (error matches ApplicationError::Core(core) && core is Localiser)
                && *final(self) == *old(self),
            result is Ok && *old(self) is Main ==> (*final(self) matches WindowState::Main(after)
                && main::titled_for_name(after)),
    {
        match self {
            WindowState::Main(state) => state.try_localise(localisation),
            _ => Ok(()),
        }
    }
}

} // verus!
