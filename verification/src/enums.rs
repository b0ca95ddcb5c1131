//! The window types and string groups of the application.

use vstd::prelude::*;

verus! {

/// The available window types of the application.
#[derive(Debug, Clone, Copy, PartialEq, Eq, Hash, PartialOrd, Ord, Structural)]
pub enum WindowType {
    /// The default main window.
    Default,
    ConfirmExit,
    FatalError,
    Information,
    Preferences,
    About,
    UnsavedData,
    Main,
}

/// The name of a window type.
pub open spec fn window_type_name(window_type: WindowType) -> Seq<char> {
    match window_type {
        WindowType::Default => "Default"@,
        WindowType::ConfirmExit => "ConfirmExit"@,
        WindowType::FatalError => "FatalError"@,
        WindowType::Information => "Information"@,
        WindowType::Preferences => "Preferences"@,
        WindowType::About => "About"@,
        WindowType::UnsavedData => "UnsavedData"@,
        WindowType::Main => "Main"@,
    }
}

impl WindowType {
    /// Returns the window type name.
    pub fn as_str(&self) -> (name: &'static str)
        ensures
            name@ == window_type_name(*self),
    {
        match self {
            WindowType::Default => "Default",
            WindowType::ConfirmExit => "ConfirmExit",
            WindowType::FatalError => "FatalError",
            WindowType::Information => "Information",
            WindowType::Preferences => "Preferences",
            WindowType::About => "About",
            WindowType::UnsavedData => "UnsavedData",
            WindowType::Main => "Main",
        }
    }
}

/// Every window type has its own name.
pub proof fn window_type_names_distinct(a: WindowType, b: WindowType)
    ensures
        window_type_name(a) == window_type_name(b) ==> a == b,
{
    reveal_strlit("Default");
    reveal_strlit("ConfirmExit");
    reveal_strlit("FatalError");
    reveal_strlit("Information");
    reveal_strlit("Preferences");
    reveal_strlit("About");
    reveal_strlit("UnsavedData");
    reveal_strlit("Main");
    if window_type_name(a) == window_type_name(b) {
        let x = window_type_name(a);
        let y = window_type_name(b);
        assert(x.len() == y.len());
        assert(x[0] == y[0]);
        if x.len() == 11 {
            assert(x[1] == y[1]);
        }
        if x.len() == 4 {
            assert(x[0] == y[0]);
        }
    }
}

/// The available string groups of the application. String groups may be
/// shared between windows.
#[derive(Debug, Clone, Copy, PartialEq, Eq, Hash, Structural)]
pub enum StringGroup {
    ConfirmExit,
    FatalError,
    Information,
    Preferences,
    About,
    UnsavedData,
    MainCommon,
    Default,
    Main,
}

/// The name of a string group.
pub open spec fn string_group_name(group: StringGroup) -> Seq<char> {
    match group {
        StringGroup::ConfirmExit => "ConfirmExit"@,
        StringGroup::FatalError => "FatalError"@,
        StringGroup::Information => "Information"@,
        StringGroup::Preferences => "Preferences"@,
        StringGroup::About => "About"@,
        StringGroup::UnsavedData => "UnsavedData"@,
        StringGroup::MainCommon => "MainCommon"@,
        StringGroup::Default => "Default"@,
        StringGroup::Main => "Main"@,
    }
}

/// The position of a string group in a table of all groups.
pub open spec fn string_group_index(group: StringGroup) -> int {
    match group {
        StringGroup::ConfirmExit => 0,
        StringGroup::FatalError => 1,
        StringGroup::Information => 2,
        StringGroup::Preferences => 3,
        StringGroup::About => 4,
        StringGroup::UnsavedData => 5,
        StringGroup::MainCommon => 6,
        StringGroup::Default => 7,
        StringGroup::Main => 8,
    }
}

/// The number of string groups.
pub const STRING_GROUP_COUNT: usize = 9;

impl StringGroup {
    /// Returns the string group name.
    pub fn as_str(&self) -> (name: &'static str)
        ensures
            name@ == string_group_name(*self),
    {
        match self {
            StringGroup::ConfirmExit => "ConfirmExit",
            StringGroup::FatalError => "FatalError",
            StringGroup::Information => "Information",
            StringGroup::Preferences => "Preferences",
            StringGroup::About => "About",
            StringGroup::UnsavedData => "UnsavedData",
            StringGroup::MainCommon => "MainCommon",
            StringGroup::Default => "Default",
            StringGroup::Main => "Main",
        }
    }

    /// The position of the group in a table of all groups.
    pub fn index(&self) -> (index: usize)
        ensures
            index == string_group_index(*self),
            index < STRING_GROUP_COUNT,
    {
        match self {
            StringGroup::ConfirmExit => 0,
            StringGroup::FatalError => 1,
            StringGroup::Information => 2,
            StringGroup::Preferences => 3,
            StringGroup::About => 4,
            StringGroup::UnsavedData => 5,
            StringGroup::MainCommon => 6,
            StringGroup::Default => 7,
            StringGroup::Main => 8,
        }
    }
}

/// The string group at a position of a table of all groups.
pub open spec fn string_group_at(index: int) -> StringGroup {
    if index == 0 {
        StringGroup::ConfirmExit
    } else if index == 1 {
        StringGroup::FatalError
    } else if index == 2 {
        StringGroup::Information
    } else if index == 3 {
        StringGroup::Preferences
    } else if index == 4 {
        StringGroup::About
    } else if index == 5 {
        StringGroup::UnsavedData
    } else if index == 6 {
        StringGroup::MainCommon
    } else if index == 7 {
        StringGroup::Default
    } else {
        StringGroup::Main
    }
}

/// Distinct string groups take distinct positions.
pub proof fn string_group_index_injective(a: StringGroup, b: StringGroup)
    ensures
        string_group_index(a) == string_group_index(b) ==> a == b,
        0 <= string_group_index(a) < STRING_GROUP_COUNT,
{
}

} // verus!
