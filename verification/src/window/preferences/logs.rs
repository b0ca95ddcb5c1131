//! The logs tab of the preferences window.

use crate::localisation::preferences::{index_position, Index, last_position, Strings};
use crate::localisation::LocalisedTrait;
use crate::log::LogLevel;
use crate::session::Settings;
use crate::window::preferences::language::option_view;
use crate::window::preferences::Setting;
use vstd::prelude::*;

verus! {

/// The messages of the logs tab: a localised log level name selected for a
/// component.
#[derive(Debug, Clone, PartialEq, Eq)]
pub enum Message {
    LogLevelSelectedDefault(String),
    LogLevelSelectedApplication(String),
    LogLevelSelectedOther(String),
    LogLevelSelectedIced(String),
    LogLevelSelectedI18n(String),
}

/// A changed log level setting.
#[derive(Debug, Clone, Copy, PartialEq, Eq, Structural)]
pub enum LogSetting {
    LevelDefault(LogLevel),
    LevelApplication(LogLevel),
    LevelOther(LogLevel),
    LevelIced(LogLevel),
    LevelI18n(LogLevel),
}

/// The state of the logs tab: for each component, the level of the
/// settings, the level selected and its localised name.
#[derive(Debug)]
pub struct Tab {
    pub list: Vec<String>,
    pub original_default: LogLevel,
    pub selected_default: LogLevel,
    pub selected_default_string: Option<String>,
    pub original_application: LogLevel,
    pub selected_application: LogLevel,
    pub selected_application_string: Option<String>,
    pub original_other: LogLevel,
    pub selected_other: LogLevel,
    pub selected_other_string: Option<String>,
    pub original_iced: LogLevel,
    pub selected_iced: LogLevel,
    pub selected_iced_string: Option<String>,
    pub original_i18n: LogLevel,
    pub selected_i18n: LogLevel,
    pub selected_i18n_string: Option<String>,
}

/// The localised name of a log level, if the strings name it.
pub open spec fn level_name(strings: Strings, level: LogLevel) -> Option<Seq<char>> {
    let i = last_position(strings.levels_view(), level);
    if i >= 0 {
        Some(strings.logs_view()[i])
    } else {
        None
    }
}

/// The log level of a localised name.
pub open spec fn named_level(strings: Strings, name: Seq<char>) -> LogLevel {
    strings.levels_view()[last_position(strings.logs_view(), name)]
}

/// The localised name of a log level, copied.
fn name_of(strings: &Strings, level: &LogLevel) -> (name: Option<String>)
    ensures
        option_view(name) == level_name(*strings, *level),
{
    proof {
        use_type_invariant(strings);
    }
    proof {
        crate::localisation::preferences::lemma_last_position(strings.levels_view(), *level);
    }
    match strings.log_map_to_string(level) {
        Some(name) => Some(name.clone()),
        None => None,
    }
}

/// The log level of a localised name.
fn level_of(strings: &Strings, name: &String) -> (level: LogLevel)
    requires
        strings.logs_view().contains(name@),
    ensures
        level == named_level(*strings, name@),
{
    proof {
        use_type_invariant(strings);
        crate::localisation::preferences::lemma_last_position(strings.logs_view(), name@);
    }
    *strings.log_map_to_level(name).unwrap()
}

impl Tab {
    /// The tab for the settings: each component's level is both the
    /// original and the selected level. The original level of the other
    /// components is taken from the application's level, while the name
    /// selected is that of the other components' own level.
    pub fn new(strings: &Strings, settings: &Settings) -> (tab: Tab)
        ensures
            tab.list@.map_values(|s: String| s@) == strings.logs_view(),
            tab.original_default == settings.log_levels.default,
            tab.selected_default == settings.log_levels.default,
            option_view(tab.selected_default_string) == level_name(*strings, settings.log_levels.default),
            tab.original_application == settings.log_levels.application,
            tab.selected_application == settings.log_levels.application,
            option_view(tab.selected_application_string) == level_name(*strings, settings.log_levels.application),
            tab.original_other == settings.log_levels.application,
            tab.selected_other == settings.log_levels.application,
            option_view(tab.selected_other_string) == level_name(*strings, settings.log_levels.other),
            tab.original_iced == settings.log_levels.iced,
            tab.selected_iced == settings.log_levels.iced,
            option_view(tab.selected_iced_string) == level_name(*strings, settings.log_levels.iced),
            tab.original_i18n == settings.log_levels.i18n,
            tab.selected_i18n == settings.log_levels.i18n,
            option_view(tab.selected_i18n_string) == level_name(*strings, settings.log_levels.i18n),
    {
        let levels = &settings.log_levels;
        Tab {
            list: strings.log_list().clone(),
            original_default: levels.default,
            selected_default: levels.default,
            selected_default_string: name_of(strings, &levels.default),
            original_application: levels.application,
            selected_application: levels.application,
            selected_application_string: name_of(strings, &levels.application),
            original_other: levels.application,
            selected_other: levels.application,
            selected_other_string: name_of(strings, &levels.other),
            original_iced: levels.iced,
            selected_iced: levels.iced,
            selected_iced_string: name_of(strings, &levels.iced),
            original_i18n: levels.i18n,
            selected_i18n: levels.i18n,
            selected_i18n_string: name_of(strings, &levels.i18n),
        }
    }

    /// Name the selected levels again, from strings localised anew.
    pub fn update(&mut self, strings: &Strings)
        ensures
            final(self).list == old(self).list,
            final(self).original_default == old(self).original_default,
            final(self).selected_default == old(self).selected_default,
            final(self).original_application == old(self).original_application,
            final(self).selected_application == old(self).selected_application,
            final(self).original_other == old(self).original_other,
            final(self).selected_other == old(self).selected_other,
            final(self).original_iced == old(self).original_iced,
            final(self).selected_iced == old(self).selected_iced,
            final(self).original_i18n == old(self).original_i18n,
            final(self).selected_i18n == old(self).selected_i18n,
            option_view(final(self).selected_default_string) == level_name(*strings, old(self).selected_default),
            option_view(final(self).selected_application_string) == level_name(*strings, old(self).selected_application),
            option_view(final(self).selected_other_string) == level_name(*strings, old(self).selected_other),
            option_view(final(self).selected_iced_string) == level_name(*strings, old(self).selected_iced),
            option_view(final(self).selected_i18n_string) == level_name(*strings, old(self).selected_i18n),
    {
        self.selected_default_string = name_of(strings, &self.selected_default);
        self.selected_application_string = name_of(strings, &self.selected_application);
        self.selected_other_string = name_of(strings, &self.selected_other);
        self.selected_iced_string = name_of(strings, &self.selected_iced);
        self.selected_i18n_string = name_of(strings, &self.selected_i18n);
    }

    /// A localised level name was selected for a component: the component's
    /// selected level becomes the level of that name.
    pub fn selected(&mut self, message: Message, strings: &Strings)
        requires
            strings.logs_view().contains(message_name(message)),
        ensures
            selection_made(*old(self), *final(self), message, *strings),
    {
        match message {
            Message::LogLevelSelectedDefault(log_level) => {
                self.selected_default = level_of(strings, &log_level);
                self.selected_default_string = Some(log_level);
            },
            Message::LogLevelSelectedApplication(log_level) => {
                self.selected_application = level_of(strings, &log_level);
                self.selected_application_string = Some(log_level);
            },
            Message::LogLevelSelectedOther(log_level) => {
                self.selected_other = level_of(strings, &log_level);
                self.selected_other_string = Some(log_level);
            },
            Message::LogLevelSelectedIced(log_level) => {
                self.selected_iced = level_of(strings, &log_level);
                self.selected_iced_string = Some(log_level);
            },
            Message::LogLevelSelectedI18n(log_level) => {
                self.selected_i18n = level_of(strings, &log_level);
                self.selected_i18n_string = Some(log_level);
            },
        }
    }

    /// On accepting: the setting of each component whose selected level
    /// differs from its original, in the order default, application, other,
    /// `iced`, `i18n`.
    pub fn check_change(&self, changed_settings: &mut Vec<Setting>)
        ensures
            final(changed_settings)@ == old(changed_settings)@ + log_changes(*self),
    {
        let ghost start = changed_settings@;
        let ghost c0 = change_if(self.original_default, self.selected_default, Setting::Log(LogSetting::LevelDefault(self.selected_default)));
        let ghost c1 = change_if(self.original_application, self.selected_application, Setting::Log(LogSetting::LevelApplication(self.selected_application)));
        let ghost c2 = change_if(self.original_other, self.selected_other, Setting::Log(LogSetting::LevelOther(self.selected_other)));
        let ghost c3 = change_if(self.original_iced, self.selected_iced, Setting::Log(LogSetting::LevelIced(self.selected_iced)));
        let ghost c4 = change_if(self.original_i18n, self.selected_i18n, Setting::Log(LogSetting::LevelI18n(self.selected_i18n)));
        push_change(changed_settings, self.original_default, self.selected_default, Setting::Log(LogSetting::LevelDefault(self.selected_default)));
        push_change(changed_settings, self.original_application, self.selected_application, Setting::Log(LogSetting::LevelApplication(self.selected_application)));
        push_change(changed_settings, self.original_other, self.selected_other, Setting::Log(LogSetting::LevelOther(self.selected_other)));
        push_change(changed_settings, self.original_iced, self.selected_iced, Setting::Log(LogSetting::LevelIced(self.selected_iced)));
        push_change(changed_settings, self.original_i18n, self.selected_i18n, Setting::Log(LogSetting::LevelI18n(self.selected_i18n)));
        proof {
            vstd::seq_lib::lemma_concat_associative(start, c0, c1);
            vstd::seq_lib::lemma_concat_associative(start, c0 + c1, c2);
            vstd::seq_lib::lemma_concat_associative(start, c0 + c1 + c2, c3);
            vstd::seq_lib::lemma_concat_associative(start, c0 + c1 + c2 + c3, c4);
        }
        assert(changed_settings@ =~= start + log_changes(*self));
    }
}

/// A selection of a localised level name for a component: that
/// component's selected level becomes the level of that name, and nothing
/// else changes.
pub open spec fn selection_made(old_tab: Tab, new_tab: Tab, message: Message, strings: Strings) -> bool {
    &&& new_tab.list == old_tab.list
    &&& new_tab.original_default == old_tab.original_default
    &&& new_tab.original_application == old_tab.original_application
    &&& new_tab.original_other == old_tab.original_other
    &&& new_tab.original_iced == old_tab.original_iced
    &&& new_tab.original_i18n == old_tab.original_i18n
    &&& new_tab.selected_default == (if message is LogLevelSelectedDefault {
        named_level(strings, message_name(message))
    } else {
        old_tab.selected_default
    })
    &&& new_tab.selected_application == (if message is LogLevelSelectedApplication {
        named_level(strings, message_name(message))
    } else {
        old_tab.selected_application
    })
    &&& new_tab.selected_other == (if message is LogLevelSelectedOther {
        named_level(strings, message_name(message))
    } else {
        old_tab.selected_other
    })
    &&& new_tab.selected_iced == (if message is LogLevelSelectedIced {
        named_level(strings, message_name(message))
    } else {
        old_tab.selected_iced
    })
    &&& new_tab.selected_i18n == (if message is LogLevelSelectedI18n {
        named_level(strings, message_name(message))
    } else {
        old_tab.selected_i18n
    })
    &&& match message {
        Message::LogLevelSelectedDefault(name) => option_view(new_tab.selected_default_string) == Some(name@),
        Message::LogLevelSelectedApplication(name) => option_view(new_tab.selected_application_string) == Some(name@),
        Message::LogLevelSelectedOther(name) => option_view(new_tab.selected_other_string) == Some(name@),
        Message::LogLevelSelectedIced(name) => option_view(new_tab.selected_iced_string) == Some(name@),
        Message::LogLevelSelectedI18n(name) => option_view(new_tab.selected_i18n_string) == Some(name@),
    }
}

/// Push the setting where the level changed.
fn push_change(changed_settings: &mut Vec<Setting>, original: LogLevel, selected: LogLevel, setting: Setting)
    ensures
        final(changed_settings)@ == old(changed_settings)@ + change_if(original, selected, setting),
{
    if original != selected {
        changed_settings.push(setting);
    }
    assert(changed_settings@ =~= old(changed_settings)@ + change_if(original, selected, setting));
}

/// A component whose log level the logs tab sets.
#[derive(Debug, Clone, Copy, PartialEq, Eq, Structural)]
pub enum LogComponent {
    Default,
    Application,
    Other,
    Iced,
    I18n,
}

/// A row of the logs tab: a component, its localised label, and the name
/// of the level selected for it.
#[derive(Debug)]
pub struct LevelRow {
    pub component: LogComponent,
    pub label: String,
    pub selected: Option<String>,
}

/// The components the logs tab shows, in order: only the default level
/// where it is off, else every component.
pub open spec fn shown_components(tab: Tab) -> Seq<LogComponent> {
    if tab.selected_default == LogLevel::Off {
        seq![LogComponent::Default]
    } else {
        seq![
            LogComponent::Default,
            LogComponent::Application,
            LogComponent::Other,
            LogComponent::Iced,
            LogComponent::I18n,
        ]
    }
}

/// The string of the preferences table that labels a component.
pub open spec fn component_label(component: LogComponent) -> Index {
    match component {
        LogComponent::Default => Index::LogLevelDefault,
        LogComponent::Application => Index::LogLevelApplication,
        LogComponent::Other => Index::LogLevelOther,
        LogComponent::Iced => Index::LogLevelIced,
        LogComponent::I18n => Index::LogLevelI18n,
    }
}

/// The level name selected for a component.
pub open spec fn component_selection(tab: Tab, component: LogComponent) -> Option<String> {
    match component {
        LogComponent::Default => tab.selected_default_string,
        LogComponent::Application => tab.selected_application_string,
        LogComponent::Other => tab.selected_other_string,
        LogComponent::Iced => tab.selected_iced_string,
        LogComponent::I18n => tab.selected_i18n_string,
    }
}

/// Whether a row is the row of a component of a tab.
pub open spec fn is_row_of(row: LevelRow, tab: Tab, strings: Strings, component: LogComponent) -> bool {
    &&& row.component == component
    &&& row.label == strings.texts()[index_position(component_label(component))]
    &&& row.selected == component_selection(tab, component)
}

impl Tab {
    /// The title of the tab.
    pub fn title(strings: &Strings) -> (title: String)
        ensures
            title == strings.texts()[index_position(Index::Logs)],
    {
        strings.text(Index::Logs).clone()
    }

    /// A row of the tab.
    fn row(&self, strings: &Strings, component: LogComponent) -> (row: LevelRow)
        ensures
            is_row_of(row, *self, *strings, component),
    {
        let (label, selected) = match component {
            LogComponent::Default => (Index::LogLevelDefault, self.selected_default_string.clone()),
            LogComponent::Application => (Index::LogLevelApplication, self.selected_application_string.clone()),
            LogComponent::Other => (Index::LogLevelOther, self.selected_other_string.clone()),
            LogComponent::Iced => (Index::LogLevelIced, self.selected_iced_string.clone()),
            LogComponent::I18n => (Index::LogLevelI18n, self.selected_i18n_string.clone()),
        };
        LevelRow { component, label: strings.text(label).clone(), selected }
    }

    /// The rows of the tab, in order; each offers the localised level
    /// names of the tab, with the placeholder of the strings.
    pub fn rows(&self, strings: &Strings) -> (rows: Vec<LevelRow>)
        ensures
            rows@.len() == shown_components(*self).len(),
            forall|i: int| 0 <= i < rows@.len() ==> is_row_of(#[trigger] rows@[i], *self, *strings, shown_components(*self)[i]),
    {
        let mut rows: Vec<LevelRow> = Vec::new();
        rows.push(self.row(strings, LogComponent::Default));
        if self.selected_default != LogLevel::Off {
            rows.push(self.row(strings, LogComponent::Application));
            rows.push(self.row(strings, LogComponent::Other));
            rows.push(self.row(strings, LogComponent::Iced));
            rows.push(self.row(strings, LogComponent::I18n));
        }
        rows
    }
}

/// The localised level name a message carries.
pub fn message_text(message: &Message) -> (name: &String)
    ensures
        name@ == message_name(*message),
{
    match message {
        Message::LogLevelSelectedDefault(name) => name,
        Message::LogLevelSelectedApplication(name) => name,
        Message::LogLevelSelectedOther(name) => name,
        Message::LogLevelSelectedIced(name) => name,
        Message::LogLevelSelectedI18n(name) => name,
    }
}

/// The localised level name a message carries.
pub open spec fn message_name(message: Message) -> Seq<char> {
    match message {
        Message::LogLevelSelectedDefault(name) => name@,
        Message::LogLevelSelectedApplication(name) => name@,
        Message::LogLevelSelectedOther(name) => name@,
        Message::LogLevelSelectedIced(name) => name@,
        Message::LogLevelSelectedI18n(name) => name@,
    }
}

/// The setting of a component, where its level changed.
pub open spec fn change_if(original: LogLevel, selected: LogLevel, setting: Setting) -> Seq<Setting> {
    if original != selected {
        seq![setting]
    } else {
        Seq::empty()
    }
}

/// The changed log level settings of a tab, in order.
pub open spec fn log_changes(tab: Tab) -> Seq<Setting> {
    change_if(tab.original_default, tab.selected_default, Setting::Log(LogSetting::LevelDefault(tab.selected_default)))
        + change_if(tab.original_application, tab.selected_application, Setting::Log(LogSetting::LevelApplication(tab.selected_application)))
        + change_if(tab.original_other, tab.selected_other, Setting::Log(LogSetting::LevelOther(tab.selected_other)))
        + change_if(tab.original_iced, tab.selected_iced, Setting::Log(LogSetting::LevelIced(tab.selected_iced)))
        + change_if(tab.original_i18n, tab.selected_i18n, Setting::Log(LogSetting::LevelI18n(tab.selected_i18n)))
}

} // verus!
