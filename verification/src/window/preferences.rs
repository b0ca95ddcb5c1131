//! The preferences window: a language tab and a logs tab, whose changed
//! settings are collected when the user accepts.

pub mod language;
pub mod logs;

use crate::application::{thread_close_commands, Command, State as Application};
use crate::manager::thread_holding;
use crate::enums::StringGroup;
use crate::error::{ApplicationError, CoreError, WindowId};
use crate::log::{LogLevel, LogLevels};
use crate::session::{Settings, Ui};
use crate::window::WindowState;
use crate::foreign::LanguageTagRef;
use crate::layout::{Alignment, LayoutData};
use crate::localisation::preferences::{index_position, last_position, Index, Strings};
use crate::localisation::{
    in_language, registered_tag_name, remade_for, AnyLocalisedTrait, Localisation, LocalisedStrings, LocalisedTrait, StringCache,
};
use vstd::prelude::*;
use vstd::string::*;

verus! {

broadcast use crate::foreign::group_tag_ref;

/// The tabs of the preferences window.
#[derive(Debug, Clone, Copy, PartialEq, Eq, Structural)]
pub enum TabId {
    Language,
    Logs,
}

/// The messages of the preferences window.
#[derive(Debug, Clone, PartialEq, Eq)]
pub enum Message {
    Accept,
    Cancel,
    TabSelected(TabId),
    TabClosed(TabId),
    Language(language::Message),
    Log(logs::Message),
}

/// A setting changed in the preferences window.
#[derive(Debug)]
pub enum Setting {
    Language(LanguageTagRef),
    Log(logs::LogSetting),
}

/// The preferences strings held by a string cache, if it holds them.
pub open spec fn cached_preferences(cache: StringCache) -> Option<Strings> {
    match cache.entry(StringGroup::Preferences) {
        Some(LocalisedStrings::Preferences(strings)) => Some(strings),
        _ => None,
    }
}

/// Whether a string cache holds the preferences strings.
pub open spec fn has_preferences(cache: StringCache) -> bool {
    &&& cache.wf()
    &&& cached_preferences(cache) is Some
}

/// The preferences strings of a string cache.
fn preferences_strings(string_cache: &StringCache) -> (strings: &Strings)
    requires
        has_preferences(*string_cache),
    ensures
        Some(*strings) == cached_preferences(*string_cache),
{
    let entry = string_cache.get(&StringGroup::Preferences).unwrap();
    entry.as_preferences().unwrap()
}

/// The state of the preferences window.
#[derive(Debug)]
pub struct State {
    changed_settings: Option<Vec<Setting>>,
    first_use: bool,
    active_tab: TabId,
    language: language::Tab,
    logs: logs::Tab,
}

impl State {
    /// The settings collected on accepting, not yet taken.
    pub closed spec fn changed_view(&self) -> Option<Seq<Setting>> {
        match self.changed_settings {
            Some(settings) => Some(settings@),
            None => None,
        }
    }

    /// Whether the window is shown on the first use of the application.
    pub closed spec fn first_use_view(&self) -> bool {
        self.first_use
    }

    /// The tab shown.
    pub closed spec fn active_tab_view(&self) -> TabId {
        self.active_tab
    }

    /// The language tab.
    pub closed spec fn language_tab(&self) -> language::Tab {
        self.language
    }

    /// The logs tab.
    pub closed spec fn logs_tab(&self) -> logs::Tab {
        self.logs
    }

    /// The state for the settings, showing the language tab, with nothing
    /// collected yet.
    pub fn try_new(
        localisation: &Localisation,
        string_cache: &StringCache,
        settings: &Settings,
        first_use: bool,
    ) -> (result: Result<State, ApplicationError>)
        requires
            has_preferences(*string_cache),
        ensures
            match result {
                Ok(state) => {
                    let strings = cached_preferences(*string_cache)->0;
                    &&& state.changed_view() is None
                    &&& state.first_use_view() == first_use
                    &&& state.active_tab_view() == TabId::Language
                    &&& state.language_tab().selected_view() == state.language_tab().original_view()
                    &&& state.language_tab().list_view() == strings.languages_view()
                    &&& !state.language_tab().changed_view()
                    &&& !state.language_tab().update_view()
                    &&& state.logs_tab().original_default == settings.log_levels.default
                    &&& state.logs_tab().selected_default == settings.log_levels.default
                    &&& state.logs_tab().original_application == settings.log_levels.application
                    &&& state.logs_tab().selected_application == settings.log_levels.application
                    &&& state.logs_tab().original_other == settings.log_levels.application
                    &&& state.logs_tab().selected_other == settings.log_levels.application
                    &&& state.logs_tab().original_iced == settings.log_levels.iced
                    &&& state.logs_tab().selected_iced == settings.log_levels.iced
                    &&& state.logs_tab().original_i18n == settings.log_levels.i18n
                    &&& state.logs_tab().selected_i18n == settings.log_levels.i18n
                },
                Err(error) => error matches ApplicationError::Core(core) && core is LanguageTagRegistry,
            },
    {
        let strings = preferences_strings(string_cache);
        let language = language::Tab::try_new(localisation, strings, settings)?;
        let logs = logs::Tab::new(strings, settings);
        Ok(State { changed_settings: None, first_use, active_tab: TabId::Language, language, logs })
    }

    /// Take the settings collected on accepting.
    pub fn result_vector(&mut self) -> (result: Option<Vec<Setting>>)
        ensures
            match result {
                Some(settings) => old(self).changed_view() == Some(settings@),
                None => old(self).changed_view() is None,
            },
            final(self).changed_view() is None,
            final(self).first_use_view() == old(self).first_use_view(),
            final(self).active_tab_view() == old(self).active_tab_view(),
            final(self).language_tab() == old(self).language_tab(),
            final(self).logs_tab() == old(self).logs_tab(),
    {
        self.changed_settings.take()
    }

    /// The language name selected.
    pub fn language_tab_selected(&self) -> (selected: &Option<String>)
        ensures
            language::option_view(*selected) == self.language_tab().selected_view(),
    {
        self.language.selected_language()
    }

    /// Whether the interface is to take on the selected language.
    pub fn language_update(&self) -> (update: bool)
        ensures
            update == self.language_tab().update_view(),
    {
        self.language.update()
    }

    /// Whether the interface is to return to the original language.
    pub fn language_changed(&self) -> (changed: bool)
        ensures
            changed == self.language_tab().changed_view(),
    {
        self.language.changed()
    }

    /// Whether the window is shown on the first use of the application.
    pub fn is_first_use(&self) -> (first_use: bool)
        ensures
            first_use == self.first_use_view(),
    {
        self.first_use
    }

    /// The first use is over.
    pub fn end_first_use(&mut self)
        ensures
            !final(self).first_use_view(),
            final(self).changed_view() == old(self).changed_view(),
            final(self).active_tab_view() == old(self).active_tab_view(),
            final(self).language_tab() == old(self).language_tab(),
            final(self).logs_tab() == old(self).logs_tab(),
    {
        self.first_use = false;
    }

    /// Name the selected log levels again, from strings localised anew.
    pub fn update_log_names(&mut self, string_cache: &StringCache)
        requires
            has_preferences(*string_cache),
        ensures
            final(self).changed_view() == old(self).changed_view(),
            final(self).first_use_view() == old(self).first_use_view(),
            final(self).active_tab_view() == old(self).active_tab_view(),
            final(self).language_tab() == old(self).language_tab(),
            ({
                let strings = cached_preferences(*string_cache)->0;
                let before = old(self).logs_tab();
                let after = final(self).logs_tab();
                &&& after.list == before.list
                &&& after.original_default == before.original_default
                &&& after.selected_default == before.selected_default
                &&& after.original_application == before.original_application
                &&& after.selected_application == before.selected_application
                &&& after.original_other == before.original_other
                &&& after.selected_other == before.selected_other
                &&& after.original_iced == before.original_iced
                &&& after.selected_iced == before.selected_iced
                &&& after.original_i18n == before.original_i18n
                &&& after.selected_i18n == before.selected_i18n
                &&& language::option_view(after.selected_default_string) == logs::level_name(strings, before.selected_default)
                &&& language::option_view(after.selected_application_string) == logs::level_name(
                    strings,
                    before.selected_application,
                )
                &&& language::option_view(after.selected_other_string) == logs::level_name(strings, before.selected_other)
                &&& language::option_view(after.selected_iced_string) == logs::level_name(strings, before.selected_iced)
                &&& language::option_view(after.selected_i18n_string) == logs::level_name(strings, before.selected_i18n)
            }),
    {
        let strings = preferences_strings(string_cache);
        self.logs.update(strings);
    }

    /// Whether the strings of the cache name what a message selects, and,
    /// on accepting, the language selected: the names the window offers
    /// come from those strings.
    pub open spec fn accepts(&self, message: Message, strings: Strings) -> bool {
        match message {
            Message::Log(log) => strings.logs_view().contains(logs::message_name(log)),
            Message::Accept => self.language_tab().original_view() != self.language_tab().selected_view()
                && self.language_tab().selected_view() is Some ==> strings.languages_view().contains(
                self.language_tab().selected_view()->0,
            ),
            _ => true,
        }
    }

    /// Whether the strings of the cache name what a message selects.
    pub fn is_accepted(&self, message: &Message, string_cache: &StringCache) -> (accepted: bool)
        requires
            has_preferences(*string_cache),
        ensures
            accepted == self.accepts(*message, cached_preferences(*string_cache)->0),
    {
        let strings = preferences_strings(string_cache);
        proof {
            crate::localisation::preferences::lemma_last_position(strings.languages_view(), self.language_tab().selected_view()->0);
        }
        match message {
            Message::Log(log) => {
                proof {
                    crate::localisation::preferences::lemma_last_position(strings.logs_view(), logs::message_name(*log));
                }
                let name = logs::message_text(log);
                strings.log_map_to_level(name).is_some()
            },
            Message::Accept => {
                if !language::option_eq(self.language.original(), self.language.selected_language()) {
                    match self.language.selected_language() {
                        Some(selected) => strings.language_map_to_tag(selected).is_some(),
                        None => true,
                    }
                } else {
                    true
                }
            },
            _ => true,
        }
    }

    /// Handle a message of the window. `Cancel` marks the language for
    /// return where another was selected; a tab selection shows that tab;
    /// a selection is passed to its tab; `Accept` collects the changed
    /// settings, language first, where there are any.
    pub fn try_update(&mut self, message: Message, string_cache: &StringCache) -> (result: Result<(), ApplicationError>)
        requires
            has_preferences(*string_cache),
            old(self).accepts(message, cached_preferences(*string_cache)->0),
        ensures
            result is Ok,
            final(self).first_use_view() == old(self).first_use_view(),
            ({
                let strings = cached_preferences(*string_cache)->0;
                match message {
                    Message::Cancel => {
                        &&& final(self).language_tab().changed_view() == (old(self).language_tab().changed_view()
                            || old(self).language_tab().original_view() != old(self).language_tab().selected_view())
                        &&& final(self).language_tab().selected_view() == old(self).language_tab().selected_view()
                        &&& final(self).language_tab().original_view() == old(self).language_tab().original_view()
                        &&& final(self).language_tab().update_view() == old(self).language_tab().update_view()
                        &&& final(self).logs_tab() == old(self).logs_tab()
                        &&& final(self).active_tab_view() == old(self).active_tab_view()
                        &&& final(self).changed_view() == old(self).changed_view()
                    },
                    Message::TabSelected(tab) => {
                        &&& final(self).active_tab_view() == tab
                        &&& final(self).language_tab() == old(self).language_tab()
                        &&& final(self).logs_tab() == old(self).logs_tab()
                        &&& final(self).changed_view() == old(self).changed_view()
                    },
                    Message::TabClosed(_) => *final(self) == *old(self),
                    Message::Language(language::Message::LanguageSelected(name)) => {
                        &&& final(self).language_tab().update_view() == (old(self).language_tab().selected_view() != Some(name@))
                        &&& final(self).language_tab().selected_view() == Some(name@)
                        &&& final(self).language_tab().original_view() == old(self).language_tab().original_view()
                        &&& final(self).language_tab().changed_view() == old(self).language_tab().changed_view()
                        &&& final(self).logs_tab() == old(self).logs_tab()
                        &&& final(self).active_tab_view() == old(self).active_tab_view()
                        &&& final(self).changed_view() == old(self).changed_view()
                    },
                    Message::Log(log) => {
                        &&& logs::selection_made(old(self).logs_tab(), final(self).logs_tab(), log, strings)
                        &&& final(self).language_tab() == old(self).language_tab()
                        &&& final(self).active_tab_view() == old(self).active_tab_view()
                        &&& final(self).changed_view() == old(self).changed_view()
                    },
                    Message::Accept => {
                        let changes = accepted_changes(old(self).language_tab(), old(self).logs_tab(), strings);
                        &&& final(self).changed_view() == (if changes.len() > 0 {
                            Some(changes)
                        } else {
                            old(self).changed_view()
                        })
                        &&& final(self).language_tab() == old(self).language_tab()
                        &&& final(self).logs_tab() == old(self).logs_tab()
                        &&& final(self).active_tab_view() == old(self).active_tab_view()
                    },
                }
            }),
    {
        let strings = preferences_strings(string_cache);
        match message {
            Message::Cancel => self.language.update_changed(),
            Message::TabSelected(tab) => self.active_tab = tab,
            Message::TabClosed(_) => {},
            Message::Language(selection) => self.language.selected(selection),
            Message::Log(selection) => self.logs.selected(selection, strings),
            Message::Accept => {
                let mut changed_settings: Vec<Setting> = Vec::new();
                self.language.check_change(strings, &mut changed_settings);
                self.logs.check_change(&mut changed_settings);
                if changed_settings.len() > 0 {
                    self.changed_settings = Some(changed_settings);
                }
            },
        }
        Ok(())
    }
}

/// A button of the preferences window.
#[derive(Debug, Clone, Copy, PartialEq, Eq, Structural)]
pub enum Button {
    Accept,
    Cancel,
}

/// What the preferences window shows: its tabs in order and the tab shown,
/// its buttons in order with their labels, whether its lines run in
/// reverse, and the alignment of the buttons.
#[derive(Debug)]
pub struct WindowView {
    pub tabs: Vec<TabId>,
    pub active_tab: TabId,
    pub buttons: Vec<(Button, String)>,
    pub reverse_lines: bool,
    pub align_buttons: Alignment,
}

/// The tabs shown: the logs tab only after the first use, in reverse where
/// lines run in reverse.
pub open spec fn shown_tabs(first_use: bool, reverse_lines: bool) -> Seq<TabId> {
    let tabs = if first_use { seq![TabId::Language] } else { seq![TabId::Language, TabId::Logs] };
    if reverse_lines { tabs.reverse() } else { tabs }
}

/// The buttons shown: cancel only after the first use, in reverse where
/// words run in reverse.
pub open spec fn shown_buttons(first_use: bool, reverse_words: bool) -> Seq<Button> {
    let buttons = if first_use { seq![Button::Accept] } else { seq![Button::Accept, Button::Cancel] };
    if reverse_words { buttons.reverse() } else { buttons }
}

/// The string of the preferences table that labels a button.
pub open spec fn button_label(button: Button) -> Index {
    match button {
        Button::Accept => Index::Accept,
        Button::Cancel => Index::Cancel,
    }
}

/// A button with its label.
fn labelled(button: Button, strings: &Strings) -> (labelled: (Button, String))
    ensures
        labelled.0 == button,
        labelled.1 == strings.texts()[index_position(button_label(button))],
{
    match button {
        Button::Accept => (button, strings.text(Index::Accept).clone()),
        Button::Cancel => (button, strings.text(Index::Cancel).clone()),
    }
}

impl State {
    /// What the window shows, for the layout of the default language.
    pub fn window_view(&self, layout: &LayoutData, string_cache: &StringCache) -> (view: WindowView)
        requires
            has_preferences(*string_cache),
        ensures
            view.tabs@ == shown_tabs(self.first_use_view(), layout.reverse_lines),
            view.active_tab == self.active_tab_view(),
            view.buttons@.len() == shown_buttons(self.first_use_view(), layout.reverse_words).len(),
            forall|i: int| 0 <= i < view.buttons@.len() ==> {
                let button = shown_buttons(self.first_use_view(), layout.reverse_words)[i];
                &&& (#[trigger] view.buttons@[i]).0 == button
                &&& view.buttons@[i].1 == cached_preferences(*string_cache)->0.texts()[index_position(button_label(button))]
            },
            view.reverse_lines == layout.reverse_lines,
            view.align_buttons == layout.align_words_end,
    {
        let strings = preferences_strings(string_cache);
        let mut tabs: Vec<TabId> = Vec::new();
        if self.first_use {
            tabs.push(TabId::Language);
        } else if layout.reverse_lines {
            tabs.push(TabId::Logs);
            tabs.push(TabId::Language);
        } else {
            tabs.push(TabId::Language);
            tabs.push(TabId::Logs);
        }
        let mut buttons: Vec<(Button, String)> = Vec::new();
        if self.first_use {
            buttons.push(labelled(Button::Accept, strings));
        } else if layout.reverse_words {
            buttons.push(labelled(Button::Cancel, strings));
            buttons.push(labelled(Button::Accept, strings));
        } else {
            buttons.push(labelled(Button::Accept, strings));
            buttons.push(labelled(Button::Cancel, strings));
        }
        proof {
            assert(seq![TabId::Language].reverse() =~= seq![TabId::Language]);
            assert(seq![TabId::Language, TabId::Logs].reverse() =~= seq![TabId::Logs, TabId::Language]);
            assert(seq![Button::Accept].reverse() =~= seq![Button::Accept]);
            assert(seq![Button::Accept, Button::Cancel].reverse() =~= seq![Button::Cancel, Button::Accept]);
        }
        WindowView {
            tabs,
            active_tab: self.active_tab,
            buttons,
            reverse_lines: layout.reverse_lines,
            align_buttons: layout.align_words_end,
        }
    }
}

/// The language setting of an accepted language tab, where another
/// language was selected.
pub open spec fn language_change(tab: language::Tab, strings: Strings) -> Seq<Setting> {
    if tab.original_view() != tab.selected_view() {
        seq![Setting::Language(strings.tags()[last_position(strings.languages_view(), tab.selected_view()->0)])]
    } else {
        Seq::empty()
    }
}

/// The settings collected on accepting: the language first, then the log
/// levels.
pub open spec fn accepted_changes(language: language::Tab, logs: logs::Tab, strings: Strings) -> Seq<Setting> {
    language_change(language, strings) + logs::log_changes(logs)
}

/// The settings with a changed setting applied.
pub open spec fn apply_setting(settings: Settings, setting: Setting) -> Settings {
    let levels = settings.log_levels;
    match setting {
        Setting::Language(tag) => Settings { ui: Ui { language: tag.name_string() }, log_levels: levels },
        Setting::Log(log) => Settings {
            ui: settings.ui,
            log_levels: match log {
                logs::LogSetting::LevelDefault(level) => LogLevels { default: level, ..levels },
                logs::LogSetting::LevelApplication(level) => LogLevels { application: level, ..levels },
                logs::LogSetting::LevelOther(level) => LogLevels { other: level, ..levels },
                logs::LogSetting::LevelIced(level) => LogLevels { iced: level, ..levels },
                logs::LogSetting::LevelI18n(level) => LogLevels { i18n: level, ..levels },
            },
        },
    }
}

/// The settings with changed settings applied in order.
pub open spec fn apply_settings(settings: Settings, changes: Seq<Setting>) -> Settings
    decreases changes.len(),
{
    if changes.len() == 0 {
        settings
    } else {
        apply_setting(apply_settings(settings, changes.drop_last()), changes.last())
    }
}

/// Applying two runs of changed settings in turn is applying them joined.
proof fn lemma_apply_settings_concat(settings: Settings, first: Seq<Setting>, second: Seq<Setting>)
    ensures
        apply_settings(settings, first + second) == apply_settings(apply_settings(settings, first), second),
    decreases second.len(),
{
    if second.len() > 0 {
        assert((first + second).drop_last() =~= first + second.drop_last());
        assert((first + second).last() == second.last());
        lemma_apply_settings_concat(settings, first, second.drop_last());
    }
}

/// Applying a level setting pushed only where the level changed applies
/// it where the level changed and keeps the settings otherwise.
proof fn lemma_apply_change_if(settings: Settings, original: LogLevel, selected: LogLevel, setting: Setting)
    ensures
        apply_settings(settings, logs::change_if(original, selected, setting))
            == (if original != selected { apply_setting(settings, setting) } else { settings }),
{
    let changes = logs::change_if(original, selected, setting);
    if original != selected {
        assert(changes.drop_last() =~= Seq::<Setting>::empty());
        assert(apply_settings(settings, changes.drop_last()) == settings);
        assert(changes.last() == setting);
    }
}

/// The level a component ends with: the selected one where the selection
/// differs from the original, else the current one.
pub open spec fn level_after(current: LogLevel, original: LogLevel, selected: LogLevel) -> LogLevel {
    if original != selected {
        selected
    } else {
        current
    }
}

/// The number of a tab's components whose selected level differs from the
/// original.
pub open spec fn changed_components(tab: logs::Tab) -> nat {
    (if tab.original_default != tab.selected_default { 1nat } else { 0nat })
        + (if tab.original_application != tab.selected_application { 1nat } else { 0nat })
        + (if tab.original_other != tab.selected_other { 1nat } else { 0nat })
        + (if tab.original_iced != tab.selected_iced { 1nat } else { 0nat })
        + (if tab.original_i18n != tab.selected_i18n { 1nat } else { 0nat })
}

/// The levels and interface language after applying a logs tab's changes.
proof fn lemma_log_changes_levels(settings: Settings, tab: logs::Tab)
    ensures
        ({
            let after = apply_settings(settings, logs::log_changes(tab)).log_levels;
            let before = settings.log_levels;
            &&& after.default == level_after(before.default, tab.original_default, tab.selected_default)
            &&& after.application == level_after(before.application, tab.original_application, tab.selected_application)
            &&& after.other == level_after(before.other, tab.original_other, tab.selected_other)
            &&& after.iced == level_after(before.iced, tab.original_iced, tab.selected_iced)
            &&& after.i18n == level_after(before.i18n, tab.original_i18n, tab.selected_i18n)
        }),
        apply_settings(settings, logs::log_changes(tab)).ui == settings.ui,
{
    let c0 = logs::change_if(tab.original_default, tab.selected_default, Setting::Log(logs::LogSetting::LevelDefault(tab.selected_default)));
    let c1 = logs::change_if(tab.original_application, tab.selected_application, Setting::Log(logs::LogSetting::LevelApplication(tab.selected_application)));
    let c2 = logs::change_if(tab.original_other, tab.selected_other, Setting::Log(logs::LogSetting::LevelOther(tab.selected_other)));
    let c3 = logs::change_if(tab.original_iced, tab.selected_iced, Setting::Log(logs::LogSetting::LevelIced(tab.selected_iced)));
    let c4 = logs::change_if(tab.original_i18n, tab.selected_i18n, Setting::Log(logs::LogSetting::LevelI18n(tab.selected_i18n)));
    let all = logs::log_changes(tab);
    assert(all == c0 + c1 + c2 + c3 + c4);
    lemma_apply_settings_concat(settings, c0 + c1 + c2 + c3, c4);
    lemma_apply_settings_concat(settings, c0 + c1 + c2, c3);
    lemma_apply_settings_concat(settings, c0 + c1, c2);
    lemma_apply_settings_concat(settings, c0, c1);
    let s0 = apply_settings(settings, c0);
    let s1 = apply_settings(s0, c1);
    let s2 = apply_settings(s1, c2);
    let s3 = apply_settings(s2, c3);
    let s4 = apply_settings(s3, c4);
    assert(apply_settings(settings, all) == s4);
    lemma_apply_change_if(settings, tab.original_default, tab.selected_default, Setting::Log(logs::LogSetting::LevelDefault(tab.selected_default)));
    assert(s0.ui == settings.ui);
    assert(s0.log_levels == LogLevels { default: level_after(settings.log_levels.default, tab.original_default, tab.selected_default), ..settings.log_levels });
    lemma_apply_change_if(s0, tab.original_application, tab.selected_application, Setting::Log(logs::LogSetting::LevelApplication(tab.selected_application)));
    assert(s1.ui == settings.ui);
    assert(s1.log_levels == LogLevels { application: level_after(settings.log_levels.application, tab.original_application, tab.selected_application), ..s0.log_levels });
    lemma_apply_change_if(s1, tab.original_other, tab.selected_other, Setting::Log(logs::LogSetting::LevelOther(tab.selected_other)));
    assert(s2.ui == settings.ui);
    assert(s2.log_levels == LogLevels { other: level_after(settings.log_levels.other, tab.original_other, tab.selected_other), ..s1.log_levels });
    lemma_apply_change_if(s2, tab.original_iced, tab.selected_iced, Setting::Log(logs::LogSetting::LevelIced(tab.selected_iced)));
    assert(s3.ui == settings.ui);
    assert(s3.log_levels == LogLevels { iced: level_after(settings.log_levels.iced, tab.original_iced, tab.selected_iced), ..s2.log_levels });
    lemma_apply_change_if(s3, tab.original_i18n, tab.selected_i18n, Setting::Log(logs::LogSetting::LevelI18n(tab.selected_i18n)));
    assert(s4.ui == settings.ui);
    assert(s4.log_levels == LogLevels { i18n: level_after(settings.log_levels.i18n, tab.original_i18n, tab.selected_i18n), ..s3.log_levels });
}

/// A logs tab's changes: one log setting per changed component.
proof fn lemma_log_changes_shape(tab: logs::Tab)
    ensures
        logs::log_changes(tab).len() == changed_components(tab),
        forall|i: int| 0 <= i < logs::log_changes(tab).len() ==> #[trigger] logs::log_changes(tab)[i] is Log,
{
    let c0 = logs::change_if(tab.original_default, tab.selected_default, Setting::Log(logs::LogSetting::LevelDefault(tab.selected_default)));
    let c1 = logs::change_if(tab.original_application, tab.selected_application, Setting::Log(logs::LogSetting::LevelApplication(tab.selected_application)));
    let c2 = logs::change_if(tab.original_other, tab.selected_other, Setting::Log(logs::LogSetting::LevelOther(tab.selected_other)));
    let c3 = logs::change_if(tab.original_iced, tab.selected_iced, Setting::Log(logs::LogSetting::LevelIced(tab.selected_iced)));
    let c4 = logs::change_if(tab.original_i18n, tab.selected_i18n, Setting::Log(logs::LogSetting::LevelI18n(tab.selected_i18n)));
    let all = logs::log_changes(tab);
    assert(all == c0 + c1 + c2 + c3 + c4);
    assert forall|i: int| 0 <= i < all.len() implies #[trigger] all[i] is Log by {
        if i < c0.len() {
            assert(all[i] == c0[i]);
        } else if i < c0.len() + c1.len() {
            assert(all[i] == c1[i - c0.len()]);
        } else if i < c0.len() + c1.len() + c2.len() {
            assert(all[i] == c2[i - c0.len() - c1.len()]);
        } else if i < c0.len() + c1.len() + c2.len() + c3.len() {
            assert(all[i] == c3[i - c0.len() - c1.len() - c2.len()]);
        } else {
            assert(all[i] == c4[i - c0.len() - c1.len() - c2.len() - c3.len()]);
        }
    }
}


/// Accepting the log level changes of a logs tab sets each component
/// (default, application, other, `iced`, `i18n`) to its selected level
/// where that differs from its original and leaves it as it was
/// otherwise, keeps the interface language, and holds one log setting per
/// changed component, so that the logger is configured again exactly when
/// some component's level changed. For a tab made from the settings (each
/// original is the current level), every level becomes the one selected.
pub proof fn accepting_log_changes_sets_selected_levels(settings: Settings, tab: logs::Tab)
    ensures
        ({
            let after = apply_settings(settings, logs::log_changes(tab)).log_levels;
            let before = settings.log_levels;
            &&& after.default == level_after(before.default, tab.original_default, tab.selected_default)
            &&& after.application == level_after(before.application, tab.original_application, tab.selected_application)
            &&& after.other == level_after(before.other, tab.original_other, tab.selected_other)
            &&& after.iced == level_after(before.iced, tab.original_iced, tab.selected_iced)
            &&& after.i18n == level_after(before.i18n, tab.original_i18n, tab.selected_i18n)
        }),
        apply_settings(settings, logs::log_changes(tab)).ui == settings.ui,
        logs::log_changes(tab).len() == changed_components(tab),
        forall|i: int| 0 <= i < logs::log_changes(tab).len() ==> #[trigger] logs::log_changes(tab)[i] is Log,
        changes_logging(logs::log_changes(tab)) <==> changed_components(tab) > 0,
        settings.log_levels.default == tab.original_default && settings.log_levels.application == tab.original_application
            && settings.log_levels.other == tab.original_other && settings.log_levels.iced == tab.original_iced
            && settings.log_levels.i18n == tab.original_i18n ==> apply_settings(settings, logs::log_changes(tab)).log_levels
            == (LogLevels {
            default: tab.selected_default,
            application: tab.selected_application,
            other: tab.selected_other,
            iced: tab.selected_iced,
            i18n: tab.selected_i18n,
        }),
{
    lemma_log_changes_levels(settings, tab);
    lemma_log_changes_shape(tab);
    if changed_components(tab) > 0 {
        assert(logs::log_changes(tab)[0] is Log);
    }
}

/// Accepting the preferences sets each log component to the level
/// selected on the logs tab where that differs from its original, and
/// leaves it as it was otherwise, whatever the language tab holds; the
/// logger is configured again exactly when some component's level
/// changed.
pub proof fn accepting_preferences_sets_selected_levels(
    settings: Settings,
    language: language::Tab,
    logs: logs::Tab,
    strings: Strings,
)
    ensures
        ({
            let after = apply_settings(settings, accepted_changes(language, logs, strings)).log_levels;
            let before = settings.log_levels;
            &&& after.default == level_after(before.default, logs.original_default, logs.selected_default)
            &&& after.application == level_after(before.application, logs.original_application, logs.selected_application)
            &&& after.other == level_after(before.other, logs.original_other, logs.selected_other)
            &&& after.iced == level_after(before.iced, logs.original_iced, logs.selected_iced)
            &&& after.i18n == level_after(before.i18n, logs.original_i18n, logs.selected_i18n)
        }),
        changes_logging(accepted_changes(language, logs, strings)) <==> changed_components(logs) > 0,
{
    let first = language_change(language, strings);
    let second = logs::log_changes(logs);
    let all = accepted_changes(language, logs, strings);
    lemma_apply_settings_concat(settings, first, second);
    let middle = apply_settings(settings, first);
    if first.len() > 0 {
        assert(first.drop_last() =~= Seq::<Setting>::empty());
        assert(apply_settings(settings, first.drop_last()) == settings);
    }
    assert(middle.log_levels == settings.log_levels);
    accepting_log_changes_sets_selected_levels(middle, logs);
    if changes_logging(all) {
        let k = choose|k: int| 0 <= k < all.len() && #[trigger] all[k] is Log;
        assert(k >= first.len());
        assert(all[k] == second[k - first.len()]);
    }
    if changed_components(logs) > 0 {
        assert(all[first.len() as int] == second[0]);
        assert(all[first.len() as int] is Log);
    }
}

/// Whether changed settings change a log level.
pub open spec fn changes_logging(changes: Seq<Setting>) -> bool {
    exists|i: int| 0 <= i < changes.len() && #[trigger] changes[i] is Log
}

/// Apply changed settings in order; whether a log level changed.
pub fn apply_changes(settings: &mut Settings, changes: &Vec<Setting>) -> (logging: bool)
    ensures
        *final(settings) == apply_settings(*old(settings), changes@),
        logging == changes_logging(changes@),
{
    let mut logging = false;
    let mut i: usize = 0;
    while i < changes.len()
        invariant
            i <= changes@.len(),
            *settings == apply_settings(*old(settings), changes@.subrange(0, i as int)),
            logging == changes_logging(changes@.subrange(0, i as int)),
        decreases changes@.len() - i,
    {
        let ghost before = changes@.subrange(0, i as int);
        assert(changes@.subrange(0, i + 1).drop_last() =~= before);
        match &changes[i] {
            Setting::Language(tag) => settings.ui.language = tag.name.clone(),
            Setting::Log(log) => {
                match log {
                    logs::LogSetting::LevelDefault(level) => settings.log_levels.default = *level,
                    logs::LogSetting::LevelApplication(level) => settings.log_levels.application = *level,
                    logs::LogSetting::LevelOther(level) => settings.log_levels.other = *level,
                    logs::LogSetting::LevelIced(level) => settings.log_levels.iced = *level,
                    logs::LogSetting::LevelI18n(level) => settings.log_levels.i18n = *level,
                }
                logging = true;
            },
        }
        proof {
            let after = changes@.subrange(0, i + 1);
            if changes_logging(after) {
                let k = choose|k: int| 0 <= k < after.len() && #[trigger] after[k] is Log;
                if k < i {
                    assert(before[k] is Log);
                }
            }
            if changes_logging(before) {
                let k = choose|k: int| 0 <= k < before.len() && #[trigger] before[k] is Log;
                assert(after[k] is Log);
            }
            if changes@[i as int] is Log {
                assert(after[i as int] is Log);
            }
        }
        i = i + 1;
    }
    assert(changes@.subrange(0, i as int) =~= changes@);
    logging
}

/// Whether the interface is in a language: the localisation's language and
/// the localiser's default language are that language, and each cached
/// table that follows the language is localised in it.
pub open spec fn localised_in(application: Application, name: Seq<char>) -> bool {
    &&& application.localisation.language()@ == name
    &&& application.localisation.localiser_default() == name
    &&& forall|g: StringGroup| #[trigger] in_language(application.string_cache.entry(g), name)
}

/// Whether every cached table that followed the language and was in
/// another one is made anew in a language, answering its own requests.
pub open spec fn remade_in(before: Application, after: Application, name: Seq<char>) -> bool {
    forall|g: StringGroup| #[trigger] remade_for(
        before.string_cache.entry(g),
        after.string_cache.entry(g),
        after.localisation.languages(),
        name,
    )
}

/// The tag name of a localised language name: that of the last language
/// with that name.
pub open spec fn selected_language_tag(strings: Strings, name: Seq<char>) -> Seq<char> {
    strings.language_tags_view()[last_position(strings.languages_view(), name)]
}

/// Whether a cancel returns to the session's language: the state's
/// language was changed, or another is selected.
pub open spec fn cancel_returns(state: State) -> bool {
    state.language_tab().changed_view() || state.language_tab().original_view() != state.language_tab().selected_view()
}

/// The command that configures the logger again, where the applied
/// settings change a log level.
pub open spec fn logger_commands(applied: Seq<Setting>) -> Seq<Command> {
    if changes_logging(applied) {
        seq![Command::UpdateLogger]
    } else {
        Seq::empty()
    }
}

/// The settings that accepting a state's changes applies: those collected
/// now, else those collected before.
pub open spec fn applied_on_accept(state: State, strings: Strings) -> Seq<Setting> {
    let changes = accepted_changes(state.language_tab(), state.logs_tab(), strings);
    if changes.len() > 0 {
        changes
    } else {
        match state.changed_view() {
            Some(settings) => settings,
            None => Seq::empty(),
        }
    }
}

/// Show the preferences window over its parent window; its strings are
/// localised first where the cache lacks them.
pub fn display(application: &mut Application, parent: WindowId) -> (result: Result<Vec<Command>, ApplicationError>)
    requires
        old(application).wf(),
    ensures
        final(application).wf(),
        result is Ok ==> {
            let id = old(application).next_id;
            &&& final(application).manager.states_view().contains_key(id)
            &&& final(application).manager.states_view()[id].state matches WindowState::Preferences(state)
                && !state.first_use_view() && state.changed_view() is None
            &&& final(application).manager.states_view()[id].parent == Some(parent)
            &&& has_preferences(final(application).string_cache)
        },
        !old(application).manager.states_view().contains_key(parent) ==> result is Err,
        result matches Err(error) ==> {
            ||| error matches ApplicationError::Core(core) && (core is Localiser || core is LanguageTagRegistry)
            ||| error matches ApplicationError::Core(CoreError::WindowIdNotFound(missing, _)) && missing == parent
                && !old(application).manager.states_view().contains_key(parent)
        },
{
    application.cache_strings(StringGroup::Preferences)?;
    let state = State::try_new(&application.localisation, &application.string_cache, &application.session.settings, false)?;
    application.spawn(WindowState::Preferences(state), parent)
}

/// Whether the preferences window can take a message: the window is a
/// preferences window, the strings its names come from are cached, and
/// they name what the message selects (for a language, where it differs
/// from the one selected).
pub open spec fn update_accepted(application: Application, id: WindowId, message: Message) -> bool {
    application.manager.states_view().contains_key(id) ==> {
        &&& application.manager.states_view()[id].state matches WindowState::Preferences(state)
        &&& has_preferences(application.string_cache)
        &&& state.accepts(message, cached_preferences(application.string_cache)->0)
        &&& (message matches Message::Language(language::Message::LanguageSelected(name))
            ==> (state.language_tab().selected_view() != Some(name@)
            ==> cached_preferences(application.string_cache)->0.languages_view().contains(name@)))
    }
}

/// Whether the preferences window can take a message.
pub fn is_update_accepted(application: &Application, id: WindowId, message: &Message) -> (accepted: bool)
    requires
        application.wf(),
    ensures
        accepted == update_accepted(*application, id, *message),
{
    match application.manager.state(&id) {
        None => true,
        Some(WindowState::Preferences(state)) => {
            let cached = match application.string_cache.get(&StringGroup::Preferences) {
                Some(entry) => entry.as_preferences().is_some(),
                None => false,
            };
            if !cached {
                return false;
            }
            if !state.is_accepted(message, &application.string_cache) {
                return false;
            }
            match message {
                Message::Language(language::Message::LanguageSelected(name)) => {
                    let strings = preferences_strings(&application.string_cache);
                    proof {
                        crate::localisation::preferences::lemma_last_position(strings.languages_view(), name@);
                    }
                    let same = match state.language_tab_selected() {
                        Some(selected) => *selected == *name,
                        None => false,
                    };
                    same || strings.language_map_to_tag(name).is_some()
                },
                _ => true,
            }
        },
        Some(_) => false,
    }
}

/// Take the preferences window's message for a state taken out of the
/// manager: the state takes it, then a language selection that changes
/// the language relocalises every window, `Accept` applies the changed
/// settings to the session, and `Cancel` returns to the session's language
/// where another was tried. Whether the window is to close.
fn update_state(application: &mut Application, state: &mut State, id: WindowId, message: Message) -> (result: Result<
    (Vec<Command>, bool),
    ApplicationError,
>)
    requires
        old(application).wf(),
        has_preferences(old(application).string_cache),
        old(state).accepts(message, cached_preferences(old(application).string_cache)->0),
        message matches Message::Language(language::Message::LanguageSelected(name))
            ==> (old(state).language_tab().selected_view() != Some(name@)
            ==> cached_preferences(old(application).string_cache)->0.languages_view().contains(name@)),
    ensures
        final(application).wf(),
        final(application).manager.states_view().dom() == old(application).manager.states_view().dom(),
        final(application).manager.same_threads(old(application).manager),
        final(state).first_use_view() == old(state).first_use_view(),
        message is Accept ==> {
            let strings = cached_preferences(old(application).string_cache)->0;
            let changes = accepted_changes(old(state).language_tab(), old(state).logs_tab(), strings);
            let collected = if changes.len() > 0 { Some(changes) } else { old(state).changed_view() };
            let applied = match collected {
                Some(settings) => settings,
                None => Seq::empty(),
            };
            &&& final(application).session.settings == apply_settings(old(application).session.settings, applied)
            &&& result matches Ok((commands, close))
            &&& close
            &&& commands@ == if changes_logging(applied) { seq![Command::UpdateLogger] } else { Seq::empty() }
        },
        !(message is Accept) && !(message is Cancel) ==> final(application).session == old(application).session,
        message is Cancel && !old(state).language_tab().changed_view() && old(state).language_tab().original_view()
            == old(state).language_tab().selected_view() ==> (result matches Ok((commands, close)) && close
            && commands@.len() == 0),
        message matches Message::Language(language::Message::LanguageSelected(name)) ==> (old(state).language_tab().selected_view()
            != Some(name@) && result is Ok ==> {
            let tag = selected_language_tag(cached_preferences(old(application).string_cache)->0, name@);
            &&& localised_in(*final(application), tag)
            &&& remade_in(*old(application), *final(application), tag)
        }),
        message is Cancel && cancel_returns(*old(state)) && result is Ok ==> {
            &&& registered_tag_name(old(application).session.settings.ui.language@) == Some(
                final(application).localisation.language()@,
            )
            &&& localised_in(*final(application), final(application).localisation.language()@)
            &&& remade_in(*old(application), *final(application), final(application).localisation.language()@)
        },
{
    let selected_name: Option<String> = match &message {
        Message::Language(language::Message::LanguageSelected(name)) => Some(name.clone()),
        _ => None,
    };
    let is_accept = match &message {
        Message::Accept => true,
        _ => false,
    };
    let is_cancel = match &message {
        Message::Cancel => true,
        _ => false,
    };
    let _ = state.try_update(message, &application.string_cache);
    let mut commands: Vec<Command> = Vec::new();
    match selected_name {
        Some(name) => {
            if state.language_update() {
                let ghost strings_view = cached_preferences(application.string_cache)->0;
                let tag = {
                    let strings = preferences_strings(&application.string_cache);
                    strings.language_map_to_tag(&name).unwrap().clone()
                };
                proof {
                    let i = last_position(strings_view.languages_view(), name@);
                    assert(tag == strings_view.tags()[i]);
                    assert(strings_view.language_tags_view()[i] == strings_view.tags()[i]@);
                    assert(tag@ == selected_language_tag(strings_view, name@));
                }
                match application.localisation.change_default_language(tag) {
                    Ok(_) => {},
                    Err(error) => return Err(ApplicationError::Core(error)),
                }
                match application.string_cache.try_update(&application.localisation) {
                    Ok(()) => {},
                    Err(error) => return Err(ApplicationError::Core(error)),
                }
                state.update_log_names(&application.string_cache);
                application.localise_threads(id)?;
            }
            Ok((commands, false))
        },
        None => {
            if is_accept {
                let logging = match state.result_vector() {
                    Some(changes) => apply_changes(&mut application.session.settings, &changes),
                    None => false,
                };
                if logging {
                    commands.push(Command::UpdateLogger);
                }
                Ok((commands, true))
            } else if is_cancel {
                if state.language_changed() {
                    let tag = match application.localisation.language_tag(application.session.settings.ui.language.as_str()) {
                        Ok(tag) => tag,
                        Err(error) => return Err(ApplicationError::Core(error)),
                    };
                    match application.localisation.change_default_language(tag) {
                        Ok(_) => {},
                        Err(error) => return Err(ApplicationError::Core(error)),
                    }
                    match application.string_cache.try_update(&application.localisation) {
                        Ok(()) => {},
                        Err(error) => return Err(ApplicationError::Core(error)),
                    }
                    application.localise_threads(id)?;
                }
                Ok((commands, true))
            } else {
                Ok((commands, false))
            }
        },
    }
}

/// Handle a message of the preferences window, closing the window after
/// `Accept` and `Cancel`.
pub fn try_update(application: &mut Application, id: WindowId, message: Message) -> (result: Result<Vec<Command>, ApplicationError>)
    requires
        old(application).wf(),
        update_accepted(*old(application), id, message),
    ensures
        final(application).wf(),
        !old(application).manager.states_view().contains_key(id) ==> {
            &&& result matches Err(ApplicationError::Core(CoreError::WindowIdNotFound(missing, field)))
            &&& missing == id
            &&& field@ == "window_states"@
            &&& *final(application) == *old(application)
        },
        old(application).manager.states_view().contains_key(id) && message is Accept ==> {
            let state = old(application).manager.states_view()[id].state->Preferences_0;
            let applied = applied_on_accept(state, cached_preferences(old(application).string_cache)->0);
            let threads = old(application).manager.threads_view();
            &&& final(application).session.settings == apply_settings(old(application).session.settings, applied)
            &&& !state.first_use_view() ==> (result matches Ok(commands) && commands@ == logger_commands(applied) + seq![
                Command::Window(crate::manager::Action::Close(id)),
                Command::Window(crate::manager::Action::Closed(id)),
            ])
            &&& state.first_use_view() && thread_holding(threads, id) >= 0 ==> (result matches Ok(commands) && commands@
                == logger_commands(applied) + thread_close_commands(threads, id))
        },
        old(application).manager.states_view().contains_key(id) && message is Cancel ==> ({
            let state = old(application).manager.states_view()[id].state->Preferences_0;
            !state.first_use_view() && !state.language_tab().changed_view() && state.language_tab().original_view()
                == state.language_tab().selected_view() ==> (result matches Ok(commands) && commands@ == seq![
                Command::Window(crate::manager::Action::Close(id)),
                Command::Window(crate::manager::Action::Closed(id)),
            ])
        }),
        old(application).manager.states_view().contains_key(id) ==> ({
            let state = old(application).manager.states_view()[id].state->Preferences_0;
            message matches Message::Language(language::Message::LanguageSelected(name)) ==> (
            state.language_tab().selected_view() != Some(name@) && result is Ok ==> {
                let tag = selected_language_tag(cached_preferences(old(application).string_cache)->0, name@);
                &&& localised_in(*final(application), tag)
                &&& remade_in(*old(application), *final(application), tag)
            })
        }),
        old(application).manager.states_view().contains_key(id) && message is Cancel ==> ({
            let state = old(application).manager.states_view()[id].state->Preferences_0;
            cancel_returns(state) && result is Ok ==> {
                &&& registered_tag_name(old(application).session.settings.ui.language@) == Some(
                    final(application).localisation.language()@,
                )
                &&& localised_in(*final(application), final(application).localisation.language()@)
                &&& remade_in(*old(application), *final(application), final(application).localisation.language()@)
            }
        }),
{
    // The state is taken out of the manager while it is updated, an empty
    // default window state standing in for it.
    if application.manager.state(&id).is_none() {
        return Err(ApplicationError::Core(CoreError::WindowIdNotFound(id, String::from_str("window_states"))));
    }
    let placeholder = WindowState::Default(crate::window::default::State::new());
    let mut state = match application.manager.replace_state(id, placeholder) {
        None => return Err(ApplicationError::Core(CoreError::WindowIdNotFound(id, String::from_str("window_states")))),
        Some(WindowState::Preferences(state)) => state,
        Some(other) => {
            let _ = application.manager.replace_state(id, other);
            return Ok(Vec::new());
        },
    };
    let outcome = update_state(application, &mut state, id, message);
    let _ = application.manager.replace_state(id, WindowState::Preferences(state));
    let (mut commands, close_window) = outcome?;
    if close_window {
        let closing = close(application, id)?;
        crate::application::append_commands(&mut commands, closing);
    }
    Ok(commands)
}

/// Cancel the preferences and close the window.
pub fn cancel_and_close(application: &mut Application, id: WindowId) -> (result: Result<Vec<Command>, ApplicationError>)
    requires
        old(application).wf(),
        update_accepted(*old(application), id, Message::Cancel),
    ensures
        final(application).wf(),
        !old(application).manager.states_view().contains_key(id) ==> {
            &&& result matches Err(ApplicationError::Core(CoreError::WindowIdNotFound(missing, field)))
            &&& missing == id
            &&& field@ == "window_states"@
            &&& *final(application) == *old(application)
        },
        old(application).manager.states_view().contains_key(id) ==> ({
            let state = old(application).manager.states_view()[id].state->Preferences_0;
            !state.first_use_view() && !state.language_tab().changed_view() && state.language_tab().original_view()
                == state.language_tab().selected_view() ==> (result matches Ok(commands) && commands@ == seq![
                Command::Window(crate::manager::Action::Close(id)),
                Command::Window(crate::manager::Action::Closed(id)),
            ])
        }),
{
    try_update(application, id, Message::Cancel)
}

/// Close the preferences window: on first use, the whole thread (there is
/// no other window); else the window alone.
pub fn close(application: &mut Application, id: WindowId) -> (result: Result<Vec<Command>, ApplicationError>)
    requires
        old(application).wf(),
    ensures
        final(application).wf(),
        !old(application).manager.states_view().contains_key(id) ==> (result matches Err(ApplicationError::Core(
            CoreError::WindowIdNotFound(missing, _),
        )) && missing == id),
        old(application).manager.states_view().contains_key(id) && (old(application).manager.states_view()[id].state matches
            WindowState::Preferences(state) && !state.first_use_view()) ==> (result matches Ok(commands) && commands@
            == seq![
            Command::Window(crate::manager::Action::Close(id)),
            Command::Window(crate::manager::Action::Closed(id)),
        ]),
        old(application).manager.states_view().contains_key(id) && old(application).manager.states_view()[id].state is Preferences
            ==> final(application).session == old(application).session,
        old(application).manager.states_view().contains_key(id) && old(application).manager.states_view()[id].state is Preferences
            ==> final(application).localisation == old(application).localisation && final(application).string_cache
            == old(application).string_cache,
        old(application).manager.states_view().contains_key(id) && (old(application).manager.states_view()[id].state matches
            WindowState::Preferences(state) && state.first_use_view()) && thread_holding(
            old(application).manager.threads_view(),
            id,
        ) >= 0 ==> (result matches Ok(commands) && commands@ == thread_close_commands(
            old(application).manager.threads_view(),
            id,
        )),
{
    let first_use = match application.manager.state(&id) {
        None => return Err(ApplicationError::Core(CoreError::WindowIdNotFound(id, String::from_str("window_states")))),
        Some(WindowState::Preferences(state)) => state.is_first_use(),
        Some(_) => false,
    };
    if first_use {
        application.close_thread(id)
    } else {
        let actions = application.manager.close_window(id).unwrap();
        Ok(crate::application::to_commands(actions))
    }
}

} // verus!
