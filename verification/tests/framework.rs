use iced_af::constants::window_default_data;
use iced_af::enums::{StringGroup, WindowType};
use iced_af::error::{ApplicationError, CoreError};
use iced_af::layout::{Alignment, Direction, LayoutData, ScriptDirection};
use iced_af::localisation::StringCache;
use iced_af::log::{
    logger_configuration, resolve_level, startup_log_level, LevelFilter, LogLevel, LogLevelConverter, LogLevels,
};
use iced_af::manager::{try_create, Action, Manager};
use iced_af::session::{FloatPair, Session, Settings, WindowData};
use iced_af::window::about::contributors_of;
use iced_af::vec_option::VecOption;
use iced_af::window::preferences::logs::LogSetting;
use iced_af::window::preferences::{apply_changes, Setting};
use iced_af::window::{WindowState, WindowTrait};

fn pair(first: f32, second: f32) -> FloatPair {
    FloatPair { first: first.to_bits(), second: second.to_bits() }
}

fn default_state() -> WindowState {
    WindowState::Default(iced_af::window::default::State::new())
}

fn preferences_like_global_state() -> WindowState {
    WindowState::ConfirmExit(iced_af::window::confirm_exit::State::new())
}

#[test]
fn log_level_names_parse_back() {
    for level in [
        LogLevel::Default,
        LogLevel::Off,
        LogLevel::Error,
        LogLevel::Warn,
        LogLevel::Info,
        LogLevel::Debug,
        LogLevel::Trace,
    ] {
        let name = level.to_string();
        assert_eq!(LogLevel::from_str(name.as_str()), Ok(level));
    }
}

#[test]
fn log_level_parse_ignores_case() {
    assert_eq!(LogLevel::from_str("WaRn"), Ok(LogLevel::Warn));
    assert_eq!(LogLevel::from_str("TRACE"), Ok(LogLevel::Trace));
    assert_eq!(LogLevel::from_str("Verbose"), Err("Unknown log level: verbose".to_string()));
}

#[test]
fn log_level_display_names() {
    assert_eq!(LogLevel::Default.to_string(), "default");
    assert_eq!(LogLevel::Info.to_string(), "info");
    assert_eq!(LogLevel::Off.to_string(), "off");
}

#[test]
fn log_level_filters() {
    assert_eq!(LogLevel::Default.to_level_filter(), LevelFilter::Error);
    assert_eq!(LogLevel::Off.to_level_filter(), LevelFilter::Off);
    assert_eq!(LogLevel::Debug.to_level_filter(), LevelFilter::Debug);
    assert_eq!(LogLevel::Trace.to_level_filter(), LevelFilter::Trace);
}

#[test]
fn log_level_resolution() {
    assert_eq!(resolve_level(LogLevel::Default, LogLevel::Warn), LogLevel::Warn);
    assert_eq!(resolve_level(LogLevel::Info, LogLevel::Warn), LogLevel::Info);
    assert_eq!(startup_log_level(LogLevel::Default), LogLevel::Error);
    assert_eq!(startup_log_level(LogLevel::Debug), LogLevel::Debug);
}

#[test]
fn logger_configuration_for_levels() {
    let levels = LogLevels {
        default: LogLevel::Warn,
        application: LogLevel::Default,
        other: LogLevel::Off,
        iced: LogLevel::Trace,
        i18n: LogLevel::Default,
    };
    let configuration = logger_configuration(&levels);
    assert_eq!(configuration.root, LevelFilter::Off);
    assert_eq!(configuration.loggers.len(), 17);
    assert_eq!(configuration.loggers[0].0, "iced_af_rizzen_yazston");
    assert_eq!(configuration.loggers[0].1, LevelFilter::Warn);
    assert_eq!(configuration.loggers[1].0, "iced_wgpu");
    assert_eq!(configuration.loggers[1].1, LevelFilter::Trace);
    assert_eq!(configuration.loggers[16].0, "i18n_utility");
    assert_eq!(configuration.loggers[16].1, LevelFilter::Warn);
}

#[test]
fn log_level_converter_names() {
    assert_eq!(LogLevelConverter::Off.to_string(), "Off");
    assert_eq!(LogLevelConverter::from_str("debug"), Ok(LogLevelConverter::Debug));
    assert!(LogLevelConverter::from_str("default").is_err());
    assert_eq!(LogLevelConverter::Warn.to_level_filter(), LevelFilter::Warn);
}

#[test]
fn default_log_levels_and_settings() {
    let levels = LogLevels::default();
    assert_eq!(levels.default, LogLevel::Error);
    assert_eq!(levels.application, LogLevel::Info);
    assert_eq!(levels.other, LogLevel::Default);
    let settings = Settings::default();
    assert_eq!(settings.ui.language, "en_ZA");
    let session = Session::default();
    assert!(session.history.is_empty());
    assert!(!session.windows.contains_key(WindowType::Main));
}

#[test]
fn window_type_and_string_group_names() {
    assert_eq!(WindowType::Default.as_str(), "Default");
    assert_eq!(WindowType::UnsavedData.as_str(), "UnsavedData");
    assert_eq!(StringGroup::MainCommon.as_str(), "MainCommon");
    assert_eq!(StringGroup::Preferences.as_str(), "Preferences");
}

#[test]
fn vec_option_reuses_free_slots() {
    let mut slots: VecOption<u32> = VecOption::new();
    assert_eq!(slots.push(10), 0);
    assert_eq!(slots.push(20), 1);
    assert_eq!(slots.push(30), 2);
    assert_eq!(slots.take(1), Some(20));
    assert_eq!(slots.occupied(), 2);
    assert_eq!(slots.push(40), 1);
    assert_eq!(slots.len(), 3);
    assert_eq!(slots.pop(), Some(30));
    assert_eq!(slots.occupied(), 2);
}

#[test]
fn vec_option_empties_when_nothing_is_left() {
    let mut slots: VecOption<u32> = VecOption::new();
    assert_eq!(slots.take(0), None);
    assert_eq!(slots.pop(), None);
    slots.push(1);
    slots.push(2);
    assert_eq!(slots.take(0), Some(1));
    assert_eq!(slots.take(1), Some(2));
    assert_eq!(slots.len(), 0);
    assert_eq!(slots.occupied(), 0);
}

#[test]
fn vec_option_replace_keeps_count() {
    let mut slots: VecOption<u32> = VecOption::new();
    slots.push(5);
    assert_eq!(slots.replace(0, Some(6)), Some(5));
    assert_eq!(slots.slot(0), &Some(6));
    assert_eq!(slots.occupied(), 1);
}

#[test]
fn layout_for_right_to_left_script() {
    let layout = LayoutData::new(&ScriptDirection::TopToBottomRightToLeft);
    assert_eq!(layout.flow_line, Direction::TopToBottom);
    assert_eq!(layout.flow_word, Direction::RightToLeft);
    assert!(layout.reverse_words);
    assert!(!layout.reverse_lines);
    assert_eq!(layout.align_words_start, Alignment::End);
}

#[test]
fn layout_for_left_to_right_script() {
    let layout = LayoutData::new(&ScriptDirection::TopToBottomLeftToRight);
    assert_eq!(layout.flow_word, Direction::LeftToRight);
    assert!(!layout.reverse_words);
    assert_eq!(layout.align_words_start, Alignment::Start);
    assert_eq!(layout.align_words_end, Alignment::End);
}

#[test]
fn window_defaults_table() {
    let main = window_default_data(WindowType::Main);
    assert_eq!(main.size, pair(500.0, 250.0));
    assert_eq!(main.size_max, pair(1920.0, 1080.0));
    assert_eq!(main.size_min, pair(300.0, 250.0));
    assert!(main.resizable);
    let preferences = window_default_data(WindowType::Preferences);
    assert_eq!(preferences.size, pair(500.0, 300.0));
    assert!(!preferences.resizable);
    let unsaved = window_default_data(WindowType::UnsavedData);
    assert_eq!(unsaved.size, pair(450.0, 120.0));
    assert_eq!(window_default_data(WindowType::ConfirmExit).size, pair(300.0, 120.0));
}

#[test]
fn try_create_saves_default_geometry() {
    let mut session = Session::default();
    let settings = try_create(&mut session, WindowType::About).unwrap();
    assert_eq!(settings.size, pair(300.0, 250.0));
    assert_eq!(settings.position, None);
    assert!(!settings.resizable);
    assert!(!settings.exit_on_close_request);
    assert_eq!(session.windows.get(WindowType::About), Some(WindowData { size: pair(300.0, 250.0), position: None }));
}

#[test]
fn try_create_keeps_saved_geometry() {
    let mut session = Session::default();
    let saved = WindowData { size: pair(800.0, 600.0), position: Some(pair(10.0, 20.0)) };
    session.windows.insert(WindowType::Main, saved);
    let settings = try_create(&mut session, WindowType::Main).unwrap();
    assert_eq!(settings.size, pair(800.0, 600.0));
    assert_eq!(settings.position, Some(pair(10.0, 20.0)));
    assert!(settings.resizable);
}

#[test]
fn manager_starts_empty_with_cached_default_state() {
    let mut manager = Manager::try_new().unwrap();
    assert_eq!(manager.thread_count(), 0);
    assert!(manager.thread_list().is_empty());
    let cached = manager.use_reusable(WindowType::Default).unwrap();
    assert_eq!(cached.window_type(), WindowType::Default);
    assert!(manager.use_reusable(WindowType::Default).is_none());
    assert!(manager.use_reusable(WindowType::About).is_none());
}

#[test]
fn manager_opens_thread() {
    let mut manager = Manager::try_new().unwrap();
    let mut session = Session::default();
    let action = manager.try_create_thread(&mut session, default_state(), 7).unwrap();
    match action {
        Action::Open(id, settings) => {
            assert_eq!(id, 7);
            assert_eq!(settings.size, pair(500.0, 250.0));
        },
        _ => panic!("expected an open action"),
    }
    assert_eq!(manager.thread_count(), 1);
    assert_eq!(manager.thread_list(), vec![7]);
    assert_eq!(manager.is_enabled(&7), Some(true));
    assert_eq!(manager.parent(&7), None);
}

fn fatal_state() -> WindowState {
    WindowState::FatalError(iced_af::window::fatal_error::State::new())
}

#[test]
fn manager_window_disables_parent_and_closing_enables_it() {
    let mut manager = Manager::try_new().unwrap();
    let mut session = Session::default();
    manager.try_create_thread(&mut session, default_state(), 1).unwrap();
    manager.try_create_window(&mut session, fatal_state(), 1, 2).unwrap();
    assert_eq!(manager.is_enabled(&1), Some(false));
    assert_eq!(manager.is_enabled(&2), Some(true));
    assert_eq!(manager.parent(&2), Some(1));
    assert_eq!(manager.thread_count(), 1);
    manager.window_closed(2).unwrap();
    assert_eq!(manager.is_enabled(&1), Some(true));
    assert_eq!(manager.is_enabled(&2), None);
}

#[test]
fn manager_global_window_disables_every_thread() {
    let mut manager = Manager::try_new().unwrap();
    let mut session = Session::default();
    manager.try_create_thread(&mut session, default_state(), 1).unwrap();
    manager.try_create_thread(&mut session, fatal_state(), 2).unwrap();
    assert!(preferences_like_global_state().is_global_disable());
    manager.try_create_window(&mut session, preferences_like_global_state(), 1, 3).unwrap();
    assert_eq!(manager.is_enabled(&1), Some(false));
    assert_eq!(manager.is_enabled(&2), Some(false));
    manager.window_closed(3).unwrap();
    assert_eq!(manager.is_enabled(&1), Some(true));
    assert_eq!(manager.is_enabled(&2), Some(true));
    // The confirm exit state is reusable, so it is cached on closing.
    assert!(manager.use_reusable(WindowType::ConfirmExit).is_some());
}

#[test]
fn manager_window_needs_existing_parent() {
    let mut manager = Manager::try_new().unwrap();
    let mut session = Session::default();
    match manager.try_create_window(&mut session, fatal_state(), 9, 10) {
        Err(CoreError::WindowIdNotFound(id, field)) => {
            assert_eq!(id, 9);
            assert_eq!(field, "Manager.state");
        },
        _ => panic!("expected a missing parent"),
    }
    assert!(!session.windows.contains_key(WindowType::FatalError));
}

#[test]
fn manager_closes_thread_from_top_window_down() {
    let mut manager = Manager::try_new().unwrap();
    let mut session = Session::default();
    manager.try_create_thread(&mut session, default_state(), 1).unwrap();
    manager.try_create_thread(&mut session, default_state(), 4).unwrap();
    manager.try_create_window(&mut session, fatal_state(), 4, 5).unwrap();
    let actions = manager.close_thread(4).unwrap();
    assert_eq!(actions, vec![Action::Close(5), Action::Close(4), Action::ThreadClosed(1)]);
    match manager.close_thread(77) {
        Err(CoreError::WindowIdNotFound(id, _)) => assert_eq!(id, 77),
        _ => panic!("expected a missing window"),
    }
}

#[test]
fn manager_close_window_actions() {
    let mut manager = Manager::try_new().unwrap();
    assert_eq!(manager.close_window(3).unwrap(), vec![Action::Close(3), Action::Closed(3)]);
    assert_eq!(
        manager.close_multiple(vec![6, 5]).unwrap(),
        vec![Action::Close(6), Action::Closed(6), Action::Close(5), Action::Closed(5)]
    );
}

#[test]
fn manager_thread_closed_frees_the_slot() {
    let mut manager = Manager::try_new().unwrap();
    let mut session = Session::default();
    manager.try_create_thread(&mut session, default_state(), 1).unwrap();
    manager.try_create_thread(&mut session, fatal_state(), 2).unwrap();
    manager.window_closed(1).unwrap();
    manager.thread_closed(0).unwrap();
    assert_eq!(manager.thread_count(), 1);
    assert_eq!(manager.thread_list(), vec![2]);
    manager.try_create_thread(&mut session, fatal_state(), 3).unwrap();
    assert_eq!(manager.thread_list(), vec![3, 2]);
}

#[test]
fn manager_window_closed_for_unknown_window() {
    let mut manager = Manager::try_new().unwrap();
    match manager.window_closed(42) {
        Err(CoreError::WindowIdNotFound(id, field)) => {
            assert_eq!(id, 42);
            assert_eq!(field, "Manager.states");
        },
        _ => panic!("expected a missing window"),
    }
}

#[test]
fn manager_replace_state() {
    let mut manager = Manager::try_new().unwrap();
    let mut session = Session::default();
    manager.try_create_thread(&mut session, default_state(), 1).unwrap();
    let previous = manager.replace_state(1, fatal_state()).unwrap();
    assert_eq!(previous.window_type(), WindowType::Default);
    assert_eq!(manager.state(&1).unwrap().window_type(), WindowType::FatalError);
    assert!(manager.replace_state(2, fatal_state()).is_none());
}

#[test]
fn core_error_text() {
    let error = CoreError::WindowIdNotFound(7, "Manager.states".to_string());
    assert_eq!(error.to_string(), "The window Id ‘Id(7)’ was not found in the struct field ‘\"Manager.states\"’.");
    let error = CoreError::NoConfigFile("/tmp/x".to_string());
    assert_eq!(error.to_string(), "The file ‘/tmp/x’ does not exist.");
    let error = CoreError::ExpectedWindowParent(WindowType::UnsavedData);
    assert_eq!(error.to_string(), "Expected to get the parent window for the window type ‘UnsavedData’.");
}

#[test]
fn core_error_localisation_data() {
    let data = CoreError::ConfigDirNotFound.localisation_data();
    assert_eq!(data.component, "i18n_localiser");
    assert_eq!(data.identifier, "error_format_enum");
    let values = data.values.unwrap();
    assert_eq!(values.len(), 3);
    assert_eq!(values[0].0, "type");
    assert_eq!(values[1].0, "variant");
    assert_eq!(values[2].0, "message");
}

#[test]
fn application_error_wraps_core_error() {
    let error = ApplicationError::from(CoreError::ApplicationPath);
    match &error {
        ApplicationError::Core(CoreError::ApplicationPath) => {},
        _ => panic!("expected the core error"),
    }
    assert_eq!(error.to_string(), "Failed to retrieve the application path.");
}

#[test]
fn string_cache_starts_empty() {
    let cache = StringCache::try_new().unwrap();
    assert!(!cache.contains_group(&StringGroup::Default));
    assert!(!cache.contains_group(&StringGroup::Preferences));
    assert!(cache.get(&StringGroup::Main).is_none());
}

#[test]
fn settings_changes_apply_in_order() {
    let mut settings = Settings::default();
    let changes = vec![
        Setting::Log(LogSetting::LevelDefault(LogLevel::Info)),
        Setting::Log(LogSetting::LevelIced(LogLevel::Off)),
        Setting::Log(LogSetting::LevelDefault(LogLevel::Trace)),
    ];
    assert!(apply_changes(&mut settings, &changes));
    assert_eq!(settings.log_levels.default, LogLevel::Trace);
    assert_eq!(settings.log_levels.iced, LogLevel::Off);
    assert_eq!(settings.log_levels.application, LogLevel::Info);
    let mut unchanged = Settings::default();
    assert!(!apply_changes(&mut unchanged, &Vec::new()));
    assert_eq!(unchanged.log_levels, LogLevels::default());
}

#[test]
fn contributors_are_listed_trimmed() {
    assert_eq!(contributors_of("Ann, Bob ,Cy"), vec!["Ann".to_string(), "Bob".to_string(), "Cy".to_string()]);
    assert_eq!(contributors_of("  Solo  "), vec!["Solo".to_string()]);
    assert_eq!(contributors_of(""), vec!["".to_string()]);
}

#[test]
fn window_state_kinds() {
    assert!(default_state().is_reusable());
    assert!(!default_state().is_global_disable());
    assert!(!fatal_state().is_reusable());
    assert!(preferences_like_global_state().is_reusable());
    assert_eq!(fatal_state().window_type(), WindowType::FatalError);
}

#[test]
fn registry_error_is_described_by_its_own_data() {
    let registry = i18n::utility::LanguageTagRegistry::new();
    let error = registry.tag("!!not a tag!!").unwrap_err();
    let data = CoreError::LanguageTagRegistry(error).localisation_data();
    assert_eq!(data.component, "i18n_localiser");
    assert_eq!(data.identifier, "error_format_enum_embedded");
    let values = data.values.unwrap();
    assert_eq!(values[1].0, "variant");
    assert_eq!(values[2].0, "error");
    match &values[2].1 {
        iced_af::error::Placeholder::Foreign(foreign) => {
            let foreign = foreign.data();
            assert_eq!(foreign.component, "i18n_localiser");
            assert_eq!(foreign.identifier, "error_format_enum_embedded");
            assert!(foreign.values.as_ref().unwrap().contains_key("variant"));
        },
        _ => panic!("expected the registry's own data"),
    }
}

#[test]
fn starting_session_follows_the_command_line() {
    let mut saved = iced_af::session::Session::default();
    saved.history.push("data.db".to_string());
    let (session, first_use) = iced_af::session::starting_session(true, Some(saved));
    assert_eq!(session.history, vec!["data.db".to_string()]);
    assert!(!first_use);
    let (session, first_use) = iced_af::session::starting_session(true, None);
    assert!(session.history.is_empty());
    assert!(first_use);
    let (session, first_use) = iced_af::session::starting_session(false, None);
    assert_eq!(session.settings.ui.language, "en_ZA");
    assert!(!first_use);
}

#[test]
fn window_id_text_is_its_debug_form() {
    assert_eq!(iced_af::error::window_id_debug(12).as_str(), "Id(12)");
}

#[test]
fn manager_opening_then_closing_restores_threads() {
    let mut manager = Manager::try_new().unwrap();
    let mut session = Session::default();
    manager.try_create_thread(&mut session, default_state(), 1).unwrap();
    manager.try_create_thread(&mut session, default_state(), 2).unwrap();
    let roots = manager.thread_list();
    manager.try_create_window(&mut session, fatal_state(), 2, 3).unwrap();
    manager.window_closed(3).unwrap();
    assert_eq!(manager.thread_list(), roots);
    assert_eq!(manager.thread_count(), 2);
    assert_eq!(manager.is_enabled(&1), Some(true));
    assert_eq!(manager.is_enabled(&2), Some(true));
    assert_eq!(manager.parent(&2), None);
    assert!(manager.state(&3).is_none());
    assert!(manager.use_reusable(WindowType::FatalError).is_none());
}

#[test]
fn localised_texts_keep_unlocalised_strings_in_order() {
    let mut texts = iced_af::localised::LocalisedTexts::new();
    texts.push_unlocalised(String::new());
    texts.push_unlocalised("Exit".to_string());
    assert_eq!(texts.as_vec().len(), 2);
    assert_eq!(texts.get(0).as_str(), "");
    assert_eq!(texts.get(1).as_str(), "Exit");
}
