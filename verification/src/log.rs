//! Log levels: their names, their parsing, the filter each stands for, and
//! the logger configuration that a set of per-component levels gives.

use crate::text::{all_ascii, ascii_lowercase, ascii_lower_char, concat_str, equals_str, to_lowercase, unicode_lowercase};
use vstd::prelude::*;
use vstd::string::*;

verus! {

/// The level filter of the logging facade: the most verbose level that
/// passes, or `Off`.
#[derive(Debug, Clone, Copy, PartialEq, Eq, Structural)]
pub enum LevelFilter {
    Off,
    Error,
    Warn,
    Info,
    Debug,
    Trace,
}

/// The filter used wherever a log level is left at its default.
pub const DEFAULT_LOG_LEVEL_FILTER: LevelFilter = LevelFilter::Error;

/// A log level as the settings hold it, where `Default` defers to another
/// level.
#[derive(Debug, Clone, Copy, PartialEq, Eq, Hash, Structural)]
pub enum LogLevel {
    Default,
    Off,
    Error,
    Warn,
    Debug,
    Info,
    Trace,
}

/// The filter a log level stands for.
pub open spec fn level_filter_of(level: LogLevel) -> LevelFilter {
    match level {
        LogLevel::Default => LevelFilter::Error,
        LogLevel::Off => LevelFilter::Off,
        LogLevel::Error => LevelFilter::Error,
        LogLevel::Warn => LevelFilter::Warn,
        LogLevel::Info => LevelFilter::Info,
        LogLevel::Debug => LevelFilter::Debug,
        LogLevel::Trace => LevelFilter::Trace,
    }
}

/// The display name of a log level.
pub open spec fn log_level_name(level: LogLevel) -> Seq<char> {
    match level {
        LogLevel::Default => "default"@,
        LogLevel::Off => "off"@,
        LogLevel::Error => "error"@,
        LogLevel::Warn => "warn"@,
        LogLevel::Info => "info"@,
        LogLevel::Debug => "debug"@,
        LogLevel::Trace => "trace"@,
    }
}

/// The log level that an already lower-cased name denotes, if any.
pub open spec fn parse_log_level(lower: Seq<char>) -> Option<LogLevel> {
    if lower == "default"@ {
        Some(LogLevel::Default)
    } else if lower == "off"@ {
        Some(LogLevel::Off)
    } else if lower == "trace"@ {
        Some(LogLevel::Trace)
    } else if lower == "debug"@ {
        Some(LogLevel::Debug)
    } else if lower == "info"@ {
        Some(LogLevel::Info)
    } else if lower == "warn"@ {
        Some(LogLevel::Warn)
    } else if lower == "error"@ {
        Some(LogLevel::Error)
    } else {
        None
    }
}

impl Default for LogLevel {
    fn default() -> (level: LogLevel)
        ensures
            level == LogLevel::Default,
    {
        LogLevel::Default
    }
}

impl LogLevel {
    /// Convert the log level to its level filter.
    pub fn to_level_filter(&self) -> (filter: LevelFilter)
        ensures
            filter == level_filter_of(*self),
    {
        match self {
            LogLevel::Default => DEFAULT_LOG_LEVEL_FILTER,
            LogLevel::Off => LevelFilter::Off,
            LogLevel::Error => LevelFilter::Error,
            LogLevel::Warn => LevelFilter::Warn,
            LogLevel::Info => LevelFilter::Info,
            LogLevel::Debug => LevelFilter::Debug,
            LogLevel::Trace => LevelFilter::Trace,
        }
    }

    /// The display name of the log level.
    pub fn to_string(&self) -> (name: String)
        ensures
            name@ == log_level_name(*self),
    {
        match self {
            LogLevel::Default => String::from_str("default"),
            LogLevel::Off => String::from_str("off"),
            LogLevel::Error => String::from_str("error"),
            LogLevel::Warn => String::from_str("warn"),
            LogLevel::Info => String::from_str("info"),
            LogLevel::Debug => String::from_str("debug"),
            LogLevel::Trace => String::from_str("trace"),
        }
    }

    /// Parse a log level name, ignoring case.
    ///
    /// The error message names the lower-cased input.
    pub fn from_str(string: &str) -> (result: Result<LogLevel, String>)
        ensures
            result is Ok <==> parse_log_level(unicode_lowercase(string@)) is Some,
            result matches Ok(level) ==> parse_log_level(unicode_lowercase(string@)) == Some(level),
            result matches Err(message) ==> message@ == "Unknown log level: "@ + unicode_lowercase(string@),
            all_ascii(string@) ==> parsed_ascii(string@, result),
    {
        let s = to_lowercase(string);
        if equals_str(&s, "default") {
            Ok(LogLevel::Default)
        } else if equals_str(&s, "off") {
            Ok(LogLevel::Off)
        } else if equals_str(&s, "trace") {
            Ok(LogLevel::Trace)
        } else if equals_str(&s, "debug") {
            Ok(LogLevel::Debug)
        } else if equals_str(&s, "info") {
            Ok(LogLevel::Info)
        } else if equals_str(&s, "warn") {
            Ok(LogLevel::Warn)
        } else if equals_str(&s, "error") {
            Ok(LogLevel::Error)
        } else {
            Err(concat_str("Unknown log level: ", s.as_str()))
        }
    }
}

/// What parsing an ASCII log level name gives: the level of its ASCII
/// lower case, else an error naming that lower case.
pub open spec fn parsed_ascii(string: Seq<char>, result: Result<LogLevel, String>) -> bool {
    match parse_log_level(ascii_lowercase(string)) {
        Some(level) => result == Ok::<LogLevel, String>(level),
        None => result matches Err(message) && message@ == "Unknown log level: "@ + ascii_lowercase(string),
    }
}

/// Parsing a log level name ignores case: two ASCII names that differ only
/// in the case of their letters parse to the same level, or both fail
/// with the same message.
pub proof fn level_parsing_ignores_case(
    first: Seq<char>,
    second: Seq<char>,
    first_result: Result<LogLevel, String>,
    second_result: Result<LogLevel, String>,
)
    requires
        ascii_lowercase(first) == ascii_lowercase(second),
        parsed_ascii(first, first_result),
        parsed_ascii(second, second_result),
    ensures
        first_result is Ok <==> second_result is Ok,
        first_result is Ok ==> first_result == second_result,
        first_result matches Err(message) ==> second_result matches Err(other) && message@ == other@,
{
}

/// A lower-case ASCII string is its own ASCII lower-case.
proof fn lemma_lowercase_literal(s: Seq<char>)
    requires
        forall|i: int| 0 <= i < s.len() ==> 'a' <= #[trigger] s[i] && s[i] <= 'z',
    ensures
        all_ascii(s),
        ascii_lowercase(s) == s,
{
    assert(ascii_lowercase(s) =~= s);
}

/// Every log level name is ASCII, and parsing it (after lower-casing)
/// gives the level back.
pub proof fn log_level_name_round_trip(level: LogLevel)
    ensures
        all_ascii(log_level_name(level)),
        parse_log_level(ascii_lowercase(log_level_name(level))) == Some(level),
{
    reveal_strlit("default");
    reveal_strlit("off");
    reveal_strlit("error");
    reveal_strlit("warn");
    reveal_strlit("info");
    reveal_strlit("debug");
    reveal_strlit("trace");
    lemma_lowercase_literal(log_level_name(level));
    assert("default"@.len() == 7 && "default"@[0] == 'd');
    assert("off"@.len() == 3 && "off"@[0] == 'o');
    assert("error"@.len() == 5 && "error"@[0] == 'e');
    assert("warn"@.len() == 4 && "warn"@[0] == 'w');
    assert("info"@.len() == 4 && "info"@[0] == 'i');
    assert("debug"@.len() == 5 && "debug"@[0] == 'd');
    assert("trace"@.len() == 5 && "trace"@[0] == 't');
}

/// The per-component log levels of the settings.
#[derive(Debug, Clone, Copy, PartialEq, Eq, Structural)]
pub struct LogLevels {
    pub default: LogLevel,
    pub application: LogLevel,
    pub other: LogLevel,
    pub iced: LogLevel,
    pub i18n: LogLevel,
}

/// The log levels of fresh settings.
pub open spec fn default_log_levels() -> LogLevels {
    LogLevels {
        default: LogLevel::Error,
        application: LogLevel::Info,
        other: LogLevel::Default,
        iced: LogLevel::Default,
        i18n: LogLevel::Default,
    }
}

impl Default for LogLevels {
    fn default() -> (levels: LogLevels)
        ensures
            levels == default_log_levels(),
    {
        LogLevels {
            default: LogLevel::Error,
            application: LogLevel::Info,
            other: LogLevel::Default,
            iced: LogLevel::Default,
            i18n: LogLevel::Default,
        }
    }
}

/// A component level, with `Default` replaced by the default level.
pub open spec fn resolved_level(level: LogLevel, default: LogLevel) -> LogLevel {
    if level == LogLevel::Default {
        default
    } else {
        level
    }
}

/// Resolve a component level against the default level.
pub fn resolve_level(level: LogLevel, default: LogLevel) -> (resolved: LogLevel)
    ensures
        resolved == resolved_level(level, default),
{
    match level {
        LogLevel::Default => default,
        _ => level,
    }
}

/// The level the logger starts with: `Default` is not a level of its own
/// there, and is silently taken as `Error`.
pub fn startup_log_level(default: LogLevel) -> (level: LogLevel)
    ensures
        level == resolved_level(default, LogLevel::Error),
{
    if default == LogLevel::Default {
        LogLevel::Error
    } else {
        default
    }
}

/// The logger configuration: the filter of the root logger, and of each
/// named logger.
pub struct LoggerConfiguration {
    pub root: LevelFilter,
    pub loggers: Vec<(String, LevelFilter)>,
}

/// The named loggers of the application's own crate.
pub open spec fn application_loggers() -> Seq<Seq<char>> {
    seq!["iced_af_rizzen_yazston"@]
}

/// The named loggers of the `iced` components.
pub open spec fn iced_loggers() -> Seq<Seq<char>> {
    seq![
        "iced_wgpu"@,
        "wgpu_core"@,
        "iced_graphics"@,
        "cosmic_text"@,
        "calloop"@,
        "naga"@,
        "fontdb"@,
        "wgpu_hal"@,
        "winit"@,
        "iced_winit"@,
    ]
}

/// The named loggers of the `i18n` components.
pub open spec fn i18n_loggers() -> Seq<Seq<char>> {
    seq![
        "i18n"@,
        "i18n_lexer"@,
        "i18n_localiser"@,
        "i18n_provider"@,
        "i18n_provider_sqlite3"@,
        "i18n_utility"@,
    ]
}

/// Pair each logger name with one filter.
pub open spec fn with_filter(names: Seq<Seq<char>>, filter: LevelFilter) -> Seq<(Seq<char>, LevelFilter)> {
    names.map_values(|name: Seq<char>| (name, filter))
}

/// The named loggers and their filters for a set of log levels.
pub open spec fn logger_plan(levels: LogLevels) -> Seq<(Seq<char>, LevelFilter)> {
    with_filter(application_loggers(), level_filter_of(resolved_level(levels.application, levels.default)))
        + with_filter(iced_loggers(), level_filter_of(resolved_level(levels.iced, levels.default)))
        + with_filter(i18n_loggers(), level_filter_of(resolved_level(levels.i18n, levels.default)))
}

/// Each named logger takes the level of its own component, with
/// `Default` standing for the default level: the application's logger
/// that of the application, the `iced` loggers that of `iced` and the
/// `i18n` loggers that of `i18n`, whatever the other components' levels.
pub proof fn loggers_follow_their_component(levels: LogLevels)
    ensures
        logger_plan(levels).len() == 1 + iced_loggers().len() + i18n_loggers().len(),
        logger_plan(levels)[0] == ("iced_af_rizzen_yazston"@, level_filter_of(
            if levels.application == LogLevel::Default { levels.default } else { levels.application },
        )),
        forall|i: int| 0 <= i < iced_loggers().len() ==> #[trigger] logger_plan(levels)[1 + i] == (iced_loggers()[i], level_filter_of(
            if levels.iced == LogLevel::Default { levels.default } else { levels.iced },
        )),
        forall|i: int| 0 <= i < i18n_loggers().len() ==> #[trigger] logger_plan(levels)[1 + iced_loggers().len() + i] == (i18n_loggers()[i], level_filter_of(
            if levels.i18n == LogLevel::Default { levels.default } else { levels.i18n },
        )),
{
    let first = with_filter(application_loggers(), level_filter_of(resolved_level(levels.application, levels.default)));
    let second = with_filter(iced_loggers(), level_filter_of(resolved_level(levels.iced, levels.default)));
    let third = with_filter(i18n_loggers(), level_filter_of(resolved_level(levels.i18n, levels.default)));
    assert(first.len() == 1);
    assert(second.len() == iced_loggers().len());
    assert(third.len() == i18n_loggers().len());
    let plan = logger_plan(levels);
    assert(plan == first + second + third);
    assert(plan[0] == first[0]);
    assert forall|i: int| 0 <= i < iced_loggers().len() implies #[trigger] plan[1 + i] == (iced_loggers()[i], level_filter_of(
        if levels.iced == LogLevel::Default { levels.default } else { levels.iced },
    )) by {
        assert(plan[1 + i] == second[i]);
    }
    assert forall|i: int| 0 <= i < i18n_loggers().len() implies #[trigger] plan[1 + iced_loggers().len() + i] == (i18n_loggers()[i], level_filter_of(
        if levels.i18n == LogLevel::Default { levels.default } else { levels.i18n },
    )) by {
        assert(plan[1 + iced_loggers().len() + i] == third[i]);
    }
}

/// The view of a configured logger list.
pub open spec fn loggers_view(loggers: Seq<(String, LevelFilter)>) -> Seq<(Seq<char>, LevelFilter)> {
    loggers.map_values(|entry: (String, LevelFilter)| (entry.0@, entry.1))
}

/// Append one named logger with a filter.
fn push_logger(loggers: &mut Vec<(String, LevelFilter)>, name: &str, filter: LevelFilter)
    ensures
        loggers_view(final(loggers)@) == loggers_view(old(loggers)@).push((name@, filter)),
{
    loggers.push((String::from_str(name), filter));
    assert(loggers_view(loggers@) =~= loggers_view(old(loggers)@).push((name@, filter)));
}

/// The logger configuration for the given log levels: each component
/// level is resolved against the default level; the root logger takes the
/// level of the other components.
pub fn logger_configuration(log_levels: &LogLevels) -> (configuration: LoggerConfiguration)
    ensures
        configuration.root == level_filter_of(resolved_level(log_levels.other, log_levels.default)),
        loggers_view(configuration.loggers@) == logger_plan(*log_levels),
        configuration.loggers@.len() == 1 + iced_loggers().len() + i18n_loggers().len(),
        configuration.root == level_filter_of(
            if log_levels.other == LogLevel::Default { log_levels.default } else { log_levels.other },
        ),
        configuration.loggers@[0].0@ == "iced_af_rizzen_yazston"@,
        configuration.loggers@[0].1 == level_filter_of(
            if log_levels.application == LogLevel::Default { log_levels.default } else { log_levels.application },
        ),
{
    let application = resolve_level(log_levels.application, log_levels.default).to_level_filter();
    let other = resolve_level(log_levels.other, log_levels.default).to_level_filter();
    let iced = resolve_level(log_levels.iced, log_levels.default).to_level_filter();
    let i18n = resolve_level(log_levels.i18n, log_levels.default).to_level_filter();
    let mut loggers: Vec<(String, LevelFilter)> = Vec::new();
    push_logger(&mut loggers, "iced_af_rizzen_yazston", application);
    push_logger(&mut loggers, "iced_wgpu", iced);
    push_logger(&mut loggers, "wgpu_core", iced);
    push_logger(&mut loggers, "iced_graphics", iced);
    push_logger(&mut loggers, "cosmic_text", iced);
    push_logger(&mut loggers, "calloop", iced);
    push_logger(&mut loggers, "naga", iced);
    push_logger(&mut loggers, "fontdb", iced);
    push_logger(&mut loggers, "wgpu_hal", iced);
    push_logger(&mut loggers, "winit", iced);
    push_logger(&mut loggers, "iced_winit", iced);
    push_logger(&mut loggers, "i18n", i18n);
    push_logger(&mut loggers, "i18n_lexer", i18n);
    push_logger(&mut loggers, "i18n_localiser", i18n);
    push_logger(&mut loggers, "i18n_provider", i18n);
    push_logger(&mut loggers, "i18n_provider_sqlite3", i18n);
    push_logger(&mut loggers, "i18n_utility", i18n);
    assert(loggers_view(loggers@) =~= logger_plan(*log_levels));
    proof {
        loggers_follow_their_component(*log_levels);
        assert(loggers_view(loggers@)[0] == (loggers@[0].0@, loggers@[0].1));
    }
    LoggerConfiguration { root: other, loggers }
}

/// A log level as a command line flag gives it, without a `Default`
/// level.
#[derive(Debug, Clone, Copy, PartialEq, Eq, Structural)]
pub enum LogLevelConverter {
    Off,
    Trace,
    Debug,
    Info,
    Warn,
    Error,
}

/// The filter a converter level stands for.
pub open spec fn converter_filter_of(level: LogLevelConverter) -> LevelFilter {
    match level {
        LogLevelConverter::Off => LevelFilter::Off,
        LogLevelConverter::Trace => LevelFilter::Trace,
        LogLevelConverter::Debug => LevelFilter::Debug,
        LogLevelConverter::Info => LevelFilter::Info,
        LogLevelConverter::Warn => LevelFilter::Warn,
        LogLevelConverter::Error => LevelFilter::Error,
    }
}

/// The display name of a converter level (`Off` is capitalised).
pub open spec fn converter_name(level: LogLevelConverter) -> Seq<char> {
    match level {
        LogLevelConverter::Off => "Off"@,
        LogLevelConverter::Trace => "trace"@,
        LogLevelConverter::Debug => "debug"@,
        LogLevelConverter::Info => "info"@,
        LogLevelConverter::Warn => "warn"@,
        LogLevelConverter::Error => "error"@,
    }
}

/// The converter level that an already lower-cased name denotes, if any.
pub open spec fn parse_converter(lower: Seq<char>) -> Option<LogLevelConverter> {
    if lower == "off"@ {
        Some(LogLevelConverter::Off)
    } else if lower == "trace"@ {
        Some(LogLevelConverter::Trace)
    } else if lower == "debug"@ {
        Some(LogLevelConverter::Debug)
    } else if lower == "info"@ {
        Some(LogLevelConverter::Info)
    } else if lower == "warn"@ {
        Some(LogLevelConverter::Warn)
    } else if lower == "error"@ {
        Some(LogLevelConverter::Error)
    } else {
        None
    }
}

impl LogLevelConverter {
    /// Convert to the level filter.
    pub fn to_level_filter(&self) -> (filter: LevelFilter)
        ensures
            filter == converter_filter_of(*self),
    {
        match self {
            LogLevelConverter::Off => LevelFilter::Off,
            LogLevelConverter::Trace => LevelFilter::Trace,
            LogLevelConverter::Debug => LevelFilter::Debug,
            LogLevelConverter::Info => LevelFilter::Info,
            LogLevelConverter::Warn => LevelFilter::Warn,
            LogLevelConverter::Error => LevelFilter::Error,
        }
    }

    /// The display name of the level.
    pub fn to_string(&self) -> (name: String)
        ensures
            name@ == converter_name(*self),
    {
        match self {
            LogLevelConverter::Off => String::from_str("Off"),
            LogLevelConverter::Trace => String::from_str("trace"),
            LogLevelConverter::Debug => String::from_str("debug"),
            LogLevelConverter::Info => String::from_str("info"),
            LogLevelConverter::Warn => String::from_str("warn"),
            LogLevelConverter::Error => String::from_str("error"),
        }
    }

    /// Parse a level name, ignoring case.
    pub fn from_str(string: &str) -> (result: Result<LogLevelConverter, String>)
        ensures
            result is Ok <==> parse_converter(unicode_lowercase(string@)) is Some,
            result matches Ok(level) ==> parse_converter(unicode_lowercase(string@)) == Some(level),
            result matches Err(message) ==> message@ == "Unknown log level: "@ + unicode_lowercase(string@) + " )"@,
    {
        let s = to_lowercase(string);
        if equals_str(&s, "off") {
            Ok(LogLevelConverter::Off)
        } else if equals_str(&s, "trace") {
            Ok(LogLevelConverter::Trace)
        } else if equals_str(&s, "debug") {
            Ok(LogLevelConverter::Debug)
        } else if equals_str(&s, "info") {
            Ok(LogLevelConverter::Info)
        } else if equals_str(&s, "warn") {
            Ok(LogLevelConverter::Warn)
        } else if equals_str(&s, "error") {
            Ok(LogLevelConverter::Error)
        } else {
            let mut message = concat_str("Unknown log level: ", s.as_str());
            message.append(" )");
            Err(message)
        }
    }
}

/// Every converter name is ASCII, and its lower-case parses back to the
/// same level (the capitalised `Off` included).
pub proof fn converter_name_round_trip(level: LogLevelConverter)
    ensures
        all_ascii(converter_name(level)),
        parse_converter(ascii_lowercase(converter_name(level))) == Some(level),
{
    reveal_strlit("Off");
    reveal_strlit("off");
    reveal_strlit("trace");
    reveal_strlit("debug");
    reveal_strlit("info");
    reveal_strlit("warn");
    reveal_strlit("error");
    if level == LogLevelConverter::Off {
        let name = converter_name(level);
        assert(ascii_lower_char('O') == 'o');
        assert(ascii_lowercase(name) =~= "off"@);
    } else {
        lemma_lowercase_literal(converter_name(level));
    }
    assert("off"@.len() == 3 && "off"@[0] == 'o');
    assert("error"@.len() == 5 && "error"@[0] == 'e');
    assert("warn"@.len() == 4 && "warn"@[0] == 'w');
    assert("info"@.len() == 4 && "info"@[0] == 'i');
    assert("debug"@.len() == 5 && "debug"@[0] == 'd');
    assert("trace"@.len() == 5 && "trace"@[0] == 't');
}

} // verus!
