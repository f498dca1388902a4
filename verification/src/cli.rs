use vstd::prelude::*;

use crate::settings::GameCoreConfig;
use crate::text::str_equals;

verus! {

/// How the app runs.
#[derive(Clone, Copy, Debug, PartialEq, Eq, Structural)]
pub enum Mode {
    /// Runs the app in client mode
    Client { client_id: Option<u64> },
    /// Runs the app in server mode
    Server,
    /// Creates two bevy apps: a client app and a server app.
    /// Data gets passed between the two via channels.
    Separate { client_id: Option<u64> },
    /// Run the app in host-client mode.
    /// The client and the server will run inside the same app.
    HostClient { client_id: Option<u64> },
}

impl Default for Mode {
    fn default() -> (m: Self)
        ensures
            m == (Mode::Client { client_id: None }),
    {
        Mode::Client { client_id: None }
    }
}

/// Command-line options of the apps.
#[derive(Clone, Copy, Debug, PartialEq, Eq, Structural)]
pub struct Cli {
    pub mode: Option<Mode>,
}

impl Cli {
    /// Get the client id from the CLI: the id given to a client, separate or
    /// host-client run; none for a server run or when no mode is given.
    pub fn client_id(&self) -> (id: Option<u64>)
        ensures
            id == match self.mode {
                Some(Mode::Client { client_id }) => client_id,
                Some(Mode::Separate { client_id }) => client_id,
                Some(Mode::HostClient { client_id }) => client_id,
                _ => None,
            },
    {
        match &self.mode {
            Some(Mode::Client { client_id }) => *client_id,
            Some(Mode::Separate { client_id }) => *client_id,
            Some(Mode::HostClient { client_id }) => *client_id,
            _ => None,
        }
    }
}

/// Verbosity levels of the logger.
#[derive(Clone, Copy, Debug, PartialEq, Eq, Structural)]
pub enum LogLevel {
    Trace,
    Debug,
    Info,
    Warn,
    Error,
}

/// The level a configured level name denotes (lower-case names only).
pub open spec fn spec_parse_log_level(s: Seq<char>) -> Option<LogLevel> {
    if s == "trace"@ {
        Some(LogLevel::Trace)
    } else if s == "debug"@ {
        Some(LogLevel::Debug)
    } else if s == "info"@ {
        Some(LogLevel::Info)
    } else if s == "warn"@ {
        Some(LogLevel::Warn)
    } else if s == "error"@ {
        Some(LogLevel::Error)
    } else {
        None
    }
}

/// The name of a log level.
pub open spec fn log_level_name(l: LogLevel) -> Seq<char> {
    match l {
        LogLevel::Trace => "trace"@,
        LogLevel::Debug => "debug"@,
        LogLevel::Info => "info"@,
        LogLevel::Warn => "warn"@,
        LogLevel::Error => "error"@,
    }
}

/// Every level is recognised by its own name, and the empty name is no
/// level.
pub proof fn lemma_log_level_names_parse(l: LogLevel)
    ensures
        spec_parse_log_level(log_level_name(l)) == Some(l),
        spec_parse_log_level(Seq::<char>::empty()) is None,
{
    reveal_strlit("trace");
    assert("trace"@ =~= seq!['t', 'r', 'a', 'c', 'e']);
    reveal_strlit("debug");
    assert("debug"@ =~= seq!['d', 'e', 'b', 'u', 'g']);
    reveal_strlit("info");
    assert("info"@ =~= seq!['i', 'n', 'f', 'o']);
    reveal_strlit("warn");
    assert("warn"@ =~= seq!['w', 'a', 'r', 'n']);
    reveal_strlit("error");
    assert("error"@ =~= seq!['e', 'r', 'r', 'o', 'r']);
}

/// Parse a log level name: "trace", "debug", "info", "warn" or "error".
pub fn parse_log_level(s: &str) -> (l: Option<LogLevel>)
    ensures
        l == spec_parse_log_level(s@),
{
    if str_equals(s, "trace") {
        Some(LogLevel::Trace)
    } else if str_equals(s, "debug") {
        Some(LogLevel::Debug)
    } else if str_equals(s, "info") {
        Some(LogLevel::Info)
    } else if str_equals(s, "warn") {
        Some(LogLevel::Warn)
    } else if str_equals(s, "error") {
        Some(LogLevel::Error)
    } else {
        None
    }
}

/// The settings of the log plugin: a level and per-target filter directives.
#[derive(Debug)]
pub struct LogSettings {
    pub level: LogLevel,
    pub filter: String,
}

/// The default log settings: level INFO, with the rendering and ECS
/// internals quieted.
pub fn log_plugin() -> (s: LogSettings)
    ensures
        s.level == LogLevel::Info,
        s.filter@
            == "wgpu=error,bevy_render=info,bevy_ecs=warn,bevy_time=warn,naga=warn,bevy_enhanced_input::action::fns=error"@,
{
    LogSettings {
        level: LogLevel::Info,
        filter: String::from_str(
            "wgpu=error,bevy_render=info,bevy_ecs=warn,bevy_time=warn,naga=warn,bevy_enhanced_input::action::fns=error",
        ),
    }
}

/// Log settings from the core configuration: the configured level (INFO
/// when the name is not a level) and the configured filter.
pub fn log_plugin_from_config(config: &GameCoreConfig) -> (s: LogSettings)
    ensures
        s.level == match spec_parse_log_level(config.logging.default_level@) {
            Some(l) => l,
            None => LogLevel::Info,
        },
        s.filter@ == config.logging.filter@,
{
    let level = match parse_log_level(config.logging.default_level.as_str()) {
        Some(l) => l,
        None => LogLevel::Info,
    };
    LogSettings { level, filter: config.logging.filter.clone() }
}

} // verus!
