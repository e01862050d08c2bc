use crate::text::{ends_with_trimmed, trimmed_ends_with};
use vstd::prelude::*;
use vstd::string::*;

verus! {

/// Base URL of the remote service when none is configured.
pub const DEFAULT_BASE_URL: &'static str = "http://localhost:8088/k2/ctapi/";

/// Log level name when none is configured.
pub const DEFAULT_LOG_LEVEL: &'static str = "Error";

/// Separator appended to a log directory that does not end in one.
pub const PATH_SEPARATOR: char = '/';

/// The configuration snapshot that the operations read.
#[derive(Clone, Debug, PartialEq)]
pub struct Settings {
    /// Request timeout in seconds, if any.
    pub timeout: Option<u64>,
    /// Base URL of the remote service, ending in `/`.
    pub base_url: String,
    pub log_level: String,
    /// Directory of the log file, ending in the path separator.
    pub log_path: Option<String>,
    /// Terminal number that every call is pinned to; set together with `pn`.
    pub ctn: Option<u16>,
    /// Port number that every open is pinned to; set together with `ctn`.
    pub pn: Option<u16>,
}

/// Configuration values as read from a settings file and the environment,
/// before defaults and checks apply.
#[derive(Clone, Debug, PartialEq, Default)]
pub struct SettingsSource {
    pub timeout: Option<u64>,
    pub base_url: Option<String>,
    pub log_level: Option<String>,
    pub log_path: Option<String>,
    pub ctn: Option<u16>,
    pub pn: Option<u16>,
}

#[derive(Clone, Copy, Debug, PartialEq, Eq, Structural)]
pub enum SettingsError {
    /// The base URL does not parse as a URL.
    InvalidBaseUrl,
    /// The log directory does not exist.
    MissingLogPath,
}

/// Whether `reqwest::Url::parse` accepts `text`.
pub uninterp spec fn url_accepted(text: Seq<char>) -> bool;

/// Relies on `reqwest::Url::parse` (the `url` crate's parser), whose verdict
/// depends on the text alone.
#[verifier::external_body]
fn url_parses(text: &str) -> (r: bool)
    ensures
        r == url_accepted(text@),
{
    reqwest::Url::parse(text).is_ok()
}

/// `s`, with `c` appended unless it already ends with `c` up to white space.
pub open spec fn with_trailing(s: Seq<char>, c: char) -> Seq<char> {
    if ends_with_trimmed(s, c) {
        s
    } else {
        s.push(c)
    }
}

/// The configured base URL, or the default one.
pub open spec fn chosen_base_url(source: SettingsSource) -> Seq<char> {
    match source.base_url {
        Some(url) => url@,
        None => DEFAULT_BASE_URL@,
    }
}

/// The configured log level name, or the default one.
pub open spec fn chosen_log_level(source: SettingsSource) -> Seq<char> {
    match source.log_level {
        Some(level) => level@,
        None => DEFAULT_LOG_LEVEL@,
    }
}

/// Appends `c` unless `s` already ends with it up to white space.
fn force_trailing(s: String, c: char) -> (r: String)
    ensures
        r@ == with_trailing(s@, c),
{
    let mut s = s;
    if !trimmed_ends_with(s.as_str(), c) {
        s.push(c);
    }
    s
}

impl Settings {
    /// Settings from `source`, with defaults for what is not set; the base URL
    /// and the log directory get a trailing separator, and the pinned terminal
    /// and port are kept only when both are set. `log_path_exists` tells
    /// whether the configured log directory exists.
    pub fn init(source: SettingsSource, log_path_exists: bool) -> (r: Result<Settings, SettingsError>)
        ensures
            !url_accepted(chosen_base_url(source)) <==> r == Err::<Settings, SettingsError>(
                SettingsError::InvalidBaseUrl,
            ),
            url_accepted(chosen_base_url(source)) && source.log_path is Some && !log_path_exists
                <==> r == Err::<Settings, SettingsError>(SettingsError::MissingLogPath),
            r matches Ok(s) ==> {
                &&& s.timeout == source.timeout
                &&& s.base_url@ == with_trailing(chosen_base_url(source), '/')
                &&& s.log_level@ == chosen_log_level(source)
                &&& match source.log_path {
                    Some(p) => s.log_path matches Some(q) && q@ == with_trailing(p@, PATH_SEPARATOR),
                    None => s.log_path is None,
                }
                &&& if source.ctn is Some && source.pn is Some {
                    s.ctn == source.ctn && s.pn == source.pn
                } else {
                    s.ctn is None && s.pn is None
                }
            },
    {
        let base_url = match source.base_url {
            Some(url) => url,
            None => String::from_str(DEFAULT_BASE_URL),
        };
        if !url_parses(base_url.as_str()) {
            return Err(SettingsError::InvalidBaseUrl);
        }
        let base_url = force_trailing(base_url, '/');
        let log_path = match source.log_path {
            Some(path) => {
                if !log_path_exists {
                    return Err(SettingsError::MissingLogPath);
                }
                Some(force_trailing(path, PATH_SEPARATOR))
            },
            None => None,
        };
        let log_level = match source.log_level {
            Some(level) => level,
            None => String::from_str(DEFAULT_LOG_LEVEL),
        };
        let (ctn, pn) = match (source.ctn, source.pn) {
            (Some(ctn), Some(pn)) => (Some(ctn), Some(pn)),
            _ => (None, None),
        };
        Ok(Settings { timeout: source.timeout, base_url, log_level, log_path, ctn, pn })
    }
}

/// Verbosity of the bridge's own log.
#[derive(Clone, Copy, Debug, PartialEq, Eq, Structural)]
pub enum LogLevel {
    Off,
    Error,
    Warn,
    Info,
    Debug,
    Trace,
}

/// `c` with ASCII capitals made small.
pub open spec fn ascii_lower(c: char) -> char {
    if 'A' <= c <= 'Z' {
        ((c as u32) + 32) as char
    } else {
        c
    }
}

/// Whether `a` and `b` are equal up to ASCII case.
pub open spec fn same_ignoring_ascii_case(a: Seq<char>, b: Seq<char>) -> bool {
    &&& a.len() == b.len()
    &&& forall|i: int| 0 <= i < a.len() ==> ascii_lower(#[trigger] a[i]) == ascii_lower(b[i])
}

/// The level that `name` names, in any ASCII case.
pub open spec fn level_named(name: Seq<char>) -> Option<LogLevel> {
    if same_ignoring_ascii_case(name, "OFF"@) {
        Some(LogLevel::Off)
    } else if same_ignoring_ascii_case(name, "ERROR"@) {
        Some(LogLevel::Error)
    } else if same_ignoring_ascii_case(name, "WARN"@) {
        Some(LogLevel::Warn)
    } else if same_ignoring_ascii_case(name, "INFO"@) {
        Some(LogLevel::Info)
    } else if same_ignoring_ascii_case(name, "DEBUG"@) {
        Some(LogLevel::Debug)
    } else if same_ignoring_ascii_case(name, "TRACE"@) {
        Some(LogLevel::Trace)
    } else {
        None
    }
}

/// Relies on `log`'s `FromStr for LevelFilter`, which compares the text with
/// the names OFF, ERROR, WARN, INFO, DEBUG and TRACE ignoring ASCII case.
#[verifier::external_body]
fn parse_level(name: &str) -> (r: Option<LogLevel>)
    ensures
        r == level_named(name@),
{
    match <log::LevelFilter as std::str::FromStr>::from_str(name) {
        Ok(log::LevelFilter::Off) => Some(LogLevel::Off),
        Ok(log::LevelFilter::Error) => Some(LogLevel::Error),
        Ok(log::LevelFilter::Warn) => Some(LogLevel::Warn),
        Ok(log::LevelFilter::Info) => Some(LogLevel::Info),
        Ok(log::LevelFilter::Debug) => Some(LogLevel::Debug),
        Ok(log::LevelFilter::Trace) => Some(LogLevel::Trace),
        Err(_) => None,
    }
}

/// The level that the settings name, or `Error` where the name is none of
/// the levels.
pub fn determine_log_level(settings: &Settings) -> (r: LogLevel)
    ensures
        r == match level_named(settings.log_level@) {
            Some(level) => level,
            None => LogLevel::Error,
        },
{
    match parse_level(settings.log_level.as_str()) {
        Some(level) => level,
        None => LogLevel::Error,
    }
}

} // verus!
