use vstd::prelude::*;
use vstd::string::*;

use crate::text::same_text;

verus! {

/// Which sinks receive the log records, and where the file sink writes.
#[derive(Debug, Clone)]
pub struct RequestLoggerConfig {
    pub log_to_console: bool,
    pub log_to_file: bool,
    pub log_file_path: String,
}

/// The file that the file sink appends to when none is configured.
pub open spec fn default_log_path() -> Seq<char> {
    "requests.log"@
}

/// How a boolean is read from text: exactly `true` or `false`.
pub open spec fn parsed_bool(s: Seq<char>) -> Option<bool> {
    if s == "true"@ {
        Some(true)
    } else if s == "false"@ {
        Some(false)
    } else {
        None
    }
}

/// A boolean setting: its value where it is given and readable, else the
/// default.
pub open spec fn flag_setting(v: Option<&str>, default: bool) -> bool {
    match v {
        Some(s) => match parsed_bool(s@) {
            Some(b) => b,
            None => default,
        },
        None => default,
    }
}

/// A text setting: its value where it is given, else the default.
pub open spec fn text_setting(v: Option<&str>, default: Seq<char>) -> Seq<char> {
    match v {
        Some(s) => s@,
        None => default,
    }
}

/// Reads a boolean as `bool` does from text.
pub fn parse_bool(s: &str) -> (r: Option<bool>)
    ensures
        r == parsed_bool(s@),
{
    if same_text(s, "true") {
        Some(true)
    } else if same_text(s, "false") {
        Some(false)
    } else {
        None
    }
}

impl Default for RequestLoggerConfig {
    fn default() -> (r: Self)
        ensures
            r.log_to_console,
            !r.log_to_file,
            r.log_file_path@ == default_log_path(),
    {
        RequestLoggerConfig {
            log_to_console: true,
            log_to_file: false,
            log_file_path: String::from_str("requests.log"),
        }
    }
}

impl RequestLoggerConfig {
    /// A copy of this configuration, field for field.
    pub fn duplicate(&self) -> (r: Self)
        ensures
            r == *self,
    {
        RequestLoggerConfig {
            log_to_console: self.log_to_console,
            log_to_file: self.log_to_file,
            log_file_path: self.log_file_path.clone(),
        }
    }

    /// Builds the configuration from the three named settings as they were
    /// found (`None` where absent). Nothing is rejected: an absent or
    /// unreadable setting takes its default.
    pub fn from_vars(console: Option<&str>, file: Option<&str>, path: Option<&str>) -> (r: Self)
        ensures
            r.log_to_console == flag_setting(console, true),
            r.log_to_file == flag_setting(file, false),
            r.log_file_path@ == text_setting(path, default_log_path()),
    {
        let log_to_console = match console {
            Some(s) => match parse_bool(s) {
                Some(b) => b,
                None => true,
            },
            None => true,
        };
        let log_to_file = match file {
            Some(s) => match parse_bool(s) {
                Some(b) => b,
                None => false,
            },
            None => false,
        };
        let log_file_path = match path {
            Some(s) => String::from_str(s),
            None => String::from_str("requests.log"),
        };
        RequestLoggerConfig { log_to_console, log_to_file, log_file_path }
    }
}

} // verus!
