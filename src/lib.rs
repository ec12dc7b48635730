//! Request observability: classification of responses, the per-request log
//! record, its text renderings, and the decisions of the logging middleware.
//!
//! The library decides and renders; the host runs the requests, measures
//! time, and performs the console and file writes that a `Dispatch` lists.

mod config;
mod laws;
mod logger;
mod record;
mod status;
mod text;

pub use config::{
    default_log_path, flag_setting, parse_bool, parsed_bool, text_setting, RequestLoggerConfig,
};
pub use laws::{
    contains, lemma_disabled_sinks_dispatch_nothing, lemma_file_line_is_one_line,
    lemma_missing_agent_renders_unknown, single_line,
};
pub use logger::{Completion, ConsoleEntry, Dispatch, FileEntry, RequestLogger, RequestLoggerMiddleware};
pub use record::{
    agent_text, console_line, content_length, fields_text, file_line, size_of_header, unknown_ip,
    RequestInfo, RequestLog, ResponseInfo,
};
pub use status::{category_of, emoji_of, level_of, LogLevel, StatusCategory};
pub use text::{
    all_digits, decimal, digit_char, digit_value, digits_value, is_digit, parse_usize,
    parsed_usize, same_text, to_decimal, unsigned_digits,
};
