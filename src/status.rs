use vstd::prelude::*;

verus! {

/// The partition of HTTP status codes that a log record carries.
#[derive(Debug, Clone, Copy, PartialEq, Eq, Structural)]
pub enum StatusCategory {
    Success,
    Redirect,
    ClientError,
    ServerError,
    Other,
}

/// The severity under which a console line is emitted.
#[derive(Debug, Clone, Copy, PartialEq, Eq, Structural)]
pub enum LogLevel {
    Info,
    Warn,
    Error,
}

/// The category of a status code: total over all integers.
pub open spec fn category_of(code: int) -> StatusCategory {
    if 200 <= code <= 299 {
        StatusCategory::Success
    } else if 300 <= code <= 399 {
        StatusCategory::Redirect
    } else if 400 <= code <= 499 {
        StatusCategory::ClientError
    } else if 500 <= code <= 599 {
        StatusCategory::ServerError
    } else {
        StatusCategory::Other
    }
}

/// The marker that opens a rendered line of the given category.
pub open spec fn emoji_of(c: StatusCategory) -> Seq<char> {
    match c {
        StatusCategory::Success => "✅"@,
        StatusCategory::Redirect => "↩️"@,
        StatusCategory::ClientError => "❌"@,
        StatusCategory::ServerError => "💥"@,
        StatusCategory::Other => "❓"@,
    }
}

/// Successes and redirects are informational, server errors are errors, the
/// rest are warnings.
pub open spec fn level_of(c: StatusCategory) -> LogLevel {
    match c {
        StatusCategory::Success | StatusCategory::Redirect => LogLevel::Info,
        StatusCategory::ServerError => LogLevel::Error,
        StatusCategory::ClientError | StatusCategory::Other => LogLevel::Warn,
    }
}

impl StatusCategory {
    pub fn from_status_code(code: u16) -> (r: Self)
        ensures
            r == category_of(code as int),
    {
        if 200 <= code && code <= 299 {
            StatusCategory::Success
        } else if 300 <= code && code <= 399 {
            StatusCategory::Redirect
        } else if 400 <= code && code <= 499 {
            StatusCategory::ClientError
        } else if 500 <= code && code <= 599 {
            StatusCategory::ServerError
        } else {
            StatusCategory::Other
        }
    }

    pub fn emoji(&self) -> (r: &'static str)
        ensures
            r@ == emoji_of(*self),
    {
        match self {
            StatusCategory::Success => "✅",
            StatusCategory::Redirect => "↩️",
            StatusCategory::ClientError => "❌",
            StatusCategory::ServerError => "💥",
            StatusCategory::Other => "❓",
        }
    }

    pub fn level(&self) -> (r: LogLevel)
        ensures
            r == level_of(*self),
    {
        match self {
            StatusCategory::Success | StatusCategory::Redirect => LogLevel::Info,
            StatusCategory::ServerError => LogLevel::Error,
            StatusCategory::ClientError | StatusCategory::Other => LogLevel::Warn,
        }
    }
}

} // verus!
