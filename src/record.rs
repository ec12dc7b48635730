use vstd::prelude::*;
use vstd::string::*;

use crate::status::{category_of, emoji_of, StatusCategory};
use crate::text::{decimal, parse_usize, parsed_usize, to_decimal};

verus! {

/// What the middleware records of one completed request/response pair.
#[derive(Debug, Clone)]
pub struct RequestLog {
    /// Unix seconds at completion.
    pub timestamp: u64,
    pub client_ip: String,
    pub method: String,
    pub uri: String,
    pub user_agent: Option<String>,
    pub status_code: u16,
    pub response_time_ms: u128,
    pub request_size: usize,
    pub response_size: usize,
    pub status_category: StatusCategory,
}

/// What is captured of a request before it is forwarded.
#[derive(Debug, Clone)]
pub struct RequestInfo {
    pub client_ip: String,
    pub method: String,
    pub uri: String,
    pub user_agent: Option<String>,
    pub request_size: usize,
}

/// What is captured of a response once the handler has produced it.
#[derive(Debug, Clone, Copy)]
pub struct ResponseInfo {
    pub status_code: u16,
    pub response_size: usize,
    pub response_time_ms: u128,
    pub timestamp: u64,
}

/// The client address recorded when the peer address is unknown.
pub open spec fn unknown_ip() -> Seq<char> {
    "unknown"@
}

/// The user agent as rendered: the header's text, or `Unknown` without one.
pub open spec fn agent_text(ua: Option<String>) -> Seq<char> {
    match ua {
        Some(a) => a@,
        None => "Unknown"@,
    }
}

/// The size that a `content-length` header gives: its value where it is a
/// well-formed unsigned number, zero where it is absent or malformed.
pub open spec fn size_of_header(h: Option<&str>) -> nat {
    match h {
        Some(s) => match parsed_usize(s@) {
            Some(v) => v,
            None => 0,
        },
        None => 0,
    }
}

/// The part of a rendered line that the console and file sinks share.
pub open spec fn fields_text(log: RequestLog) -> Seq<char> {
    log.method@ + " "@ + log.uri@ + " "@ + log.client_ip@ + " - "@ + decimal(
        log.status_code as nat,
    ) + " "@ + decimal(log.response_time_ms as nat) + "ms ["@ + decimal(log.request_size as nat)
        + "->"@ + decimal(log.response_size as nat) + "] "@ + agent_text(log.user_agent)
}

/// The console sink's line.
pub open spec fn console_line(log: RequestLog) -> Seq<char> {
    emoji_of(log.status_category) + " "@ + fields_text(log)
}

/// The file sink's line, with its terminating newline.
pub open spec fn file_line(log: RequestLog) -> Seq<char> {
    decimal(log.timestamp as nat) + " ["@ + emoji_of(log.status_category) + "] "@ + fields_text(
        log,
    ) + "\n"@
}

/// Reads a `content-length` header value; absent or malformed gives zero.
pub fn content_length(h: Option<&str>) -> (r: usize)
    ensures
        r == size_of_header(h),
        h is None ==> r == 0,
        h is Some && parsed_usize(h->0@) is None ==> r == 0,
{
    match h {
        Some(s) => match parse_usize(s) {
            Some(v) => v,
            None => 0,
        },
        None => 0,
    }
}

impl RequestInfo {
    /// Captures a request's metadata from its peer address, method, URI and
    /// the `user-agent` and `content-length` headers where present.
    pub fn capture(
        peer: Option<&str>,
        method: &str,
        uri: &str,
        user_agent: Option<&str>,
        content_length_header: Option<&str>,
    ) -> (r: Self)
        ensures
            r.client_ip@ == (match peer {
                Some(p) => p@,
                None => unknown_ip(),
            }),
            r.method@ == method@,
            r.uri@ == uri@,
            r.user_agent is Some <==> user_agent is Some,
            user_agent is Some ==> r.user_agent->0@ == user_agent->0@,
            r.request_size == size_of_header(content_length_header),
    {
        let client_ip = match peer {
            Some(p) => String::from_str(p),
            None => String::from_str("unknown"),
        };
        let user_agent = match user_agent {
            Some(a) => Some(String::from_str(a)),
            None => None,
        };
        RequestInfo {
            client_ip,
            method: String::from_str(method),
            uri: String::from_str(uri),
            user_agent,
            request_size: content_length(content_length_header),
        }
    }
}

impl ResponseInfo {
    /// Captures a response's status and `content-length` header, with the
    /// elapsed time and the completion time measured by the caller.
    pub fn capture(
        status_code: u16,
        content_length_header: Option<&str>,
        response_time_ms: u128,
        timestamp: u64,
    ) -> (r: Self)
        ensures
            r.status_code == status_code,
            r.response_size == size_of_header(content_length_header),
            r.response_time_ms == response_time_ms,
            r.timestamp == timestamp,
    {
        ResponseInfo {
            status_code,
            response_size: content_length(content_length_header),
            response_time_ms,
            timestamp,
        }
    }
}

impl RequestLog {
    /// The category is the classifier's image of the status code.
    pub open spec fn well_formed(&self) -> bool {
        self.status_category == category_of(self.status_code as int)
    }

    /// The record of a request and the response it received.
    pub open spec fn spec_build(request: RequestInfo, response: ResponseInfo) -> RequestLog {
        RequestLog {
            timestamp: response.timestamp,
            client_ip: request.client_ip,
            method: request.method,
            uri: request.uri,
            user_agent: request.user_agent,
            status_code: response.status_code,
            response_time_ms: response.response_time_ms,
            request_size: request.request_size,
            response_size: response.response_size,
            status_category: category_of(response.status_code as int),
        }
    }

    pub fn build(request: RequestInfo, response: &ResponseInfo) -> (r: Self)
        ensures
            r == Self::spec_build(request, *response),
            r.well_formed(),
    {
        RequestLog {
            timestamp: response.timestamp,
            client_ip: request.client_ip,
            method: request.method,
            uri: request.uri,
            user_agent: request.user_agent,
            status_code: response.status_code,
            response_time_ms: response.response_time_ms,
            request_size: request.request_size,
            response_size: response.response_size,
            status_category: StatusCategory::from_status_code(response.status_code),
        }
    }

    /// Renders the fields shared by both sinks.
    pub fn fields_text(&self) -> (r: String)
        ensures
            r@ == fields_text(*self),
    {
        let mut s = self.method.clone();
        s.append(" ");
        s.append(self.uri.as_str());
        s.append(" ");
        s.append(self.client_ip.as_str());
        s.append(" - ");
        let status = to_decimal(self.status_code as u128);
        s.append(status.as_str());
        s.append(" ");
        let elapsed = to_decimal(self.response_time_ms);
        s.append(elapsed.as_str());
        s.append("ms [");
        let request_size = to_decimal(self.request_size as u128);
        s.append(request_size.as_str());
        s.append("->");
        let response_size = to_decimal(self.response_size as u128);
        s.append(response_size.as_str());
        s.append("] ");
        match &self.user_agent {
            Some(a) => s.append(a.as_str()),
            None => s.append("Unknown"),
        }
        s
    }

    /// Renders the console sink's line.
    pub fn console_text(&self) -> (r: String)
        ensures
            r@ == console_line(*self),
    {
        let mut s = String::from_str(self.status_category.emoji());
        s.append(" ");
        let fields = self.fields_text();
        s.append(fields.as_str());
        s
    }

    /// Renders the file sink's line, newline included.
    pub fn file_text(&self) -> (r: String)
        ensures
            r@ == file_line(*self),
    {
        let mut s = to_decimal(self.timestamp as u128);
        s.append(" [");
        s.append(self.status_category.emoji());
        s.append("] ");
        let fields = self.fields_text();
        s.append(fields.as_str());
        s.append("\n");
        s
    }
}

} // verus!
