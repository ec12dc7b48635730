use request_logger::{
    content_length, parse_bool, parse_usize, same_text, to_decimal, Completion, LogLevel,
    RequestInfo, RequestLog, RequestLogger, RequestLoggerConfig, ResponseInfo, StatusCategory,
};

fn config(console: bool, file: bool) -> RequestLoggerConfig {
    RequestLoggerConfig {
        log_to_console: console,
        log_to_file: file,
        log_file_path: "out/requests.log".to_string(),
    }
}

fn scenario_record() -> RequestLog {
    let request = RequestInfo::capture(None, "GET", "/users/42/", None, None);
    let response = ResponseInfo::capture(200, Some("11"), 3, 1_700_000_000);
    RequestLog::build(request, &response)
}

#[test]
fn classify_examples() {
    assert_eq!(StatusCategory::from_status_code(204), StatusCategory::Success);
    assert_eq!(StatusCategory::from_status_code(301), StatusCategory::Redirect);
    assert_eq!(StatusCategory::from_status_code(404), StatusCategory::ClientError);
    assert_eq!(StatusCategory::from_status_code(503), StatusCategory::ServerError);
    assert_eq!(StatusCategory::from_status_code(150), StatusCategory::Other);
    assert_eq!(StatusCategory::from_status_code(999), StatusCategory::Other);
}

#[test]
fn classify_boundaries() {
    let cases = [
        (0u16, StatusCategory::Other),
        (199, StatusCategory::Other),
        (200, StatusCategory::Success),
        (299, StatusCategory::Success),
        (300, StatusCategory::Redirect),
        (399, StatusCategory::Redirect),
        (400, StatusCategory::ClientError),
        (499, StatusCategory::ClientError),
        (500, StatusCategory::ServerError),
        (599, StatusCategory::ServerError),
        (600, StatusCategory::Other),
        (65535, StatusCategory::Other),
    ];
    for (code, expected) in cases {
        assert_eq!(StatusCategory::from_status_code(code), expected, "code {}", code);
    }
}

#[test]
fn classify_every_code_in_range() {
    for code in 200u16..=599 {
        let expected = match code / 100 {
            2 => StatusCategory::Success,
            3 => StatusCategory::Redirect,
            4 => StatusCategory::ClientError,
            _ => StatusCategory::ServerError,
        };
        assert_eq!(StatusCategory::from_status_code(code), expected);
    }
}

#[test]
fn levels_and_markers() {
    assert_eq!(StatusCategory::Success.level(), LogLevel::Info);
    assert_eq!(StatusCategory::Redirect.level(), LogLevel::Info);
    assert_eq!(StatusCategory::ClientError.level(), LogLevel::Warn);
    assert_eq!(StatusCategory::Other.level(), LogLevel::Warn);
    assert_eq!(StatusCategory::ServerError.level(), LogLevel::Error);
    assert_eq!(StatusCategory::Success.emoji(), "✅");
    assert_eq!(StatusCategory::Redirect.emoji(), "↩️");
    assert_eq!(StatusCategory::ClientError.emoji(), "❌");
    assert_eq!(StatusCategory::ServerError.emoji(), "💥");
    assert_eq!(StatusCategory::Other.emoji(), "❓");
}

#[test]
fn content_length_values() {
    assert_eq!(content_length(Some("11")), 11);
    assert_eq!(content_length(Some("0")), 0);
    assert_eq!(content_length(Some("+5")), 5);
    assert_eq!(content_length(Some("007")), 7);
}

#[test]
fn content_length_missing_or_invalid_is_zero() {
    assert_eq!(content_length(None), 0);
    assert_eq!(content_length(Some("")), 0);
    assert_eq!(content_length(Some("abc")), 0);
    assert_eq!(content_length(Some("-5")), 0);
    assert_eq!(content_length(Some("+")), 0);
    assert_eq!(content_length(Some(" 11")), 0);
    assert_eq!(content_length(Some("11 ")), 0);
    assert_eq!(content_length(Some("1x")), 0);
}

#[test]
fn parse_usize_limits() {
    let max = usize::MAX.to_string();
    assert_eq!(parse_usize(&max), Some(usize::MAX));
    let over = format!("{}0", max);
    assert_eq!(parse_usize(&over), None);
    let just_over = (usize::MAX as u128 + 1).to_string();
    assert_eq!(parse_usize(&just_over), None);
    assert_eq!(parse_usize("12345"), Some(12345));
}

#[test]
fn parse_bool_accepts_only_exact_words() {
    assert_eq!(parse_bool("true"), Some(true));
    assert_eq!(parse_bool("false"), Some(false));
    assert_eq!(parse_bool("TRUE"), None);
    assert_eq!(parse_bool("1"), None);
    assert_eq!(parse_bool(""), None);
    assert_eq!(parse_bool("true "), None);
}

#[test]
fn same_text_compares_characters() {
    assert!(same_text("abc", "abc"));
    assert!(!same_text("abc", "abd"));
    assert!(!same_text("abc", "ab"));
    assert!(same_text("", ""));
}

#[test]
fn decimal_rendering() {
    assert_eq!(to_decimal(0), "0");
    assert_eq!(to_decimal(7), "7");
    assert_eq!(to_decimal(10), "10");
    assert_eq!(to_decimal(1234567), "1234567");
    assert_eq!(to_decimal(u128::MAX), u128::MAX.to_string());
}

#[test]
fn config_defaults() {
    let c = RequestLoggerConfig::default();
    assert!(c.log_to_console);
    assert!(!c.log_to_file);
    assert_eq!(c.log_file_path, "requests.log");
    let v = RequestLoggerConfig::from_vars(None, None, None);
    assert!(v.log_to_console);
    assert!(!v.log_to_file);
    assert_eq!(v.log_file_path, "requests.log");
}

#[test]
fn config_from_settings() {
    let c = RequestLoggerConfig::from_vars(Some("false"), Some("true"), Some("/tmp/x.log"));
    assert!(!c.log_to_console);
    assert!(c.log_to_file);
    assert_eq!(c.log_file_path, "/tmp/x.log");
    let d = RequestLoggerConfig::from_vars(Some("no"), Some("yes"), None);
    assert!(d.log_to_console);
    assert!(!d.log_to_file);
    assert_eq!(d.log_file_path, "requests.log");
    let copy = c.duplicate();
    assert_eq!(copy.log_file_path, c.log_file_path);
    assert_eq!(copy.log_to_file, c.log_to_file);
}

#[test]
fn logger_with_defaults() {
    let l = RequestLogger::with_defaults(None, Some("true"), Some("a.log"));
    assert!(l.config().log_to_console);
    assert!(l.config().log_to_file);
    assert_eq!(l.config().log_file_path, "a.log");
    let n = RequestLogger::new(config(false, false));
    assert!(!n.config().log_to_console);
}

#[test]
fn capture_request_metadata() {
    let r = RequestInfo::capture(Some("10.0.0.1:5000"), "POST", "/a?b=c", Some("curl/8"), Some("42"));
    assert_eq!(r.client_ip, "10.0.0.1:5000");
    assert_eq!(r.method, "POST");
    assert_eq!(r.uri, "/a?b=c");
    assert_eq!(r.user_agent.as_deref(), Some("curl/8"));
    assert_eq!(r.request_size, 42);
    let u = RequestInfo::capture(None, "GET", "/", None, Some("bad"));
    assert_eq!(u.client_ip, "unknown");
    assert_eq!(u.user_agent, None);
    assert_eq!(u.request_size, 0);
}

#[test]
fn scenario_get_user_record() {
    let log = scenario_record();
    assert_eq!(log.method, "GET");
    assert_eq!(log.uri, "/users/42/");
    assert_eq!(log.status_code, 200);
    assert_eq!(log.status_category, StatusCategory::Success);
    assert_eq!(log.response_size, 11);
    assert_eq!(log.request_size, 0);
    assert_eq!(log.client_ip, "unknown");
    assert_eq!(log.user_agent, None);
    assert_eq!(log.timestamp, 1_700_000_000);
    assert_eq!(log.response_time_ms, 3);
}

#[test]
fn console_line_format() {
    let log = scenario_record();
    assert_eq!(log.console_text(), "✅ GET /users/42/ unknown - 200 3ms [0->11] Unknown");
}

#[test]
fn file_line_format() {
    let log = scenario_record();
    assert_eq!(log.file_text(), "1700000000 [✅] GET /users/42/ unknown - 200 3ms [0->11] Unknown\n");
}

#[test]
fn agent_is_rendered_when_present() {
    let request = RequestInfo::capture(Some("1.2.3.4"), "DELETE", "/x", Some("agent/1"), Some("5"));
    let response = ResponseInfo::capture(503, None, 120, 9);
    let log = RequestLog::build(request, &response);
    assert_eq!(log.status_category, StatusCategory::ServerError);
    assert_eq!(log.console_text(), "💥 DELETE /x 1.2.3.4 - 503 120ms [5->0] agent/1");
    assert_eq!(log.file_text(), "9 [💥] DELETE /x 1.2.3.4 - 503 120ms [5->0] agent/1\n");
}

#[test]
fn missing_agent_shows_unknown() {
    let log = scenario_record();
    assert!(log.console_text().ends_with("Unknown"));
    assert!(log.file_text().ends_with("Unknown\n"));
}

#[test]
fn dispatch_follows_config() {
    let log = scenario_record();
    let both = RequestLogger::new(config(true, true)).log_request(&log);
    let console = both.console.expect("console entry");
    assert_eq!(console.level, LogLevel::Info);
    assert_eq!(console.text, log.console_text());
    let file = both.file.expect("file entry");
    assert_eq!(file.path, "out/requests.log");
    assert_eq!(file.text, log.file_text());

    let only_file = RequestLogger::new(config(false, true)).log_request(&log);
    assert!(only_file.console.is_none());
    assert!(only_file.file.is_some());
}

#[test]
fn disabled_sinks_dispatch_nothing() {
    let log = scenario_record();
    let d = RequestLogger::new(config(false, false)).log_request(&log);
    assert!(d.console.is_none());
    assert!(d.file.is_none());
}

#[test]
fn warning_and_error_levels_in_dispatch() {
    let request = RequestInfo::capture(None, "GET", "/missing", None, None);
    let log = RequestLog::build(request, &ResponseInfo::capture(404, None, 1, 1));
    let d = RequestLogger::new(config(true, false)).log_request(&log);
    assert_eq!(d.console.unwrap().level, LogLevel::Warn);
}

#[test]
fn response_passes_through_for_every_config() {
    for (console, file) in [(true, true), (true, false), (false, true), (false, false)] {
        let logger = RequestLogger::new(config(console, file));
        let mw = logger.new_transform(());
        let request = RequestInfo::capture(None, "GET", "/users/42/", None, None);
        let info = ResponseInfo::capture(200, Some("11"), 0, 0);
        let body = String::from("Welcome 42!");
        let c: Completion<String, String> = mw.complete(request, Ok((body.clone(), info)));
        assert_eq!(c.response, Ok(body));
        let log = c.record.expect("record");
        assert_eq!(log.response_size, 11);
        assert_eq!(c.dispatch.console.is_some(), console);
        assert_eq!(c.dispatch.file.is_some(), file);
    }
}

#[test]
fn aborted_downstream_records_nothing() {
    let mw = RequestLogger::new(config(true, true)).new_transform(());
    let request = RequestInfo::capture(None, "GET", "/users/42/", None, None);
    let c: Completion<String, String> = mw.complete(request, Err("connection reset".to_string()));
    assert_eq!(c.response, Err("connection reset".to_string()));
    assert!(c.record.is_none());
    assert!(c.dispatch.console.is_none());
    assert!(c.dispatch.file.is_none());
}

#[test]
fn file_lines_one_per_request() {
    let logger = RequestLogger::new(config(false, true));
    let mw = logger.new_transform(());
    let requests = [("GET", "/a"), ("POST", "/b/c"), ("PUT", "/d?x=1"), ("GET", "/")];
    let mut contents = String::new();
    for (method, uri) in requests {
        let request = RequestInfo::capture(Some("127.0.0.1"), method, uri, None, None);
        let info = ResponseInfo::capture(201, None, 2, 5);
        let c: Completion<(), ()> = mw.complete(request, Ok(((), info)));
        contents.push_str(&c.dispatch.file.expect("file entry").text);
    }
    let lines: Vec<&str> = contents.lines().collect();
    assert_eq!(lines.len(), requests.len());
    for (line, (method, uri)) in lines.iter().zip(requests.iter()) {
        assert!(line.contains(method));
        assert!(line.contains(uri));
    }
}

#[test]
fn middleware_keeps_service_and_config() {
    let mw = RequestLogger::new(config(true, false)).new_transform(17u32);
    assert_eq!(**mw.service(), 17);
    assert!(mw.config().log_to_console);
    assert!(!mw.config().log_to_file);
}
