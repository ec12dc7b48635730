use vstd::prelude::*;
use vstd::string::*;

use std::rc::Rc;

use crate::config::RequestLoggerConfig;
use crate::record::{console_line, file_line, RequestInfo, RequestLog, ResponseInfo};
use crate::status::{level_of, LogLevel};

verus! {

/// One line for the console sink, with the level it is emitted at.
#[derive(Debug, Clone)]
pub struct ConsoleEntry {
    pub level: LogLevel,
    pub text: String,
}

/// One line to append to the file sink's file.
#[derive(Debug, Clone)]
pub struct FileEntry {
    pub path: String,
    pub text: String,
}

/// What the sinks are to receive for one record: an entry for each enabled
/// sink, none for a disabled one.
#[derive(Debug, Clone)]
pub struct Dispatch {
    pub console: Option<ConsoleEntry>,
    pub file: Option<FileEntry>,
}

/// The outcome of intercepting one request: the handler's result, handed on
/// untouched, with the record and the sink entries made of it.
#[derive(Debug)]
pub struct Completion<R, E> {
    pub response: Result<R, E>,
    pub record: Option<RequestLog>,
    pub dispatch: Dispatch,
}

impl Dispatch {
    pub open spec fn is_empty(&self) -> bool {
        self.console is None && self.file is None
    }

    /// The entries that `config` asks for of `log`.
    pub open spec fn describes(&self, config: RequestLoggerConfig, log: RequestLog) -> bool {
        &&& (self.console is Some <==> config.log_to_console)
        &&& (self.file is Some <==> config.log_to_file)
        &&& (self.console is Some ==> self.console->0.level == level_of(log.status_category)
            && self.console->0.text@ == console_line(log))
        &&& (self.file is Some ==> self.file->0.path@ == config.log_file_path@
            && self.file->0.text@ == file_line(log))
    }
}

/// Logs each completed request to the sinks that its configuration enables.
pub struct RequestLogger {
    config: RequestLoggerConfig,
}

impl RequestLogger {
    pub closed spec fn spec_config(&self) -> RequestLoggerConfig {
        self.config
    }

    pub fn new(config: RequestLoggerConfig) -> (r: Self)
        ensures
            r.spec_config() == config,
    {
        RequestLogger { config }
    }

    /// A logger configured from the three named settings as they were found;
    /// absent or unreadable ones take their defaults.
    pub fn with_defaults(console: Option<&str>, file: Option<&str>, path: Option<&str>) -> (r: Self)
        ensures
            r.spec_config().log_to_console == crate::config::flag_setting(console, true),
            r.spec_config().log_to_file == crate::config::flag_setting(file, false),
            r.spec_config().log_file_path@ == crate::config::text_setting(
                path,
                crate::config::default_log_path(),
            ),
    {
        Self::new(RequestLoggerConfig::from_vars(console, file, path))
    }

    pub fn config(&self) -> (r: &RequestLoggerConfig)
        ensures
            *r == self.spec_config(),
    {
        &self.config
    }

    /// The console sink's entry for `log`.
    pub fn log_to_console(&self, log: &RequestLog) -> (r: ConsoleEntry)
        ensures
            r.level == level_of(log.status_category),
            r.text@ == console_line(*log),
    {
        ConsoleEntry { level: log.status_category.level(), text: log.console_text() }
    }

    /// The file sink's entry for `log`.
    pub fn log_to_file(&self, log: &RequestLog) -> (r: FileEntry)
        ensures
            r.path@ == self.spec_config().log_file_path@,
            r.text@ == file_line(*log),
    {
        FileEntry { path: self.config.log_file_path.clone(), text: log.file_text() }
    }

    /// The entries of `log` for the enabled sinks.
    pub fn log_request(&self, log: &RequestLog) -> (r: Dispatch)
        ensures
            r.describes(self.spec_config(), *log),
    {
        let console = if self.config.log_to_console {
            Some(self.log_to_console(log))
        } else {
            None
        };
        let file = if self.config.log_to_file {
            Some(self.log_to_file(log))
        } else {
            None
        };
        Dispatch { console, file }
    }

    /// Wraps a downstream service; the middleware shares this configuration.
    pub fn new_transform<S>(&self, service: S) -> (r: RequestLoggerMiddleware<S>)
        ensures
            *r.spec_service() == service,
            r.spec_config() == self.spec_config(),
    {
        RequestLoggerMiddleware { service: Rc::new(service), config: self.config.duplicate() }
    }
}

/// A downstream service wrapped by the request logger.
pub struct RequestLoggerMiddleware<S> {
    service: Rc<S>,
    config: RequestLoggerConfig,
}

impl<S> RequestLoggerMiddleware<S> {
    pub closed spec fn spec_service(&self) -> Rc<S> {
        self.service
    }

    pub closed spec fn spec_config(&self) -> RequestLoggerConfig {
        self.config
    }

    pub fn service(&self) -> (r: &Rc<S>)
        ensures
            *r == self.spec_service(),
    {
        &self.service
    }

    pub fn config(&self) -> (r: &RequestLoggerConfig)
        ensures
            *r == self.spec_config(),
    {
        &self.config
    }

    /// Finishes one request after the downstream service has resolved. A
    /// response is handed back as it came, recorded and dispatched to the
    /// enabled sinks; a failure is handed back as it came, and nothing is
    /// recorded or dispatched.
    pub fn complete<R, E>(&self, request: RequestInfo, outcome: Result<(R, ResponseInfo), E>) -> (r:
        Completion<R, E>)
        ensures
            match outcome {
                Ok((response, info)) => {
                    &&& r.response == Ok::<R, E>(response)
                    &&& r.record == Some(RequestLog::spec_build(request, info))
                    &&& r.dispatch.describes(
                        self.spec_config(),
                        RequestLog::spec_build(request, info),
                    )
                },
                Err(e) => {
                    &&& r.response == Err::<R, E>(e)
                    &&& r.record is None
                    &&& r.dispatch.is_empty()
                },
            },
    {
        match outcome {
            Ok((response, info)) => {
                let log = RequestLog::build(request, &info);
                let logger = RequestLogger::new(self.config.duplicate());
                let dispatch = logger.log_request(&log);
                Completion { response: Ok(response), record: Some(log), dispatch }
            },
            Err(e) => Completion {
                response: Err(e),
                record: None,
                dispatch: Dispatch { console: None, file: None },
            },
        }
    }
}

} // verus!
