//! Structured event descriptions at a severity level.
//!
//! The logger decides which events pass its configuration and composes the
//! exact line for each; handing composed lines to a logging backend is the
//! embedding program's business, so every method returns the line it would
//! emit, or `None` when the configuration silences it.

use vstd::prelude::*;
use crate::digits::dec_digits_of;
use crate::digits::int_text_of;
use crate::digits::usize_to_dec_string;
use crate::digits::u64_to_dec_string;
use crate::digits::i64_to_dec_string;

verus! {

/// Log severity, coarsest filter first.
#[derive(Debug, Clone, Copy, PartialEq, Eq, Structural)]
pub enum LogLevel {
    /// Disable logging.
    Off,
    /// Log errors only.
    Error,
    /// Log errors and warnings.
    Warn,
    /// Log basic information.
    Info,
    /// Log detailed debug information.
    Debug,
    /// Log everything, including raw data.
    Trace,
}

impl Default for LogLevel {
    fn default() -> (r: Self)
        ensures
            r is Info,
    {
        LogLevel::Info
    }
}

/// Whether a message at `level` passes a configured level.
pub open spec fn level_enabled(configured: LogLevel, level: LogLevel) -> bool {
    match configured {
        LogLevel::Off => false,
        LogLevel::Error => level is Error,
        LogLevel::Warn => level is Error || level is Warn,
        LogLevel::Info => level is Error || level is Warn || level is Info,
        LogLevel::Debug => level is Error || level is Warn || level is Info || level is Debug,
        LogLevel::Trace => true,
    }
}

/// Logging configuration.
#[derive(Debug, Clone)]
pub struct LogConfig {
    pub level: LogLevel,
    /// Whether to log request parameters.
    pub log_requests: bool,
    /// Whether to log response content (can be large).
    pub log_responses: bool,
    /// Whether to log sensitive data, such as the credential.
    pub log_sensitive_data: bool,
    /// Whether to log performance metrics.
    pub log_performance: bool,
}

impl Default for LogConfig {
    fn default() -> (r: Self)
        ensures
            r.level is Info,
            r.log_requests,
            !r.log_responses,
            !r.log_sensitive_data,
            r.log_performance,
    {
        LogConfig {
            level: LogLevel::Info,
            log_requests: true,
            log_responses: false,
            log_sensitive_data: false,
            log_performance: true,
        }
    }
}

/// A full line: the message, with sensitive data appended only when the
/// configuration allows it.
pub open spec fn composed_message(
    config: LogConfig,
    message: Seq<char>,
    sensitive: Option<Seq<char>>,
) -> Seq<char> {
    if config.log_sensitive_data {
        match sensitive {
            Some(s) => message + " [Sensitive data: "@ + s + "]"@,
            None => message,
        }
    } else {
        message
    }
}

pub open spec fn opt_text(o: Option<&str>) -> Option<Seq<char>> {
    match o {
        Some(s) => Some(s@),
        None => None,
    }
}

/// The logger: a configuration and the lines it composes.
#[derive(Debug)]
pub struct Logger {
    pub config: LogConfig,
}

// The exact line of each event.

pub open spec fn api_start_message(id: Seq<char>, api: Seq<char>, p: int, f: int) -> Seq<char> {
    "["@ + id + "] Starting Tushare API call: "@ + api + ", params count: "@ + dec_digits_of(p)
        + ", fields count: "@ + dec_digits_of(f)
}

pub open spec fn request_details_message(
    id: Seq<char>,
    api: Seq<char>,
    params: Seq<char>,
    fields: Seq<char>,
) -> Seq<char> {
    "["@ + id + "] API request details - API: "@ + api + ", params: "@ + params + ", fields: "@
        + fields
}

pub open spec fn http_request_message(id: Seq<char>) -> Seq<char> {
    "["@ + id + "] Sending HTTP request to Tushare API"@
}

pub open spec fn http_error_message(id: Seq<char>, elapsed_ms: int, error: Seq<char>) -> Seq<char> {
    "["@ + id + "] HTTP request failed, duration: "@ + dec_digits_of(elapsed_ms) + "ms, error: "@
        + error
}

pub open spec fn http_response_message(id: Seq<char>, status: int) -> Seq<char> {
    "["@ + id + "] Received HTTP response, status code: "@ + dec_digits_of(status)
}

pub open spec fn response_read_error_message(
    id: Seq<char>,
    elapsed_ms: int,
    error: Seq<char>,
) -> Seq<char> {
    "["@ + id + "] Failed to read response content, duration: "@ + dec_digits_of(elapsed_ms)
        + "ms, error: "@ + error
}

pub open spec fn raw_response_message(id: Seq<char>, text: Seq<char>) -> Seq<char> {
    "["@ + id + "] Raw response content: "@ + text
}

pub open spec fn json_parse_error_message(
    id: Seq<char>,
    elapsed_ms: int,
    error: Seq<char>,
    preview: Seq<char>,
) -> Seq<char> {
    "["@ + id + "] JSON parsing failed, duration: "@ + dec_digits_of(elapsed_ms) + "ms, error: "@
        + error + ", response content: "@ + preview
}

pub open spec fn api_error_message(
    id: Seq<char>,
    elapsed_ms: int,
    code: int,
    message: Seq<char>,
) -> Seq<char> {
    "["@ + id + "] API returned error, duration: "@ + dec_digits_of(elapsed_ms)
        + "ms, error code: "@ + int_text_of(code) + ", error message: "@ + message
}

pub open spec fn api_success_message(
    config: LogConfig,
    id: Seq<char>,
    elapsed_ms: int,
    rows: int,
) -> Seq<char> {
    if config.log_performance {
        "["@ + id + "] API call successful, duration: "@ + dec_digits_of(elapsed_ms)
            + "ms, data rows returned: "@ + dec_digits_of(rows)
    } else {
        "["@ + id + "] API call successful"@
    }
}

pub open spec fn response_details_message(
    id: Seq<char>,
    response_id: Seq<char>,
    fields: Seq<char>,
) -> Seq<char> {
    "["@ + id + "] Response details - Request ID: "@ + response_id + ", fields: "@ + fields
}

impl Logger {
    /// A logger with the given configuration.
    pub fn new(config: LogConfig) -> (r: Self)
        ensures
            r.config == config,
    {
        Logger { config }
    }

    /// The configuration in force.
    pub fn config(&self) -> (r: &LogConfig)
        ensures
            *r == self.config,
    {
        &self.config
    }

    /// Whether a message at this level would be emitted at all.
    pub fn should_log(&self, level: &LogLevel) -> (r: bool)
        ensures
            r == level_enabled(self.config.level, *level),
    {
        match (&self.config.level, level) {
            (LogLevel::Off, _) => false,
            (LogLevel::Error, LogLevel::Error) => true,
            (LogLevel::Warn, LogLevel::Error) => true,
            (LogLevel::Warn, LogLevel::Warn) => true,
            (LogLevel::Info, LogLevel::Error) => true,
            (LogLevel::Info, LogLevel::Warn) => true,
            (LogLevel::Info, LogLevel::Info) => true,
            (LogLevel::Debug, LogLevel::Error) => true,
            (LogLevel::Debug, LogLevel::Warn) => true,
            (LogLevel::Debug, LogLevel::Info) => true,
            (LogLevel::Debug, LogLevel::Debug) => true,
            (LogLevel::Trace, _) => true,
            _ => false,
        }
    }

    /// Composes the line for a message at this level: `None` when the level
    /// is filtered out, otherwise the message with sensitive data appended
    /// only if configured.
    pub fn log_safe(&self, level: LogLevel, message: &str, sensitive_data: Option<&str>) -> (r:
        Option<String>)
        ensures
            (r is Some) == level_enabled(self.config.level, level),
            r matches Some(m) ==> m@ == composed_message(
                self.config,
                message@,
                opt_text(sensitive_data),
            ),
    {
        if !self.should_log(&level) {
            return None;
        }
        if self.config.log_sensitive_data {
            match sensitive_data {
                Some(s) => {
                    let mut out = message.to_owned();
                    out.append(" [Sensitive data: ");
                    out.append(s);
                    out.append("]");
                    Some(out)
                },
                None => Some(message.to_owned()),
            }
        } else {
            Some(message.to_owned())
        }
    }

    /// The call-start line, at Info.
    pub fn log_api_start(
        &self,
        request_id: &str,
        api_name: &str,
        params_count: usize,
        fields_count: usize,
    ) -> (r: Option<String>)
        ensures
            (r is Some) == level_enabled(self.config.level, LogLevel::Info),
            r matches Some(m) ==> m@ == api_start_message(
                request_id@,
                api_name@,
                params_count as int,
                fields_count as int,
            ),
    {
        let mut msg = "[".to_owned();
        msg.append(request_id);
        msg.append("] Starting Tushare API call: ");
        msg.append(api_name);
        msg.append(", params count: ");
        msg.append(usize_to_dec_string(params_count).as_str());
        msg.append(", fields count: ");
        msg.append(usize_to_dec_string(fields_count).as_str());
        self.log_safe(LogLevel::Info, msg.as_str(), None)
    }

    /// The request-details line, at Debug, only when request logging is on.
    pub fn log_request_details(
        &self,
        request_id: &str,
        api_name: &str,
        params: &str,
        fields: &str,
        token_preview: Option<&str>,
    ) -> (r: Option<String>)
        ensures
            (r is Some) == (self.config.log_requests && level_enabled(
                self.config.level,
                LogLevel::Debug,
            )),
            r matches Some(m) ==> m@ == composed_message(
                self.config,
                request_details_message(request_id@, api_name@, params@, fields@),
                opt_text(token_preview),
            ),
    {
        if !self.config.log_requests {
            return None;
        }
        let mut msg = "[".to_owned();
        msg.append(request_id);
        msg.append("] API request details - API: ");
        msg.append(api_name);
        msg.append(", params: ");
        msg.append(params);
        msg.append(", fields: ");
        msg.append(fields);
        self.log_safe(LogLevel::Debug, msg.as_str(), token_preview)
    }

    /// The request-sent line, at Debug.
    pub fn log_http_request(&self, request_id: &str) -> (r: Option<String>)
        ensures
            (r is Some) == level_enabled(self.config.level, LogLevel::Debug),
            r matches Some(m) ==> m@ == http_request_message(request_id@),
    {
        let mut msg = "[".to_owned();
        msg.append(request_id);
        msg.append("] Sending HTTP request to Tushare API");
        self.log_safe(LogLevel::Debug, msg.as_str(), None)
    }

    /// The transport-failure line, at Error.
    pub fn log_http_error(&self, request_id: &str, elapsed_ms: u64, error: &str) -> (r: Option<
        String,
    >)
        ensures
            (r is Some) == level_enabled(self.config.level, LogLevel::Error),
            r matches Some(m) ==> m@ == http_error_message(
                request_id@,
                elapsed_ms as int,
                error@,
            ),
    {
        let mut msg = "[".to_owned();
        msg.append(request_id);
        msg.append("] HTTP request failed, duration: ");
        msg.append(u64_to_dec_string(elapsed_ms).as_str());
        msg.append("ms, error: ");
        msg.append(error);
        self.log_safe(LogLevel::Error, msg.as_str(), None)
    }

    /// The response-received line, at Debug.
    pub fn log_http_response(&self, request_id: &str, status_code: u16) -> (r: Option<String>)
        ensures
            (r is Some) == level_enabled(self.config.level, LogLevel::Debug),
            r matches Some(m) ==> m@ == http_response_message(request_id@, status_code as int),
    {
        let mut msg = "[".to_owned();
        msg.append(request_id);
        msg.append("] Received HTTP response, status code: ");
        msg.append(u64_to_dec_string(status_code as u64).as_str());
        self.log_safe(LogLevel::Debug, msg.as_str(), None)
    }

    /// The body-read-failure line, at Error.
    pub fn log_response_read_error(&self, request_id: &str, elapsed_ms: u64, error: &str) -> (r:
        Option<String>)
        ensures
            (r is Some) == level_enabled(self.config.level, LogLevel::Error),
            r matches Some(m) ==> m@ == response_read_error_message(
                request_id@,
                elapsed_ms as int,
                error@,
            ),
    {
        let mut msg = "[".to_owned();
        msg.append(request_id);
        msg.append("] Failed to read response content, duration: ");
        msg.append(u64_to_dec_string(elapsed_ms).as_str());
        msg.append("ms, error: ");
        msg.append(error);
        self.log_safe(LogLevel::Error, msg.as_str(), None)
    }

    /// The raw-body line, at Trace, only when response logging is on.
    pub fn log_raw_response(&self, request_id: &str, response_text: &str) -> (r: Option<String>)
        ensures
            (r is Some) == (self.config.log_responses && level_enabled(
                self.config.level,
                LogLevel::Trace,
            )),
            r matches Some(m) ==> m@ == raw_response_message(request_id@, response_text@),
    {
        if !self.config.log_responses {
            return None;
        }
        let mut msg = "[".to_owned();
        msg.append(request_id);
        msg.append("] Raw response content: ");
        msg.append(response_text);
        self.log_safe(LogLevel::Trace, msg.as_str(), None)
    }

    /// The undecodable-body line, at Error; the body itself appears only
    /// when response logging is on.
    pub fn log_json_parse_error(
        &self,
        request_id: &str,
        elapsed_ms: u64,
        error: &str,
        response_text: &str,
    ) -> (r: Option<String>)
        ensures
            (r is Some) == level_enabled(self.config.level, LogLevel::Error),
            r matches Some(m) ==> m@ == json_parse_error_message(
                request_id@,
                elapsed_ms as int,
                error@,
                if self.config.log_responses {
                    response_text@
                } else {
                    "[Hidden]"@
                },
            ),
    {
        let mut msg = "[".to_owned();
        msg.append(request_id);
        msg.append("] JSON parsing failed, duration: ");
        msg.append(u64_to_dec_string(elapsed_ms).as_str());
        msg.append("ms, error: ");
        msg.append(error);
        msg.append(", response content: ");
        if self.config.log_responses {
            msg.append(response_text);
        } else {
            msg.append("[Hidden]");
        }
        self.log_safe(LogLevel::Error, msg.as_str(), None)
    }

    /// The business-error line, at Error.
    pub fn log_api_error(
        &self,
        request_id: &str,
        elapsed_ms: u64,
        code: i32,
        message: &str,
    ) -> (r: Option<String>)
        ensures
            (r is Some) == level_enabled(self.config.level, LogLevel::Error),
            r matches Some(m) ==> m@ == api_error_message(
                request_id@,
                elapsed_ms as int,
                code as int,
                message@,
            ),
    {
        let mut msg = "[".to_owned();
        msg.append(request_id);
        msg.append("] API returned error, duration: ");
        msg.append(u64_to_dec_string(elapsed_ms).as_str());
        msg.append("ms, error code: ");
        msg.append(i64_to_dec_string(code as i64).as_str());
        msg.append(", error message: ");
        msg.append(message);
        self.log_safe(LogLevel::Error, msg.as_str(), None)
    }

    /// The success line, at Info; with performance logging it carries the
    /// duration and the row count.
    pub fn log_api_success(&self, request_id: &str, elapsed_ms: u64, data_count: usize) -> (r:
        Option<String>)
        ensures
            (r is Some) == level_enabled(self.config.level, LogLevel::Info),
            r matches Some(m) ==> m@ == api_success_message(
                self.config,
                request_id@,
                elapsed_ms as int,
                data_count as int,
            ),
    {
        let mut msg = "[".to_owned();
        msg.append(request_id);
        if self.config.log_performance {
            msg.append("] API call successful, duration: ");
            msg.append(u64_to_dec_string(elapsed_ms).as_str());
            msg.append("ms, data rows returned: ");
            msg.append(usize_to_dec_string(data_count).as_str());
        } else {
            msg.append("] API call successful");
        }
        self.log_safe(LogLevel::Info, msg.as_str(), None)
    }

    /// The response-details line, at Debug, only when response logging is
    /// on.
    pub fn log_response_details(
        &self,
        request_id: &str,
        response_request_id: &str,
        fields: &str,
    ) -> (r: Option<String>)
        ensures
            (r is Some) == (self.config.log_responses && level_enabled(
                self.config.level,
                LogLevel::Debug,
            )),
            r matches Some(m) ==> m@ == response_details_message(
                request_id@,
                response_request_id@,
                fields@,
            ),
    {
        if !self.config.log_responses {
            return None;
        }
        let mut msg = "[".to_owned();
        msg.append(request_id);
        msg.append("] Response details - Request ID: ");
        msg.append(response_request_id);
        msg.append(", fields: ");
        msg.append(fields);
        self.log_safe(LogLevel::Debug, msg.as_str(), None)
    }
}

} // verus!
