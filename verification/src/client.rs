//! Client configuration and response classification.
//!
//! The client here holds the credential and the configuration that a
//! transport needs; issuing the HTTP call itself is the embedding
//! program's business. Every raw response goes through
//! [`classify_response`]: a nonzero status code becomes a business error
//! carrying the remote code and message verbatim.
//!
//! All durations are in milliseconds.

use vstd::prelude::*;
use crate::error::TushareError;
use crate::error::TushareResult;
use crate::logging::LogConfig;
use crate::logging::LogLevel;
use crate::logging::Logger;
use crate::types::TushareResponse;

verus! {

/// HTTP transport configuration.
#[derive(Debug, Clone)]
pub struct HttpClientConfig {
    /// Connection timeout, in milliseconds.
    pub connect_timeout: u64,
    /// Request timeout, in milliseconds.
    pub timeout: u64,
    /// Maximum idle connections per host.
    pub pool_max_idle_per_host: usize,
    /// Pool idle timeout, in milliseconds.
    pub pool_idle_timeout: u64,
    /// User agent string.
    pub user_agent: Option<String>,
    /// Whether to disable Nagle's algorithm to reduce latency.
    pub tcp_nodelay: bool,
    /// TCP keep-alive period, in milliseconds.
    pub tcp_keepalive: Option<u64>,
}

impl Default for HttpClientConfig {
    fn default() -> (r: Self)
        ensures
            r.connect_timeout == 10_000,
            r.timeout == 30_000,
            r.pool_max_idle_per_host == 20,
            r.pool_idle_timeout == 90_000,
            r.user_agent matches Some(ua) && ua@ == "tushare-api-rust/1.0.0"@,
            r.tcp_nodelay,
            r.tcp_keepalive == Some(60_000u64),
    {
        HttpClientConfig {
            connect_timeout: 10_000,
            timeout: 30_000,
            pool_max_idle_per_host: 20,
            pool_idle_timeout: 90_000,
            user_agent: Some("tushare-api-rust/1.0.0".to_owned()),
            tcp_nodelay: true,
            tcp_keepalive: Some(60_000),
        }
    }
}

impl HttpClientConfig {
    /// The default configuration.
    pub fn new() -> (r: Self)
        ensures
            r.connect_timeout == 10_000,
            r.timeout == 30_000,
            r.pool_max_idle_per_host == 20,
            r.pool_idle_timeout == 90_000,
            r.user_agent matches Some(ua) && ua@ == "tushare-api-rust/1.0.0"@,
            r.tcp_nodelay,
            r.tcp_keepalive == Some(60_000u64),
    {
        Self::default()
    }

    pub fn with_connect_timeout(self, timeout: u64) -> (r: Self)
        ensures
            r == (HttpClientConfig { connect_timeout: timeout, ..self }),
    {
        HttpClientConfig { connect_timeout: timeout, ..self }
    }

    pub fn with_timeout(self, timeout: u64) -> (r: Self)
        ensures
            r == (HttpClientConfig { timeout, ..self }),
    {
        HttpClientConfig { timeout, ..self }
    }

    pub fn with_pool_max_idle_per_host(self, max_idle: usize) -> (r: Self)
        ensures
            r == (HttpClientConfig { pool_max_idle_per_host: max_idle, ..self }),
    {
        HttpClientConfig { pool_max_idle_per_host: max_idle, ..self }
    }

    pub fn with_pool_idle_timeout(self, timeout: u64) -> (r: Self)
        ensures
            r == (HttpClientConfig { pool_idle_timeout: timeout, ..self }),
    {
        HttpClientConfig { pool_idle_timeout: timeout, ..self }
    }

    pub fn with_user_agent(self, user_agent: &str) -> (r: Self)
        ensures
            r.user_agent matches Some(ua) && ua@ == user_agent@,
            r.connect_timeout == self.connect_timeout,
            r.timeout == self.timeout,
            r.pool_max_idle_per_host == self.pool_max_idle_per_host,
            r.pool_idle_timeout == self.pool_idle_timeout,
            r.tcp_nodelay == self.tcp_nodelay,
            r.tcp_keepalive == self.tcp_keepalive,
    {
        HttpClientConfig { user_agent: Some(user_agent.to_owned()), ..self }
    }

    pub fn with_tcp_nodelay(self, enabled: bool) -> (r: Self)
        ensures
            r == (HttpClientConfig { tcp_nodelay: enabled, ..self }),
    {
        HttpClientConfig { tcp_nodelay: enabled, ..self }
    }

    pub fn with_tcp_keepalive(self, duration: Option<u64>) -> (r: Self)
        ensures
            r == (HttpClientConfig { tcp_keepalive: duration, ..self }),
    {
        HttpClientConfig { tcp_keepalive: duration, ..self }
    }
}

/// The client: the credential and the configuration a transport needs.
#[derive(Debug)]
pub struct TushareClient {
    pub token: String,
    pub http_config: HttpClientConfig,
    pub logger: Logger,
}

/// Builds a [`TushareClient`] step by step.
#[derive(Debug)]
pub struct TushareClientBuilder {
    pub token: Option<String>,
    pub http_config: HttpClientConfig,
    pub log_config: LogConfig,
}

impl TushareClientBuilder {
    /// A builder with no credential and the default transport and logging
    /// configurations; an immediate `build` fails with `InvalidToken`.
    pub fn new() -> (r: Self)
        ensures
            r.token is None,
            r.http_config.connect_timeout == 10_000,
            r.http_config.timeout == 30_000,
            r.http_config.pool_max_idle_per_host == 20,
            r.http_config.pool_idle_timeout == 90_000,
            r.http_config.user_agent matches Some(ua) && ua@ == "tushare-api-rust/1.0.0"@,
            r.http_config.tcp_nodelay,
            r.http_config.tcp_keepalive == Some(60_000u64),
            r.log_config.level is Info,
            r.log_config.log_requests,
            !r.log_config.log_responses,
            !r.log_config.log_sensitive_data,
            r.log_config.log_performance,
    {
        TushareClientBuilder {
            token: None,
            http_config: HttpClientConfig::default(),
            log_config: LogConfig::default(),
        }
    }

    pub fn with_token(self, token: &str) -> (r: Self)
        ensures
            r.token matches Some(t) && t@ == token@,
            r.http_config == self.http_config,
            r.log_config == self.log_config,
    {
        TushareClientBuilder { token: Some(token.to_owned()), ..self }
    }

    pub fn with_connect_timeout(self, connect_timeout: u64) -> (r: Self)
        ensures
            r.token == self.token,
            r.http_config == (HttpClientConfig { connect_timeout, ..self.http_config }),
            r.log_config == self.log_config,
    {
        let http_config = self.http_config.with_connect_timeout(connect_timeout);
        TushareClientBuilder { http_config, ..self }
    }

    pub fn with_timeout(self, timeout: u64) -> (r: Self)
        ensures
            r.token == self.token,
            r.http_config == (HttpClientConfig { timeout, ..self.http_config }),
            r.log_config == self.log_config,
    {
        let http_config = self.http_config.with_timeout(timeout);
        TushareClientBuilder { http_config, ..self }
    }

    /// Replaces the whole transport configuration.
    pub fn with_http_config(self, http_config: HttpClientConfig) -> (r: Self)
        ensures
            r.token == self.token,
            r.http_config == http_config,
            r.log_config == self.log_config,
    {
        TushareClientBuilder { http_config, ..self }
    }

    pub fn with_pool_max_idle_per_host(self, max_idle: usize) -> (r: Self)
        ensures
            r.token == self.token,
            r.http_config == (HttpClientConfig { pool_max_idle_per_host: max_idle, ..self.http_config }),
            r.log_config == self.log_config,
    {
        let http_config = self.http_config.with_pool_max_idle_per_host(max_idle);
        TushareClientBuilder { http_config, ..self }
    }

    pub fn with_pool_idle_timeout(self, timeout: u64) -> (r: Self)
        ensures
            r.token == self.token,
            r.http_config == (HttpClientConfig { pool_idle_timeout: timeout, ..self.http_config }),
            r.log_config == self.log_config,
    {
        let http_config = self.http_config.with_pool_idle_timeout(timeout);
        TushareClientBuilder { http_config, ..self }
    }

    /// Replaces the whole logging configuration.
    pub fn with_log_config(self, log_config: LogConfig) -> (r: Self)
        ensures
            r.token == self.token,
            r.http_config == self.http_config,
            r.log_config == log_config,
    {
        TushareClientBuilder { log_config, ..self }
    }

    pub fn with_log_level(self, level: LogLevel) -> (r: Self)
        ensures
            r.token == self.token,
            r.http_config == self.http_config,
            r.log_config == (LogConfig { level, ..self.log_config }),
    {
        let log_config = LogConfig { level, ..self.log_config };
        TushareClientBuilder { log_config, ..self }
    }

    pub fn log_requests(self, enabled: bool) -> (r: Self)
        ensures
            r.token == self.token,
            r.http_config == self.http_config,
            r.log_config == (LogConfig { log_requests: enabled, ..self.log_config }),
    {
        let log_config = LogConfig { log_requests: enabled, ..self.log_config };
        TushareClientBuilder { log_config, ..self }
    }

    pub fn log_responses(self, enabled: bool) -> (r: Self)
        ensures
            r.token == self.token,
            r.http_config == self.http_config,
            r.log_config == (LogConfig { log_responses: enabled, ..self.log_config }),
    {
        let log_config = LogConfig { log_responses: enabled, ..self.log_config };
        TushareClientBuilder { log_config, ..self }
    }

    pub fn log_sensitive_data(self, enabled: bool) -> (r: Self)
        ensures
            r.token == self.token,
            r.http_config == self.http_config,
            r.log_config == (LogConfig { log_sensitive_data: enabled, ..self.log_config }),
    {
        let log_config = LogConfig { log_sensitive_data: enabled, ..self.log_config };
        TushareClientBuilder { log_config, ..self }
    }

    pub fn log_performance(self, enabled: bool) -> (r: Self)
        ensures
            r.token == self.token,
            r.http_config == self.http_config,
            r.log_config == (LogConfig { log_performance: enabled, ..self.log_config }),
    {
        let log_config = LogConfig { log_performance: enabled, ..self.log_config };
        TushareClientBuilder { log_config, ..self }
    }

    /// Fails fast, before any network activity, when no credential was
    /// given.
    pub fn build(self) -> (r: TushareResult<TushareClient>)
        ensures
            self.token is None ==> (r matches Err(e) && e is InvalidToken),
            self.token matches Some(t) ==> (r matches Ok(c) && c.token@ == t@ && c.http_config
                == self.http_config && c.logger.config == self.log_config),
    {
        let token = match self.token {
            Some(t) => t,
            None => {
                return Err(TushareError::InvalidToken);
            },
        };
        Ok(TushareClient {
            token,
            http_config: self.http_config,
            logger: Logger::new(self.log_config),
        })
    }
}

impl TushareClient {
    /// A fresh builder: no credential, default transport and logging
    /// configurations.
    pub fn builder() -> (r: TushareClientBuilder)
        ensures
            r.token is None,
            r.http_config.connect_timeout == 10_000,
            r.http_config.timeout == 30_000,
            r.http_config.pool_max_idle_per_host == 20,
            r.http_config.pool_idle_timeout == 90_000,
            r.http_config.user_agent matches Some(ua) && ua@ == "tushare-api-rust/1.0.0"@,
            r.http_config.tcp_nodelay,
            r.http_config.tcp_keepalive == Some(60_000u64),
            r.log_config.level is Info,
            r.log_config.log_requests,
            !r.log_config.log_responses,
            !r.log_config.log_sensitive_data,
            r.log_config.log_performance,
    {
        TushareClientBuilder::new()
    }

    /// A client with default timeouts (10 s to connect, 30 s per request).
    pub fn new(token: &str) -> (r: Self)
        ensures
            r.token@ == token@,
            r.http_config.connect_timeout == 10_000,
            r.http_config.timeout == 30_000,
    {
        Self::with_timeout(token, 10_000, 30_000)
    }

    /// A client with the given timeouts, in milliseconds.
    pub fn with_timeout(token: &str, connect_timeout: u64, timeout: u64) -> (r: Self)
        ensures
            r.token@ == token@,
            r.http_config.connect_timeout == connect_timeout,
            r.http_config.timeout == timeout,
    {
        let http_config = HttpClientConfig::new().with_connect_timeout(connect_timeout)
            .with_timeout(timeout);
        TushareClient { token: token.to_owned(), http_config, logger: Logger::new(LogConfig::default()) }
    }

    /// The logger in force.
    pub fn logger(&self) -> (r: &Logger)
        ensures
            *r == self.logger,
    {
        &self.logger
    }
}

/// The response gate: a zero status code passes the response through, a
/// nonzero one becomes a business error carrying the remote code and its
/// message verbatim (or a fixed placeholder when the response carried
/// none).
pub fn classify_response(response: TushareResponse) -> (r: TushareResult<TushareResponse>)
    ensures
        response.code == 0 ==> (r matches Ok(resp) && resp == response),
        response.code != 0 ==> (r matches Err(e) && e matches TushareError::ApiError {
            code,
            message,
        } && code == response.code && message@ == (match response.msg {
            Some(m) => m@,
            None => "Unknown API error"@,
        })),
{
    if response.code != 0 {
        let message = match &response.msg {
            Some(m) => m.clone(),
            None => "Unknown API error".to_owned(),
        };
        return Err(TushareError::ApiError { code: response.code, message });
    }
    Ok(response)
}

} // verus!
