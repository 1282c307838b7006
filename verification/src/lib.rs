//! Client-side core for a tabular remote data API: typed conversion of
//! loosely-typed response cells into caller-defined records, plus the
//! operational pieces (per-endpoint rate limiting, retry with backoff)
//! that make repeated calls well-behaved.
//!
//! Transport plumbing — issuing the HTTP call, decoding the JSON body,
//! emitting composed log lines — lives in the embedding program; this
//! crate holds, and verifies, everything that decides or computes.

pub mod api;
pub mod cell;
pub mod client;
pub mod convert;
pub mod dates;
pub mod decimal;
pub mod digits;
pub mod error;
pub mod kvlist;
pub mod logging;
pub mod mapper;
pub mod rate_limit;
pub mod retry;
pub mod types;
pub mod uid;
pub mod utils;

pub use api::Api;
pub use cell::CellValue;
pub use client::HttpClientConfig;
pub use client::TushareClient;
pub use client::TushareClientBuilder;
pub use convert::FromOptionalTushareValue;
pub use convert::FromTushareValue;
pub use dates::Date;
pub use dates::DateTime;
pub use dates::FromTushareValueWithFormat;
pub use dates::UtcDateTime;
pub use decimal::BigDecimal;
pub use decimal::Decimal;
pub use error::TushareError;
pub use error::TushareResult;
pub use logging::LogConfig;
pub use logging::LogLevel;
pub use logging::Logger;
pub use mapper::EntityDescriptor;
pub use mapper::FieldMapping;
pub use mapper::FieldType;
pub use mapper::FieldValue;
pub use mapper::FromTushareData;
pub use rate_limit::RateLimiter;
pub use retry::RetryConfig;
pub use types::TushareData;
pub use types::TushareEntityList;
pub use types::TushareRequest;
pub use types::TushareResponse;
pub use uid::Uuid;
pub use utils::entity_list_from_response;
pub use utils::response_to_vec;
