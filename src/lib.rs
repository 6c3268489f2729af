//! A concurrent HTTP batch-fetching engine: request planning, proxy
//! resolution, outcome normalisation and batch aggregation. Performing the
//! requests (sockets, awaiting, deadlines) is left to the caller, which
//! hands each outcome back to be normalised.

pub mod text;
pub mod json;
pub mod record;
pub mod ssl_verify;
pub mod time;
pub mod request;
pub mod concurrency;
pub mod proxy;
pub mod client;
pub mod http_version;

pub use client::{create_client_with_proxy, default_client};
pub use concurrency::{BatchCollector, ConcurrencyMode};
pub use http_version::HttpVersion;
pub use json::JsonValue;
pub use proxy::{resolve_route, should_use_proxy, ProxyConfig, ProxyRoute, ProxyScope};
pub use record::{ErrorKind, Meta, RequestError, ResponseData, ResultRecord, SendOutcome};
pub use request::{plan_request, Payload, RequestItem, RequestPlan};
pub use ssl_verify::SslVerify;
pub use time::format_datetime;
