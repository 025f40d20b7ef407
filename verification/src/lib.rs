//! A typed client for the DuckDuckGo Instant Answers API.
//!
//! The crate has two components: a query builder ([`Query`]) that serializes
//! search parameters and flags into a correctly percent-encoded request URL,
//! and a response decoder ([`Response::decode`]) that converts the service's
//! loosely typed JSON answer document into a precise domain model.

pub mod json;
pub mod percent;
pub mod query;
pub mod response;

pub use json::JsonValue;
pub use query::Error;
pub use query::Query;
pub use response::{ExternalResult, Icon, RelatedTopic, Response, Type};
