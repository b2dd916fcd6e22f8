//! Client-side core for a multi-tenant hosted search service.
//!
//! The crate covers the parts of such a client that carry real logic:
//! resolving tenant hostnames (with numbered backup hosts), dispatching a
//! request across those hosts with a retry policy, compiling typed filter
//! expressions to the service's textual filter grammar, and deriving
//! restricted ("virtual") API keys from a parent key.

pub mod app_id;
pub mod dispatch;
pub mod error;
pub mod filter;
pub mod host;
pub mod key;
pub mod model;
pub mod request;
pub mod response;
pub mod routes;
pub mod task;
pub mod text;

pub use app_id::AppId;
pub use app_id::RefAppId;
pub use error::Error;
pub use key::ApiKey;
