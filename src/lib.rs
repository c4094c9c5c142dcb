//! Connectivity core of the Felay desktop companion: endpoint discovery, the
//! line-delimited request/response codec, daemon lifecycle decisions, the
//! status synchronizer, diagnostic-bundle sanitization and the update check.
//!
//! Everything here is plain computation on values; reading files, talking to
//! sockets, spawning processes and HTTP requests are done by the caller.

pub mod bundle;
pub mod codec;
pub mod desktop;
pub mod endpoint;
pub mod json;
pub mod request;
pub mod sanitize;
pub mod supervisor;
pub mod text;
pub mod update;
pub mod version;
