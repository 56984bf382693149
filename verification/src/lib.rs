//! A TLS-terminating reverse proxy core: a host-to-destination routing table
//! with a fallback path for unmatched hosts, request target rewriting, a
//! request tally, the per-connection lifecycle state machine, and the
//! construction of the shared TLS server context.
//!
//! All I/O (listeners, the outbound client, the configuration file) lives in
//! the surrounding binary; this crate holds the decisions and the data.

pub mod counter;
pub mod fallback;
pub mod request;
pub mod routing;
pub mod supervisor;
pub mod tls_cfg;
