//! Trust bootstrap for a tactical messaging system.
//!
//! Two tightly coupled pieces: an enrollment session that turns a one-shot
//! username/password exchange into a cached client certificate bundle,
//! polled through bounded caller-owned buffers; and a trust-configuration
//! builder that assembles a mutual-TLS acceptor from PEM-encoded
//! certificate and key material.

pub mod buffer;
pub mod session;
pub mod tls;
