//! Impersonation profile registry: maps a target browser identity to a
//! fully composed settings bundle (TLS shaping handle, HTTP/2 parameters,
//! ordered header template, compression flags) and applies that bundle to
//! a client configuration.

pub mod strutil;
pub mod error;
pub mod profile;
pub mod headers;
pub mod http2;
pub mod registry;
pub mod httpmap;
pub mod proxy;
pub mod builder;
