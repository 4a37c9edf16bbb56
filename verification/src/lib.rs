//! Client-side certificate lifecycle management for a remote certificate
//! authority: renewal scheduling, response classification, secure persistence
//! planning, known-hosts maintenance, and live TLS configuration hand-off.

pub mod client;
pub mod config;
pub mod daemon;
pub mod distributor;
pub mod errors;
pub mod fingerprint;
pub mod installer;
pub mod known_hosts;
pub mod lines;
pub mod scheduler;
pub mod ssh;
pub mod text;
pub mod x509;
