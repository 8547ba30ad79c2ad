//! A minimal HTTPS health-check service, verified.
//!
//! The library holds everything the service decides or computes: the
//! request-to-response dispatch for the single health endpoint, the
//! cross-origin policy, and the loading of TLS material from PEM bytes.
//! The surrounding binary only reads files, binds the socket and moves
//! bytes between the network and this library.

pub mod cors;
pub mod dispatch;
pub mod health;
pub mod http;
pub mod tls;
