//! Secure connection and publish lifecycle of a household touch meter:
//! identity loading from PEM data, mutual-TLS context construction, and the
//! connect / publish / disconnect state machine of its broker link, together
//! with the household member list the meter reports and the wording of
//! its pairing flow.

mod clock;
pub mod error;
pub mod qos;
pub mod identity;
pub mod tls;
pub mod config;
pub mod manager;
pub mod members;
pub mod pairing;
