//! A vehicle information service: clients read the latest value of a signal,
//! subscribe to its changes, and are notified when it changes.
//!
//! The crate holds what the service decides. Sockets, channels, timers and the
//! text form of messages belong to the program around it, which hands in plain
//! events and carries out the steps it is given back.
#![allow(unused_imports)]

pub mod api_error;
pub mod api_type;
pub mod client;
pub mod client_laws;
pub mod client_operation_laws;
pub mod clock;
pub mod filter;
pub mod identifier;
pub mod message_laws;
pub mod outside;
pub mod router;
pub mod service_laws;
pub mod signal_server;
pub mod subscription;
pub mod vis_client;
pub mod vis_client_laws;
pub mod websocket_server;

pub use clock::{unix_timestamp, unix_timestamp_ms};
