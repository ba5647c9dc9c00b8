//! Typed packets over WebSocket connections.

pub mod channel;
pub mod connection;
pub mod error;
pub mod frame;
pub mod headers;
pub mod http;
pub mod interval;
pub mod packet;
pub mod peer;
pub mod rpc;
pub mod token;
pub mod worker;
