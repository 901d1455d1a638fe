//! Relay of line-oriented text messages between stream, datagram and
//! publish/subscribe endpoints: the rules that decide what is forwarded,
//! how it is framed, when a connection is retried and how traffic is counted.

pub mod backoff;
pub mod text;
pub mod framing;
pub mod protocol;
pub mod config;
pub mod stats;
pub mod transport;
