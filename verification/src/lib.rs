//! A persistent, self-healing remote-administration client library.
//!
//! The library holds the verified core of the client: the wire-protocol
//! codec (framing and parsing of the JSON text frames), the command
//! dispatch and policy logic, the bounded outbound queue, and the
//! reconnect supervisor's state machine. The asynchronous transport,
//! the host handle, and the operating-system side effects of commands
//! live outside the library and drive it through plain values.
pub mod clock;
pub mod command;
pub mod config;
pub mod frames;
pub mod json;
pub mod parse;
pub mod session;
pub mod supervisor;
