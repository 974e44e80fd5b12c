//! Binary request/response correlation over a duplex message transport.
//!
//! The crate holds the pure part of an RPC client and server: the wire
//! framing of requests and responses, the table of requests that still wait
//! for a response, and the decisions taken by the receiver loop, the timeout
//! sweeper, the shutdown sequence and the server side dispatcher. Sockets,
//! timers and task scheduling stay with the caller, which feeds events in and
//! carries out the actions that come back.
//!
//! * [`message`] frames and unframes requests and responses.
//! * [`pending`] is the table of pending requests, with their callbacks.
//! * [`client`] is the client: it registers requests, matches responses to
//!   them, times them out, and steps through a shutdown.
//! * [`history`] proves that the client resolves every call exactly once.
//! * [`server`] routes a request to its handler and frames the outcome.
//! * [`ops`], [`error`] and [`identifier`] hold the opcodes and status
//!   codes, the errors, and the cursor that picks identifiers.

pub mod client;
pub mod error;
pub mod history;
pub mod identifier;
pub mod message;
pub mod ops;
pub mod pending;
pub mod server;
