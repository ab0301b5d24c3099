//! Verified core of `wire`, a relay between a terminal and one TCP peer.
//!
//! Bytes typed on standard input go to the peer, and bytes from the peer go to
//! standard output, until either side closes.  Three threads do the work: one
//! reads standard input, one owns the socket, and the dispatcher moves bytes
//! between them and the standard streams.
//!
//! The library holds every decision of the relay as a function from plain
//! values to plain values.  The program around it makes the reads, the writes
//! and the channel operations and reports what came of them.
//!
//! - [`reader`], [`dispatcher`] and [`network`] are the engines of the three
//!   threads;
//! - [`connection`] says what the results of calls on the socket mean;
//! - [`relay`] puts the engines and their channels together and proves that
//!   both streams keep their bytes and their order;
//! - [`trace`] holds what the engines' proofs share;
//! - [`address`] and [`errors`] read the command line and name the failures;
//! - [`pipe`] is a plain copier without buffering of its own.
pub mod address;
pub mod connection;
pub mod dispatcher;
pub mod errors;
pub mod network;
pub mod pipe;
pub mod progress;
pub mod reader;
pub mod relay;
pub mod signal;
pub mod trace;
