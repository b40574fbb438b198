//! Liveness monitoring over an unreliable datagram channel.
//!
//! A client announces its presence by sending one heartbeat per tick; a
//! server turns each datagram it receives into a record for durable storage.
//! The protocol is one-way: nothing is acknowledged, retransmitted, ordered
//! or authenticated, and a heartbeat that is lost or does not decode shows
//! only as a gap in the records.
//!
//! This library holds the wire codec and the decisions of both loops. The
//! sockets, the clock and the storage engine stay with the caller, which
//! hands the library plain values and carries out what it answers.
//!
//! - [`time`]: instants, and their text on the wire.
//! - [`frame`]: the byte layout of a datagram, and what is proved of it.
//! - [`message`]: the heartbeat message, `encode` and `decode`.
//! - [`client`]: the decisions of one tick of the client.
//! - [`server`]: the record of a datagram, and the decisions of the server.

pub mod client;
pub mod frame;
pub mod message;
pub mod server;
pub mod time;
