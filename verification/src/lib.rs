//! The core of a relay for datagrams of one fixed size between two peers.
//!
//! A socket has one remote peer and two bounded queues. An inbound pump moves
//! what the peer sends into the inbound queue, from which the caller reads;
//! an outbound pump moves what the caller queued to the peer, never faster
//! than one packet per minimum interval. Four lifecycle flags let a shutdown
//! wait until both pumps have left their loops.
//!
//! The crate holds the decisions of the relay and performs no input or
//! output. A driver owns the datagram socket, the clock and the threads. It
//! steps the core: every step takes what happened since the last one and
//! answers with the next thing to do.
//!
//! ```text
//! inbound pump    read_all(event)        -> Receive | Finished
//! outbound pump   write_all(event, now)  -> Send | Idle | Finished
//! shutdown        destroy()              -> Yield | Release
//! discovery       discover_ip(.., event) -> Send | Receive | Finished
//! ```
//!
//! A step is taken as a whole. A driver that shares a socket among threads
//! lets no two steps overlap, and makes the calls that may block, a receive,
//! a send or a sleep, between steps. Any thread may enter a pump; the core
//! lets one at a time into each loop and refuses the others.
//!
//! The modules:
//!
//! - [`address`], [`error`], [`event`]: the plain values that pass between
//!   driver and core.
//! - [`flags`]: the lifecycle flag word and its transitions.
//! - [`queue`]: the bounded queue of packets.
//! - [`pacing`]: timeouts and the delay before a send.
//! - [`model`]: the socket as a mathematical value, and every operation as a
//!   function on it.
//! - [`net`]: the executable socket, each operation with the contract that
//!   it does what the model says.
//! - [`theorems`]: what holds of a socket through every sequence of
//!   operations.

pub mod address;
pub mod error;
pub mod event;
pub mod flags;
pub mod model;
pub mod net;
pub mod pacing;
pub mod queue;
pub mod theorems;
