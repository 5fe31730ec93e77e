//! What a driver reports to the core and what the core asks of a driver.
//!
//! The core never touches the network. Each step of a pump takes what
//! happened since the last step and answers with the next thing to do; the
//! driver does it and calls again.

use vstd::prelude::*;
use crate::address::SocketAddress;
use crate::error::{DanError, IoFailure};

verus! {

/// How opening the datagram socket went.
#[derive(Clone, Copy, Debug, PartialEq, Eq, Structural)]
pub enum SocketSetup {
    /// The socket is bound and its receive timeout is set.
    Ready,
    /// The operating system refused to bind the socket.
    BindRefused,
    /// The socket was bound, but another step of its setup failed.
    Failed(IoFailure),
}

/// A datagram as it arrived: where it came from and what it held.
#[derive(Debug, PartialEq, Eq)]
pub struct Datagram {
    pub address: SocketAddress,
    pub packet: Vec<u8>,
}

/// What the driver of the inbound pump reports.
#[derive(Debug, PartialEq, Eq)]
pub enum ReadEvent {
    /// The pump is entered.
    Start,
    /// The receive of the last step brought this datagram.
    Received(Datagram),
    /// The receive of the last step brought nothing.
    ReceiveFailed,
}

/// What the inbound pump asks of its driver.
#[derive(Clone, Copy, Debug, PartialEq, Eq)]
pub enum ReadAction {
    /// Receive one datagram of up to `size` bytes, waiting for it, and step
    /// the pump again with the outcome.
    Receive { size: usize },
    /// Leave the loop with this result.
    Finished(Result<(), DanError>),
}

/// What the driver of the outbound pump reports.
#[derive(Clone, Copy, Debug, PartialEq, Eq)]
pub enum WriteEvent {
    /// The pump is entered.
    Start,
    /// The pump was idle and is stepped again.
    Resume,
    /// The packet of the last step was sent.
    Sent,
    /// The packet of the last step could not be sent.
    SendFailed(IoFailure),
}

/// What the outbound pump asks of its driver.
#[derive(Debug, PartialEq, Eq)]
pub enum WriteAction {
    /// Wait `delay` nanoseconds, send `packet` to `address`, and step the pump
    /// again with the outcome.
    Send { address: SocketAddress, packet: Vec<u8>, delay: u64 },
    /// Nothing is queued: step the pump again.
    Idle,
    /// Leave the loop with this result.
    Finished(Result<(), DanError>),
}

/// An outbound action as a mathematical value.
pub enum WriteOutcome {
    Send { address: SocketAddress, packet: Seq<u8>, delay: u64 },
    Idle,
    Finished(Result<(), DanError>),
}

impl View for WriteAction {
    type V = WriteOutcome;

    open spec fn view(&self) -> WriteOutcome {
        match *self {
            WriteAction::Send { address, packet, delay } => WriteOutcome::Send {
                address,
                packet: packet@,
                delay,
            },
            WriteAction::Idle => WriteOutcome::Idle,
            WriteAction::Finished(result) => WriteOutcome::Finished(result),
        }
    }
}

/// What shutting a socket down asks of its driver.
#[derive(Clone, Copy, Debug, PartialEq, Eq, Structural)]
pub enum DestroyAction {
    /// A pump is still inside its loop: yield the processor and ask again.
    Yield,
    /// No pump is inside its loop: the socket may be released.
    Release,
}

/// What the driver of a peer discovery reports.
#[derive(Debug, PartialEq, Eq)]
pub enum DiscoverEvent {
    /// The discovery begins.
    Start,
    /// The probe was sent.
    Sent,
    /// The probe could not be sent.
    SendFailed(IoFailure),
    /// A reply arrived; these are its bytes.
    Received(Vec<u8>),
    /// No reply could be received.
    ReceiveFailed(IoFailure),
}

/// What a peer discovery asks of its driver.
#[derive(Clone, Copy, Debug, PartialEq, Eq)]
pub enum DiscoverAction {
    /// Send the caller's buffer to `address` and report the outcome.
    Send { address: SocketAddress },
    /// Receive one datagram, waiting at most `timeout` nanoseconds, and
    /// report the outcome.
    Receive { timeout: u64 },
    /// The discovery is over, with this result.
    Finished(Result<(), DanError>),
}

} // verus!
