//! The errors of the relay.

use vstd::prelude::*;
use crate::address::SocketAddress;

verus! {

/// Why an operation on the datagram socket failed.
#[derive(Clone, Copy, Debug, PartialEq, Eq, Structural)]
pub enum IoFailure {
    /// Nothing arrived, or nothing could be sent, within the time allowed.
    TimedOut,
    /// The socket is not accessible to the calling thread: another thread
    /// runs the pump that was to be entered.
    Inaccessible,
    /// Any other failure of the operating system.
    Other,
}

/// An error of a socket operation.
#[derive(Clone, Copy, Debug, PartialEq, Eq, Structural)]
pub enum DanError {
    /// A text that should name a socket address names none.
    AddressParse,
    /// The operating system refused to bind the local socket.
    Bind,
    /// An inbound datagram had the wrong size or came from the wrong peer.
    ProtocolMismatch {
        expected_size: usize,
        actual_size: usize,
        expected_addr: SocketAddress,
        actual_addr: SocketAddress,
    },
    /// A send or a receive failed, or a pump could not be entered.
    Io(IoFailure),
    /// A packet was offered to a queue that does not take it: the queue is
    /// full, or the packet does not have the queue's packet size.
    QueueFull,
}

impl DanError {
    /// Whether the error is a send or a receive that ran out of time.
    pub open spec fn is_timeout_spec(self) -> bool {
        self == DanError::Io(IoFailure::TimedOut)
    }

    /// Tells whether the error is a send or a receive that ran out of time.
    pub fn is_timeout(&self) -> (b: bool)
        ensures
            b == self.is_timeout_spec(),
    {
        match self {
            DanError::Io(IoFailure::TimedOut) => true,
            _ => false,
        }
    }
}

} // verus!
