//! The socket as a mathematical value, and what each operation does to it.
//!
//! Every operation of the executable socket is stated here as a function from
//! the value before to the value after and to what the operation answers.
//! Each step is taken as a whole: a driver that shares a socket among threads
//! lets no two steps overlap.

use vstd::prelude::*;
use crate::address::{binding_target_spec, SocketAddress};
use crate::error::{DanError, IoFailure};
use crate::event::{
    Datagram,
    DestroyAction,
    DiscoverAction,
    DiscoverEvent,
    ReadAction,
    ReadEvent,
    SocketSetup,
    WriteEvent,
    WriteOutcome,
};
use crate::flags::{Entry, Lifecycle};
use crate::pacing::{pacing_delay_spec, socket_timeout_spec};
use crate::queue::{lemma_queue_stays_well_formed, OverflowPolicy, QueueModel};

verus! {

/// A counter after one more event. It stops at the largest value it can hold,
/// so it never runs backwards.
pub open spec fn count_up(count: usize) -> usize {
    if count < usize::MAX {
        (count + 1) as usize
    } else {
        count
    }
}

/// The error that the setup of the datagram socket makes of a construction,
/// if it makes one.
pub open spec fn setup_error(setup: SocketSetup) -> Option<DanError> {
    match setup {
        SocketSetup::Ready => None,
        SocketSetup::BindRefused => Some(DanError::Bind),
        SocketSetup::Failed(failure) => Some(DanError::Io(failure)),
    }
}

/// The state that the pumps and the callers of a socket share: what was fixed
/// when the socket was made, the lifecycle flags and the two counters.
pub struct SharedState {
    /// The local address the datagram socket is bound to.
    pub binding_address: SocketAddress,
    /// The one remote peer.
    pub address: SocketAddress,
    /// The receive timeout of the datagram socket, in nanoseconds.
    pub socket_timeout: u64,
    /// The size of every packet, in bytes.
    pub packet_size: usize,
    /// The least time between two sends, in nanoseconds.
    pub packet_time: u64,
    pub flags: Lifecycle,
    /// How many datagrams have passed validation.
    pub received: usize,
    /// How many packets have been sent.
    pub sent: usize,
}

impl SharedState {
    /// The shared state of a new socket.
    pub open spec fn initial(
        binding_address: Option<SocketAddress>,
        connection_address: SocketAddress,
        socket_timeout: Option<u64>,
        packet_size: usize,
        packet_time: u64,
    ) -> SharedState {
        SharedState {
            binding_address: binding_target_spec(binding_address),
            address: connection_address,
            socket_timeout: socket_timeout_spec(socket_timeout),
            packet_size,
            packet_time,
            flags: Lifecycle::initial(),
            received: 0,
            sent: 0,
        }
    }

    /// Whether a datagram passes validation: it has the packet size and comes
    /// from the remote peer.
    pub open spec fn is_valid(self, datagram: Datagram) -> bool {
        datagram.packet@.len() == self.packet_size && datagram.address == self.address
    }

    /// The error that a datagram which fails validation ends the inbound pump
    /// with.
    pub open spec fn mismatch(self, datagram: Datagram) -> DanError {
        DanError::ProtocolMismatch {
            expected_size: self.packet_size,
            actual_size: datagram.packet@.len() as usize,
            expected_addr: self.address,
            actual_addr: datagram.address,
        }
    }

    /// Whether a step of the inbound pump with this event queues a packet.
    pub open spec fn takes_in(self, event: ReadEvent) -> bool {
        event matches ReadEvent::Received(datagram) && self.is_valid(datagram)
    }

    /// Whether a step of the inbound pump with this event ends the pump with
    /// a mismatch.
    pub open spec fn rejects(self, event: ReadEvent) -> bool {
        event matches ReadEvent::Received(datagram) && !self.is_valid(datagram)
    }

    /// The shared state after a step of the inbound pump. The entry takes the
    /// running bit if the direction is enabled and no other pump holds the
    /// bit. A datagram that fails validation makes the pump give the bit up.
    /// Otherwise a datagram that came is counted, and the pump claims the bit
    /// for the next iteration.
    pub open spec fn after_read(self, event: ReadEvent) -> SharedState {
        match event {
            ReadEvent::Start => SharedState { flags: self.flags.enter_reading(), ..self },
            ReadEvent::Received(datagram) => if self.is_valid(datagram) {
                SharedState {
                    flags: self.flags.claim_reading(),
                    received: count_up(self.received),
                    ..self
                }
            } else {
                SharedState { flags: self.flags.release_reading(), ..self }
            },
            ReadEvent::ReceiveFailed => SharedState { flags: self.flags.claim_reading(), ..self },
        }
    }

    /// What a pump that is inside its loop answers at the head of an
    /// iteration: it goes on if the direction is enabled and ends with
    /// success if not.
    pub open spec fn next_receive(self) -> ReadAction {
        if self.flags.read {
            ReadAction::Receive { size: self.packet_size }
        } else {
            ReadAction::Finished(Ok(()))
        }
    }

    /// What a step of the inbound pump answers. An entry that finds the
    /// direction enabled and no other pump inside the loop asks for a
    /// receive; one that finds the direction not enabled ends with success;
    /// one that finds another pump inside the loop is refused.
    pub open spec fn read_action(self, event: ReadEvent) -> ReadAction {
        match event {
            ReadEvent::Start => match self.flags.reading_entry() {
                Entry::Acquired => ReadAction::Receive { size: self.packet_size },
                Entry::Disabled => ReadAction::Finished(Ok(())),
                Entry::Held => ReadAction::Finished(Err(DanError::Io(IoFailure::Inaccessible))),
            },
            ReadEvent::Received(datagram) => if self.is_valid(datagram) {
                self.next_receive()
            } else {
                ReadAction::Finished(Err(self.mismatch(datagram)))
            },
            ReadEvent::ReceiveFailed => self.next_receive(),
        }
    }

    /// Whether a step of the outbound pump with this event goes on to look
    /// into the queue.
    pub open spec fn polls(self, event: WriteEvent) -> bool {
        match event {
            WriteEvent::Start => self.flags.writing_entry() == Entry::Acquired,
            WriteEvent::SendFailed(_) => false,
            _ => self.flags.write,
        }
    }

    /// The shared state after a step of the outbound pump. The entry takes
    /// the running bit if the direction is enabled and no other pump holds
    /// the bit. A failed send makes the pump give the bit up. Otherwise a
    /// completed send is counted, and the pump claims the bit for the next
    /// iteration.
    pub open spec fn after_write(self, event: WriteEvent) -> SharedState {
        match event {
            WriteEvent::Start => SharedState { flags: self.flags.enter_writing(), ..self },
            WriteEvent::Resume => SharedState { flags: self.flags.claim_writing(), ..self },
            WriteEvent::Sent => SharedState {
                flags: self.flags.claim_writing(),
                sent: count_up(self.sent),
                ..self
            },
            WriteEvent::SendFailed(_) => SharedState {
                flags: self.flags.release_writing(),
                ..self
            },
        }
    }

    /// The shared state after a step of shutting down.
    pub open spec fn shut_down(self) -> SharedState {
        SharedState { flags: self.flags.shut_down(), ..self }
    }

    /// What a step of shutting down answers.
    pub open spec fn destroy_action(self) -> DestroyAction {
        if self.flags.quiescent() {
            DestroyAction::Release
        } else {
            DestroyAction::Yield
        }
    }

    /// What a step of a peer discovery answers.
    pub open spec fn discover_action(
        self,
        timeout: Option<u64>,
        event: DiscoverEvent,
    ) -> DiscoverAction {
        match event {
            DiscoverEvent::Start => DiscoverAction::Send { address: self.address },
            DiscoverEvent::Sent => DiscoverAction::Receive {
                timeout: match timeout {
                    Some(timeout) => timeout,
                    None => self.socket_timeout,
                },
            },
            DiscoverEvent::Received(_) => DiscoverAction::Finished(Ok(())),
            DiscoverEvent::SendFailed(failure) => DiscoverAction::Finished(
                Err(DanError::Io(failure)),
            ),
            DiscoverEvent::ReceiveFailed(failure) => DiscoverAction::Finished(
                Err(DanError::Io(failure)),
            ),
        }
    }
}

/// A buffer after a datagram was received into it: the datagram's bytes, as
/// far as the buffer has room for them, and behind them what the buffer held
/// before.
pub open spec fn received_into(buffer: Seq<u8>, datagram: Seq<u8>) -> Seq<u8> {
    Seq::new(
        buffer.len(),
        |i: int|
            if i < datagram.len() {
                datagram[i]
            } else {
                buffer[i]
            },
    )
}

/// The caller's buffer after a step of a peer discovery.
pub open spec fn discover_buffer(buffer: Seq<u8>, event: DiscoverEvent) -> Seq<u8> {
    match event {
        DiscoverEvent::Received(reply) => received_into(buffer, reply@),
        _ => buffer,
    }
}

/// The inbound queue after a step of the inbound pump: a datagram that
/// passes validation is taken in.
pub open spec fn inbound_queue(
    shared: SharedState,
    queue: QueueModel,
    policy: OverflowPolicy,
    event: ReadEvent,
) -> QueueModel {
    match event {
        ReadEvent::Received(datagram) => if shared.is_valid(datagram) {
            queue.offer(datagram.packet@, policy)
        } else {
            queue
        },
        _ => queue,
    }
}

/// The outbound queue after a step of the outbound pump: a pump that may go
/// on takes the oldest packet.
pub open spec fn outbound_queue(
    shared: SharedState,
    queue: QueueModel,
    event: WriteEvent,
) -> QueueModel {
    if shared.polls(event) {
        queue.pop()
    } else {
        queue
    }
}

/// The time from which the outbound pump measures its pacing after a step:
/// the time of the step when a pump entered the loop or a send was attempted.
pub open spec fn outbound_time(shared: SharedState, time: u64, event: WriteEvent, now: u64) -> u64 {
    match event {
        WriteEvent::Start => if shared.flags.writing_entry() == Entry::Acquired {
            now
        } else {
            time
        },
        WriteEvent::Resume => time,
        _ => now,
    }
}

/// What a step of the outbound pump answers. An entry that finds another pump
/// inside the loop is refused, and a failed send ends the pump with its
/// failure. A pump that finds the direction not enabled ends with success.
/// Any other takes the oldest packet and asks for it to be sent after what is
/// left of the least time between two sends, or asks to be stepped again if
/// nothing is queued.
pub open spec fn outbound_action(
    shared: SharedState,
    queue: QueueModel,
    time: u64,
    event: WriteEvent,
    now: u64,
) -> WriteOutcome {
    if event is SendFailed {
        WriteOutcome::Finished(Err(DanError::Io(event->SendFailed_0)))
    } else if event is Start && shared.flags.writing_entry() == Entry::Held {
        WriteOutcome::Finished(Err(DanError::Io(IoFailure::Inaccessible)))
    } else if !shared.flags.write {
        WriteOutcome::Finished(Ok(()))
    } else if queue.is_empty() {
        WriteOutcome::Idle
    } else {
        WriteOutcome::Send {
            address: shared.address,
            packet: queue.packets[0],
            delay: pacing_delay_spec(
                shared.packet_time,
                outbound_time(shared, time, event, now),
                now,
            ),
        }
    }
}

/// A whole socket.
pub struct SocketModel {
    pub shared: SharedState,
    /// What the inbound pump does when its queue is full.
    pub policy: OverflowPolicy,
    /// The packets that arrived and wait for the caller.
    pub inbound: QueueModel,
    /// The packets that the caller queued and that wait to be sent.
    pub outbound: QueueModel,
    /// The time from which the outbound pump measures its pacing.
    pub time: u64,
}

impl SocketModel {
    /// Both queues are well formed and hold packets of the socket's size.
    pub open spec fn wf(self) -> bool {
        &&& self.inbound.wf()
        &&& self.outbound.wf()
        &&& self.inbound.packet_size == self.shared.packet_size
        &&& self.outbound.packet_size == self.shared.packet_size
    }

    /// A new socket: both directions enabled, nothing counted, nothing
    /// queued.
    pub open spec fn fresh(
        binding_address: Option<SocketAddress>,
        connection_address: SocketAddress,
        socket_timeout: Option<u64>,
        read_size: usize,
        write_size: usize,
        packet_size: usize,
        packet_time: u64,
        policy: OverflowPolicy,
    ) -> SocketModel {
        SocketModel {
            shared: SharedState::initial(
                binding_address,
                connection_address,
                socket_timeout,
                packet_size,
                packet_time,
            ),
            policy,
            inbound: QueueModel::empty(read_size, packet_size),
            outbound: QueueModel::empty(write_size, packet_size),
            time: 0,
        }
    }

    /// Whether the socket takes a packet that the caller wants sent.
    pub open spec fn write_accepted(self, packet: Seq<u8>) -> bool {
        self.outbound.accepts(packet)
    }

    /// The socket after the caller offered a packet to be sent.
    pub open spec fn write(self, packet: Seq<u8>) -> SocketModel {
        SocketModel { outbound: self.outbound.push(packet), ..self }
    }

    /// The packet that the caller gets when asking for one.
    pub open spec fn read_result(self) -> Option<Seq<u8>> {
        self.inbound.front()
    }

    /// The socket after the caller asked for a packet.
    pub open spec fn read(self) -> SocketModel {
        SocketModel { inbound: self.inbound.pop(), ..self }
    }

    /// The socket after a step of the inbound pump.
    pub open spec fn read_all(self, event: ReadEvent) -> SocketModel {
        SocketModel {
            shared: self.shared.after_read(event),
            inbound: inbound_queue(self.shared, self.inbound, self.policy, event),
            ..self
        }
    }

    /// What a step of the inbound pump answers.
    pub open spec fn read_all_action(self, event: ReadEvent) -> ReadAction {
        self.shared.read_action(event)
    }

    /// The socket after a step of the outbound pump.
    pub open spec fn write_all(self, event: WriteEvent, now: u64) -> SocketModel {
        SocketModel {
            shared: self.shared.after_write(event),
            outbound: outbound_queue(self.shared, self.outbound, event),
            time: outbound_time(self.shared, self.time, event, now),
            ..self
        }
    }

    /// What a step of the outbound pump answers.
    pub open spec fn write_all_action(self, event: WriteEvent, now: u64) -> WriteOutcome {
        outbound_action(self.shared, self.outbound, self.time, event, now)
    }

    /// The socket after a step of shutting down.
    pub open spec fn destroy(self) -> SocketModel {
        SocketModel { shared: self.shared.shut_down(), ..self }
    }

    /// What a step of shutting down answers.
    pub open spec fn destroy_action(self) -> DestroyAction {
        self.shared.destroy_action()
    }
}

/// A new socket is well formed.
pub proof fn lemma_fresh_socket_is_well_formed(
    binding_address: Option<SocketAddress>,
    connection_address: SocketAddress,
    socket_timeout: Option<u64>,
    read_size: usize,
    write_size: usize,
    packet_size: usize,
    packet_time: u64,
    policy: OverflowPolicy,
)
    ensures
        SocketModel::fresh(
            binding_address,
            connection_address,
            socket_timeout,
            read_size,
            write_size,
            packet_size,
            packet_time,
            policy,
        ).wf(),
{
}

/// Every operation leaves a well-formed socket well formed.
pub proof fn lemma_operations_keep_well_formed(
    s: SocketModel,
    packet: Seq<u8>,
    arrived: ReadEvent,
    event: WriteEvent,
    now: u64,
)
    requires
        s.wf(),
    ensures
        s.write(packet).wf(),
        s.read().wf(),
        s.read_all(arrived).wf(),
        s.write_all(event, now).wf(),
        s.destroy().wf(),
{
    lemma_queue_stays_well_formed(s.outbound, packet, s.policy);
    lemma_queue_stays_well_formed(s.inbound, packet, s.policy);
    if let ReadEvent::Received(datagram) = arrived {
        lemma_queue_stays_well_formed(s.inbound, datagram.packet@, s.policy);
    }
}

} // verus!
