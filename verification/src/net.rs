//! The socket: its shared state, its two pumps, its two queues and the
//! facade that composes them.

use vstd::prelude::*;
use crate::address::{binding_target, SocketAddress};
use crate::error::{DanError, IoFailure};
use crate::event::{
    Datagram,
    DestroyAction,
    DiscoverAction,
    DiscoverEvent,
    ReadAction,
    ReadEvent,
    SocketSetup,
    WriteAction,
    WriteEvent,
    WriteOutcome,
};
use crate::flags::{Entry, Flags};
use crate::model::{
    count_up,
    discover_buffer,
    inbound_queue,
    lemma_fresh_socket_is_well_formed,
    lemma_operations_keep_well_formed,
    outbound_action,
    outbound_queue,
    outbound_time,
    received_into,
    setup_error,
    SharedState,
    SocketModel,
};
use crate::pacing::pacing_delay;
use crate::queue::{OverflowPolicy, PacketQueue, QueueModel};

verus! {

/// Counts one more event on a counter that stops at its largest value.
fn counted(count: usize) -> (next: usize)
    ensures
        next == count_up(count),
{
    if count < usize::MAX {
        count + 1
    } else {
        count
    }
}

/// The state that the pumps and the callers of one socket share.
#[derive(Debug)]
pub struct DanSharedSocket {
    binding_address: SocketAddress,
    address: SocketAddress,
    socket_timeout: u64,
    packet_size: usize,
    packet_time: u64,
    flags: Flags,
    received: usize,
    sent: usize,
}

impl View for DanSharedSocket {
    type V = SharedState;

    closed spec fn view(&self) -> SharedState {
        SharedState {
            binding_address: self.binding_address,
            address: self.address,
            socket_timeout: self.socket_timeout,
            packet_size: self.packet_size,
            packet_time: self.packet_time,
            flags: self.flags@,
            received: self.received,
            sent: self.sent,
        }
    }
}

impl DanSharedSocket {
    /// The shared state of a new socket. The socket is to be bound to
    /// `binding_address`, or to an address of the operating system's choice
    /// if there is none; its receive timeout is `socket_timeout` nanoseconds,
    /// or one second if there is none. Both directions start enabled.
    pub fn new(
        binding_address: Option<SocketAddress>,
        connection_address: SocketAddress,
        socket_timeout: Option<u64>,
        packet_size: usize,
        packet_time: u64,
    ) -> (shared: DanSharedSocket)
        ensures
            shared@ == SharedState::initial(
                binding_address,
                connection_address,
                socket_timeout,
                packet_size,
                packet_time,
            ),
    {
        DanSharedSocket {
            binding_address: binding_target(binding_address),
            address: connection_address,
            socket_timeout: crate::pacing::socket_timeout(socket_timeout),
            packet_size,
            packet_time,
            flags: Flags::new(),
            received: 0,
            sent: 0,
        }
    }

    /// The local address the datagram socket is bound to.
    pub fn binding_address(&self) -> (address: SocketAddress)
        ensures
            address == self@.binding_address,
    {
        self.binding_address
    }

    /// The remote peer.
    pub fn address(&self) -> (address: SocketAddress)
        ensures
            address == self@.address,
    {
        self.address
    }

    /// The receive timeout of the datagram socket, in nanoseconds.
    pub fn socket_timeout(&self) -> (timeout: u64)
        ensures
            timeout == self@.socket_timeout,
    {
        self.socket_timeout
    }

    /// The size of every packet, in bytes.
    pub fn packet_size(&self) -> (size: usize)
        ensures
            size == self@.packet_size,
    {
        self.packet_size
    }

    /// The least time between two sends, in nanoseconds.
    pub fn packet_time(&self) -> (time: u64)
        ensures
            time == self@.packet_time,
    {
        self.packet_time
    }

    /// The lifecycle flags.
    pub fn flags(&self) -> (flags: &Flags)
        ensures
            flags@ == self@.flags,
    {
        &self.flags
    }

    /// How many datagrams have passed validation.
    pub fn received(&self) -> (count: usize)
        ensures
            count == self@.received,
    {
        self.received
    }

    /// How many packets have been sent.
    pub fn sent(&self) -> (count: usize)
        ensures
            count == self@.sent,
    {
        self.sent
    }

    /// Validates a datagram: it must have the packet size and come from the
    /// remote peer.
    pub fn is_valid(&self, datagram: &Datagram) -> (valid: bool)
        ensures
            valid == self@.is_valid(*datagram),
    {
        datagram.packet.len() == self.packet_size && datagram.address == self.address
    }
}

/// The caller's end of the inbound queue: the packets that arrived, oldest
/// first.
#[derive(Debug)]
pub struct DanReader {
    buffer: PacketQueue,
}

impl View for DanReader {
    type V = QueueModel;

    closed spec fn view(&self) -> QueueModel {
        self.buffer@
    }
}

impl DanReader {
    /// An empty inbound queue for up to `read_size` packets of `packet_size`
    /// bytes.
    pub fn new(read_size: usize, packet_size: usize) -> (reader: DanReader)
        ensures
            reader@ == QueueModel::empty(read_size, packet_size),
    {
        DanReader { buffer: PacketQueue::new(read_size, packet_size) }
    }

    /// Takes the oldest packet that arrived, if there is one. Never waits.
    pub fn read(&mut self) -> (packet: Option<Vec<u8>>)
        ensures
            final(self)@ == old(self)@.pop(),
            match packet {
                Some(packet) => old(self)@.front() == Some(packet@),
                None => old(self)@.front().is_none(),
            },
    {
        self.buffer.try_recv()
    }

    /// The number of packets that wait for the caller.
    pub fn len(&self) -> (n: usize)
        ensures
            n == self@.packets.len(),
    {
        self.buffer.len()
    }
}

/// The caller's end of the outbound queue: the packets that wait to be sent,
/// oldest first.
#[derive(Debug)]
pub struct DanWriter {
    buffer: PacketQueue,
}

impl View for DanWriter {
    type V = QueueModel;

    closed spec fn view(&self) -> QueueModel {
        self.buffer@
    }
}

impl DanWriter {
    /// An empty outbound queue for up to `write_size` packets of
    /// `packet_size` bytes.
    pub fn new(write_size: usize, packet_size: usize) -> (writer: DanWriter)
        ensures
            writer@ == QueueModel::empty(write_size, packet_size),
    {
        DanWriter { buffer: PacketQueue::new(write_size, packet_size) }
    }

    /// Queues a packet to be sent. Never waits: a packet of the wrong size,
    /// or one that finds the queue full, is refused and the queue left as it
    /// was. A packet that is taken is sent after all those queued before it.
    pub fn write(&mut self, packet: Vec<u8>) -> (result: Result<(), DanError>)
        ensures
            final(self)@ == old(self)@.push(packet@),
            result == if old(self)@.accepts(packet@) {
                Ok::<(), DanError>(())
            } else {
                Err::<(), DanError>(DanError::QueueFull)
            },
    {
        self.buffer.try_send(packet)
    }

    /// The number of packets that wait to be sent.
    pub fn len(&self) -> (n: usize)
        ensures
            n == self@.packets.len(),
    {
        self.buffer.len()
    }
}

/// The inbound pump: it validates what arrives, queues it for the caller and
/// counts it.
#[derive(Debug)]
pub struct DanReadSocket {
    policy: OverflowPolicy,
}

impl View for DanReadSocket {
    type V = OverflowPolicy;

    closed spec fn view(&self) -> OverflowPolicy {
        self.policy
    }
}

impl DanReadSocket {
    /// An inbound pump that treats a full queue as `policy` says.
    pub fn new(policy: OverflowPolicy) -> (pump: DanReadSocket)
        ensures
            pump@ == policy,
    {
        DanReadSocket { policy }
    }

    /// What the pump does when its queue is full.
    pub fn policy(&self) -> (policy: OverflowPolicy)
        ensures
            policy == self@,
    {
        self.policy
    }

    /// One step of the inbound pump.
    ///
    /// The entry takes the running bit and asks for a receive if the
    /// direction is enabled and no other pump is inside the loop. If the
    /// direction is not enabled it ends with success, and if another pump is
    /// inside the loop it is refused with [`IoFailure::Inaccessible`]; either
    /// way it changes nothing.
    ///
    /// A datagram of the wrong size or from the wrong peer ends the pump with
    /// an error: the running bit is given up, nothing is queued or counted.
    /// Any other datagram is queued, as far as the policy for a full queue
    /// lets it, and counted. After a datagram, and after a receive that
    /// brought nothing, the pump claims its running bit for the next
    /// iteration: it asks for a receive if the direction is enabled, and
    /// otherwise gives the bit up and ends with success.
    pub fn read(
        &self,
        shared: &mut DanSharedSocket,
        reader: &mut DanReader,
        event: ReadEvent,
    ) -> (action: ReadAction)
        ensures
            final(shared)@ == old(shared)@.after_read(event),
            final(reader)@ == inbound_queue(old(shared)@, old(reader)@, self@, event),
            action == old(shared)@.read_action(event),
    {
        match event {
            ReadEvent::Start => {
                return match shared.flags.enter_reading() {
                    Entry::Acquired => ReadAction::Receive { size: shared.packet_size },
                    Entry::Disabled => ReadAction::Finished(Ok(())),
                    Entry::Held => ReadAction::Finished(
                        Err(DanError::Io(IoFailure::Inaccessible)),
                    ),
                };
            },
            ReadEvent::Received(datagram) => {
                if !shared.is_valid(&datagram) {
                    shared.flags.release_reading();
                    return ReadAction::Finished(
                        Err(
                            DanError::ProtocolMismatch {
                                expected_size: shared.packet_size,
                                actual_size: datagram.packet.len(),
                                expected_addr: shared.address,
                                actual_addr: datagram.address,
                            },
                        ),
                    );
                }
                reader.buffer.offer(datagram.packet, self.policy);
                shared.received = counted(shared.received);
            },
            ReadEvent::ReceiveFailed => {},
        }
        if shared.flags.claim_reading() {
            ReadAction::Receive { size: shared.packet_size }
        } else {
            ReadAction::Finished(Ok(()))
        }
    }
}

/// The outbound pump: it takes what the caller queued, paces it and counts
/// what was sent.
#[derive(Debug)]
pub struct DanWriteSocket {
    time: u64,
}

impl View for DanWriteSocket {
    type V = u64;

    closed spec fn view(&self) -> u64 {
        self.time
    }
}

impl DanWriteSocket {
    /// An outbound pump that has not run yet.
    pub fn new() -> (pump: DanWriteSocket)
        ensures
            pump@ == 0,
    {
        DanWriteSocket { time: 0 }
    }

    /// The time from which the pump measures its pacing: when a pump last
    /// entered the loop or last attempted a send, whichever is later.
    pub fn time(&self) -> (time: u64)
        ensures
            time == self@,
    {
        self.time
    }

    /// One step of the outbound pump, taken at the time `now`.
    ///
    /// The entry takes the running bit if the direction is enabled and no
    /// other pump is inside the loop, and sets the time from which the pacing
    /// is measured to `now`. If the direction is not enabled it ends with
    /// success, and if another pump is inside the loop it is refused with
    /// [`IoFailure::Inaccessible`]; either way it changes nothing.
    ///
    /// A failed send ends the pump with an error: the running bit is given
    /// up. A completed send is counted. Every attempt to send sets the time
    /// from which the pacing is measured to `now`. After a completed send,
    /// and when an idle pump is stepped again, the pump claims its running
    /// bit for the next iteration; if the direction is not enabled it gives
    /// the bit up and ends with success.
    ///
    /// A pump that goes on takes the oldest queued packet and asks for it to
    /// be sent to the remote peer after what is left of the least time
    /// between two sends; with nothing queued it asks to be stepped again.
    pub fn write(
        &mut self,
        shared: &mut DanSharedSocket,
        writer: &mut DanWriter,
        event: WriteEvent,
        now: u64,
    ) -> (action: WriteAction)
        ensures
            final(shared)@ == old(shared)@.after_write(event),
            final(writer)@ == outbound_queue(old(shared)@, old(writer)@, event),
            final(self)@ == outbound_time(old(shared)@, old(self)@, event, now),
            action@ == outbound_action(old(shared)@, old(writer)@, old(self)@, event, now),
    {
        let enabled = match event {
            WriteEvent::Start => {
                match shared.flags.enter_writing() {
                    Entry::Acquired => {
                        self.time = now;
                        true
                    },
                    Entry::Disabled => false,
                    Entry::Held => {
                        return WriteAction::Finished(Err(DanError::Io(IoFailure::Inaccessible)));
                    },
                }
            },
            WriteEvent::Resume => shared.flags.claim_writing(),
            WriteEvent::Sent => {
                self.time = now;
                shared.sent = counted(shared.sent);
                shared.flags.claim_writing()
            },
            WriteEvent::SendFailed(failure) => {
                self.time = now;
                shared.flags.release_writing();
                return WriteAction::Finished(Err(DanError::Io(failure)));
            },
        };
        if !enabled {
            return WriteAction::Finished(Ok(()));
        }
        match writer.buffer.try_recv() {
            Some(packet) => WriteAction::Send {
                address: shared.address,
                packet,
                delay: pacing_delay(shared.packet_time, self.time, now),
            },
            None => WriteAction::Idle,
        }
    }
}

/// Receives a datagram into a buffer: its bytes overwrite the head of the
/// buffer, as far as there is room; the buffer keeps its length.
fn receive_into(buffer: &mut Vec<u8>, datagram: &Vec<u8>)
    ensures
        final(buffer)@ == received_into(old(buffer)@, datagram@),
{
    let count: usize = if datagram.len() < buffer.len() {
        datagram.len()
    } else {
        buffer.len()
    };
    let mut i: usize = 0;
    while i < count
        invariant
            i <= count,
            count <= datagram.len(),
            count <= buffer.len(),
            buffer.len() == old(buffer).len(),
            forall|j: int| 0 <= j < i ==> buffer[j] == datagram[j],
            forall|j: int| i <= j < buffer.len() ==> buffer[j] == old(buffer)[j],
        decreases count - i,
    {
        buffer.set(i, datagram[i]);
        i += 1;
    }
    assert(buffer@ =~= received_into(old(buffer)@, datagram@));
}

/// A socket: one datagram endpoint with one remote peer, an inbound pump with
/// its queue and an outbound pump with its queue.
#[derive(Debug)]
pub struct DanSocket {
    shared_socket: DanSharedSocket,
    read_socket: DanReadSocket,
    read_buffer: DanReader,
    write_socket: DanWriteSocket,
    write_buffer: DanWriter,
}

impl View for DanSocket {
    type V = SocketModel;

    closed spec fn view(&self) -> SocketModel {
        SocketModel {
            shared: self.shared_socket@,
            policy: self.read_socket@,
            inbound: self.read_buffer@,
            outbound: self.write_buffer@,
            time: self.write_socket@,
        }
    }
}

impl DanSocket {
    /// Makes a socket, once its driver has tried to open the datagram socket.
    ///
    /// The driver binds the datagram socket to `binding_address`, or to an
    /// address of the operating system's choice if there is none, and sets
    /// its receive timeout to `socket_timeout` nanoseconds, or to one second
    /// if there is none; `setup` says how that went. If the bind was refused
    /// the construction fails with [`DanError::Bind`], if anything else
    /// failed with [`DanError::Io`]. Otherwise the socket starts with both
    /// directions enabled, nothing counted and two empty queues of
    /// `read_size` and `write_size` packets of `packet_size` bytes.
    pub fn create(
        binding_address: Option<SocketAddress>,
        connection_address: SocketAddress,
        socket_timeout: Option<u64>,
        read_size: usize,
        write_size: usize,
        packet_size: usize,
        packet_time: u64,
        policy: OverflowPolicy,
        setup: SocketSetup,
    ) -> (result: Result<DanSocket, DanError>)
        ensures
            match result {
                Ok(socket) => {
                    &&& setup_error(setup).is_none()
                    &&& socket@ == SocketModel::fresh(
                        binding_address,
                        connection_address,
                        socket_timeout,
                        read_size,
                        write_size,
                        packet_size,
                        packet_time,
                        policy,
                    )
                    &&& socket@.wf()
                },
                Err(error) => setup_error(setup) == Some(error),
            },
    {
        proof {
            lemma_fresh_socket_is_well_formed(
                binding_address,
                connection_address,
                socket_timeout,
                read_size,
                write_size,
                packet_size,
                packet_time,
                policy,
            );
        }
        match setup {
            SocketSetup::Ready => {},
            SocketSetup::BindRefused => {
                return Err(DanError::Bind);
            },
            SocketSetup::Failed(failure) => {
                return Err(DanError::Io(failure));
            },
        }
        Ok(
            DanSocket {
                shared_socket: DanSharedSocket::new(
                    binding_address,
                    connection_address,
                    socket_timeout,
                    packet_size,
                    packet_time,
                ),
                read_socket: DanReadSocket::new(policy),
                read_buffer: DanReader::new(read_size, packet_size),
                write_socket: DanWriteSocket::new(),
                write_buffer: DanWriter::new(write_size, packet_size),
            },
        )
    }

    /// One step of shutting the socket down. Clears both enable bits, so that
    /// each pump ends at the head of its next iteration, and says whether a
    /// pump was still inside its loop. The socket may be released only once a
    /// step has answered [`DestroyAction::Release`]. Queued packets are
    /// neither sent nor delivered by shutting down.
    pub fn destroy(&mut self) -> (action: DestroyAction)
        ensures
            final(self)@ == old(self)@.destroy(),
            action == old(self)@.destroy_action(),
            old(self)@.wf() ==> final(self)@.wf(),
    {
        proof {
            if self@.wf() {
                lemma_operations_keep_well_formed(
                    self@,
                    Seq::empty(),
                    ReadEvent::Start,
                    WriteEvent::Resume,
                    0,
                );
            }
        }
        if self.shared_socket.flags.shut_down() {
            DestroyAction::Yield
        } else {
            DestroyAction::Release
        }
    }

    /// One step of a peer discovery: the caller's packet is sent to the
    /// remote peer, and one reply is received into the same buffer.
    ///
    /// At the start the step asks for `packet` to be sent to the remote peer.
    /// Once that is done it asks for one receive that waits at most `timeout`
    /// nanoseconds, or the socket's receive timeout if there is none. A reply
    /// is copied over the head of `packet`, and the discovery ends with
    /// success. A send or a receive that fails ends it with
    /// [`DanError::Io`]; `packet` is then left as it was.
    pub fn discover_ip(
        &self,
        packet: &mut Vec<u8>,
        timeout: Option<u64>,
        event: DiscoverEvent,
    ) -> (action: DiscoverAction)
        ensures
            action == self@.shared.discover_action(timeout, event),
            final(packet)@ == discover_buffer(old(packet)@, event),
    {
        match event {
            DiscoverEvent::Start => DiscoverAction::Send { address: self.shared_socket.address },
            DiscoverEvent::Sent => DiscoverAction::Receive {
                timeout: match timeout {
                    Some(timeout) => timeout,
                    None => self.shared_socket.socket_timeout,
                },
            },
            DiscoverEvent::SendFailed(failure) => DiscoverAction::Finished(
                Err(DanError::Io(failure)),
            ),
            DiscoverEvent::Received(reply) => {
                receive_into(packet, &reply);
                DiscoverAction::Finished(Ok(()))
            },
            DiscoverEvent::ReceiveFailed(failure) => DiscoverAction::Finished(
                Err(DanError::Io(failure)),
            ),
        }
    }

    /// How many datagrams have passed validation.
    pub fn received(&self) -> (count: usize)
        ensures
            count == self@.shared.received,
    {
        self.shared_socket.received
    }

    /// How many packets have been sent.
    pub fn sent(&self) -> (count: usize)
        ensures
            count == self@.shared.sent,
    {
        self.shared_socket.sent
    }

    /// Takes the oldest packet that arrived, if there is one. Never waits.
    pub fn read(&mut self) -> (packet: Option<Vec<u8>>)
        ensures
            final(self)@ == old(self)@.read(),
            match packet {
                Some(packet) => old(self)@.read_result() == Some(packet@),
                None => old(self)@.read_result().is_none(),
            },
            old(self)@.wf() ==> final(self)@.wf(),
            old(self)@.wf() ==> (packet matches Some(packet) ==> packet@.len() == old(
                self,
            )@.shared.packet_size),
    {
        proof {
            if self@.wf() {
                lemma_operations_keep_well_formed(
                    self@,
                    Seq::empty(),
                    ReadEvent::Start,
                    WriteEvent::Resume,
                    0,
                );
            }
        }
        self.read_buffer.read()
    }

    /// Queues a packet to be sent and says whether it was taken. Never waits:
    /// a packet of the wrong size is refused whatever the queue holds, and so
    /// is any packet that finds the queue full; the socket is then left as it
    /// was. A packet that is taken is sent after all those queued before it.
    pub fn write(&mut self, packet: Vec<u8>) -> (accepted: bool)
        ensures
            final(self)@ == old(self)@.write(packet@),
            accepted == old(self)@.write_accepted(packet@),
            old(self)@.wf() ==> final(self)@.wf(),
            old(self)@.wf() && packet@.len() != old(self)@.shared.packet_size ==> !accepted
                && final(self)@ == old(self)@,
    {
        proof {
            if self@.wf() {
                lemma_operations_keep_well_formed(
                    self@,
                    packet@,
                    ReadEvent::Start,
                    WriteEvent::Resume,
                    0,
                );
            }
        }
        self.write_buffer.write(packet).is_ok()
    }

    /// One step of the inbound pump. See [`DanReadSocket::read`].
    pub fn read_all(&mut self, event: ReadEvent) -> (action: ReadAction)
        ensures
            final(self)@ == old(self)@.read_all(event),
            action == old(self)@.read_all_action(event),
            old(self)@.wf() ==> final(self)@.wf(),
            old(self)@.shared.rejects(event) ==> {
                &&& action == ReadAction::Finished(
                    Err(old(self)@.shared.mismatch(event->Received_0)),
                )
                &&& final(self)@.shared.received == old(self)@.shared.received
                &&& final(self)@.inbound == old(self)@.inbound
                &&& !final(self)@.shared.flags.reading
            },
    {
        proof {
            if self@.wf() {
                lemma_operations_keep_well_formed(
                    self@,
                    Seq::empty(),
                    event,
                    WriteEvent::Resume,
                    0,
                );
            }
        }
        self.read_socket.read(&mut self.shared_socket, &mut self.read_buffer, event)
    }

    /// One step of the outbound pump, taken at the time `now`. See
    /// [`DanWriteSocket::write`].
    pub fn write_all(&mut self, event: WriteEvent, now: u64) -> (action: WriteAction)
        ensures
            final(self)@ == old(self)@.write_all(event, now),
            action@ == old(self)@.write_all_action(event, now),
            old(self)@.wf() ==> final(self)@.wf(),
            old(self)@.wf() ==> (action@ matches WriteOutcome::Send { packet, .. }
                ==> packet.len() == old(self)@.shared.packet_size),
    {
        proof {
            if self@.wf() {
                lemma_operations_keep_well_formed(
                    self@,
                    Seq::empty(),
                    ReadEvent::Start,
                    event,
                    now,
                );
            }
        }
        self.write_socket.write(&mut self.shared_socket, &mut self.write_buffer, event, now)
    }

    /// The state that the pumps and the callers share.
    pub fn shared_socket(&self) -> (shared: &DanSharedSocket)
        ensures
            shared@ == self@.shared,
    {
        &self.shared_socket
    }
}

} // verus!
