//! What holds of a socket through every course of operations.
//!
//! A course is any sequence of steps that callers, pumps and a shutdown take
//! on one socket, in the order in which the steps took effect. Any number of
//! drivers may step the pumps; each step of a pump names the driver that
//! takes it.

use vstd::prelude::*;
use crate::address::SocketAddress;
use crate::error::{DanError, IoFailure};
use crate::event::{Datagram, DestroyAction, ReadAction, ReadEvent, WriteEvent, WriteOutcome};
use crate::flags::{may_follow, Entry, Lifecycle, PumpState};
use crate::model::{count_up, lemma_operations_keep_well_formed, SharedState, SocketModel};
use crate::queue::{lemma_offer_in_steps, OverflowPolicy};

verus! {

/// One step on a socket.
pub enum Operation {
    /// The caller offers a packet to be sent.
    Write(Seq<u8>),
    /// The caller asks for a packet that arrived.
    Read,
    /// A step that a driver takes of the inbound pump.
    ReadAll(nat, ReadEvent),
    /// A step that a driver takes of the outbound pump at a time.
    WriteAll(nat, WriteEvent, u64),
    /// A step of shutting down.
    Destroy,
}

/// The socket after one step.
pub open spec fn apply(s: SocketModel, op: Operation) -> SocketModel {
    match op {
        Operation::Write(packet) => s.write(packet),
        Operation::Read => s.read(),
        Operation::ReadAll(_, event) => s.read_all(event),
        Operation::WriteAll(_, event, now) => s.write_all(event, now),
        Operation::Destroy => s.destroy(),
    }
}

/// The socket after a course of steps.
pub open spec fn run(s: SocketModel, ops: Seq<Operation>) -> SocketModel
    decreases ops.len(),
{
    if ops.len() == 0 {
        s
    } else {
        apply(run(s, ops.drop_last()), ops.last())
    }
}

/// A count as a counter shows it: counters stop at their largest value.
pub open spec fn shown(count: int) -> usize {
    if count <= usize::MAX {
        count as usize
    } else {
        usize::MAX
    }
}

/// How many datagrams of a course passed validation.
pub open spec fn validated(s: SocketModel, ops: Seq<Operation>) -> nat
    decreases ops.len(),
{
    if ops.len() == 0 {
        0
    } else {
        validated(s, ops.drop_last()) + if ops.last() matches Operation::ReadAll(_, event)
            && s.shared.takes_in(event) {
            1nat
        } else {
            0nat
        }
    }
}

/// How many sends of a course were completed.
pub open spec fn completed(ops: Seq<Operation>) -> nat
    decreases ops.len(),
{
    if ops.len() == 0 {
        0
    } else {
        completed(ops.drop_last()) + if ops.last() matches Operation::WriteAll(
            _,
            WriteEvent::Sent,
            _,
        ) {
            1nat
        } else {
            0nat
        }
    }
}

/// The packets that the socket took from its caller in a course, in the
/// order in which it took them.
pub open spec fn taken(s: SocketModel, ops: Seq<Operation>) -> Seq<Seq<u8>>
    decreases ops.len(),
{
    if ops.len() == 0 {
        Seq::empty()
    } else {
        let before = run(s, ops.drop_last());
        let earlier = taken(s, ops.drop_last());
        match ops.last() {
            Operation::Write(packet) => if before.write_accepted(packet) {
                earlier.push(packet)
            } else {
                earlier
            },
            _ => earlier,
        }
    }
}

/// The packets that the outbound pump handed out to be sent in a course, in
/// the order in which it handed them out.
pub open spec fn handed_out(s: SocketModel, ops: Seq<Operation>) -> Seq<Seq<u8>>
    decreases ops.len(),
{
    if ops.len() == 0 {
        Seq::empty()
    } else {
        let before = run(s, ops.drop_last());
        let earlier = handed_out(s, ops.drop_last());
        match ops.last() {
            Operation::WriteAll(_, event, now) => match before.write_all_action(event, now) {
                WriteOutcome::Send { packet, .. } => earlier.push(packet),
                _ => earlier,
            },
            _ => earlier,
        }
    }
}

/// The packets that entered the inbound queue in a course, in the order in
/// which they arrived.
pub open spec fn entered(s: SocketModel, ops: Seq<Operation>) -> Seq<Seq<u8>>
    decreases ops.len(),
{
    if ops.len() == 0 {
        Seq::empty()
    } else {
        let before = run(s, ops.drop_last());
        let earlier = entered(s, ops.drop_last());
        match ops.last() {
            Operation::ReadAll(_, ReadEvent::Received(datagram)) => if before.shared.is_valid(
                datagram,
            ) && before.inbound.keeps(datagram.packet@, before.policy) {
                earlier.push(datagram.packet@)
            } else {
                earlier
            },
            _ => earlier,
        }
    }
}

/// The packets that left the inbound queue in a course, to the caller or
/// because the inbound pump dropped them to make room, in the order in which
/// they left.
pub open spec fn left(s: SocketModel, ops: Seq<Operation>) -> Seq<Seq<u8>>
    decreases ops.len(),
{
    if ops.len() == 0 {
        Seq::empty()
    } else {
        let before = run(s, ops.drop_last());
        let earlier = left(s, ops.drop_last());
        match ops.last() {
            Operation::Read => if before.inbound.is_empty() {
                earlier
            } else {
                earlier.push(before.inbound.packets[0])
            },
            Operation::ReadAll(_, ReadEvent::Received(datagram)) => if before.shared.is_valid(
                datagram,
            ) && before.inbound.evicts(datagram.packet@, before.policy) {
                earlier.push(before.inbound.packets[0])
            } else {
                earlier
            },
            _ => earlier,
        }
    }
}

/// Whether a driver is inside the loop of the inbound pump after a course:
/// whether its last step of that pump asked it to go on.
pub open spec fn reader_inside(driver: nat, s: SocketModel, ops: Seq<Operation>) -> bool
    decreases ops.len(),
{
    if ops.len() == 0 {
        false
    } else {
        match ops.last() {
            Operation::ReadAll(stepper, event) => if stepper == driver {
                !(run(s, ops.drop_last()).read_all_action(event) is Finished)
            } else {
                reader_inside(driver, s, ops.drop_last())
            },
            _ => reader_inside(driver, s, ops.drop_last()),
        }
    }
}

/// Whether a driver is inside the loop of the outbound pump after a course:
/// whether its last step of that pump asked it to go on.
pub open spec fn writer_inside(driver: nat, s: SocketModel, ops: Seq<Operation>) -> bool
    decreases ops.len(),
{
    if ops.len() == 0 {
        false
    } else {
        match ops.last() {
            Operation::WriteAll(stepper, event, now) => if stepper == driver {
                !(run(s, ops.drop_last()).write_all_action(event, now) is Finished)
            } else {
                writer_inside(driver, s, ops.drop_last())
            },
            _ => writer_inside(driver, s, ops.drop_last()),
        }
    }
}

/// Whether the drivers of a course keep to the order of a pump: a driver
/// that is outside a loop enters it, and only a driver that is inside a loop
/// reports what a receive or a send of that loop brought.
pub open spec fn orderly(s: SocketModel, ops: Seq<Operation>) -> bool
    decreases ops.len(),
{
    if ops.len() == 0 {
        true
    } else {
        &&& orderly(s, ops.drop_last())
        &&& match ops.last() {
            Operation::ReadAll(driver, event) => (event is Start) != reader_inside(
                driver,
                s,
                ops.drop_last(),
            ),
            Operation::WriteAll(driver, event, _) => (event is Start) != writer_inside(
                driver,
                s,
                ops.drop_last(),
            ),
            _ => true,
        }
    }
}

/// The driver that the steps of a course left inside the loop of the inbound
/// pump, if they left one: the last one that was asked to go on and has not
/// been told to end since.
pub open spec fn reader_holder(s: SocketModel, ops: Seq<Operation>) -> Option<nat>
    decreases ops.len(),
{
    if ops.len() == 0 {
        None
    } else {
        let earlier = reader_holder(s, ops.drop_last());
        match ops.last() {
            Operation::ReadAll(driver, event) => if !(run(s, ops.drop_last()).read_all_action(
                event,
            ) is Finished) {
                Some(driver)
            } else if earlier == Some(driver) {
                None
            } else {
                earlier
            },
            _ => earlier,
        }
    }
}

/// The driver that the steps of a course left inside the loop of the outbound
/// pump, if they left one.
pub open spec fn writer_holder(s: SocketModel, ops: Seq<Operation>) -> Option<nat>
    decreases ops.len(),
{
    if ops.len() == 0 {
        None
    } else {
        let earlier = writer_holder(s, ops.drop_last());
        match ops.last() {
            Operation::WriteAll(driver, event, now) => if !(run(
                s,
                ops.drop_last(),
            ).write_all_action(event, now) is Finished) {
                Some(driver)
            } else if earlier == Some(driver) {
                None
            } else {
                earlier
            },
            _ => earlier,
        }
    }
}

/// The time of the last step of the outbound pump in a course; `start` if
/// the course holds none.
pub open spec fn latest(start: u64, ops: Seq<Operation>) -> u64
    decreases ops.len(),
{
    if ops.len() == 0 {
        start
    } else {
        match ops.last() {
            Operation::WriteAll(_, _, now) => now,
            _ => latest(start, ops.drop_last()),
        }
    }
}

/// Whether the clock never runs backwards in a course: no step of the
/// outbound pump is taken at an earlier time than the one before it, nor the
/// first one earlier than `start`.
pub open spec fn clock_runs_forward(start: u64, ops: Seq<Operation>) -> bool
    decreases ops.len(),
{
    if ops.len() == 0 {
        true
    } else {
        &&& clock_runs_forward(start, ops.drop_last())
        &&& ops.last() matches Operation::WriteAll(_, _, now) ==> latest(start, ops.drop_last())
            <= now
    }
}

/// Whether a course holds a step in which a driver inside the loop of the
/// inbound pump reports what its receive brought.
pub open spec fn continues_reader(ops: Seq<Operation>) -> bool {
    exists|i: int|
        0 <= i < ops.len() && (#[trigger] ops[i] matches Operation::ReadAll(_, event) && !(event
            is Start))
}

/// Whether a course holds a step in which a driver inside the loop of the
/// outbound pump reports what became of its send or steps the idle pump
/// again.
pub open spec fn continues_writer(ops: Seq<Operation>) -> bool {
    exists|i: int|
        0 <= i < ops.len() && (#[trigger] ops[i] matches Operation::WriteAll(_, event, _) && !(
        event is Start))
}

/// The course in which the caller offers the given packets one after the
/// other and nothing else happens.
pub open spec fn writes(packets: Seq<Seq<u8>>) -> Seq<Operation> {
    Seq::new(packets.len(), |i: int| Operation::Write(packets[i]))
}

/// What was fixed when the socket was made is the same in both values.
pub open spec fn same_configuration(s: SocketModel, t: SocketModel) -> bool {
    &&& t.shared.binding_address == s.shared.binding_address
    &&& t.shared.address == s.shared.address
    &&& t.shared.socket_timeout == s.shared.socket_timeout
    &&& t.shared.packet_size == s.shared.packet_size
    &&& t.shared.packet_time == s.shared.packet_time
    &&& t.policy == s.policy
    &&& t.inbound.capacity == s.inbound.capacity
    &&& t.inbound.packet_size == s.inbound.packet_size
    &&& t.outbound.capacity == s.outbound.capacity
    &&& t.outbound.packet_size == s.outbound.packet_size
}

/// No step changes what was fixed when the socket was made, and every step
/// leaves a well-formed socket well formed.
pub proof fn lemma_step_keeps_socket(s: SocketModel, op: Operation)
    ensures
        same_configuration(s, apply(s, op)),
        s.wf() ==> apply(s, op).wf(),
{
    if s.wf() {
        let packet = if let Operation::Write(packet) = op {
            packet
        } else {
            Seq::empty()
        };
        let arrived = if let Operation::ReadAll(_, event) = op {
            event
        } else {
            ReadEvent::Start
        };
        let (event, now) = if let Operation::WriteAll(_, event, now) = op {
            (event, now)
        } else {
            (WriteEvent::Resume, 0)
        };
        lemma_operations_keep_well_formed(s, packet, arrived, event, now);
    }
}

/// No course changes what was fixed when the socket was made, and every
/// course leaves a well-formed socket well formed.
pub proof fn lemma_course_keeps_socket(s: SocketModel, ops: Seq<Operation>)
    ensures
        same_configuration(s, run(s, ops)),
        s.wf() ==> run(s, ops).wf(),
    decreases ops.len(),
{
    if ops.len() > 0 {
        lemma_course_keeps_socket(s, ops.drop_last());
        lemma_step_keeps_socket(run(s, ops.drop_last()), ops.last());
    }
}

/// Through every course, the received count is the count it started from and
/// the number of datagrams that passed validation, and the sent count is the
/// count it started from and the number of completed sends, each as a counter
/// shows it. In particular neither count ever runs backwards.
pub proof fn lemma_counters_count(s: SocketModel, ops: Seq<Operation>)
    ensures
        run(s, ops).shared.received == shown(s.shared.received + validated(s, ops)),
        run(s, ops).shared.sent == shown(s.shared.sent + completed(ops)),
        run(s, ops).shared.received >= s.shared.received,
        run(s, ops).shared.sent >= s.shared.sent,
    decreases ops.len(),
{
    if ops.len() > 0 {
        let before = run(s, ops.drop_last());
        lemma_counters_count(s, ops.drop_last());
        lemma_course_keeps_socket(s, ops.drop_last());
        match ops.last() {
            Operation::ReadAll(_, event) => {
                assert(before.shared.takes_in(event) == s.shared.takes_in(event));
            },
            _ => {},
        }
    }
}

/// The outbound queue is first in, first out, and loses nothing: through
/// every course, what was queued at the start followed by what the socket
/// took from its caller is what the outbound pump handed out followed by what
/// is still queued.
pub proof fn lemma_outbound_is_fifo(s: SocketModel, ops: Seq<Operation>)
    ensures
        s.outbound.packets + taken(s, ops) == handed_out(s, ops) + run(s, ops).outbound.packets,
    decreases ops.len(),
{
    if ops.len() == 0 {
        assert(s.outbound.packets + taken(s, ops) =~= handed_out(s, ops) + s.outbound.packets);
    } else {
        let earlier = ops.drop_last();
        let before = run(s, earlier);
        let queued = before.outbound.packets;
        lemma_outbound_is_fifo(s, earlier);
        assert(s.outbound.packets + taken(s, earlier) == handed_out(s, earlier) + queued);
        match ops.last() {
            Operation::Write(packet) => {
                if before.write_accepted(packet) {
                    let start = s.outbound.packets + taken(s, earlier);
                    assert(s.outbound.packets + taken(s, earlier).push(packet) =~= start.push(
                        packet,
                    ));
                    assert(handed_out(s, earlier) + queued.push(packet) =~= start.push(packet));
                }
            },
            Operation::WriteAll(_, event, now) => {
                if before.shared.polls(event) && !before.outbound.is_empty() {
                    let head = handed_out(s, earlier).push(queued[0]);
                    assert(head + queued.drop_first() =~= handed_out(s, earlier) + queued);
                }
            },
            _ => {},
        }
    }
}

/// The inbound queue is first in, first out: through every course, what was
/// queued at the start followed by what entered the queue is what left the
/// queue followed by what is still queued.
pub proof fn lemma_inbound_is_fifo(s: SocketModel, ops: Seq<Operation>)
    ensures
        s.inbound.packets + entered(s, ops) == left(s, ops) + run(s, ops).inbound.packets,
    decreases ops.len(),
{
    if ops.len() == 0 {
        assert(s.inbound.packets + entered(s, ops) =~= left(s, ops) + s.inbound.packets);
    } else {
        let earlier = ops.drop_last();
        let before = run(s, earlier);
        let queued = before.inbound.packets;
        lemma_inbound_is_fifo(s, earlier);
        assert(s.inbound.packets + entered(s, earlier) == left(s, earlier) + queued);
        match ops.last() {
            Operation::Read => {
                if !before.inbound.is_empty() {
                    let head = left(s, earlier).push(queued[0]);
                    assert(head + queued.drop_first() =~= left(s, earlier) + queued);
                }
            },
            Operation::ReadAll(_, ReadEvent::Received(datagram)) => {
                if before.shared.is_valid(datagram) {
                    let packet = datagram.packet@;
                    lemma_offer_in_steps(before.inbound, packet, before.policy);
                    let rest = if before.inbound.evicts(packet, before.policy) {
                        queued.drop_first()
                    } else {
                        queued
                    };
                    let gone = if before.inbound.evicts(packet, before.policy) {
                        left(s, earlier).push(queued[0])
                    } else {
                        left(s, earlier)
                    };
                    assert(gone + rest =~= left(s, earlier) + queued);
                    if before.inbound.keeps(packet, before.policy) {
                        let start = s.inbound.packets + entered(s, earlier);
                        assert(s.inbound.packets + entered(s, earlier).push(packet)
                            =~= start.push(packet));
                        assert(gone + rest.push(packet) =~= start.push(packet));
                    }
                }
            },
            _ => {},
        }
    }
}

/// A new socket takes packets of its packet size from its caller until its
/// outbound queue is full: as long as nothing drains the queue, the offer
/// number `i`, counted from zero, is taken exactly if `i` is less than the
/// capacity of the queue.
pub proof fn lemma_fresh_socket_takes_its_capacity(
    binding_address: Option<SocketAddress>,
    connection_address: SocketAddress,
    socket_timeout: Option<u64>,
    read_size: usize,
    write_size: usize,
    packet_size: usize,
    packet_time: u64,
    policy: OverflowPolicy,
    packets: Seq<Seq<u8>>,
    i: int,
)
    requires
        0 <= i < packets.len(),
        forall|j: int| 0 <= j < packets.len() ==> (#[trigger] packets[j]).len() == packet_size,
    ensures
        run(
            SocketModel::fresh(
                binding_address,
                connection_address,
                socket_timeout,
                read_size,
                write_size,
                packet_size,
                packet_time,
                policy,
            ),
            writes(packets.take(i)),
        ).write_accepted(packets[i]) == (i < write_size),
{
    let s = SocketModel::fresh(
        binding_address,
        connection_address,
        socket_timeout,
        read_size,
        write_size,
        packet_size,
        packet_time,
        policy,
    );
    lemma_offers_fill_queue(s, packets.take(i));
    lemma_course_keeps_socket(s, writes(packets.take(i)));
}

/// After a course of nothing but offers of packets of the right size, the
/// outbound queue holds as many packets more as were offered, up to its
/// capacity.
proof fn lemma_offers_fill_queue(s: SocketModel, packets: Seq<Seq<u8>>)
    requires
        s.outbound.packets.len() <= s.outbound.capacity,
        forall|j: int|
            0 <= j < packets.len() ==> (#[trigger] packets[j]).len() == s.outbound.packet_size,
    ensures
        run(s, writes(packets)).outbound.packets.len() == if s.outbound.packets.len()
            + packets.len() <= s.outbound.capacity {
            s.outbound.packets.len() + packets.len()
        } else {
            s.outbound.capacity as nat
        },
    decreases packets.len(),
{
    if packets.len() > 0 {
        let ops = writes(packets);
        assert(ops.drop_last() =~= writes(packets.drop_last()));
        assert(ops.last() == Operation::Write(packets.last()));
        lemma_offers_fill_queue(s, packets.drop_last());
        lemma_course_keeps_socket(s, ops.drop_last());
    }
}

/// Each pump keeps to its own direction. A step of the inbound pump changes
/// nothing but the inbound running bit, the received count and the inbound
/// queue; a step of the outbound pump changes nothing but the outbound
/// running bit, the sent count, the outbound queue and the time the pacing is
/// measured from. Neither changes an enable bit.
pub proof fn lemma_pumps_keep_to_themselves(
    s: SocketModel,
    arrived: ReadEvent,
    event: WriteEvent,
    now: u64,
)
    ensures
        s.read_all(arrived) == (SocketModel {
            shared: SharedState {
                flags: Lifecycle {
                    reading: s.read_all(arrived).shared.flags.reading,
                    ..s.shared.flags
                },
                received: s.read_all(arrived).shared.received,
                ..s.shared
            },
            inbound: s.read_all(arrived).inbound,
            ..s
        }),
        s.write_all(event, now) == (SocketModel {
            shared: SharedState {
                flags: Lifecycle {
                    writing: s.write_all(event, now).shared.flags.writing,
                    ..s.shared.flags
                },
                sent: s.write_all(event, now).shared.sent,
                ..s.shared
            },
            outbound: s.write_all(event, now).outbound,
            time: s.write_all(event, now).time,
            ..s
        }),
{
}

/// Shutting down neither sends nor delivers what is queued: a step of
/// shutting down changes nothing but the two enable bits.
pub proof fn lemma_shutdown_keeps_queues(s: SocketModel)
    ensures
        s.destroy() == (SocketModel {
            shared: SharedState {
                flags: Lifecycle { read: false, write: false, ..s.shared.flags },
                ..s.shared
            },
            ..s
        }),
{
}

/// Every step takes each direction to a state that may follow the one it was
/// in, and a new socket starts with both directions enabled.
pub proof fn lemma_directions_move_lawfully(s: SocketModel, op: Operation)
    ensures
        may_follow(s.shared.flags.reader(), apply(s, op).shared.flags.reader()),
        may_follow(s.shared.flags.writer(), apply(s, op).shared.flags.writer()),
        Lifecycle::initial().reader() == PumpState::Enabled,
        Lifecycle::initial().writer() == PumpState::Enabled,
{
}

/// No step enables a direction: an enable bit that is set after a course was
/// set before it. So a direction that was shut down stays shut down.
pub proof fn lemma_shutdown_is_final(s: SocketModel, ops: Seq<Operation>)
    ensures
        run(s, ops).shared.flags.read ==> s.shared.flags.read,
        run(s, ops).shared.flags.write ==> s.shared.flags.write,
    decreases ops.len(),
{
    if ops.len() > 0 {
        lemma_shutdown_is_final(s, ops.drop_last());
    }
}

/// A step of a pump whose direction is not enabled ends the pump, whatever
/// the driver reports. The step of a driver that was inside the loop leaves
/// the running bit clear; an entry leaves it as it was.
pub proof fn lemma_disabled_pump_ends(
    s: SocketModel,
    arrived: ReadEvent,
    event: WriteEvent,
    now: u64,
)
    ensures
        !s.shared.flags.read ==> s.read_all_action(arrived) is Finished,
        !s.shared.flags.read && !(arrived is Start) ==> !s.read_all(arrived).shared.flags.reading,
        !s.shared.flags.write ==> s.write_all_action(event, now) is Finished,
        !s.shared.flags.write && !(event is Start) ==> !s.write_all(
            event,
            now,
        ).shared.flags.writing,
{
}

/// A pump is entered by one driver at a time. An entry is let into the loop
/// exactly if the direction is enabled and no pump is inside the loop; it
/// then sets the running bit. An entry that is not let in changes nothing,
/// and it is refused with an error exactly if the direction is enabled and
/// another pump is inside the loop.
pub proof fn lemma_entry_is_exclusive(s: SocketModel, now: u64)
    ensures
        !(s.read_all_action(ReadEvent::Start) is Finished) <==> s.shared.flags.read
            && !s.shared.flags.reading,
        s.read_all_action(ReadEvent::Start) is Finished ==> s.read_all(ReadEvent::Start) == s,
        s.read_all_action(ReadEvent::Start) == ReadAction::Finished(
            Err(DanError::Io(IoFailure::Inaccessible)),
        ) <==> s.shared.flags.read && s.shared.flags.reading,
        !(s.write_all_action(WriteEvent::Start, now) is Finished) <==> s.shared.flags.write
            && !s.shared.flags.writing,
        s.write_all_action(WriteEvent::Start, now) is Finished ==> s.write_all(
            WriteEvent::Start,
            now,
        ) == s,
        s.write_all_action(WriteEvent::Start, now) == WriteOutcome::Finished(
            Err(DanError::Io(IoFailure::Inaccessible)),
        ) <==> s.shared.flags.write && s.shared.flags.writing,
{
}

/// A step that asks a driver to go on leaves the pump's running bit set, and
/// a step that tells a driver inside the loop to end leaves it clear.
pub proof fn lemma_running_bit_follows_pump(
    s: SocketModel,
    arrived: ReadEvent,
    event: WriteEvent,
    now: u64,
)
    ensures
        !(s.read_all_action(arrived) is Finished) ==> s.read_all(arrived).shared.flags.reading,
        !(arrived is Start) && s.read_all_action(arrived) is Finished ==> !s.read_all(
            arrived,
        ).shared.flags.reading,
        !(s.write_all_action(event, now) is Finished) ==> s.write_all(
            event,
            now,
        ).shared.flags.writing,
        !(event is Start) && s.write_all_action(event, now) is Finished ==> !s.write_all(
            event,
            now,
        ).shared.flags.writing,
{
}

/// One driver at a time is inside the loop of a pump, and the running bit
/// says whether one is. Through every orderly course on a socket that
/// started with no pump inside its loop, a driver is inside the loop of a
/// pump exactly if it is the one driver that the steps of the course left
/// there, and the running bit of the pump is set exactly if there is such a
/// driver.
pub proof fn lemma_one_driver_holds_a_pump(s: SocketModel, ops: Seq<Operation>, driver: nat)
    requires
        s.shared.flags.quiescent(),
        orderly(s, ops),
    ensures
        reader_inside(driver, s, ops) <==> reader_holder(s, ops) == Some(driver),
        writer_inside(driver, s, ops) <==> writer_holder(s, ops) == Some(driver),
        run(s, ops).shared.flags.reading <==> reader_holder(s, ops).is_some(),
        run(s, ops).shared.flags.writing <==> writer_holder(s, ops).is_some(),
    decreases ops.len(),
{
    if ops.len() > 0 {
        let earlier = ops.drop_last();
        lemma_one_driver_holds_a_pump(s, earlier, driver);
        match ops.last() {
            Operation::ReadAll(stepper, _) => {
                lemma_one_driver_holds_a_pump(s, earlier, stepper);
            },
            Operation::WriteAll(stepper, _, _) => {
                lemma_one_driver_holds_a_pump(s, earlier, stepper);
            },
            _ => {},
        }
    }
}

/// No two drivers are inside the loop of one pump at the same time.
pub proof fn lemma_pumps_are_exclusive(
    s: SocketModel,
    ops: Seq<Operation>,
    one: nat,
    other: nat,
)
    requires
        s.shared.flags.quiescent(),
        orderly(s, ops),
    ensures
        reader_inside(one, s, ops) && reader_inside(other, s, ops) ==> one == other,
        writer_inside(one, s, ops) && writer_inside(other, s, ops) ==> one == other,
{
    lemma_one_driver_holds_a_pump(s, ops, one);
    lemma_one_driver_holds_a_pump(s, ops, other);
}

/// A step of shutting down lets the socket be released only if no driver is
/// inside the loop of a pump.
pub proof fn lemma_release_finds_no_pump_inside(
    s: SocketModel,
    ops: Seq<Operation>,
    driver: nat,
)
    requires
        s.shared.flags.quiescent(),
        orderly(s, ops),
        run(s, ops).destroy_action() == DestroyAction::Release,
    ensures
        !reader_inside(driver, s, ops),
        !writer_inside(driver, s, ops),
{
    lemma_one_driver_holds_a_pump(s, ops, driver);
}

/// Once a direction is not enabled, its running bit is never set again: if it
/// is set after a course, it was set before the course and no driver inside
/// the loop has taken a step in the course.
pub proof fn lemma_shutdown_drains(s: SocketModel, ops: Seq<Operation>)
    ensures
        !s.shared.flags.read && run(s, ops).shared.flags.reading ==> s.shared.flags.reading
            && !continues_reader(ops),
        !s.shared.flags.write && run(s, ops).shared.flags.writing ==> s.shared.flags.writing
            && !continues_writer(ops),
    decreases ops.len(),
{
    if ops.len() > 0 {
        let earlier = ops.drop_last();
        lemma_shutdown_drains(s, earlier);
        lemma_shutdown_is_final(s, earlier);
        if !s.shared.flags.read && run(s, ops).shared.flags.reading {
            assert(!continues_reader(earlier));
            if continues_reader(ops) {
                let i = choose|i: int|
                    0 <= i < ops.len() && (#[trigger] ops[i] matches Operation::ReadAll(_, event)
                        && !(event is Start));
                assert(earlier[i] == ops[i]);
            }
        }
        if !s.shared.flags.write && run(s, ops).shared.flags.writing {
            assert(!continues_writer(earlier));
            if continues_writer(ops) {
                let i = choose|i: int|
                    0 <= i < ops.len() && (#[trigger] ops[i] matches Operation::WriteAll(
                        _,
                        event,
                        _,
                    ) && !(event is Start));
                assert(earlier[i] == ops[i]);
            }
        }
    }
}

/// Shutting down comes to an end: after a step of shutting down, any course
/// in which the driver inside the loop of each pump takes a step leaves no
/// pump inside its loop, so that the next step of shutting down lets the
/// socket be released.
pub proof fn lemma_shutdown_completes(s: SocketModel, ops: Seq<Operation>)
    requires
        s.shared.flags.reading ==> continues_reader(ops),
        s.shared.flags.writing ==> continues_writer(ops),
    ensures
        run(s.destroy(), ops).destroy_action() == DestroyAction::Release,
{
    lemma_shutdown_drains(s.destroy(), ops);
}

/// After a step of shutting down has let the socket be released, no pump
/// runs again: through every course both pumps stay outside their loops, and
/// every step of a pump ends the pump.
pub proof fn lemma_released_socket_is_still(
    s: SocketModel,
    ops: Seq<Operation>,
    arrived: ReadEvent,
    event: WriteEvent,
    now: u64,
)
    requires
        s.destroy_action() == DestroyAction::Release,
    ensures
        run(s.destroy(), ops).destroy_action() == DestroyAction::Release,
        run(s.destroy(), ops).read_all_action(arrived) is Finished,
        run(s.destroy(), ops).write_all_action(event, now) is Finished,
{
    lemma_shutdown_drains(s.destroy(), ops);
    lemma_shutdown_is_final(s.destroy(), ops);
}

/// A packet makes the round from one socket to another unchanged. Socket `a`
/// takes the packet from its caller with nothing queued before it, and a step
/// of its outbound pump goes on to look into the queue; then that step hands
/// out the very packet, addressed to `a`'s peer. When that datagram arrives
/// at socket `b`, which has `a` for its peer and the same packet size, room
/// in its inbound queue and nothing waiting in it, `b`'s inbound pump counts
/// it and the caller of `b` reads the very packet.
pub proof fn lemma_round_trip(
    a: SocketModel,
    b: SocketModel,
    packet: Seq<u8>,
    event: WriteEvent,
    now: u64,
    datagram: Datagram,
)
    requires
        a.outbound.is_empty(),
        a.write_accepted(packet),
        a.shared.polls(event),
        datagram.address == b.shared.address,
        datagram.packet@ == packet,
        b.wf(),
        b.shared.packet_size == a.outbound.packet_size,
        b.inbound.is_empty(),
        b.inbound.capacity > 0,
    ensures
        a.write(packet).write_all_action(event, now) matches WriteOutcome::Send {
            address,
            packet: sent,
            ..
        } && address == a.shared.address && sent == packet,
        !(b.read_all_action(ReadEvent::Received(datagram)) matches ReadAction::Finished(Err(_))),
        b.read_all(ReadEvent::Received(datagram)).shared.received == count_up(b.shared.received),
        b.read_all(ReadEvent::Received(datagram)).read_result() == Some(packet),
{
}

/// Sends are at least the least time apart. When a step of the outbound pump
/// at `now` asks for a send after a delay, on a clock that has not run
/// backwards, the send starts no sooner than that least time after a pump
/// last entered the loop or last attempted a send.
pub proof fn lemma_sends_are_spaced(s: SocketModel, event: WriteEvent, now: u64)
    requires
        s.time <= now,
    ensures
        s.write_all_action(event, now) matches WriteOutcome::Send { delay, .. } ==> now + delay
            >= s.write_all(event, now).time + s.shared.packet_time,
{
}

/// On a clock that never runs backwards the outbound pump measures its
/// pacing from a time that has passed: after every course the time it
/// measures from is no later than its last step, and no earlier than the time
/// it measured from at the start.
pub proof fn lemma_pacing_time_has_passed(s: SocketModel, ops: Seq<Operation>)
    requires
        clock_runs_forward(s.time, ops),
    ensures
        s.time <= run(s, ops).time <= latest(s.time, ops),
    decreases ops.len(),
{
    if ops.len() > 0 {
        lemma_pacing_time_has_passed(s, ops.drop_last());
    }
}

/// Sends are at least the least time apart through every course on a clock
/// that never runs backwards: whenever a step of the outbound pump asks for a
/// send, the send starts, after its delay, no sooner than that least time
/// after a pump last entered the loop or last attempted a send.
pub proof fn lemma_course_spaces_sends(
    s: SocketModel,
    ops: Seq<Operation>,
    driver: nat,
    event: WriteEvent,
    now: u64,
)
    requires
        clock_runs_forward(s.time, ops.push(Operation::WriteAll(driver, event, now))),
    ensures
        run(s, ops).write_all_action(event, now) matches WriteOutcome::Send { delay, .. } ==> now
            + delay >= run(s, ops.push(Operation::WriteAll(driver, event, now))).time
            + s.shared.packet_time,
{
    let all = ops.push(Operation::WriteAll(driver, event, now));
    assert(all.drop_last() =~= ops);
    lemma_pacing_time_has_passed(s, ops);
    lemma_course_keeps_socket(s, ops);
    lemma_sends_are_spaced(run(s, ops), event, now);
}

} // verus!
