use dan::address::{SocketAddress, SocketAddressV4};
use dan::error::{DanError, IoFailure};
use dan::event::{
    Datagram, DestroyAction, ReadAction, ReadEvent, SocketSetup, WriteAction, WriteEvent,
};
use dan::flags::PumpState;
use dan::net::{DanReader, DanSocket, DanWriter};
use dan::queue::OverflowPolicy;

fn peer() -> SocketAddress {
    SocketAddress::V4(SocketAddressV4 { ip: 0xc0a8_0002, port: 7000 })
}

fn stranger() -> SocketAddress {
    SocketAddress::V4(SocketAddressV4 { ip: 0xc0a8_0003, port: 7000 })
}

fn socket(read_size: usize, write_size: usize, packet_size: usize) -> DanSocket {
    DanSocket::create(
        None,
        peer(),
        None,
        read_size,
        write_size,
        packet_size,
        1000,
        OverflowPolicy::DropNewest,
        SocketSetup::Ready,
    )
    .unwrap()
}

fn packet(size: usize, fill: u8) -> Vec<u8> {
    vec![fill; size]
}

fn from_peer(packet: Vec<u8>) -> ReadEvent {
    ReadEvent::Received(Datagram { address: peer(), packet })
}

fn from_stranger(packet: Vec<u8>) -> ReadEvent {
    ReadEvent::Received(Datagram { address: stranger(), packet })
}

#[test]
fn new_socket_starts_enabled_and_empty() {
    let local = SocketAddress::V4(SocketAddressV4 { ip: 0x7f00_0001, port: 6000 });
    let mut socket = DanSocket::create(
        Some(local),
        peer(),
        Some(5_000_000),
        2,
        3,
        4,
        1000,
        OverflowPolicy::EvictOldest,
        SocketSetup::Ready,
    )
    .unwrap();
    assert_eq!(socket.received(), 0);
    assert_eq!(socket.sent(), 0);
    assert_eq!(socket.read(), None);
    let shared = socket.shared_socket();
    assert_eq!(shared.binding_address(), local);
    assert_eq!(shared.address(), peer());
    assert_eq!(shared.socket_timeout(), 5_000_000);
    assert_eq!(shared.packet_size(), 4);
    assert_eq!(shared.packet_time(), 1000);
    assert_eq!(shared.received(), 0);
    assert_eq!(shared.sent(), 0);
    assert_eq!(shared.flags().reader(), PumpState::Enabled);
    assert_eq!(shared.flags().writer(), PumpState::Enabled);
}

#[test]
fn new_socket_defaults() {
    let socket = socket(1, 1, 1);
    let shared = socket.shared_socket();
    assert_eq!(shared.binding_address(), SocketAddress::wildcard());
    assert_eq!(shared.socket_timeout(), 1_000_000_000);
}

#[test]
fn create_fails_when_the_bind_is_refused() {
    let made = DanSocket::create(
        None,
        peer(),
        None,
        1,
        1,
        1,
        0,
        OverflowPolicy::DropNewest,
        SocketSetup::BindRefused,
    );
    assert_eq!(made.err(), Some(DanError::Bind));
}

#[test]
fn create_fails_when_the_setup_fails() {
    let made = DanSocket::create(
        None,
        peer(),
        Some(0),
        1,
        1,
        1,
        0,
        OverflowPolicy::DropNewest,
        SocketSetup::Failed(IoFailure::Other),
    );
    assert_eq!(made.err(), Some(DanError::Io(IoFailure::Other)));
}

#[test]
fn socket_takes_packets_up_to_its_capacity() {
    for capacity in 0..5usize {
        for size in 0..4usize {
            let mut socket = socket(1, capacity, size);
            for i in 0..capacity {
                assert!(socket.write(packet(size, i as u8)), "offer {} of {}", i, capacity);
            }
            assert!(!socket.write(packet(size, 0xff)));
            assert!(!socket.write(packet(size, 0xfe)));
        }
    }
}

#[test]
fn socket_takes_packets_again_once_the_pump_drained_the_queue() {
    let mut socket = socket(1, 1, 2);
    assert!(socket.write(vec![1, 2]));
    assert!(!socket.write(vec![3, 4]));
    let action = socket.write_all(WriteEvent::Start, 0);
    assert_eq!(action, WriteAction::Send { address: peer(), packet: vec![1, 2], delay: 1000 });
    assert!(socket.write(vec![3, 4]));
    assert!(!socket.write(vec![5, 6]));
}

#[test]
fn packet_of_the_wrong_size_is_refused_whatever_the_queue_holds() {
    let mut socket = socket(1, 2, 3);
    assert!(!socket.write(vec![]));
    assert!(!socket.write(vec![1, 2]));
    assert!(!socket.write(vec![1, 2, 3, 4]));
    assert!(socket.write(vec![1, 2, 3]));
    assert!(!socket.write(vec![1, 2]));
    assert!(!socket.write(vec![1, 2, 3, 4]));
    assert!(socket.write(vec![4, 5, 6]));
    assert!(!socket.write(vec![1, 2]));
    assert!(!socket.write(vec![1, 2, 3, 4]));
    let first = socket.write_all(WriteEvent::Start, 0);
    assert_eq!(first, WriteAction::Send { address: peer(), packet: vec![1, 2, 3], delay: 1000 });
    let second = socket.write_all(WriteEvent::Sent, 10);
    assert_eq!(second, WriteAction::Send { address: peer(), packet: vec![4, 5, 6], delay: 1000 });
    assert_eq!(socket.write_all(WriteEvent::Sent, 20), WriteAction::Idle);
}

#[test]
fn writer_answers_queue_full() {
    let mut writer = DanWriter::new(1, 2);
    assert_eq!(writer.write(vec![1]), Err(DanError::QueueFull));
    assert_eq!(writer.len(), 0);
    assert_eq!(writer.write(vec![1, 2]), Ok(()));
    assert_eq!(writer.write(vec![3, 4]), Err(DanError::QueueFull));
    assert_eq!(writer.len(), 1);
}

#[test]
fn reader_is_empty_until_something_arrives() {
    let mut reader = DanReader::new(2, 2);
    assert_eq!(reader.len(), 0);
    assert_eq!(reader.read(), None);
}

#[test]
fn valid_datagram_is_queued_and_counted() {
    let mut socket = socket(2, 1, 3);
    assert_eq!(socket.read_all(ReadEvent::Start), ReadAction::Receive { size: 3 });
    assert_eq!(socket.received(), 0);
    assert_eq!(socket.read_all(from_peer(vec![7, 8, 9])), ReadAction::Receive { size: 3 });
    assert_eq!(socket.received(), 1);
    assert_eq!(socket.read(), Some(vec![7, 8, 9]));
    assert_eq!(socket.read(), None);
}

#[test]
fn failed_receive_changes_nothing() {
    let mut socket = socket(2, 1, 3);
    assert_eq!(socket.read_all(ReadEvent::Start), ReadAction::Receive { size: 3 });
    assert_eq!(socket.read_all(ReadEvent::ReceiveFailed), ReadAction::Receive { size: 3 });
    assert_eq!(socket.read_all(ReadEvent::ReceiveFailed), ReadAction::Receive { size: 3 });
    assert_eq!(socket.received(), 0);
    assert_eq!(socket.read(), None);
    assert_eq!(socket.shared_socket().flags().reader(), PumpState::Running);
}

#[test]
fn datagram_of_the_wrong_size_ends_the_pump() {
    let mut socket = socket(2, 1, 3);
    assert_eq!(socket.read_all(ReadEvent::Start), ReadAction::Receive { size: 3 });
    assert_eq!(socket.read_all(from_peer(vec![1, 2, 3])), ReadAction::Receive { size: 3 });
    assert_eq!(
        socket.read_all(from_peer(vec![1, 2])),
        ReadAction::Finished(Err(DanError::ProtocolMismatch {
            expected_size: 3,
            actual_size: 2,
            expected_addr: peer(),
            actual_addr: peer(),
        }))
    );
    assert_eq!(socket.received(), 1);
    assert_eq!(socket.shared_socket().flags().reader(), PumpState::Enabled);
    assert_eq!(socket.read(), Some(vec![1, 2, 3]));
    assert_eq!(socket.read(), None);
}

#[test]
fn datagram_from_a_stranger_ends_the_pump() {
    let mut socket = socket(2, 1, 3);
    assert_eq!(socket.read_all(ReadEvent::Start), ReadAction::Receive { size: 3 });
    assert_eq!(
        socket.read_all(from_stranger(vec![1, 2, 3])),
        ReadAction::Finished(Err(DanError::ProtocolMismatch {
            expected_size: 3,
            actual_size: 3,
            expected_addr: peer(),
            actual_addr: stranger(),
        }))
    );
    assert_eq!(socket.received(), 0);
    assert_eq!(socket.read(), None);
    assert_eq!(socket.shared_socket().flags().reader(), PumpState::Enabled);
}

#[test]
fn pump_may_be_entered_again_after_a_mismatch() {
    let mut socket = socket(2, 1, 1);
    assert_eq!(socket.read_all(ReadEvent::Start), ReadAction::Receive { size: 1 });
    assert_eq!(
        socket.read_all(from_stranger(vec![])),
        ReadAction::Finished(Err(DanError::ProtocolMismatch {
            expected_size: 1,
            actual_size: 0,
            expected_addr: peer(),
            actual_addr: stranger(),
        }))
    );
    assert_eq!(socket.read_all(ReadEvent::Start), ReadAction::Receive { size: 1 });
    assert_eq!(socket.read_all(from_peer(vec![5])), ReadAction::Receive { size: 1 });
    assert_eq!(socket.received(), 1);
    assert_eq!(socket.read(), Some(vec![5]));
}

#[test]
fn second_inbound_pump_is_refused_while_the_first_runs() {
    let mut socket = socket(2, 1, 1);
    assert_eq!(socket.read_all(ReadEvent::Start), ReadAction::Receive { size: 1 });
    let refused = ReadAction::Finished(Err(DanError::Io(IoFailure::Inaccessible)));
    assert_eq!(socket.read_all(ReadEvent::Start), refused);
    assert_eq!(socket.read_all(ReadEvent::Start), refused);
    assert_eq!(socket.shared_socket().flags().reader(), PumpState::Running);
    assert_eq!(socket.read_all(from_peer(vec![1])), ReadAction::Receive { size: 1 });
    assert_eq!(socket.read_all(ReadEvent::Start), refused);
    assert!(matches!(socket.read_all(from_peer(vec![])), ReadAction::Finished(Err(_))));
    assert_eq!(socket.read_all(ReadEvent::Start), ReadAction::Receive { size: 1 });
    assert_eq!(socket.received(), 1);
}

#[test]
fn second_outbound_pump_is_refused_while_the_first_runs() {
    let mut socket = socket(1, 2, 1);
    assert!(socket.write(vec![1]));
    assert!(socket.write(vec![2]));
    assert_eq!(
        socket.write_all(WriteEvent::Start, 100),
        WriteAction::Send { address: peer(), packet: vec![1], delay: 1000 }
    );
    let refused = WriteAction::Finished(Err(DanError::Io(IoFailure::Inaccessible)));
    assert_eq!(socket.write_all(WriteEvent::Start, 5_000), refused);
    assert_eq!(socket.shared_socket().flags().writer(), PumpState::Running);
    assert_eq!(
        socket.write_all(WriteEvent::Sent, 1_100),
        WriteAction::Send { address: peer(), packet: vec![2], delay: 1000 }
    );
    assert_eq!(socket.write_all(WriteEvent::Start, 5_000), refused);
    assert_eq!(socket.write_all(WriteEvent::Sent, 2_100), WriteAction::Idle);
    assert_eq!(socket.sent(), 2);
    let failed = WriteEvent::SendFailed(IoFailure::Other);
    assert_eq!(
        socket.write_all(failed, 2_200),
        WriteAction::Finished(Err(DanError::Io(IoFailure::Other)))
    );
    assert_eq!(socket.write_all(WriteEvent::Start, 5_000), WriteAction::Idle);
}

#[test]
fn each_pump_is_entered_on_its_own() {
    let mut socket = socket(1, 1, 1);
    assert_eq!(socket.read_all(ReadEvent::Start), ReadAction::Receive { size: 1 });
    assert_eq!(socket.write_all(WriteEvent::Start, 0), WriteAction::Idle);
    assert_eq!(socket.shared_socket().flags().reader(), PumpState::Running);
    assert_eq!(socket.shared_socket().flags().writer(), PumpState::Running);
}

#[test]
fn full_inbound_queue_drops_the_newest() {
    let mut socket = socket(2, 1, 1);
    assert_eq!(socket.read_all(ReadEvent::Start), ReadAction::Receive { size: 1 });
    for fill in 1..=4u8 {
        assert_eq!(socket.read_all(from_peer(vec![fill])), ReadAction::Receive { size: 1 });
    }
    assert_eq!(socket.received(), 4);
    assert_eq!(socket.read(), Some(vec![1]));
    assert_eq!(socket.read(), Some(vec![2]));
    assert_eq!(socket.read(), None);
}

#[test]
fn full_inbound_queue_evicts_the_oldest() {
    let mut socket = DanSocket::create(
        None,
        peer(),
        None,
        2,
        1,
        1,
        0,
        OverflowPolicy::EvictOldest,
        SocketSetup::Ready,
    )
    .unwrap();
    assert_eq!(socket.read_all(ReadEvent::Start), ReadAction::Receive { size: 1 });
    for fill in 1..=4u8 {
        assert_eq!(socket.read_all(from_peer(vec![fill])), ReadAction::Receive { size: 1 });
    }
    assert_eq!(socket.received(), 4);
    assert_eq!(socket.read(), Some(vec![3]));
    assert_eq!(socket.read(), Some(vec![4]));
    assert_eq!(socket.read(), None);
}

#[test]
fn counters_count_what_passed() {
    let mut socket = socket(1, 2, 2);
    assert_eq!(socket.read_all(ReadEvent::Start), ReadAction::Receive { size: 2 });
    assert!(socket.write(vec![1, 1]));
    assert!(socket.write(vec![2, 2]));
    assert!(!socket.write(vec![3, 3]));
    assert_eq!((socket.received(), socket.sent()), (0, 0));
    let mut valid = 0;
    for round in 0..6u8 {
        let _ = socket.read_all(from_peer(vec![round, round]));
        valid += 1;
        assert_eq!(socket.received(), valid);
        let _ = socket.read_all(ReadEvent::ReceiveFailed);
        assert_eq!(socket.received(), valid);
        if round % 2 == 0 {
            let _ = socket.read();
        }
    }
    let _ = socket.read_all(from_stranger(vec![0, 0]));
    assert_eq!(socket.received(), 6);
    assert_eq!(socket.sent(), 0);
    assert!(matches!(socket.write_all(WriteEvent::Start, 0), WriteAction::Send { .. }));
    assert_eq!(socket.sent(), 0);
    assert!(matches!(socket.write_all(WriteEvent::Sent, 1), WriteAction::Send { .. }));
    assert_eq!(socket.sent(), 1);
    assert_eq!(socket.write_all(WriteEvent::Sent, 2), WriteAction::Idle);
    assert_eq!(socket.sent(), 2);
    assert_eq!(socket.write_all(WriteEvent::Resume, 3), WriteAction::Idle);
    assert_eq!(socket.sent(), 2);
    assert_eq!(socket.destroy(), DestroyAction::Yield);
    assert_eq!((socket.received(), socket.sent()), (6, 2));
}
