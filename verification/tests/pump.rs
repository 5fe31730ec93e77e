use dan::address::{SocketAddress, SocketAddressV4};
use dan::error::{DanError, IoFailure};
use dan::event::{Datagram, ReadAction, ReadEvent, WriteAction, WriteEvent};
use dan::flags::PumpState;
use dan::net::{DanReadSocket, DanReader, DanSharedSocket, DanWriteSocket, DanWriter};
use dan::queue::OverflowPolicy;

fn peer() -> SocketAddress {
    SocketAddress::V4(SocketAddressV4 { ip: 0x0a00_0001, port: 5000 })
}

fn shared(packet_size: usize, packet_time: u64) -> DanSharedSocket {
    DanSharedSocket::new(None, peer(), None, packet_size, packet_time)
}

#[test]
fn pumps_remember_what_they_were_made_with() {
    let dropping = DanReadSocket::new(OverflowPolicy::DropNewest);
    let evicting = DanReadSocket::new(OverflowPolicy::EvictOldest);
    assert_eq!(dropping.policy(), OverflowPolicy::DropNewest);
    assert_eq!(evicting.policy(), OverflowPolicy::EvictOldest);
    assert_eq!(DanWriteSocket::new().time(), 0);
}

#[test]
fn shared_socket_validates_size_and_origin() {
    let shared = shared(2, 0);
    let other = SocketAddress::V4(SocketAddressV4 { ip: 0x0a00_0001, port: 5001 });
    assert!(shared.is_valid(&Datagram { address: peer(), packet: vec![1, 2] }));
    assert!(!shared.is_valid(&Datagram { address: peer(), packet: vec![1] }));
    assert!(!shared.is_valid(&Datagram { address: peer(), packet: vec![1, 2, 3] }));
    assert!(!shared.is_valid(&Datagram { address: other, packet: vec![1, 2] }));
    assert!(!shared.is_valid(&Datagram { address: other, packet: vec![] }));
}

#[test]
fn inbound_pump_steps() {
    let mut shared = shared(2, 0);
    let mut reader = DanReader::new(1, 2);
    let pump = DanReadSocket::new(OverflowPolicy::DropNewest);
    let entry = pump.read(&mut shared, &mut reader, ReadEvent::Start);
    assert_eq!(entry, ReadAction::Receive { size: 2 });
    assert_eq!(shared.flags().reader(), PumpState::Running);
    let first = ReadEvent::Received(Datagram { address: peer(), packet: vec![1, 2] });
    assert_eq!(pump.read(&mut shared, &mut reader, first), ReadAction::Receive { size: 2 });
    assert_eq!(shared.received(), 1);
    assert_eq!(reader.len(), 1);
    let second = ReadEvent::Received(Datagram { address: peer(), packet: vec![3, 4] });
    assert_eq!(pump.read(&mut shared, &mut reader, second), ReadAction::Receive { size: 2 });
    assert_eq!(shared.received(), 2);
    assert_eq!(reader.len(), 1);
    let nothing = pump.read(&mut shared, &mut reader, ReadEvent::ReceiveFailed);
    assert_eq!(nothing, ReadAction::Receive { size: 2 });
    assert_eq!(shared.received(), 2);
    assert_eq!(reader.read(), Some(vec![1, 2]));
    assert_eq!(shared.sent(), 0);
    assert_eq!(shared.flags().writer(), PumpState::Enabled);
}

#[test]
fn inbound_pump_is_entered_by_one_driver_at_a_time() {
    let mut shared = shared(2, 0);
    let mut reader = DanReader::new(1, 2);
    let first = DanReadSocket::new(OverflowPolicy::DropNewest);
    let second = DanReadSocket::new(OverflowPolicy::DropNewest);
    let entry = first.read(&mut shared, &mut reader, ReadEvent::Start);
    assert_eq!(entry, ReadAction::Receive { size: 2 });
    let entry = second.read(&mut shared, &mut reader, ReadEvent::Start);
    assert_eq!(entry, ReadAction::Finished(Err(DanError::Io(IoFailure::Inaccessible))));
    assert_eq!(shared.flags().reader(), PumpState::Running);
    assert_eq!(shared.received(), 0);
    assert_eq!(reader.len(), 0);
}

#[test]
fn outbound_pump_paces_its_sends() {
    let mut shared = shared(1, 1000);
    let mut writer = DanWriter::new(4, 1);
    let mut pump = DanWriteSocket::new();
    for fill in 1..=4u8 {
        assert_eq!(writer.write(vec![fill]), Ok(()));
    }
    let action = pump.write(&mut shared, &mut writer, WriteEvent::Start, 50_000);
    assert_eq!(action, WriteAction::Send { address: peer(), packet: vec![1], delay: 1000 });
    assert_eq!(pump.time(), 50_000);
    assert_eq!(shared.flags().writer(), PumpState::Running);
    let action = pump.write(&mut shared, &mut writer, WriteEvent::Sent, 51_020);
    assert_eq!(action, WriteAction::Send { address: peer(), packet: vec![2], delay: 1000 });
    assert_eq!(pump.time(), 51_020);
    assert_eq!(shared.sent(), 1);
    let action = pump.write(&mut shared, &mut writer, WriteEvent::Sent, 52_030);
    assert_eq!(action, WriteAction::Send { address: peer(), packet: vec![3], delay: 1000 });
    assert_eq!(shared.sent(), 2);
    let action = pump.write(&mut shared, &mut writer, WriteEvent::Sent, 53_040);
    assert_eq!(action, WriteAction::Send { address: peer(), packet: vec![4], delay: 1000 });
    let action = pump.write(&mut shared, &mut writer, WriteEvent::Sent, 54_050);
    assert_eq!(action, WriteAction::Idle);
    assert_eq!(shared.sent(), 4);
    assert_eq!(pump.time(), 54_050);
}

#[test]
fn outbound_pump_sends_at_once_after_an_idle_period() {
    let mut shared = shared(1, 1000);
    let mut writer = DanWriter::new(4, 1);
    let mut pump = DanWriteSocket::new();
    assert_eq!(pump.write(&mut shared, &mut writer, WriteEvent::Start, 100), WriteAction::Idle);
    assert_eq!(pump.write(&mut shared, &mut writer, WriteEvent::Resume, 300), WriteAction::Idle);
    assert_eq!(pump.time(), 100);
    assert_eq!(writer.write(vec![1]), Ok(()));
    assert_eq!(writer.write(vec![2]), Ok(()));
    assert_eq!(writer.write(vec![3]), Ok(()));
    let action = pump.write(&mut shared, &mut writer, WriteEvent::Resume, 700);
    assert_eq!(action, WriteAction::Send { address: peer(), packet: vec![1], delay: 400 });
    let action = pump.write(&mut shared, &mut writer, WriteEvent::Sent, 1100);
    assert_eq!(action, WriteAction::Send { address: peer(), packet: vec![2], delay: 1000 });
    assert_eq!(pump.write(&mut shared, &mut writer, WriteEvent::Sent, 2100), WriteAction::Send {
        address: peer(),
        packet: vec![3],
        delay: 1000
    });
    assert_eq!(pump.write(&mut shared, &mut writer, WriteEvent::Sent, 3100), WriteAction::Idle);
    assert_eq!(writer.write(vec![4]), Ok(()));
    let action = pump.write(&mut shared, &mut writer, WriteEvent::Resume, 9000);
    assert_eq!(action, WriteAction::Send { address: peer(), packet: vec![4], delay: 0 });
    assert_eq!(pump.time(), 3100);
}

#[test]
fn failed_send_ends_the_outbound_pump() {
    let mut shared = shared(1, 10);
    let mut writer = DanWriter::new(2, 1);
    let mut pump = DanWriteSocket::new();
    assert_eq!(writer.write(vec![1]), Ok(()));
    assert_eq!(writer.write(vec![2]), Ok(()));
    let action = pump.write(&mut shared, &mut writer, WriteEvent::Start, 0);
    assert_eq!(action, WriteAction::Send { address: peer(), packet: vec![1], delay: 10 });
    let action = pump.write(&mut shared, &mut writer, WriteEvent::SendFailed(IoFailure::Other), 20);
    assert_eq!(action, WriteAction::Finished(Err(DanError::Io(IoFailure::Other))));
    assert_eq!(shared.sent(), 0);
    assert_eq!(shared.flags().writer(), PumpState::Enabled);
    assert_eq!(writer.len(), 1);
    let action = pump.write(&mut shared, &mut writer, WriteEvent::Start, 30);
    assert_eq!(action, WriteAction::Send { address: peer(), packet: vec![2], delay: 10 });
    let action =
        pump.write(&mut shared, &mut writer, WriteEvent::SendFailed(IoFailure::TimedOut), 45);
    assert_eq!(action, WriteAction::Finished(Err(DanError::Io(IoFailure::TimedOut))));
    assert!(DanError::Io(IoFailure::TimedOut).is_timeout());
    assert!(!DanError::Io(IoFailure::Other).is_timeout());
    assert!(!DanError::QueueFull.is_timeout());
}
