use dan::address::{
    binding_target, resolve_addresses, SocketAddress, SocketAddressV4, SocketAddressV6,
};
use dan::error::DanError;

#[test]
fn binding_target_is_the_wildcard_when_none_is_given() {
    let wildcard = SocketAddress::V4(SocketAddressV4 { ip: 0, port: 0 });
    assert_eq!(SocketAddress::wildcard(), wildcard);
    assert_eq!(binding_target(None), wildcard);
    let local = SocketAddress::V4(SocketAddressV4 { ip: 0x7f00_0001, port: 4000 });
    assert_eq!(binding_target(Some(local)), local);
}

#[test]
fn addresses_are_equal_when_every_field_is() {
    let a = SocketAddress::V4(SocketAddressV4 { ip: 0x0a00_0001, port: 80 });
    let b = SocketAddress::V4(SocketAddressV4 { ip: 0x0a00_0001, port: 80 });
    let c = SocketAddress::V4(SocketAddressV4 { ip: 0x0a00_0001, port: 81 });
    let d = SocketAddress::V4(SocketAddressV4 { ip: 0x0a00_0002, port: 80 });
    let e = SocketAddress::V6(SocketAddressV6 { ip: 1, port: 80, flowinfo: 0, scope_id: 0 });
    let f = SocketAddress::V6(SocketAddressV6 { ip: 1, port: 80, flowinfo: 0, scope_id: 3 });
    assert_eq!(a, b);
    assert_ne!(a, c);
    assert_ne!(a, d);
    assert_ne!(a, e);
    assert_ne!(e, f);
}

#[test]
fn addresses_resolve_when_every_text_names_one() {
    let local = SocketAddress::V4(SocketAddressV4 { ip: 0x7f00_0001, port: 4000 });
    let remote = SocketAddress::V6(SocketAddressV6 { ip: 1, port: 4001, flowinfo: 0, scope_id: 0 });
    assert_eq!(resolve_addresses(None, Some(remote)), Ok((None, remote)));
    assert_eq!(resolve_addresses(Some(Some(local)), Some(remote)), Ok((Some(local), remote)));
}

#[test]
fn malformed_address_fails_the_construction() {
    let local = SocketAddress::V4(SocketAddressV4 { ip: 0x7f00_0001, port: 4000 });
    assert_eq!(resolve_addresses(None, None), Err(DanError::AddressParse));
    assert_eq!(resolve_addresses(Some(Some(local)), None), Err(DanError::AddressParse));
    assert_eq!(resolve_addresses(Some(None), Some(local)), Err(DanError::AddressParse));
    assert_eq!(resolve_addresses(Some(None), None), Err(DanError::AddressParse));
}
