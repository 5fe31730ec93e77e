//! Socket addresses as plain values.

use vstd::prelude::*;
use crate::error::DanError;

verus! {

/// An IPv4 socket address. `ip` holds the four octets of the address in
/// network order, the first octet in the most significant byte.
#[derive(Clone, Copy, Debug, PartialEq, Eq, Structural)]
pub struct SocketAddressV4 {
    pub ip: u32,
    pub port: u16,
}

/// An IPv6 socket address. `ip` holds the sixteen octets of the address in
/// network order, the first octet in the most significant byte.
#[derive(Clone, Copy, Debug, PartialEq, Eq, Structural)]
pub struct SocketAddressV6 {
    pub ip: u128,
    pub port: u16,
    pub flowinfo: u32,
    pub scope_id: u32,
}

/// The address of a datagram endpoint.
///
/// Two addresses are equal when they are of the same family and every field
/// is equal.
#[derive(Clone, Copy, Debug, PartialEq, Eq, Structural)]
pub enum SocketAddress {
    V4(SocketAddressV4),
    V6(SocketAddressV6),
}

impl SocketAddress {
    /// The IPv4 address `0.0.0.0:0`.
    pub open spec fn wildcard_spec() -> SocketAddress {
        SocketAddress::V4(SocketAddressV4 { ip: 0, port: 0 })
    }

    /// The address that lets the operating system choose the interface and
    /// an ephemeral port.
    pub fn wildcard() -> (address: SocketAddress)
        ensures
            address == Self::wildcard_spec(),
    {
        SocketAddress::V4(SocketAddressV4 { ip: 0, port: 0 })
    }
}

/// The local address a socket is bound to: the one asked for, or the
/// wildcard address when none was given.
pub open spec fn binding_target_spec(binding_address: Option<SocketAddress>) -> SocketAddress {
    match binding_address {
        Some(address) => address,
        None => SocketAddress::wildcard_spec(),
    }
}

/// Chooses the local address to bind a socket to.
pub fn binding_target(binding_address: Option<SocketAddress>) -> (target: SocketAddress)
    ensures
        target == binding_target_spec(binding_address),
{
    match binding_address {
        Some(address) => address,
        None => SocketAddress::wildcard(),
    }
}

/// The two addresses that a socket is made with, as their texts were read:
/// each is the address that its text names, or nothing if the text names
/// none. The binding address is optional and may have no text at all.
pub open spec fn resolve_addresses_spec(
    binding_address: Option<Option<SocketAddress>>,
    connection_address: Option<SocketAddress>,
) -> Result<(Option<SocketAddress>, SocketAddress), DanError> {
    match (binding_address, connection_address) {
        (None, Some(connection)) => Ok((None, connection)),
        (Some(Some(binding)), Some(connection)) => Ok((Some(binding), connection)),
        _ => Err(DanError::AddressParse),
    }
}

/// Takes the addresses of a socket from what the reading of their texts
/// gave. A socket cannot be made if the text of its remote peer names no
/// address, or if a binding address was given and its text names none.
pub fn resolve_addresses(
    binding_address: Option<Option<SocketAddress>>,
    connection_address: Option<SocketAddress>,
) -> (result: Result<(Option<SocketAddress>, SocketAddress), DanError>)
    ensures
        result == resolve_addresses_spec(binding_address, connection_address),
{
    let connection = match connection_address {
        Some(connection) => connection,
        None => {
            return Err(DanError::AddressParse);
        },
    };
    match binding_address {
        None => Ok((None, connection)),
        Some(Some(binding)) => Ok((Some(binding), connection)),
        Some(None) => Err(DanError::AddressParse),
    }
}

} // verus!
