//! Device addresses and the address types of the application interface.

use crate::config::RuntimeCfg;
use crate::host::{addr_kind_public, addr_kind_random};
use vstd::prelude::*;

verus! {

/// Address type of the application interface: random.
pub const RTBLE_ADDR_RANDOM: u8 = 0;

/// Address type of the application interface: public.
pub const RTBLE_ADDR_PUBLIC: u8 = 1;

/// A device address with its raw type: 0 public, 1 random.
#[derive(Clone, Copy, Debug, PartialEq, Eq)]
pub struct Address {
    pub kind: u8,
    /// Least significant byte first.
    pub addr: [u8; 6],
}

/// The raw address type for a type of the application interface: public for
/// `RTBLE_ADDR_PUBLIC`, random for everything else.
pub open spec fn raw_kind(kind: u8) -> u8 {
    if kind == RTBLE_ADDR_PUBLIC {
        0
    } else {
        1
    }
}

/// The type of the application interface for a raw address type: public for
/// the public type, random for everything else.
pub open spec fn c_kind(raw: u8) -> u8 {
    if raw == 0 {
        RTBLE_ADDR_PUBLIC
    } else {
        RTBLE_ADDR_RANDOM
    }
}

/// The raw address type for a type of the application interface.
pub fn c_addr_kind(kind: u8) -> (r: u8)
    ensures
        r == raw_kind(kind),
{
    if kind == RTBLE_ADDR_PUBLIC {
        addr_kind_public()
    } else {
        addr_kind_random()
    }
}

/// The type of the application interface for a raw address type.
pub fn addr_kind_to_c(kind: u8) -> (r: u8)
    ensures
        r == c_kind(kind),
{
    if kind == addr_kind_public() {
        RTBLE_ADDR_PUBLIC
    } else {
        RTBLE_ADDR_RANDOM
    }
}

/// The address `addr` of a type of the application interface.
pub open spec fn peer(addr: [u8; 6], kind: u8) -> Address {
    Address { kind: raw_kind(kind), addr }
}

/// The address `addr` of a type of the application interface.
pub fn peer_address(addr: [u8; 6], kind: u8) -> (r: Address)
    ensures
        r == peer(addr, kind),
{
    Address { kind: c_addr_kind(kind), addr }
}

/// The address of a session: the configured one, or `factory`, the one of the
/// device, where none is configured. Either is a random address.
pub fn device_address(cfg: &RuntimeCfg, factory: [u8; 6]) -> (r: Address)
    ensures
        r == (Address {
            kind: 1,
            addr: match cfg.address {
                Some(a) => a,
                None => factory,
            },
        }),
{
    let addr: [u8; 6] = match cfg.address {
        Some(a) => a,
        None => factory,
    };
    Address { kind: addr_kind_random(), addr }
}

/// The address type that a scan report carries names the same raw type when it
/// is passed back to connect to the reported device.
pub proof fn law_reported_kind_reconnects(raw: u8)
    requires
        raw <= 1,
    ensures
        raw_kind(c_kind(raw)) == raw,
{
}

} // verus!
