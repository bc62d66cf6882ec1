//! What the Bluetooth host crates compute for this library.
//!
//! Each function below makes one call into an outside crate. What its contract
//! says of that call is taken from the crate's source and is not proved.

use crate::bytes::le_value;
use vstd::prelude::*;

verus! {

/// An identity address, with its raw type, and the key that resolves private
/// addresses of the same device.
#[derive(Clone, Copy, Debug, PartialEq, Eq)]
pub struct Identity {
    /// Raw address type: 0 public, 1 random.
    pub kind: u8,
    /// Address, least significant byte first.
    pub addr: [u8; 6],
    /// Identity resolving key; never zero.
    pub irk: Option<u128>,
}

impl Identity {
    /// The resolving key, where there is one, is not zero.
    pub open spec fn wf(self) -> bool {
        self.irk != Some(0u128)
    }

    /// Two identities name the same device: equal addresses of the same type,
    /// the resolved types counted as the types they stand for, and the same
    /// resolving key.
    pub open spec fn same(self, other: Identity) -> bool {
        &&& self.addr@ == other.addr@
        &&& self.kind % 2 == other.kind % 2
        &&& self.irk == other.irk
    }
}

/// Timing of a connection as it is requested from the host. Lengths are whole
/// milliseconds.
#[derive(Clone, Copy, Debug, PartialEq, Eq, Structural)]
pub struct ConnParams {
    pub min_interval_ms: u64,
    pub max_interval_ms: u64,
    pub max_latency: u16,
    pub min_event_ms: u64,
    pub max_event_ms: u64,
    pub supervision_timeout_ms: u64,
}

impl ConnParams {
    /// Every length is small enough for the clock of the host.
    pub open spec fn small(self) -> bool {
        &&& self.min_interval_ms <= u32::MAX
        &&& self.max_interval_ms <= u32::MAX
        &&& self.min_event_ms <= u32::MAX
        &&& self.max_event_ms <= u32::MAX
        &&& self.supervision_timeout_ms <= u32::MAX
    }

    /// The ranges that the host accepts: intervals of 7.5 ms to 4 s in order,
    /// a latency under 500 events, event lengths in order, and a supervision
    /// timeout of 100 ms to 32 s that outlasts twice the longest silence.
    pub open spec fn valid(self) -> bool {
        &&& self.min_interval_ms <= self.max_interval_ms
        &&& self.min_interval_ms * 1000 >= 7500
        &&& self.max_interval_ms <= 4000
        &&& self.max_latency < 500
        &&& self.min_event_ms <= self.max_event_ms
        &&& 100 <= self.supervision_timeout_ms <= 32000
        &&& self.supervision_timeout_ms > 2 * (self.max_latency + 1) * self.max_interval_ms
    }
}

/// `trouble_host::connection::RequestedConnParams::is_valid`: says whether the
/// parameters lie in the ranges of `ConnParams::valid`. The host keeps lengths
/// in clock ticks of one millisecond, so whole milliseconds are kept exactly.
#[verifier::external_body]
pub(crate) fn conn_params_valid(p: &ConnParams) -> (r: bool)
    requires
        p.small(),
    ensures
        r == p.valid(),
{
    trouble_host::connection::RequestedConnParams {
        min_connection_interval: embassy_time::Duration::from_millis(p.min_interval_ms),
        max_connection_interval: embassy_time::Duration::from_millis(p.max_interval_ms),
        max_latency: p.max_latency,
        min_event_length: embassy_time::Duration::from_millis(p.min_event_ms),
        max_event_length: embassy_time::Duration::from_millis(p.max_event_ms),
        supervision_timeout: embassy_time::Duration::from_millis(p.supervision_timeout_ms),
    }.is_valid()
}

/// The parameters that the host uses by default.
pub open spec fn default_conn_params() -> ConnParams {
    ConnParams {
        min_interval_ms: 80,
        max_interval_ms: 80,
        max_latency: 0,
        min_event_ms: 0,
        max_event_ms: 0,
        supervision_timeout_ms: 8000,
    }
}

/// `trouble_host::connection::RequestedConnParams::default`: an interval of
/// 80 ms, no latency, no event length, a supervision timeout of 8 s.
#[verifier::external_body]
pub(crate) fn conn_params_default() -> (r: ConnParams)
    ensures
        r == default_conn_params(),
{
    let p = trouble_host::connection::RequestedConnParams::default();
    ConnParams {
        min_interval_ms: p.min_connection_interval.as_millis(),
        max_interval_ms: p.max_connection_interval.as_millis(),
        max_latency: p.max_latency,
        min_event_ms: p.min_event_length.as_millis(),
        max_event_ms: p.max_event_length.as_millis(),
        supervision_timeout_ms: p.supervision_timeout.as_millis(),
    }
}

/// `trouble_host::LongTermKey::from_le_bytes`: the key is the number that the
/// bytes write, least significant byte first.
#[verifier::external_body]
pub(crate) fn ltk_from_le_bytes(raw: [u8; 16]) -> (r: u128)
    ensures
        r == le_value(raw@),
{
    trouble_host::LongTermKey::from_le_bytes(raw).0
}

/// `trouble_host::LongTermKey::to_le_bytes`: the bytes that write the key,
/// least significant byte first.
#[verifier::external_body]
pub(crate) fn ltk_to_le_bytes(key: u128) -> (r: [u8; 16])
    ensures
        le_value(r@) == key,
{
    trouble_host::LongTermKey::new(key).to_le_bytes()
}

/// `trouble_host::IdentityResolvingKey::from_le_bytes`: the number that the
/// bytes write, least significant byte first; none where it is zero.
#[verifier::external_body]
pub(crate) fn irk_from_le_bytes(raw: [u8; 16]) -> (r: Option<u128>)
    ensures
        r is None <==> le_value(raw@) == 0,
        r matches Some(key) ==> key == le_value(raw@),
{
    trouble_host::IdentityResolvingKey::from_le_bytes(raw).map(|key| key.0.get())
}

/// `trouble_host::IdentityResolvingKey::to_le_bytes`: the bytes that write the
/// key, least significant byte first.
#[verifier::external_body]
pub(crate) fn irk_to_le_bytes(key: u128) -> (r: [u8; 16])
    requires
        key != 0,
    ensures
        le_value(r@) == key,
{
    trouble_host::IdentityResolvingKey::new(key).unwrap().to_le_bytes()
}

/// `==` of `trouble_host::Identity`: addresses are equal when their bytes are
/// and the lowest bits of their types are; keys are compared as they are.
#[verifier::external_body]
pub(crate) fn same_identity(a: &Identity, b: &Identity) -> (r: bool)
    requires
        a.wf(),
        b.wf(),
    ensures
        r == a.same(*b),
{
    let whole = |id: &Identity| trouble_host::Identity {
        addr: trouble_host::Address::new(
            bt_hci::param::AddrKind::new(id.kind),
            bt_hci::param::BdAddr::new(id.addr),
        ),
        irk: id.irk.and_then(trouble_host::IdentityResolvingKey::new),
    };
    whole(a) == whole(b)
}

/// `bt_hci::param::AddrKind::PUBLIC`, as a raw address type.
#[verifier::external_body]
pub(crate) fn addr_kind_public() -> (r: u8)
    ensures
        r == 0,
{
    bt_hci::param::AddrKind::PUBLIC.as_raw()
}

/// `bt_hci::param::AddrKind::RANDOM`, as a raw address type.
#[verifier::external_body]
pub(crate) fn addr_kind_random() -> (r: u8)
    ensures
        r == 1,
{
    bt_hci::param::AddrKind::RANDOM.as_raw()
}

/// `trouble_host::advertise::LE_GENERAL_DISCOVERABLE`.
#[verifier::external_body]
pub(crate) fn le_general_discoverable() -> (r: u8)
    ensures
        r == 0x02,
{
    trouble_host::advertise::LE_GENERAL_DISCOVERABLE
}

/// `trouble_host::advertise::BR_EDR_NOT_SUPPORTED`.
#[verifier::external_body]
pub(crate) fn br_edr_not_supported() -> (r: u8)
    ensures
        r == 0x04,
{
    trouble_host::advertise::BR_EDR_NOT_SUPPORTED
}

/// `bt_hci::uuid::appearance::power_device::GENERIC_POWER_DEVICE`.
#[verifier::external_body]
pub(crate) fn generic_power_device() -> (r: u16)
    ensures
        r == 0x0780,
{
    u16::from(bt_hci::uuid::appearance::power_device::GENERIC_POWER_DEVICE)
}

/// `std::str::from_utf8`: succeeds on the byte strings that are UTF-8.
#[verifier::external_body]
pub(crate) fn is_utf8(bytes: &[u8]) -> (r: bool)
    ensures
        r == vstd::utf8::valid_utf8(bytes@),
{
    std::str::from_utf8(bytes).is_ok()
}

/// Most bonds that a session keeps a slot for.
pub const BOND_SLOT_CAP: usize = 4;

/// Identities of bonded peers with the storage slot of each: a
/// `heapless::Vec` of at most `BOND_SLOT_CAP` entries.
#[verifier::external_body]
pub struct BondSlots {
    inner: heapless::Vec<(Identity, u8), BOND_SLOT_CAP>,
}

/// The entries, in order.
pub uninterp spec fn bond_entries(slots: BondSlots) -> Seq<(Identity, u8)>;

/// `heapless::Vec::new`: no entries.
#[verifier::external_body]
pub(crate) fn bond_slots_new() -> (r: BondSlots)
    ensures
        bond_entries(r) == Seq::<(Identity, u8)>::empty(),
{
    BondSlots { inner: heapless::Vec::new() }
}

/// `heapless::Vec::len`: the number of entries, at most `BOND_SLOT_CAP`.
#[verifier::external_body]
pub(crate) fn bond_slots_len(slots: &BondSlots) -> (r: usize)
    ensures
        r == bond_entries(*slots).len(),
        r <= BOND_SLOT_CAP,
{
    slots.inner.len()
}

/// Indexing of `heapless::Vec`: the entry at `i`.
#[verifier::external_body]
pub(crate) fn bond_slots_get(slots: &BondSlots, i: usize) -> (r: (Identity, u8))
    requires
        i < bond_entries(*slots).len(),
    ensures
        r == bond_entries(*slots)[i as int],
{
    slots.inner[i]
}

/// `heapless::Vec::push`: appends an entry where there is room, and changes
/// nothing where there is none.
#[verifier::external_body]
pub(crate) fn bond_slots_push(slots: &mut BondSlots, entry: (Identity, u8)) -> (r: bool)
    ensures
        r == (bond_entries(*old(slots)).len() < BOND_SLOT_CAP),
        bond_entries(*final(slots)) == if r {
            bond_entries(*old(slots)).push(entry)
        } else {
            bond_entries(*old(slots))
        },
{
    slots.inner.push(entry).is_ok()
}

/// Assignment through the index of `heapless::Vec`: replaces the entry at `i`.
#[verifier::external_body]
pub(crate) fn bond_slots_set(slots: &mut BondSlots, i: usize, entry: (Identity, u8))
    requires
        i < bond_entries(*old(slots)).len(),
    ensures
        bond_entries(*final(slots)) == bond_entries(*old(slots)).update(i as int, entry),
{
    slots.inner[i] = entry;
}

/// `heapless::Vec::remove`: takes the entry at `i` out and moves the later
/// ones down.
#[verifier::external_body]
pub(crate) fn bond_slots_remove(slots: &mut BondSlots, i: usize)
    requires
        i < bond_entries(*old(slots)).len(),
    ensures
        bond_entries(*final(slots)) == bond_entries(*old(slots)).remove(i as int),
{
    slots.inner.remove(i);
}

/// Most characteristics that a GATT client keeps track of.
pub const CLIENT_CHAR_CAP: usize = 32;

/// Discovered characteristics, each with the handle of its value and of its
/// client configuration: a `heapless::Vec` of at most `CLIENT_CHAR_CAP`
/// entries.
#[verifier::external_body]
pub struct ClientCharStore {
    inner: heapless::Vec<(u16, Option<u16>), CLIENT_CHAR_CAP>,
}

/// The entries, in order.
pub uninterp spec fn client_chars(store: ClientCharStore) -> Seq<(u16, Option<u16>)>;

/// `heapless::Vec::new`: no entries.
#[verifier::external_body]
pub(crate) fn char_store_new() -> (r: ClientCharStore)
    ensures
        client_chars(r) == Seq::<(u16, Option<u16>)>::empty(),
{
    ClientCharStore { inner: heapless::Vec::new() }
}

/// `heapless::Vec::len`: the number of entries, at most `CLIENT_CHAR_CAP`.
#[verifier::external_body]
pub(crate) fn char_store_len(store: &ClientCharStore) -> (r: usize)
    ensures
        r == client_chars(*store).len(),
        r <= CLIENT_CHAR_CAP,
{
    store.inner.len()
}

/// Indexing of `heapless::Vec`: the entry at `i`.
#[verifier::external_body]
pub(crate) fn char_store_get(store: &ClientCharStore, i: usize) -> (r: (u16, Option<u16>))
    requires
        i < client_chars(*store).len(),
    ensures
        r == client_chars(*store)[i as int],
{
    store.inner[i]
}

/// `heapless::Vec::push`: appends an entry where there is room, and changes
/// nothing where there is none.
#[verifier::external_body]
pub(crate) fn char_store_push(store: &mut ClientCharStore, entry: (u16, Option<u16>)) -> (r: bool)
    ensures
        r == (client_chars(*old(store)).len() < CLIENT_CHAR_CAP),
        client_chars(*final(store)) == if r {
            client_chars(*old(store)).push(entry)
        } else {
            client_chars(*old(store))
        },
{
    store.inner.push(entry).is_ok()
}

} // verus!
