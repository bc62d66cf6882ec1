//! Bonds: security levels, the blob that the application stores, the storage
//! slots, and the requests on them.

use crate::address::{addr_kind_to_c, c_kind};
use crate::bytes::{append, le_bytes, le_value, lemma_le_bytes_of_value, lemma_le_bytes_zero};
use crate::config::{RuntimeBleCallbacks, RuntimeCfg};
use crate::emit::{call_when, called_if, calls, no_calls, only_when, Calls, Emit};
use crate::host::{
    bond_entries, bond_slots_get, bond_slots_len, bond_slots_new, bond_slots_push,
    bond_slots_remove, bond_slots_set, irk_from_le_bytes, irk_to_le_bytes, ltk_from_le_bytes,
    ltk_to_le_bytes, same_identity, BondSlots, Identity, BOND_SLOT_CAP,
};
use crate::runtime::{BondCmd, BondSlot, Model, Runtime, State};
use vstd::prelude::*;

verus! {

/// Length of a bond blob.
pub const BOND_BLOB_LEN: usize = 43;

/// First byte of a bond blob.
pub const BOND_BLOB_VERSION: u8 = 1;

/// Security of a link or of a key.
#[derive(Clone, Copy, Debug, PartialEq, Eq, Structural)]
pub enum SecurityLevel {
    NoEncryption,
    Encrypted,
    EncryptedAuthenticated,
}

/// The number of a level in the application interface.
pub open spec fn level_code(level: SecurityLevel) -> u8 {
    match level {
        SecurityLevel::NoEncryption => 0,
        SecurityLevel::Encrypted => 1,
        SecurityLevel::EncryptedAuthenticated => 2,
    }
}

/// The level that a number of the application interface names.
pub open spec fn coded_level(code: u8) -> Option<SecurityLevel> {
    if code == 0 {
        Some(SecurityLevel::NoEncryption)
    } else if code == 1 {
        Some(SecurityLevel::Encrypted)
    } else if code == 2 {
        Some(SecurityLevel::EncryptedAuthenticated)
    } else {
        None
    }
}

/// The number of a level in the application interface.
pub fn security_level_to_c(level: SecurityLevel) -> (r: u8)
    ensures
        r == level_code(level),
{
    match level {
        SecurityLevel::EncryptedAuthenticated => 2,
        SecurityLevel::Encrypted => 1,
        SecurityLevel::NoEncryption => 0,
    }
}

/// The level that a number of the application interface names.
pub fn c_to_security_level(level: u8) -> (r: Option<SecurityLevel>)
    ensures
        r == coded_level(level),
{
    match level {
        0 => Some(SecurityLevel::NoEncryption),
        1 => Some(SecurityLevel::Encrypted),
        2 => Some(SecurityLevel::EncryptedAuthenticated),
        _ => None,
    }
}

/// A level is named by its own number, and by no other.
pub proof fn law_level_round_trip(level: SecurityLevel, code: u8)
    ensures
        coded_level(level_code(level)) == Some(level),
        coded_level(code) matches Some(l) ==> level_code(l) == code,
{
}

/// Keys that were exchanged with a peer.
#[derive(Clone, Copy, Debug, PartialEq, Eq)]
pub struct Bond {
    pub identity: Identity,
    /// Long term key.
    pub ltk: u128,
    pub level: SecurityLevel,
    pub is_bonded: bool,
}

impl Bond {
    /// The resolving key, where there is one, is not zero.
    pub open spec fn wf(self) -> bool {
        self.identity.wf()
    }
}

/// Number of storage slots that a configuration asks for: at most
/// `BOND_SLOT_CAP`, which zero stands for too.
pub open spec fn slot_count(configured: u8) -> u8 {
    if configured == 0 || configured > BOND_SLOT_CAP {
        BOND_SLOT_CAP as u8
    } else {
        configured
    }
}

/// Number of storage slots of a session.
pub fn bond_slot_count(cfg: &RuntimeCfg) -> (r: u8)
    ensures
        r == slot_count(cfg.bond_slot_count),
        1 <= r <= BOND_SLOT_CAP,
{
    if cfg.bond_slot_count == 0 || cfg.bond_slot_count as usize > BOND_SLOT_CAP {
        BOND_SLOT_CAP as u8
    } else {
        cfg.bond_slot_count
    }
}

/// The flags of a bond: 1 for bonded, 2 for a resolving key.
pub open spec fn blob_flags(bond: Bond) -> u8 {
    if bond.is_bonded {
        if bond.identity.irk is Some {
            3
        } else {
            1
        }
    } else {
        if bond.identity.irk is Some {
            2
        } else {
            0
        }
    }
}

/// The blob of a bond: version, flags, level, address type, address, long term
/// key, resolving key or zeros, and a zero.
pub open spec fn blob_of(bond: Bond) -> Seq<u8> {
    seq![
        BOND_BLOB_VERSION,
        blob_flags(bond),
        level_code(bond.level),
        bond.identity.kind,
    ] + bond.identity.addr@ + le_bytes(bond.ltk as int, 16) + le_bytes(
        match bond.identity.irk {
            Some(irk) => irk as int,
            None => 0,
        },
        16,
    ) + seq![0u8]
}

/// The blob holds a bond: it is long enough, of the known version, and its
/// level is known. The last byte may be missing.
pub open spec fn readable(blob: Seq<u8>) -> bool {
    &&& blob.len() >= 42
    &&& blob[0] == BOND_BLOB_VERSION
    &&& coded_level(blob[2]) is Some
}

/// The blob holds this bond.
pub open spec fn read_as(blob: Seq<u8>, bond: Bond) -> bool {
    &&& coded_level(blob[2]) == Some(bond.level)
    &&& bond.is_bonded == (blob[1] & 0x01 != 0)
    &&& bond.identity.kind == blob[3]
    &&& bond.identity.addr@ == blob.subrange(4, 10)
    &&& bond.ltk == le_value(blob.subrange(10, 26))
    &&& bond.identity.irk is Some <==> blob[1] & 0x02 != 0 && le_value(blob.subrange(26, 42)) != 0
    &&& bond.identity.irk matches Some(irk) ==> irk == le_value(blob.subrange(26, 42))
}

/// The blob of a bond.
pub fn serialize_bond(bond: &Bond) -> (r: Vec<u8>)
    requires
        bond.wf(),
    ensures
        r@ == blob_of(*bond),
        r@.len() == BOND_BLOB_LEN,
{
    let mut out: Vec<u8> = Vec::new();
    let bonded: u8 = if bond.is_bonded {
        1
    } else {
        0
    };
    let resolvable: u8 = if bond.identity.irk.is_some() {
        2
    } else {
        0
    };
    out.push(BOND_BLOB_VERSION);
    out.push(bonded + resolvable);
    out.push(security_level_to_c(bond.level));
    out.push(bond.identity.kind);
    assert(out@ =~= seq![
        BOND_BLOB_VERSION,
        blob_flags(*bond),
        level_code(bond.level),
        bond.identity.kind,
    ]);
    append(&mut out, bond.identity.addr.as_slice());
    let ltk: [u8; 16] = ltk_to_le_bytes(bond.ltk);
    proof {
        lemma_le_bytes_of_value(ltk@);
    }
    append(&mut out, ltk.as_slice());
    let irk: [u8; 16] = match bond.identity.irk {
        Some(key) => irk_to_le_bytes(key),
        None => [0, 0, 0, 0, 0, 0, 0, 0, 0, 0, 0, 0, 0, 0, 0, 0],
    };
    proof {
        if bond.identity.irk is Some {
            lemma_le_bytes_of_value(irk@);
        } else {
            lemma_le_bytes_zero(16);
            assert(irk@ =~= Seq::new(16, |i: int| 0u8));
        }
    }
    append(&mut out, irk.as_slice());
    out.push(0);
    assert(out@ =~= blob_of(*bond));
    out
}

/// Six bytes of `blob` from `at` on.
fn six_bytes(blob: &[u8], at: usize) -> (r: [u8; 6])
    requires
        at + 6 <= blob@.len(),
    ensures
        r@ == blob@.subrange(at as int, at + 6),
{
    let r: [u8; 6] = [
        blob[at],
        blob[at + 1],
        blob[at + 2],
        blob[at + 3],
        blob[at + 4],
        blob[at + 5],
    ];
    assert(r@ =~= blob@.subrange(at as int, at + 6));
    r
}

/// Sixteen bytes of `blob` from `at` on.
fn sixteen_bytes(blob: &[u8], at: usize) -> (r: [u8; 16])
    requires
        at + 16 <= blob@.len(),
    ensures
        r@ == blob@.subrange(at as int, at + 16),
{
    let r: [u8; 16] = [
        blob[at],
        blob[at + 1],
        blob[at + 2],
        blob[at + 3],
        blob[at + 4],
        blob[at + 5],
        blob[at + 6],
        blob[at + 7],
        blob[at + 8],
        blob[at + 9],
        blob[at + 10],
        blob[at + 11],
        blob[at + 12],
        blob[at + 13],
        blob[at + 14],
        blob[at + 15],
    ];
    assert(r@ =~= blob@.subrange(at as int, at + 16));
    r
}

/// The bond that a blob holds.
pub fn deserialize_bond(blob: &[u8]) -> (r: Option<Bond>)
    ensures
        r is Some <==> readable(blob@),
        r matches Some(bond) ==> read_as(blob@, bond) && bond.wf(),
{
    if blob.len() < 42 || blob[0] != BOND_BLOB_VERSION {
        return None;
    }
    let level: SecurityLevel = match c_to_security_level(blob[2]) {
        Some(level) => level,
        None => return None,
    };
    let addr: [u8; 6] = six_bytes(blob, 4);
    let ltk: u128 = ltk_from_le_bytes(sixteen_bytes(blob, 10));
    let irk: Option<u128> = if blob[1] & 0x02 != 0 {
        irk_from_le_bytes(sixteen_bytes(blob, 26))
    } else {
        None
    };
    Some(
        Bond {
            identity: Identity { kind: blob[3], addr, irk },
            ltk,
            level,
            is_bonded: blob[1] & 0x01 != 0,
        },
    )
}

/// A bond comes back out of its blob as it went in.
pub proof fn law_bond_survives_storage(bond: Bond, back: Bond)
    requires
        bond.wf(),
        read_as(blob_of(bond), back),
    ensures
        readable(blob_of(bond)),
        blob_of(bond).len() == BOND_BLOB_LEN,
        back == bond,
{
    let blob = blob_of(bond);
    let ltk = le_bytes(bond.ltk as int, 16);
    let irk = le_bytes(
        match bond.identity.irk {
            Some(irk) => irk as int,
            None => 0,
        },
        16,
    );
    lemma_le_bytes_len(bond.ltk as int, 16);
    lemma_le_bytes_len(
        match bond.identity.irk {
            Some(irk) => irk as int,
            None => 0,
        },
        16,
    );
    assert(blob[0] == BOND_BLOB_VERSION);
    assert(blob[1] == blob_flags(bond));
    assert(blob[2] == level_code(bond.level));
    assert(blob[3] == bond.identity.kind);
    assert(blob.subrange(4, 10) =~= bond.identity.addr@);
    assert(blob.subrange(10, 26) =~= ltk);
    assert(blob.subrange(26, 42) =~= irk);
    lemma_value_of_le_bytes(bond.ltk as int, 16);
    if let Some(key) = bond.identity.irk {
        lemma_value_of_le_bytes(key as int, 16);
    }
    lemma_value_of_le_bytes(0, 16);
    assert(3u8 & 0x01 != 0 && 3u8 & 0x02 != 0 && 2u8 & 0x01 == 0 && 2u8 & 0x02 != 0 && 1u8 & 0x01
        != 0 && 1u8 & 0x02 == 0 && 0u8 & 0x01 == 0 && 0u8 & 0x02 == 0) by (bit_vector);
    assert(back.identity.addr =~= bond.identity.addr);
    assert(back.identity.irk == bond.identity.irk);
}

proof fn lemma_le_bytes_len(v: int, n: nat)
    ensures
        le_bytes(v, n).len() == n,
    decreases n,
{
    if n > 0 {
        lemma_le_bytes_len(v / 256, (n - 1) as nat);
    }
}

/// 256 to the power of `n`.
spec fn room(n: nat) -> int
    decreases n,
{
    if n == 0 {
        1
    } else {
        256 * room((n - 1) as nat)
    }
}

proof fn lemma_value_in_room(v: int, n: nat)
    requires
        0 <= v < room(n),
    ensures
        le_value(le_bytes(v, n)) == v,
    decreases n,
{
    if n > 0 {
        lemma_value_in_room(v / 256, (n - 1) as nat);
        let b = le_bytes(v, n);
        assert(b.drop_first() =~= le_bytes(v / 256, (n - 1) as nat));
    }
}

/// A number below two to the power of 128 survives sixteen bytes.
proof fn lemma_value_of_le_bytes(v: int, n: nat)
    requires
        n == 16,
        0 <= v <= u128::MAX,
    ensures
        le_value(le_bytes(v, n)) == v,
{
    reveal_with_fuel(room, 17);
    assert(room(16) == 0x1_0000_0000_0000_0000_0000_0000_0000_0000int);
    lemma_value_in_room(v, n);
}

/// Every identity in the slots is well formed.
pub open spec fn slots_wf(slots: BondSlots) -> bool {
    forall|i: int|
        0 <= i < bond_entries(slots).len() ==> (#[trigger] bond_entries(slots)[i]).0.wf()
}

/// No slots are in use.
pub fn empty_bond_slots() -> (r: BondSlots)
    ensures
        bond_entries(r) == Seq::<(Identity, u8)>::empty(),
        slots_wf(r),
{
    bond_slots_new()
}

/// The first entry, from `i` on, of the device that `identity` names.
pub open spec fn entry_from(
    entries: Seq<(Identity, u8)>,
    identity: Identity,
    i: int,
) -> Option<int>
    decreases entries.len() - i,
{
    if i < 0 || i >= entries.len() {
        None
    } else if entries[i].0.same(identity) {
        Some(i)
    } else {
        entry_from(entries, identity, i + 1)
    }
}

/// The first entry, from `i` on, with the slot `index`.
pub open spec fn slot_from(entries: Seq<(Identity, u8)>, index: u8, i: int) -> Option<int>
    decreases entries.len() - i,
{
    if i < 0 || i >= entries.len() {
        None
    } else if entries[i].1 == index {
        Some(i)
    } else {
        slot_from(entries, index, i + 1)
    }
}

/// The first entry with the slot `index`.
fn find_slot(slots: &BondSlots, index: u8) -> (r: Option<usize>)
    ensures
        r is Some <==> slot_from(bond_entries(*slots), index, 0) is Some,
        r matches Some(i) ==> slot_from(bond_entries(*slots), index, 0) == Some(i as int) && i
            < bond_entries(*slots).len(),
{
    let n: usize = bond_slots_len(slots);
    let mut i: usize = 0;
    while i < n
        invariant
            n == bond_entries(*slots).len(),
            i <= n,
            slot_from(bond_entries(*slots), index, 0) == slot_from(
                bond_entries(*slots),
                index,
                i as int,
            ),
        decreases n - i,
    {
        if bond_slots_get(slots, i).1 == index {
            return Some(i);
        }
        i = i + 1;
    }
    None
}

/// The lowest slot, from `k` on, that no entry has; `count` where every one is
/// in use.
pub open spec fn free_from(entries: Seq<(Identity, u8)>, k: u8, count: u8) -> u8
    decreases count - k,
{
    if k >= count || slot_from(entries, k, 0) is None {
        k
    } else {
        free_from(entries, (k + 1) as u8, count)
    }
}

/// The slot of a new device, where fewer than `count` are in use: the one whose
/// number is how many are in use; where that one is taken, as it can be after a
/// deletion, the lowest free one.
pub open spec fn next_slot(entries: Seq<(Identity, u8)>, count: u8) -> u8 {
    if slot_from(entries, entries.len() as u8, 0) is None {
        entries.len() as u8
    } else {
        free_from(entries, 0, count)
    }
}

/// The slot that a bond is stored in: the slot of its device, else a free one,
/// else the first.
pub open spec fn slot_of(entries: Seq<(Identity, u8)>, identity: Identity, count: u8) -> u8 {
    match entry_from(entries, identity, 0) {
        Some(i) => entries[i].1,
        None => if entries.len() < count {
            next_slot(entries, count)
        } else {
            0
        },
    }
}

/// The entry that gives way to a new device where no slot is left: the one with
/// the first slot.
pub open spec fn evicted(entries: Seq<(Identity, u8)>) -> int {
    match slot_from(entries, 0, 0) {
        Some(i) => i,
        None => 0,
    }
}

/// The entries after a bond was stored: a new device takes a free slot, or the
/// first one in place of its device where no slot is left.
pub open spec fn entries_after(
    entries: Seq<(Identity, u8)>,
    identity: Identity,
    count: u8,
) -> Seq<(Identity, u8)> {
    match entry_from(entries, identity, 0) {
        Some(_) => entries,
        None => if entries.len() < count {
            entries.push((identity, next_slot(entries, count)))
        } else if entries.len() > 0 {
            entries.update(evicted(entries), (identity, 0))
        } else {
            entries
        },
    }
}

/// The first entry of the device that `identity` names.
fn find_entry(slots: &BondSlots, identity: &Identity) -> (r: Option<usize>)
    requires
        slots_wf(*slots),
        identity.wf(),
    ensures
        r is Some <==> entry_from(bond_entries(*slots), *identity, 0) is Some,
        r matches Some(i) ==> entry_from(bond_entries(*slots), *identity, 0) == Some(i as int) && i
            < bond_entries(*slots).len(),
{
    let n: usize = bond_slots_len(slots);
    let mut i: usize = 0;
    while i < n
        invariant
            n == bond_entries(*slots).len(),
            i <= n,
            slots_wf(*slots),
            identity.wf(),
            entry_from(bond_entries(*slots), *identity, 0) == entry_from(
                bond_entries(*slots),
                *identity,
                i as int,
            ),
        decreases n - i,
    {
        let (id, _) = bond_slots_get(slots, i);
        if same_identity(&id, identity) {
            return Some(i);
        }
        i = i + 1;
    }
    None
}

/// The slot of a new device, where fewer than `count` are in use.
fn find_free_slot(slots: &BondSlots, count: u8) -> (r: u8)
    requires
        bond_entries(*slots).len() < count,
    ensures
        r == next_slot(bond_entries(*slots), count),
{
    let next: u8 = bond_slots_len(slots) as u8;
    if find_slot(slots, next).is_none() {
        return next;
    }
    let mut k: u8 = 0;
    while k < count
        invariant
            k <= count,
            slot_from(bond_entries(*slots), bond_entries(*slots).len() as u8, 0) is Some,
            free_from(bond_entries(*slots), 0, count) == free_from(bond_entries(*slots), k, count),
        decreases count - k,
    {
        if find_slot(slots, k).is_none() {
            return k;
        }
        k = k + 1;
    }
    k
}

/// Stores a bond: gives it a slot and hands its blob to the application. Does
/// nothing where the application stores no bonds.
pub fn store_bond(cfg: &RuntimeCfg, slots: &mut BondSlots, bond: &Bond) -> (r: Vec<Emit<Vec<u8>>>)
    requires
        slots_wf(*old(slots)),
        bond.wf(),
    ensures
        slots_wf(*final(slots)),
        cfg.callbacks.on_bond_store ==> {
            let count = slot_count(cfg.bond_slot_count);
            let entries = bond_entries(*old(slots));
            &&& bond_entries(*final(slots)) == entries_after(entries, bond.identity, count)
            &&& calls(r@) == seq![
                Emit::BondStore {
                    index: slot_of(entries, bond.identity, count),
                    blob: blob_of(*bond),
                },
            ]
        },
        !cfg.callbacks.on_bond_store ==> bond_entries(*final(slots)) == bond_entries(*old(slots))
            && calls(r@) == Calls::empty(),
{
    if !cfg.callbacks.on_bond_store {
        return no_calls();
    }
    let count: u8 = bond_slot_count(cfg);
    let len: usize = bond_slots_len(slots);
    let slot: u8 = match find_entry(slots, &bond.identity) {
        Some(i) => bond_slots_get(slots, i).1,
        None => if len < count as usize {
            let slot: u8 = find_free_slot(slots, count);
            bond_slots_push(slots, (bond.identity, slot));
            slot
        } else {
            if len > 0 {
                let place: usize = match find_slot(slots, 0) {
                    Some(i) => i,
                    None => 0,
                };
                bond_slots_set(slots, place, (bond.identity, 0));
            }
            0
        },
    };
    only_when(true, Emit::BondStore { index: slot, blob: serialize_bond(bond) })
}

/// A bond that is stored again goes to the slot that it was stored in.
pub proof fn law_stored_bond_keeps_its_slot(
    entries: Seq<(Identity, u8)>,
    identity: Identity,
    again: Identity,
    count: u8,
)
    requires
        1 <= count,
        again.same(identity),
    ensures
        slot_of(entries_after(entries, identity, count), again, count) == slot_of(
            entries,
            identity,
            count,
        ),
{
    lemma_entry_from_same(entries, identity, again, 0);
    if entry_from(entries, identity, 0) is None {
        if entries.len() < count {
            lemma_entry_after_push(entries, identity, again, next_slot(entries, count), 0);
        } else {
            lemma_slot_found(entries, 0, 0);
            lemma_entry_after_update(entries, identity, again, evicted(entries), 0);
        }
    }
}

proof fn lemma_entry_from_same(
    entries: Seq<(Identity, u8)>,
    identity: Identity,
    again: Identity,
    i: int,
)
    requires
        again.same(identity),
        0 <= i,
    ensures
        entry_from(entries, again, i) == entry_from(entries, identity, i),
    decreases entries.len() - i,
{
    if i < entries.len() {
        lemma_entry_from_same(entries, identity, again, i + 1);
    }
}

proof fn lemma_entry_after_push(
    entries: Seq<(Identity, u8)>,
    identity: Identity,
    again: Identity,
    slot: u8,
    i: int,
)
    requires
        again.same(identity),
        0 <= i <= entries.len(),
        entry_from(entries, identity, i) is None,
    ensures
        entry_from(entries.push((identity, slot)), again, i) == Some(entries.len() as int),
    decreases entries.len() - i,
{
    if i < entries.len() {
        lemma_entry_after_push(entries, identity, again, slot, i + 1);
    }
}

proof fn lemma_entry_after_update(
    entries: Seq<(Identity, u8)>,
    identity: Identity,
    again: Identity,
    place: int,
    i: int,
)
    requires
        again.same(identity),
        0 <= i <= place < entries.len(),
        entry_from(entries, identity, i) is None,
    ensures
        entry_from(entries.update(place, (identity, 0)), again, i) == Some(place),
    decreases entries.len() - i,
{
    if i < place {
        lemma_entry_after_update(entries, identity, again, place, i + 1);
    }
}

/// A bond that was restored from a slot is stored in that slot again.
pub proof fn law_restored_bond_keeps_its_slot(
    entries: Seq<(Identity, u8)>,
    identity: Identity,
    again: Identity,
    index: u8,
    count: u8,
)
    requires
        again.same(identity),
        entry_from(entries, identity, 0) is None,
    ensures
        slot_of(entries.push((identity, index)), again, count) == index,
{
    lemma_entry_after_push(entries, identity, again, index, 0);
}

/// Every slot in use is one of the `count` slots, and a bond is stored in one
/// of them.
pub proof fn law_slots_stay_in_range(entries: Seq<(Identity, u8)>, identity: Identity, count: u8)
    requires
        1 <= count,
        forall|i: int| 0 <= i < entries.len() ==> (#[trigger] entries[i]).1 < count,
    ensures
        slot_of(entries, identity, count) < count,
        forall|i: int|
            0 <= i < entries_after(entries, identity, count).len() ==> (#[trigger] entries_after(
                entries,
                identity,
                count,
            )[i]).1 < count,
{
    lemma_entry_in_range(entries, identity, 0);
    lemma_slot_found(entries, 0, 0);
    if entries.len() < count {
        lemma_next_slot_is_free(entries, count);
    }
}

proof fn lemma_entry_in_range(entries: Seq<(Identity, u8)>, identity: Identity, i: int)
    requires
        0 <= i,
    ensures
        entry_from(entries, identity, i) matches Some(k) ==> i <= k < entries.len()
            && entries[k].0.same(identity),
    decreases entries.len() - i,
{
    if i < entries.len() {
        lemma_entry_in_range(entries, identity, i + 1);
    }
}

/// No two entries have the same slot.
pub open spec fn distinct_slots(entries: Seq<(Identity, u8)>) -> bool {
    forall|i: int, j: int|
        0 <= i < j < entries.len() ==> (#[trigger] entries[i]).1 != (#[trigger] entries[j]).1
}

/// Slots stay distinct, so that no bond is stored over that of another device:
/// they are when none is in use, and storing a bond, deleting one and restoring
/// one into a slot that is not in use keep them so.
pub proof fn law_slots_stay_distinct(
    entries: Seq<(Identity, u8)>,
    identity: Identity,
    count: u8,
    index: u8,
    removed: bool,
)
    requires
        1 <= count,
        distinct_slots(entries),
    ensures
        distinct_slots(Seq::empty()),
        distinct_slots(entries_after(entries, identity, count)),
        distinct_slots(entries_without(entries, index, removed)),
        slot_from(entries, index, 0) is None ==> distinct_slots(entries.push((identity, index))),
{
    lemma_slot_found(entries, 0, 0);
    lemma_slot_found(entries, index, 0);
    if entries.len() < count {
        lemma_next_slot_is_free(entries, count);
        lemma_slot_unused(entries, next_slot(entries, count), 0);
    }
    if slot_from(entries, index, 0) is None {
        lemma_slot_unused(entries, index, 0);
    }
    if slot_from(entries, 0, 0) is None {
        lemma_slot_unused(entries, 0, 0);
    }
}

/// A new device never takes the slot of another one while a slot is free.
pub proof fn law_new_device_takes_a_free_slot(
    entries: Seq<(Identity, u8)>,
    identity: Identity,
    count: u8,
)
    requires
        entries.len() < count,
        entry_from(entries, identity, 0) is None,
    ensures
        slot_of(entries, identity, count) < count,
        forall|i: int|
            0 <= i < entries.len() ==> (#[trigger] entries[i]).1 != slot_of(
                entries,
                identity,
                count,
            ),
{
    lemma_next_slot_is_free(entries, count);
    lemma_slot_unused(entries, next_slot(entries, count), 0);
}

/// Where fewer than `count` slots are in use, the slot of a new device is one
/// of the `count` and is free.
proof fn lemma_next_slot_is_free(entries: Seq<(Identity, u8)>, count: u8)
    requires
        entries.len() < count,
    ensures
        next_slot(entries, count) < count,
        slot_from(entries, next_slot(entries, count), 0) is None,
{
    lemma_free_from(entries, 0, count);
    let free = free_from(entries, 0, count);
    if free == count {
        let used = entries.map_values(|e: (Identity, u8)| e.1 as int);
        let all = vstd::set_lib::set_int_range(0, count as int);
        assert forall|v: int| all.contains(v) implies used.to_set().contains(v) by {
            lemma_slot_found(entries, v as u8, 0);
            let i = slot_from(entries, v as u8, 0)->0;
            assert(used[i] == v);
        }
        used.lemma_cardinality_of_set();
        vstd::set_lib::lemma_int_range(0, count as int);
        vstd::seq_lib::seq_to_set_is_finite(used);
        vstd::set_lib::lemma_len_subset(all, used.to_set());
    }
}

/// Every slot from `k` up to the lowest free one is in use, and that one is
/// not.
proof fn lemma_free_from(entries: Seq<(Identity, u8)>, k: u8, count: u8)
    requires
        k <= count,
    ensures
        k <= free_from(entries, k, count) <= count,
        free_from(entries, k, count) < count ==> slot_from(
            entries,
            free_from(entries, k, count),
            0,
        ) is None,
        forall|v: u8|
            k <= v < free_from(entries, k, count) ==> (#[trigger] slot_from(entries, v, 0)) is Some,
    decreases count - k,
{
    if k < count && slot_from(entries, k, 0) is Some {
        lemma_free_from(entries, (k + 1) as u8, count);
    }
}

proof fn lemma_slot_unused(entries: Seq<(Identity, u8)>, index: u8, i: int)
    requires
        0 <= i,
        slot_from(entries, index, i) is None,
    ensures
        forall|k: int| i <= k < entries.len() ==> (#[trigger] entries[k]).1 != index,
    decreases entries.len() - i,
{
    if i < entries.len() {
        lemma_slot_unused(entries, index, i + 1);
    }
}

/// What a stored blob holds.
#[derive(Debug, PartialEq, Eq)]
pub enum Restored {
    /// The application stores nothing in the slot.
    Empty,
    /// Something that is no bond.
    Invalid,
    Bond(Bond),
}

/// What the first `len` bytes of `blob` hold, or all of it where it is shorter.
pub fn restore_blob(blob: &[u8], len: usize) -> (r: Restored)
    ensures
        ({
            let used = crate::bytes::clip(blob@, len as int);
            &&& r is Empty <==> used.len() == 0
            &&& r is Invalid <==> used.len() > 0 && !readable(used)
            &&& r is Bond <==> readable(used)
            &&& r matches Restored::Bond(bond) ==> read_as(used, bond) && bond.wf()
        }),
{
    let used = crate::bytes::clipped(blob, len);
    if used.len() == 0 {
        return Restored::Empty;
    }
    match deserialize_bond(used.as_slice()) {
        Some(bond) => Restored::Bond(bond),
        None => Restored::Invalid,
    }
}

/// Notes that the device of a restored bond has the slot `index`; a device too
/// many is left out.
pub fn note_restored(slots: &mut BondSlots, identity: Identity, index: u8)
    requires
        slots_wf(*old(slots)),
        identity.wf(),
    ensures
        slots_wf(*final(slots)),
        bond_entries(*final(slots)) == if bond_entries(*old(slots)).len() < BOND_SLOT_CAP {
            bond_entries(*old(slots)).push((identity, index))
        } else {
            bond_entries(*old(slots))
        },
{
    bond_slots_push(slots, (identity, index));
}

/// Input and output capability of the device during pairing.
#[derive(Clone, Copy, Debug, PartialEq, Eq, Structural)]
pub enum IoCapability {
    DisplayOnly,
    DisplayYesNo,
    KeyboardOnly,
    NoInputNoOutput,
    KeyboardDisplay,
}

/// The capability that a number of the application interface names; none for
/// every number that names no other.
pub open spec fn capability_of(code: u8) -> IoCapability {
    if code == 1 {
        IoCapability::DisplayOnly
    } else if code == 2 {
        IoCapability::DisplayYesNo
    } else if code == 3 {
        IoCapability::KeyboardOnly
    } else if code == 5 {
        IoCapability::KeyboardDisplay
    } else {
        IoCapability::NoInputNoOutput
    }
}

/// The capability that a number of the application interface names.
pub fn io_capability_from_c(capability: u8) -> (r: IoCapability)
    ensures
        r == capability_of(capability),
{
    match capability {
        1 => IoCapability::DisplayOnly,
        2 => IoCapability::DisplayYesNo,
        3 => IoCapability::KeyboardOnly,
        5 => IoCapability::KeyboardDisplay,
        _ => IoCapability::NoInputNoOutput,
    }
}

/// What a session does for a request on the bonds.
#[derive(Clone, Copy, Debug, PartialEq, Eq, Structural)]
pub enum BondAction {
    Idle,
    /// Report every bond.
    Enumerate,
    /// Remove the bond in a slot.
    Delete(u8),
    /// Remove the bond in every slot in use.
    DeleteAll,
    /// Use a capability from now on.
    SetIoCapability(IoCapability),
}

/// What a session does for the request in the slot.
pub open spec fn bond_action(slot: BondSlot) -> BondAction {
    match slot.cmd {
        None => BondAction::Idle,
        Some(BondCmd::Enumerate) => BondAction::Enumerate,
        Some(BondCmd::Delete) => BondAction::Delete(slot.index),
        Some(BondCmd::DeleteAll) => BondAction::DeleteAll,
        Some(BondCmd::SetIoCapability) => BondAction::SetIoCapability(
            capability_of(slot.io_capability),
        ),
    }
}

impl State<Seq<u8>> {
    /// The state after the request on the bonds was taken.
    pub open spec fn bond_taken(self) -> Model {
        State { bond: BondSlot { cmd: None, ..self.bond }, ..self }
    }
}

/// Takes the request on the bonds and says what is done for it.
pub fn bond_step(rt: &mut Runtime) -> (r: BondAction)
    ensures
        r == bond_action(old(rt).bond),
        final(rt)@ == old(rt)@.bond_taken(),
{
    let cmd: Option<BondCmd> = rt.bond.cmd;
    rt.bond.cmd = None;
    match cmd {
        None => BondAction::Idle,
        Some(BondCmd::Enumerate) => BondAction::Enumerate,
        Some(BondCmd::Delete) => BondAction::Delete(rt.bond.index),
        Some(BondCmd::DeleteAll) => BondAction::DeleteAll,
        Some(BondCmd::SetIoCapability) => BondAction::SetIoCapability(
            io_capability_from_c(rt.bond.io_capability),
        ),
    }
}

/// The first bond, from `i` on, of the device that `identity` names.
pub open spec fn bond_from(known: Seq<Bond>, identity: Identity, i: int) -> Option<Bond>
    decreases known.len() - i,
{
    if i < 0 || i >= known.len() {
        None
    } else if known[i].identity.same(identity) {
        Some(known[i])
    } else {
        bond_from(known, identity, i + 1)
    }
}

/// The report of one slot: the address of its device, and the level and bonded
/// flag of the bond that the host has for it. The key length is not known.
pub open spec fn slot_report(entry: (Identity, u8), bond: Option<Bond>) -> Emit<Seq<u8>> {
    Emit::Bond {
        index: entry.1,
        addr: entry.0.addr,
        addr_kind: c_kind(entry.0.kind),
        level: match bond {
            Some(b) => level_code(b.level),
            None => 0,
        },
        key_len: 0,
        flags: if bond is Some && bond->0.is_bonded {
            1
        } else {
            0
        },
    }
}

/// The reports of the first `n` slots in use, where `known` are the bonds that
/// the host has.
pub open spec fn slot_reports(
    cb: RuntimeBleCallbacks,
    entries: Seq<(Identity, u8)>,
    known: Seq<Bond>,
    n: int,
) -> Calls
    decreases n,
{
    if n <= 0 {
        Calls::empty()
    } else {
        slot_reports(cb, entries, known, n - 1) + called_if(
            cb.on_bond,
            slot_report(entries[n - 1], bond_from(known, entries[n - 1].0, 0)),
        )
    }
}

/// The first bond of the device that `identity` names.
fn find_bond(known: &Vec<Bond>, identity: &Identity) -> (r: Option<Bond>)
    requires
        forall|i: int| 0 <= i < known@.len() ==> (#[trigger] known@[i]).wf(),
        identity.wf(),
    ensures
        r == bond_from(known@, *identity, 0),
{
    let n: usize = known.len();
    let mut i: usize = 0;
    while i < n
        invariant
            n == known@.len(),
            i <= n,
            forall|k: int| 0 <= k < known@.len() ==> (#[trigger] known@[k]).wf(),
            identity.wf(),
            bond_from(known@, *identity, 0) == bond_from(known@, *identity, i as int),
        decreases n - i,
    {
        assert(known@[i as int].wf());
        if same_identity(&known[i].identity, identity) {
            return Some(known[i]);
        }
        i = i + 1;
    }
    None
}

/// Reports every slot in use, in order, where `known` are the bonds that the
/// host has.
pub fn report_bonds(
    cb: &RuntimeBleCallbacks,
    slots: &BondSlots,
    known: &Vec<Bond>,
) -> (r: Vec<Emit<Vec<u8>>>)
    requires
        slots_wf(*slots),
        forall|i: int| 0 <= i < known@.len() ==> (#[trigger] known@[i]).wf(),
    ensures
        calls(r@) == slot_reports(
            *cb,
            bond_entries(*slots),
            known@,
            bond_entries(*slots).len() as int,
        ),
{
    let mut list = no_calls();
    let n: usize = bond_slots_len(slots);
    for i in 0..n
        invariant
            n == bond_entries(*slots).len(),
            slots_wf(*slots),
            forall|k: int| 0 <= k < known@.len() ==> (#[trigger] known@[k]).wf(),
            calls(list@) == slot_reports(*cb, bond_entries(*slots), known@, i as int),
    {
        let (identity, slot) = bond_slots_get(slots, i);
        assert(bond_entries(*slots)[i as int].0.wf());
        let bond: Option<Bond> = find_bond(known, &identity);
        let level: u8 = match bond {
            Some(b) => security_level_to_c(b.level),
            None => 0,
        };
        let bonded: bool = match bond {
            Some(b) => b.is_bonded,
            None => false,
        };
        call_when(
            &mut list,
            cb.on_bond,
            Emit::Bond {
                index: slot,
                addr: identity.addr,
                addr_kind: addr_kind_to_c(identity.kind),
                level,
                key_len: 0,
                flags: if bonded {
                    1
                } else {
                    0
                },
            },
        );
    }
    list
}

/// The device whose bond a request to empty the slot `index` removes.
pub fn bond_to_delete(slots: &BondSlots, index: u8) -> (r: Option<Identity>)
    ensures
        r == match slot_from(bond_entries(*slots), index, 0) {
            Some(i) => Some(bond_entries(*slots)[i].0),
            None => None,
        },
{
    match find_slot(slots, index) {
        Some(i) => Some(bond_slots_get(slots, i).0),
        None => None,
    }
}

/// The slots in use, in order.
pub fn slots_in_use(slots: &BondSlots) -> (r: Vec<u8>)
    ensures
        r@ == bond_entries(*slots).map_values(|e: (Identity, u8)| e.1),
{
    let mut list: Vec<u8> = Vec::new();
    let n: usize = bond_slots_len(slots);
    for i in 0..n
        invariant
            n == bond_entries(*slots).len(),
            list@.len() == i,
            forall|k: int| 0 <= k < list@.len() ==> list@[k] == bond_entries(*slots)[k].1,
    {
        list.push(bond_slots_get(slots, i).1);
    }
    assert(list@ =~= bond_entries(*slots).map_values(|e: (Identity, u8)| e.1));
    list
}

/// Status of a removed bond.
pub const BOND_STATUS_OK: i8 = 0;

/// Status of a bond that was not removed.
pub const BOND_STATUS_FAILED: i8 = -1;

/// The entries after the request to empty the slot `index`, where `removed`
/// says whether the host removed the bond.
pub open spec fn entries_without(
    entries: Seq<(Identity, u8)>,
    index: u8,
    removed: bool,
) -> Seq<(Identity, u8)> {
    match slot_from(entries, index, 0) {
        Some(i) if removed => entries.remove(i),
        _ => entries,
    }
}

/// What the application is told of the request to empty the slot `index`: to
/// clear its storage where the bond was removed, and how it went.
pub open spec fn deletion_calls(
    cb: RuntimeBleCallbacks,
    entries: Seq<(Identity, u8)>,
    index: u8,
    removed: bool,
) -> Calls {
    if removed && slot_from(entries, index, 0) is Some {
        called_if(cb.on_bond_store, Emit::BondClear { index }) + called_if(
            cb.on_bond_deleted,
            Emit::BondDeleted { index, status: BOND_STATUS_OK },
        )
    } else {
        called_if(cb.on_bond_deleted, Emit::BondDeleted { index, status: BOND_STATUS_FAILED })
    }
}

/// Empties the slot `index` where the host removed its bond, and tells the
/// application.
pub fn bond_deleted(
    cb: &RuntimeBleCallbacks,
    slots: &mut BondSlots,
    index: u8,
    removed: bool,
) -> (r: Vec<Emit<Vec<u8>>>)
    requires
        slots_wf(*old(slots)),
    ensures
        slots_wf(*final(slots)),
        bond_entries(*final(slots)) == entries_without(bond_entries(*old(slots)), index, removed),
        calls(r@) == deletion_calls(*cb, bond_entries(*old(slots)), index, removed),
{
    if removed {
        if let Some(i) = find_slot(slots, index) {
            let ghost before = bond_entries(*slots);
            bond_slots_remove(slots, i);
            assert forall|k: int| 0 <= k < bond_entries(*slots).len() implies (
            #[trigger] bond_entries(*slots)[k]).0.wf() by {
                assert(before[k].0.wf());
                assert(before[k + 1].0.wf());
            }
            let mut list = only_when(cb.on_bond_store, Emit::BondClear { index });
            call_when(
                &mut list,
                cb.on_bond_deleted,
                Emit::BondDeleted { index, status: BOND_STATUS_OK },
            );
            return list;
        }
    }
    only_when(cb.on_bond_deleted, Emit::BondDeleted { index, status: BOND_STATUS_FAILED })
}

/// A removed bond is gone: no entry has its slot any more, where no two
/// entries shared one.
pub proof fn law_deleted_slot_is_free(entries: Seq<(Identity, u8)>, index: u8)
    requires
        distinct_slots(entries),
    ensures
        slot_from(entries_without(entries, index, true), index, 0) is None,
{
    lemma_slot_found(entries, index, 0);
    let after = entries_without(entries, index, true);
    match slot_from(entries, index, 0) {
        Some(k) => {
            assert forall|i: int| 0 <= i < after.len() implies (#[trigger] after[i]).1 != index by {
                if i < k {
                    assert(after[i] == entries[i]);
                    assert(entries[i].1 != entries[k].1);
                } else {
                    assert(after[i] == entries[i + 1]);
                    assert(entries[k].1 != entries[i + 1].1);
                }
            }
            lemma_slot_absent(after, index, 0);
        },
        None => {},
    }
}

/// The entries after requests to empty slots in order, all of which the host
/// carried out.
pub open spec fn entries_without_all(
    entries: Seq<(Identity, u8)>,
    slots: Seq<u8>,
) -> Seq<(Identity, u8)>
    decreases slots.len(),
{
    if slots.len() == 0 {
        entries
    } else {
        entries_without_all(entries_without(entries, slots[0], true), slots.drop_first())
    }
}

/// What the application is told of requests to empty slots in order, all of
/// which the host carried out.
pub open spec fn deletion_run_calls(
    cb: RuntimeBleCallbacks,
    entries: Seq<(Identity, u8)>,
    slots: Seq<u8>,
) -> Calls
    decreases slots.len(),
{
    if slots.len() == 0 {
        Calls::empty()
    } else {
        deletion_calls(cb, entries, slots[0], true) + deletion_run_calls(
            cb,
            entries_without(entries, slots[0], true),
            slots.drop_first(),
        )
    }
}

/// The application is told of each slot in order to clear its storage, and that
/// the bond was removed.
pub open spec fn cleared(cb: RuntimeBleCallbacks, slots: Seq<u8>) -> Calls
    decreases slots.len(),
{
    if slots.len() == 0 {
        Calls::empty()
    } else {
        called_if(cb.on_bond_store, Emit::BondClear { index: slots[0] }) + called_if(
            cb.on_bond_deleted,
            Emit::BondDeleted { index: slots[0], status: BOND_STATUS_OK },
        ) + cleared(cb, slots.drop_first())
    }
}

/// Emptying the slots in use, in order, leaves no entry, and the application is
/// told of every one of them, where the host removes each bond.
pub proof fn law_deleting_all_leaves_no_bond(
    cb: RuntimeBleCallbacks,
    entries: Seq<(Identity, u8)>,
)
    ensures
        ({
            let in_use = entries.map_values(|e: (Identity, u8)| e.1);
            &&& entries_without_all(entries, in_use) == Seq::<(Identity, u8)>::empty()
            &&& deletion_run_calls(cb, entries, in_use) == cleared(cb, in_use)
        }),
    decreases entries.len(),
{
    let in_use = entries.map_values(|e: (Identity, u8)| e.1);
    if entries.len() > 0 {
        let rest = entries.remove(0);
        assert(entries_without(entries, in_use[0], true) == rest);
        assert(in_use.drop_first() =~= rest.map_values(|e: (Identity, u8)| e.1));
        law_deleting_all_leaves_no_bond(cb, rest);
    }
}

proof fn lemma_slot_found(entries: Seq<(Identity, u8)>, index: u8, i: int)
    requires
        0 <= i,
    ensures
        slot_from(entries, index, i) matches Some(k) ==> i <= k < entries.len() && entries[k].1
            == index,
    decreases entries.len() - i,
{
    if i < entries.len() {
        lemma_slot_found(entries, index, i + 1);
    }
}

proof fn lemma_slot_absent(entries: Seq<(Identity, u8)>, index: u8, i: int)
    requires
        0 <= i,
        forall|k: int| 0 <= k < entries.len() ==> (#[trigger] entries[k]).1 != index,
    ensures
        slot_from(entries, index, i) is None,
    decreases entries.len() - i,
{
    if i < entries.len() {
        lemma_slot_absent(entries, index, i + 1);
    }
}

/// A request on the bonds is carried out with the value that it was made with:
/// the slot to empty, or the capability to use.
pub proof fn law_bond_requests_arrive(m: Model, index: u8, capability: u8)
    requires
        m.bond.cmd is None,
        capability <= 5,
    ensures
        bond_action(m.bond_request(BondCmd::Delete, index).0.bond) == BondAction::Delete(index),
        bond_action(m.set_io_capability(capability).0.bond) == BondAction::SetIoCapability(
            capability_of(capability),
        ),
{
}

} // verus!
