//! Bonds: the layout of a blob, the slots that bonds are kept in, and the
//! requests on them.

use crate::bond::{
    blob_of, bond_deleted, bond_from, bond_slot_count, bond_step, bond_to_delete,
    c_to_security_level, deserialize_bond, empty_bond_slots, entry_from, free_from,
    io_capability_from_c, law_bond_survives_storage, note_restored, report_bonds, restore_blob,
    security_level_to_c, serialize_bond, slot_from, slot_reports, slots_in_use, slots_wf,
    store_bond, Bond, BondAction, IoCapability, Restored, SecurityLevel,
};
use crate::bytes::le_bytes;
use crate::config::{RuntimeBleCallbacks, RuntimeCfg};
use crate::emit::{calls, Emit};
use crate::host::{bond_entries, BondSlots, Identity};
use crate::laws::bytes::{byte_of, law_bytes_write_their_number};
use crate::laws::server::{fitting, told};
use crate::runtime::{
    bond_admin_cmd, runtime_ble_bond_delete, runtime_ble_bond_delete_all,
    runtime_ble_bond_enumerate, runtime_ble_set_io_capability, valid_io_capability, BondCmd,
    BondSlot, Model, Runtime, State,
};
use vstd::prelude::*;

verus! {

/// The number of a security level.
pub open spec fn level_number(level: SecurityLevel) -> u8 {
    match level {
        SecurityLevel::NoEncryption => 0,
        SecurityLevel::Encrypted => 1,
        SecurityLevel::EncryptedAuthenticated => 2,
    }
}

/// Two identities are of one device: the address, the lowest bit of its type
/// and the resolving key are the same.
pub open spec fn one_device(a: Identity, b: Identity) -> bool {
    a.addr@ == b.addr@ && a.kind % 2 == b.kind % 2 && a.irk == b.irk
}

/// A slot is in use.
pub open spec fn used(entries: Seq<(Identity, u8)>, slot: u8) -> bool {
    exists|i: int| 0 <= i < entries.len() && (#[trigger] entries[i]).1 == slot
}

/// Security levels have the numbers 0, 1 and 2.
pub proof fn law_levels_have_their_numbers(
    level: SecurityLevel,
    number: u8,
    code: u8,
    r: Option<SecurityLevel>,
)
    requires
        call_ensures(security_level_to_c, (level,), number),
        call_ensures(c_to_security_level, (code,), r),
    ensures
        number == level_number(level),
        code <= 2 <==> r is Some,
        r is Some ==> level_number(r->0) == code,
{
}

/// A session has as many slots as are configured, four at most, and four where
/// none are configured.
pub proof fn law_number_of_slots(cfg: RuntimeCfg, r: u8)
    requires
        call_ensures(bond_slot_count, (&cfg,), r),
    ensures
        1 <= cfg.bond_slot_count <= 4 ==> r == cfg.bond_slot_count,
        cfg.bond_slot_count == 0 || cfg.bond_slot_count > 4 ==> r == 4,
{
}

/// A blob has 43 bytes: the version 1, the flags (bit 0x01 for bonded, 0x02 for
/// a resolving key), the level, the address type, the address, the two keys
/// least significant byte first, and a zero.
pub proof fn law_blob_layout(bond: Bond, r: Vec<u8>, i: int)
    requires
        bond.identity.irk != Some(0u128),
        call_ensures(serialize_bond, (&bond,), r),
    ensures
        r@.len() == 43,
        r@[0] == 1,
        r@[1] & 0x01 != 0 <==> bond.is_bonded,
        r@[1] & 0x02 != 0 <==> bond.identity.irk is Some,
        r@[1] <= 3,
        r@[2] == level_number(bond.level),
        r@[3] == bond.identity.kind,
        0 <= i < 6 ==> r@[4 + i] == bond.identity.addr@[i],
        0 <= i < 16 ==> r@[10 + i] == byte_of(bond.ltk as int, i as nat),
        0 <= i < 16 && bond.identity.irk is Some ==> r@[26 + i] == byte_of(
            bond.identity.irk->0 as int,
            i as nat,
        ),
        0 <= i < 16 && bond.identity.irk is None ==> r@[26 + i] == 0,
        r@[42] == 0,
{
    let key: int = match bond.identity.irk {
        Some(irk) => irk as int,
        None => 0,
    };
    law_bytes_write_their_number(bond.ltk as int, 16, seq![], i as nat);
    law_bytes_write_their_number(key, 16, seq![], i as nat);
    law_bytes_write_their_number(0, 16, seq![], i as nat);
    if 0 <= i {
        lemma_zero_bytes(i as nat);
    }
    assert(3u8 & 0x01 != 0 && 3u8 & 0x02 != 0 && 2u8 & 0x01 == 0 && 2u8 & 0x02 != 0 && 1u8 & 0x01
        != 0 && 1u8 & 0x02 == 0 && 0u8 & 0x01 == 0 && 0u8 & 0x02 == 0) by (bit_vector);
    assert(r@ =~= blob_of(bond));
    let head = r@.take(4) + bond.identity.addr@;
    let first = head + le_bytes(bond.ltk as int, 16);
    let second = first + le_bytes(key, 16);
    assert(r@ =~= second + seq![0u8]);
    if 0 <= i < 6 {
        assert(r@[4 + i] == head[4 + i]);
    }
    if 0 <= i < 16 {
        assert(r@[10 + i] == first[10 + i]);
        assert(r@[26 + i] == second[26 + i]);
    }
}

proof fn lemma_zero_bytes(i: nat)
    ensures
        byte_of(0, i) == 0,
    decreases i,
{
    if i > 0 {
        lemma_zero_bytes((i - 1) as nat);
    }
}

/// A blob is read where it has 42 bytes, the version 1 and a known level, and
/// every field of the bond is at its place in the blob. A resolving key is
/// there where its flag is set and one of its bytes is not zero.
pub proof fn law_blob_is_read(blob: &[u8], r: Option<Bond>, i: int)
    requires
        call_ensures(deserialize_bond, (blob,), r),
    ensures
        r is Some <==> blob@.len() >= 42 && blob@[0] == 1 && blob@[2] <= 2,
        r is Some ==> {
            let bond = r->0;
            &&& level_number(bond.level) == blob@[2]
            &&& bond.is_bonded <==> blob@[1] & 0x01 != 0
            &&& bond.identity.kind == blob@[3]
            &&& 0 <= i < 6 ==> bond.identity.addr@[i] == blob@[4 + i]
            &&& 0 <= i < 16 ==> byte_of(bond.ltk as int, i as nat) == blob@[10 + i]
            &&& bond.identity.irk is Some ==> blob@[1] & 0x02 != 0 && bond.identity.irk->0 != 0
            &&& 0 <= i < 16 && bond.identity.irk is Some ==> byte_of(
                bond.identity.irk->0 as int,
                i as nat,
            ) == blob@[26 + i]
            &&& 0 <= i < 16 && bond.identity.irk is None && blob@[1] & 0x02 != 0 ==> blob@[26 + i]
                == 0
        },
{
    if blob@.len() >= 42 {
        let ltk = blob@.subrange(10, 26);
        let irk = blob@.subrange(26, 42);
        law_bytes_write_their_number(0, 0, ltk, i as nat);
        law_bytes_write_their_number(0, 0, irk, i as nat);
        assert(blob@.subrange(4, 10).len() == 6);
        if 0 <= i {
            lemma_zero_bytes(i as nat);
        }
        if 0 <= i < 6 {
            assert(blob@.subrange(4, 10)[i] == blob@[4 + i]);
        }
    }
}

/// A bond that was written and read back is the bond that was written.
pub proof fn law_bond_is_read_back(bond: Bond, blob: Vec<u8>, text: &[u8], r: Option<Bond>)
    requires
        bond.identity.irk != Some(0u128),
        call_ensures(serialize_bond, (&bond,), blob),
        text@ == blob@,
        call_ensures(deserialize_bond, (text,), r),
    ensures
        r == Some(bond),
{
    law_blob_layout(bond, blob, 0);
    law_bond_survives_storage(bond, r->0);
}

/// A stored blob is looked at up to the length that is given with it: none of it
/// is an empty slot, and the rest is read as a bond where it can be.
pub proof fn law_stored_blob_is_restored(
    blob: &[u8],
    len: usize,
    text: &[u8],
    read: Option<Bond>,
    r: Restored,
)
    requires
        text@ == fitting(blob@, len),
        call_ensures(deserialize_bond, (text,), read),
        call_ensures(restore_blob, (blob, len), r),
    ensures
        r is Empty <==> len == 0 || blob@.len() == 0,
        r is Invalid <==> len > 0 && blob@.len() > 0 && read is None,
        r is Bond <==> read is Some,
        r matches Restored::Bond(bond) ==> level_number(bond.level) == text@[2]
            && bond.identity.kind == text@[3] && bond.is_bonded == read->0.is_bonded && bond.ltk
            == read->0.ltk && bond.identity.irk == read->0.identity.irk && bond.identity.addr@
            == read->0.identity.addr@,
{
    law_blob_is_read(text, read, 0);
}

proof fn lemma_first_entry(entries: Seq<(Identity, u8)>, id: Identity, i: int, j: int)
    requires
        0 <= i <= j <= entries.len(),
        forall|k: int| i <= k < j ==> !one_device((#[trigger] entries[k]).0, id),
        j < entries.len() ==> one_device(entries[j].0, id),
    ensures
        entry_from(entries, id, i) == if j < entries.len() {
            Some(j)
        } else {
            None
        },
    decreases j - i,
{
    if i < j {
        lemma_first_entry(entries, id, i + 1, j);
    }
}

proof fn lemma_first_slot(entries: Seq<(Identity, u8)>, index: u8, i: int, j: int)
    requires
        0 <= i <= j <= entries.len(),
        forall|k: int| i <= k < j ==> (#[trigger] entries[k]).1 != index,
        j < entries.len() ==> entries[j].1 == index,
    ensures
        slot_from(entries, index, i) == if j < entries.len() {
            Some(j)
        } else {
            None
        },
    decreases j - i,
{
    if i < j {
        lemma_first_slot(entries, index, i + 1, j);
    }
}

proof fn lemma_slot_in_use(entries: Seq<(Identity, u8)>, index: u8, i: int)
    requires
        0 <= i,
    ensures
        slot_from(entries, index, i) is Some ==> used(entries, index),
        slot_from(entries, index, i) is None ==> forall|k: int|
            i <= k < entries.len() ==> (#[trigger] entries[k]).1 != index,
    decreases entries.len() - i,
{
    if i < entries.len() {
        lemma_slot_in_use(entries, index, i + 1);
    }
}

proof fn lemma_lowest_free(entries: Seq<(Identity, u8)>, k: u8, count: u8)
    requires
        k <= count,
    ensures
        k <= free_from(entries, k, count) <= count,
        free_from(entries, k, count) < count ==> !used(entries, free_from(entries, k, count)),
        forall|v: u8| k <= v < free_from(entries, k, count) ==> #[trigger] used(entries, v),
    decreases count - k,
{
    lemma_slot_in_use(entries, k, 0);
    if k < count && slot_from(entries, k, 0) is Some {
        lemma_lowest_free(entries, (k + 1) as u8, count);
    }
}

/// A bond is handed to the application with its blob and a slot, once, where it
/// stores bonds. A device that has a slot keeps it. Any other takes the slot
/// whose number is how many are in use, where that is free, else the lowest free
/// one, where there is one; else the first slot, in place of its device.
pub proof fn law_bond_is_stored(
    cfg: RuntimeCfg,
    slots: &mut BondSlots,
    bond: Bond,
    r: Vec<Emit<Vec<u8>>>,
    count: u8,
    blob: Vec<u8>,
    j: int,
)
    requires
        slots_wf(*old(slots)),
        bond.identity.irk != Some(0u128),
        call_ensures(store_bond, (&cfg, slots, &bond), r),
        call_ensures(bond_slot_count, (&cfg,), count),
        call_ensures(serialize_bond, (&bond,), blob),
        0 <= j <= bond_entries(*old(slots)).len(),
        forall|k: int|
            0 <= k < j ==> !one_device((#[trigger] bond_entries(*old(slots))[k]).0, bond.identity),
        j < bond_entries(*old(slots)).len() ==> one_device(
            bond_entries(*old(slots))[j].0,
            bond.identity,
        ),
    ensures
        !cfg.callbacks.on_bond_store ==> calls(r@).len() == 0 && bond_entries(*final(slots))
            == bond_entries(*old(slots)),
        cfg.callbacks.on_bond_store ==> {
            let before = bond_entries(*old(slots));
            let after = bond_entries(*final(slots));
            &&& calls(r@).len() == 1
            &&& calls(r@)[0] is BondStore
            &&& calls(r@)[0]->blob == blob@
            &&& j < before.len() ==> calls(r@)[0]->BondStore_index == before[j].1 && after == before
            &&& j == before.len() && before.len() < count ==> {
                let slot = calls(r@)[0]->BondStore_index;
                &&& after == before.push((bond.identity, slot))
                &&& !used(before, before.len() as u8) ==> slot == before.len()
                &&& used(before, before.len() as u8) ==> (slot < count ==> !used(before, slot)) && (
                forall|v: u8| v < slot ==> #[trigger] used(before, v))
            }
            &&& j == before.len() && before.len() >= count ==> {
                &&& calls(r@)[0]->BondStore_index == 0
                &&& after.len() == before.len()
                &&& before.len() > 0 ==> exists|p: int|
                    0 <= p < before.len() && after == before.update(p, (bond.identity, 0u8)) && (
                    used(before, 0) ==> (#[trigger] before[p]).1 == 0) && (!used(before, 0) ==> p
                        == 0) && forall|q: int| 0 <= q < p ==> (#[trigger] before[q]).1 != 0
            }
        },
{
    let before = bond_entries(*old(slots));
    lemma_first_entry(before, bond.identity, 0, j);
    lemma_slot_in_use(before, before.len() as u8, 0);
    lemma_slot_in_use(before, 0, 0);
    lemma_lowest_free(before, 0, count);
    assert(calls(r@).len() <= 1);
    if cfg.callbacks.on_bond_store && j == before.len() && before.len() >= count && before.len()
        > 0 {
        lemma_slot_place(before, 0, 0);
        let p = crate::bond::evicted(before);
        assert(0 <= p < before.len());
        assert(used(before, 0) ==> before[p].1 == 0);
    }
}

proof fn lemma_slot_place(entries: Seq<(Identity, u8)>, index: u8, i: int)
    requires
        0 <= i,
    ensures
        slot_from(entries, index, i) matches Some(k) ==> i <= k < entries.len() && entries[k].1
            == index && forall|q: int| i <= q < k ==> (#[trigger] entries[q]).1 != index,
    decreases entries.len() - i,
{
    if i < entries.len() {
        lemma_slot_place(entries, index, i + 1);
    }
}

/// The slots start without a device; a restored bond is noted with its slot, up
/// to four.
pub proof fn law_restored_bonds_are_noted(
    none: BondSlots,
    slots: &mut BondSlots,
    identity: Identity,
    index: u8,
)
    requires
        call_ensures(empty_bond_slots, (), none),
        call_ensures(note_restored, (slots, identity, index), ()),
    ensures
        bond_entries(none).len() == 0,
        bond_entries(*old(slots)).len() < 4 ==> bond_entries(*final(slots)) == bond_entries(
            *old(slots),
        ).push((identity, index)),
        bond_entries(*old(slots)).len() >= 4 ==> bond_entries(*final(slots)) == bond_entries(
            *old(slots),
        ),
{
}

/// Capabilities have the numbers 1, 2, 3 and 5; every other number stands for
/// none, and those up to 5 are accepted.
pub proof fn law_capabilities_have_their_numbers(code: u8, r: IoCapability, valid: bool)
    requires
        call_ensures(io_capability_from_c, (code,), r),
        call_ensures(valid_io_capability, (code,), valid),
    ensures
        r is DisplayOnly <==> code == 1,
        r is DisplayYesNo <==> code == 2,
        r is KeyboardOnly <==> code == 3,
        r is KeyboardDisplay <==> code == 5,
        valid <==> code < 6,
{
}

/// A request on the bonds was queued, with the result 0, or refused because one
/// is queued, with the result -2; it changed nothing but the slot of requests on
/// bonds, and nothing at all where it was refused.
pub open spec fn bond_queued_or_full(before: Model, after: Model, r: i32) -> bool {
    &&& r == 0 <==> before.bond.cmd is None
    &&& r == -2 <==> before.bond.cmd is Some
    &&& r == -2 ==> after == before
    &&& after == (State { bond: after.bond, ..before })
}

/// A step takes the request on the bonds and nothing else.
pub proof fn law_bond_step_takes_the_request(rt: &mut Runtime, r: BondAction)
    requires
        call_ensures(bond_step, (rt,), r),
    ensures
        r is Idle <==> old(rt).bond.cmd is None,
        final(rt).bond == (BondSlot { cmd: None, ..old(rt).bond }),
        final(rt)@ == (State { bond: final(rt).bond, ..old(rt)@ }),
{
}

/// A capability is used from its request on; a number that names none is
/// refused.
pub proof fn law_capability_is_used(
    rt: &mut Runtime,
    code: u8,
    r: i32,
    next: &mut Runtime,
    step: BondAction,
    capability: IoCapability,
)
    requires
        call_ensures(runtime_ble_set_io_capability, (rt, code), r),
        old(next)@ == final(rt)@,
        call_ensures(bond_step, (next,), step),
        call_ensures(io_capability_from_c, (code,), capability),
    ensures
        r == -1 <==> code > 5,
        r == -1 ==> final(rt)@ == old(rt)@,
        r != -1 ==> bond_queued_or_full(old(rt)@, final(rt)@, r),
        r == 0 ==> step == BondAction::SetIoCapability(capability),
{
}

/// The slot to empty is the one that was asked for.
pub proof fn law_deletion_is_asked_for(
    rt: &mut Runtime,
    index: u8,
    r: i32,
    next: &mut Runtime,
    step: BondAction,
)
    requires
        call_ensures(runtime_ble_bond_delete, (rt, index), r),
        old(next)@ == final(rt)@,
        call_ensures(bond_step, (next,), step),
    ensures
        bond_queued_or_full(old(rt)@, final(rt)@, r),
        r == 0 ==> step == BondAction::Delete(index),
{
}

/// Reporting and emptying every slot is done where it is asked for.
pub proof fn law_all_bonds_are_asked_for(
    rt: &mut Runtime,
    all: bool,
    r: i32,
    next: &mut Runtime,
    step: BondAction,
)
    requires
        all ==> call_ensures(runtime_ble_bond_delete_all, (rt,), r),
        !all ==> call_ensures(runtime_ble_bond_enumerate, (rt,), r),
        old(next)@ == final(rt)@,
        call_ensures(bond_step, (next,), step),
    ensures
        bond_queued_or_full(old(rt)@, final(rt)@, r),
        r == 0 && all ==> step is DeleteAll,
        r == 0 && !all ==> step is Enumerate,
{
}

/// A request on the bonds is queued with its value.
pub proof fn law_bond_request_is_queued(rt: &mut Runtime, cmd: BondCmd, value: u8, r: i32)
    requires
        call_ensures(bond_admin_cmd, (rt, cmd, value), r),
    ensures
        bond_queued_or_full(old(rt)@, final(rt)@, r),
        r == 0 ==> final(rt).bond.cmd == Some(cmd),
        r == 0 && cmd is Delete ==> final(rt).bond.index == value,
        r == 0 && cmd is SetIoCapability ==> final(rt).bond.io_capability == value,
        !(cmd is Delete) ==> final(rt).bond.index == old(rt).bond.index,
        !(cmd is SetIoCapability) ==> final(rt).bond.io_capability == old(rt).bond.io_capability,
{
}

proof fn lemma_first_bond(known: Seq<Bond>, id: Identity, i: int, j: int)
    requires
        0 <= i <= j <= known.len(),
        forall|k: int| i <= k < j ==> !one_device((#[trigger] known[k]).identity, id),
        j < known.len() ==> one_device(known[j].identity, id),
    ensures
        bond_from(known, id, i) == if j < known.len() {
            Some(known[j])
        } else {
            None
        },
    decreases j - i,
{
    if i < j {
        lemma_first_bond(known, id, i + 1, j);
    }
}

proof fn lemma_slot_reports(
    cb: RuntimeBleCallbacks,
    entries: Seq<(Identity, u8)>,
    known: Seq<Bond>,
    n: int,
    k: int,
)
    requires
        0 <= k,
        0 <= n,
    ensures
        !cb.on_bond ==> slot_reports(cb, entries, known, n).len() == 0,
        cb.on_bond ==> slot_reports(cb, entries, known, n).len() == n,
        cb.on_bond && k < n ==> slot_reports(cb, entries, known, n)[k] == crate::bond::slot_report(
            entries[k],
            bond_from(known, entries[k].0, 0),
        ),
    decreases n,
{
    if n > 0 {
        lemma_slot_reports(cb, entries, known, n - 1, k);
    }
}

/// Every slot in use is reported, in order, with the address of its device and
/// the level and the bonded flag of the first bond that the host has for it.
pub proof fn law_every_bond_is_reported(
    cb: RuntimeBleCallbacks,
    slots: BondSlots,
    known: Vec<Bond>,
    r: Vec<Emit<Vec<u8>>>,
    k: int,
    j: int,
)
    requires
        call_ensures(report_bonds, (&cb, &slots, &known), r),
        0 <= k < bond_entries(slots).len(),
        0 <= j <= known@.len(),
        forall|i: int|
            0 <= i < j ==> !one_device((#[trigger] known@[i]).identity, bond_entries(slots)[k].0),
        j < known@.len() ==> one_device(known@[j].identity, bond_entries(slots)[k].0),
    ensures
        !cb.on_bond ==> calls(r@).len() == 0,
        cb.on_bond ==> {
            let entry = bond_entries(slots)[k];
            &&& calls(r@).len() == bond_entries(slots).len()
            &&& calls(r@)[k] == (Emit::<Seq<u8>>::Bond {
                index: entry.1,
                addr: entry.0.addr,
                addr_kind: if entry.0.kind == 0 {
                    1
                } else {
                    0
                },
                level: if j < known@.len() {
                    level_number(known@[j].level)
                } else {
                    0
                },
                key_len: 0,
                flags: if j < known@.len() && known@[j].is_bonded {
                    1
                } else {
                    0
                },
            })
        },
{
    let entries = bond_entries(slots);
    lemma_first_bond(known@, entries[k].0, 0, j);
    lemma_slot_reports(cb, entries, known@, entries.len() as int, k);
}

/// The device of a slot is the one that is noted with it, and the slots in use
/// are those of the devices, in order.
pub proof fn law_device_of_a_slot(
    slots: BondSlots,
    index: u8,
    r: Option<Identity>,
    list: Vec<u8>,
    j: int,
)
    requires
        call_ensures(bond_to_delete, (&slots, index), r),
        call_ensures(slots_in_use, (&slots,), list),
        0 <= j <= bond_entries(slots).len(),
        forall|k: int| 0 <= k < j ==> (#[trigger] bond_entries(slots)[k]).1 != index,
        j < bond_entries(slots).len() ==> bond_entries(slots)[j].1 == index,
    ensures
        j < bond_entries(slots).len() ==> r == Some(bond_entries(slots)[j].0),
        j == bond_entries(slots).len() ==> r is None,
        list@.len() == bond_entries(slots).len(),
        j < bond_entries(slots).len() ==> list@[j] == index,
{
    lemma_first_slot(bond_entries(slots), index, 0, j);
}

/// A bond that the host removed leaves its slot: the application is told to
/// clear its storage, and the status 0. Where the slot is free, or the host did
/// not remove the bond, nothing changes and the status is -1.
pub proof fn law_bond_is_deleted(
    cb: RuntimeBleCallbacks,
    slots: &mut BondSlots,
    index: u8,
    removed: bool,
    r: Vec<Emit<Vec<u8>>>,
    j: int,
)
    requires
        call_ensures(bond_deleted, (&cb, slots, index, removed), r),
        0 <= j <= bond_entries(*old(slots)).len(),
        forall|k: int| 0 <= k < j ==> (#[trigger] bond_entries(*old(slots))[k]).1 != index,
        j < bond_entries(*old(slots)).len() ==> bond_entries(*old(slots))[j].1 == index,
    ensures
        removed && j < bond_entries(*old(slots)).len() ==> {
            &&& bond_entries(*final(slots)) == bond_entries(*old(slots)).remove(j)
            &&& calls(r@) == told(cb.on_bond_store, Emit::BondClear { index }) + told(
                cb.on_bond_deleted,
                Emit::BondDeleted { index, status: 0 },
            )
        },
        !removed || j == bond_entries(*old(slots)).len() ==> {
            &&& bond_entries(*final(slots)) == bond_entries(*old(slots))
            &&& calls(r@) == told(cb.on_bond_deleted, Emit::BondDeleted { index, status: -1i8 })
        },
{
    lemma_first_slot(bond_entries(*old(slots)), index, 0, j);
}

} // verus!
