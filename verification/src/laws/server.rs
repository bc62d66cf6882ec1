//! The GATT server of a link: under which names what the peer writes, reads and
//! subscribes to reaches the application, and what is sent for queued bytes.

use crate::config::{Build, RuntimeBleCallbacks};
use crate::emit::{calls, Calls, Emit};
use crate::gatt::{index_gatt, plan_gatt, CharHandles, GattIndex, GattPlan};
use crate::laws::gatt::listed;
use crate::runtime::{
    runtime_ble_indicate, runtime_ble_notify, runtime_ble_send, Runtime, TxTarget,
};
use crate::server::{
    find_attribute, handles_distinct, law_handles_name_their_attribute, on_read, on_write,
    read_answer_len, tx_step, Attribute, ReadSource, TxAction,
};
use vstd::prelude::*;

verus! {

/// The first bytes of `data`, at most as many as there is room for.
pub open spec fn fitting(data: Seq<u8>, room: usize) -> Seq<u8> {
    if data.len() > room {
        data.take(room as int)
    } else {
        data
    }
}

/// One call where a callback is installed, none where it is not.
pub open spec fn told(installed: bool, call: Emit<Seq<u8>>) -> Calls {
    if installed {
        seq![call]
    } else {
        seq![]
    }
}

/// A write to the value of a characteristic is reported under its place in
/// declaration order, through each installed callback for writes; the first
/// characteristic of the built-in service reports through `on_data` alone.
pub proof fn law_write_names_its_characteristic(
    build: Build,
    room: usize,
    plan: GattPlan,
    handles: Vec<CharHandles>,
    index: GattIndex,
    cb: RuntimeBleCallbacks,
    offset: u16,
    data: &[u8],
    i: int,
    r: Vec<Emit<Vec<u8>>>,
)
    requires
        call_ensures(Build::value_len, (&build,), room),
        call_ensures(index_gatt, (&plan, &handles), Some(index)),
        handles_distinct(handles@),
        0 <= i < handles@.len() <= 0x1_0000,
        call_ensures(on_write, (&build, &index, &cb, handles@[i].value, offset, data), r),
    ensures
        ({
            let d = fitting(data@, room);
            &&& plan.builtin && i == 0 ==> calls(r@) == told(cb.on_data, Emit::Data { data: d })
            &&& !(plan.builtin && i == 0) ==> calls(r@) == told(
                cb.on_write,
                Emit::Write { chr: i as u16, data: d },
            ) + told(cb.on_write_ext, Emit::WriteExt { chr: i as u16, offset, data: d })
        }),
{
    law_handles_name_their_attribute(plan, handles@, index, cb, i, 0);
}

/// Writes to two characteristics are never reported under the same place.
pub proof fn law_writes_are_told_apart(
    build: Build,
    plan: GattPlan,
    handles: Vec<CharHandles>,
    index: GattIndex,
    cb: RuntimeBleCallbacks,
    data: &[u8],
    i: int,
    j: int,
    a: Vec<Emit<Vec<u8>>>,
    b: Vec<Emit<Vec<u8>>>,
)
    requires
        call_ensures(index_gatt, (&plan, &handles), Some(index)),
        handles_distinct(handles@),
        0 <= i < handles@.len() <= 0x1_0000,
        0 <= j < handles@.len(),
        i != j,
        !plan.builtin,
        cb.on_write,
        call_ensures(on_write, (&build, &index, &cb, handles@[i].value, 0, data), a),
        call_ensures(on_write, (&build, &index, &cb, handles@[j].value, 0, data), b),
    ensures
        calls(a@).len() > 0,
        calls(b@).len() > 0,
        calls(a@)[0] != calls(b@)[0],
{
    law_handles_name_their_attribute(plan, handles@, index, cb, i, 0);
    law_handles_name_their_attribute(plan, handles@, index, cb, j, 0);
}

/// A write to the client configuration of a characteristic is reported as a
/// subscription to it: bit 0 of the first byte is for notifications and bit 1
/// for indications, of a write of at least two bytes.
pub proof fn law_subscription_names_its_characteristic(
    build: Build,
    plan: GattPlan,
    handles: Vec<CharHandles>,
    index: GattIndex,
    cb: RuntimeBleCallbacks,
    offset: u16,
    data: &[u8],
    i: int,
    r: Vec<Emit<Vec<u8>>>,
)
    requires
        call_ensures(index_gatt, (&plan, &handles), Some(index)),
        handles_distinct(handles@),
        0 <= i < handles@.len() <= 0x1_0000,
        handles@[i].cccd is Some,
        call_ensures(on_write, (&build, &index, &cb, handles@[i].cccd->0, offset, data), r),
    ensures
        calls(r@) == told(
            cb.on_subscription,
            Emit::Subscription {
                chr: i as u16,
                notify: if data@.len() >= 2 && data@[0] % 2 == 1 {
                    1
                } else {
                    0
                },
                indicate: if data@.len() >= 2 && (data@[0] / 2) % 2 == 1 {
                    1
                } else {
                    0
                },
            },
        ),
{
    law_handles_name_their_attribute(plan, handles@, index, cb, i, 0);
    if data@.len() >= 2 {
        let low = data@[0];
        let high = data@[1];
        let v = crate::bytes::from_le16(low, high);
        assert(v == low + 256 * high);
        assert(v % 2 == low % 2 && (v / 2) % 2 == (low / 2) % 2);
        assert(v & 0x0001 == v % 2 && (v & 0x0002 != 0) == ((v / 2) % 2 == 1)) by (bit_vector);
    }
}

/// A write to a descriptor is reported with its handle, the place of its
/// characteristic and its own place in that.
pub proof fn law_write_names_its_descriptor(
    build: Build,
    room: usize,
    plan: GattPlan,
    handles: Vec<CharHandles>,
    index: GattIndex,
    cb: RuntimeBleCallbacks,
    offset: u16,
    data: &[u8],
    i: int,
    j: int,
    r: Vec<Emit<Vec<u8>>>,
)
    requires
        call_ensures(Build::value_len, (&build,), room),
        call_ensures(index_gatt, (&plan, &handles), Some(index)),
        handles_distinct(handles@),
        0 <= i < handles@.len() <= 0x1_0000,
        0 <= j < handles@[i].descriptors@.len() <= 256,
        call_ensures(
            on_write,
            (&build, &index, &cb, handles@[i].descriptors@[j], offset, data),
            r,
        ),
    ensures
        ({
            let handle = handles@[i].descriptors@[j];
            let d = fitting(data@, room);
            calls(r@) == told(
                cb.on_descriptor_write,
                Emit::DescriptorWrite { handle, chr: i as u16, desc: j as u8, data: d },
            ) + told(
                cb.on_descriptor_write_ext,
                Emit::DescriptorWriteExt {
                    handle,
                    chr: i as u16,
                    desc: j as u8,
                    offset,
                    data: d,
                },
            )
        }),
{
    law_handles_name_their_attribute(plan, handles@, index, cb, i, j);
}

/// A write to a handle that no characteristic and no descriptor has is reported
/// to nobody, and a read of it is answered from the table.
pub proof fn law_unknown_handle_is_passed_over(
    build: Build,
    index: GattIndex,
    cb: RuntimeBleCallbacks,
    handle: u16,
    offset: u16,
    data: &[u8],
    r: Vec<Emit<Vec<u8>>>,
    source: ReadSource,
)
    requires
        forall|k: int|
            0 <= k < index.chars@.len() ==> (#[trigger] index.chars@[k]).handle != handle
                && index.chars@[k].cccd != Some(handle),
        forall|k: int|
            0 <= k < index.descriptors@.len() ==> (#[trigger] index.descriptors@[k]).handle
                != handle,
        call_ensures(on_write, (&build, &index, &cb, handle, offset, data), r),
        call_ensures(on_read, (&index, &cb, handle), source),
    ensures
        calls(r@).len() == 0,
        source is Table,
{
    lemma_no_char(index, handle, 0);
    lemma_no_desc(index, handle, 0);
}

proof fn lemma_no_char(index: GattIndex, handle: u16, i: int)
    requires
        0 <= i,
        forall|k: int|
            0 <= k < index.chars@.len() ==> (#[trigger] index.chars@[k]).handle != handle
                && index.chars@[k].cccd != Some(handle),
    ensures
        crate::server::char_from(index.chars@, handle, i) is None,
        crate::server::value_from(index.chars@, handle, i) is None,
    decreases index.chars@.len() - i,
{
    if i < index.chars@.len() {
        assert(index.chars@[i].handle != handle);
        lemma_no_char(index, handle, i + 1);
    }
}

proof fn lemma_no_desc(index: GattIndex, handle: u16, i: int)
    requires
        0 <= i,
        forall|k: int|
            0 <= k < index.descriptors@.len() ==> (#[trigger] index.descriptors@[k]).handle
                != handle,
    ensures
        crate::server::desc_from(index.descriptors@, handle, i) is None,
    decreases index.descriptors@.len() - i,
{
    if i < index.descriptors@.len() {
        assert(index.descriptors@[i].handle != handle);
        lemma_no_desc(index, handle, i + 1);
    }
}

/// The application answers reads of a characteristic under its place and of a
/// descriptor under its handle and places, where it takes such reads; every
/// other read is answered from the table.
pub proof fn law_read_names_its_attribute(
    plan: GattPlan,
    handles: Vec<CharHandles>,
    index: GattIndex,
    cb: RuntimeBleCallbacks,
    i: int,
    j: int,
    value: ReadSource,
    desc: ReadSource,
)
    requires
        call_ensures(index_gatt, (&plan, &handles), Some(index)),
        handles_distinct(handles@),
        0 <= i < handles@.len() <= 0x1_0000,
        0 <= j < handles@[i].descriptors@.len() <= 256,
        call_ensures(on_read, (&index, &cb, handles@[i].value), value),
        call_ensures(on_read, (&index, &cb, handles@[i].descriptors@[j]), desc),
    ensures
        cb.on_read_value ==> value == ReadSource::Characteristic(i as u16),
        !cb.on_read_value ==> value is Table,
        cb.on_descriptor_read_value ==> (desc matches ReadSource::Descriptor(m) && m.handle
            == handles@[i].descriptors@[j] && m.chr == i && m.desc == j),
        !cb.on_descriptor_read_value ==> desc is Table,
{
    let all = RuntimeBleCallbacks { on_read_value: true, on_descriptor_read_value: true, ..cb };
    law_handles_name_their_attribute(plan, handles@, index, cb, i, j);
    law_handles_name_their_attribute(plan, handles@, index, all, i, j);
}

/// A handle names what it belongs to.
pub proof fn law_attribute_has_the_handle(index: GattIndex, handle: u16, r: Attribute)
    requires
        call_ensures(find_attribute, (&index, handle), r),
    ensures
        r matches Attribute::Value(i) ==> i < index.chars@.len() && index.chars@[i as int].handle
            == handle,
        r matches Attribute::Cccd(i) ==> i < index.chars@.len() && index.chars@[i as int].cccd
            == Some(handle),
        r matches Attribute::Descriptor(m) ==> m.handle == handle
            && index.descriptors@.contains(m),
{
    lemma_char_has(index, handle, 0);
    lemma_desc_has(index, handle, 0);
}

proof fn lemma_char_has(index: GattIndex, handle: u16, i: int)
    requires
        0 <= i,
    ensures
        crate::server::char_from(index.chars@, handle, i) matches Some(Attribute::Value(k)) ==> k
            < index.chars@.len() && index.chars@[k as int].handle == handle,
        crate::server::char_from(index.chars@, handle, i) matches Some(Attribute::Cccd(k)) ==> k
            < index.chars@.len() && index.chars@[k as int].cccd == Some(handle),
        !(crate::server::char_from(index.chars@, handle, i) matches Some(
            Attribute::Descriptor(_),
        )),
    decreases index.chars@.len() - i,
{
    assert(index.chars.len() == index.chars@.len());
    if i < index.chars@.len() {
        lemma_char_has(index, handle, i + 1);
    }
}

proof fn lemma_desc_has(index: GattIndex, handle: u16, i: int)
    requires
        0 <= i,
    ensures
        crate::server::desc_from(index.descriptors@, handle, i) matches Some(m) ==> m.handle
            == handle && index.descriptors@.contains(m),
    decreases index.descriptors@.len() - i,
{
    if i < index.descriptors@.len() {
        lemma_desc_has(index, handle, i + 1);
    }
}

/// A read is answered with as many bytes as the application wrote, at most as
/// many as a value holds.
pub proof fn law_answer_fits(build: Build, room: usize, n: usize, r: usize)
    requires
        call_ensures(Build::value_len, (&build,), room),
        call_ensures(read_answer_len, (&build, n), r),
    ensures
        r <= n,
        r <= room,
        r == n || r == room,
{
}

/// Bytes that were accepted for a characteristic are sent to that
/// characteristic by the next step: by notification where its properties have
/// bit 0x08, unless an indication was asked for, else by indication where they
/// have bit 0x10. Nothing is sent where it does not exist or can do neither,
/// and nothing twice.
pub proof fn law_bytes_reach_the_named_characteristic(
    rt: &mut Runtime,
    chr: u16,
    data: &[u8],
    indicate: bool,
    r: i32,
    room: usize,
    next: &mut Runtime,
    index: GattIndex,
    sent: TxAction<Vec<u8>>,
)
    requires
        indicate ==> call_ensures(runtime_ble_indicate, (rt, chr, Some(data)), r),
        !indicate ==> call_ensures(runtime_ble_notify, (rt, chr, Some(data)), r),
        r == 0,
        old(next)@ == final(rt)@,
        call_ensures(Build::value_len, (&old(rt).build,), room),
        index.props@.len() == index.chars@.len(),
        call_ensures(tx_step, (next, &index), sent),
    ensures
        !final(next).send.pending,
        chr >= index.chars@.len() ==> sent@ is Dropped,
        chr < index.chars@.len() ==> ({
            let props = index.props@[chr as int];
            let d = fitting(data@, room);
            &&& !indicate && props & 0x08 != 0 ==> sent@ == (TxAction::Notify {
                chr: chr as usize,
                data: d,
            })
            &&& (indicate || props & 0x08 == 0) && props & 0x10 != 0 ==> sent@ == (
            TxAction::Indicate { chr: chr as usize, data: d })
            &&& (indicate || props & 0x08 == 0) && props & 0x10 == 0 ==> sent@ is Dropped
        }),
{
}

/// Bytes that were accepted for the built-in service are sent as a notification
/// of its second characteristic, and of nothing else.
pub proof fn law_uart_bytes_reach_the_second_characteristic(
    rt: &mut Runtime,
    data: &[u8],
    r: i32,
    room: usize,
    next: &mut Runtime,
    cfg: crate::config::RuntimeCfg,
    plan: GattPlan,
    handles: Vec<CharHandles>,
    index: GattIndex,
    sent: TxAction<Vec<u8>>,
)
    requires
        call_ensures(runtime_ble_send, (rt, Some(data)), r),
        r == 0,
        old(next)@ == final(rt)@,
        call_ensures(Build::value_len, (&old(rt).build,), room),
        call_ensures(plan_gatt, (&old(rt).build, &cfg), plan),
        call_ensures(index_gatt, (&plan, &handles), Some(index)),
        call_ensures(tx_step, (next, &index), sent),
    ensures
        listed(cfg.services).len() == 0 ==> sent@ == (TxAction::Notify {
            chr: 1usize,
            data: fitting(data@, room),
        }),
        listed(cfg.services).len() > 0 ==> sent@ is Dropped,
{
    crate::server::law_uart_bytes_are_notified(
        old(rt)@,
        plan,
        cfg.services,
        handles@,
        index,
        data@,
    );
}

/// Bytes are accepted where there are 1 to 512 of them and none are queued:
/// none, too few or too many give -1 and a full queue -2, and what is refused
/// changes nothing. What is accepted is queued as it is.
pub proof fn law_bytes_are_accepted_where_there_is_room(
    rt: &mut Runtime,
    data: Option<&[u8]>,
    r: i32,
)
    requires
        call_ensures(runtime_ble_send, (rt, data), r),
    ensures
        ({
            let proper = data is Some && 1 <= data->0@.len() <= 512;
            &&& r == 0 <==> proper && !old(rt).send.pending
            &&& r == -1 <==> !proper
            &&& r == -2 <==> proper && old(rt).send.pending
            &&& r != 0 ==> final(rt)@ == old(rt)@
            &&& r == 0 ==> final(rt).send.pending && final(rt).send.data@ == data->0@
                && final(rt).send.target == TxTarget::Nus
        }),
{
}

/// The same of bytes for a characteristic, notified or indicated.
pub proof fn law_characteristic_bytes_are_accepted_where_there_is_room(
    rt: &mut Runtime,
    other: &mut Runtime,
    chr: u16,
    data: Option<&[u8]>,
    r: i32,
    s: i32,
)
    requires
        call_ensures(runtime_ble_notify, (rt, chr, data), r),
        old(other)@ == old(rt)@,
        call_ensures(runtime_ble_indicate, (other, chr, data), s),
    ensures
        ({
            let proper = data is Some && 1 <= data->0@.len() <= 512;
            &&& r == s
            &&& r == 0 <==> proper && !old(rt).send.pending
            &&& r == -1 <==> !proper
            &&& r == -2 <==> proper && old(rt).send.pending
            &&& r != 0 ==> final(rt)@ == old(rt)@ && final(other)@ == old(rt)@
            &&& r == 0 ==> final(rt).send.data@ == data->0@ && final(other).send.data@ == data->0@
        }),
{
}

} // verus!
