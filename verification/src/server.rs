//! The GATT server of a peripheral link: what a write or a read of the peer
//! means to the application, and what is sent for queued bytes.

use crate::bytes::{clip, clipped, u16_from_le};
use crate::config::{Build, RuntimeBleCallbacks};
use crate::emit::{call_when, called_if, calls, no_calls, only_when, Calls, Emit};
use crate::gatt::{
    any_bit, desc_metas, metas_of, CharEntry, CharHandles, DescMeta, GattIndex, GattPlan,
    C_PROP_INDICATE, C_PROP_NOTIFY,
};
use crate::runtime::{
    sendable, Model, Runtime, SendSlot, State, TxKind, TxTarget, RUNTIME_BLE_ERR_NO_MEM,
    RUNTIME_BLE_OK,
};
use vstd::prelude::*;

verus! {

/// What an attribute handle belongs to.
#[derive(Clone, Copy, Debug, PartialEq, Eq, Structural)]
pub enum Attribute {
    /// The value of the characteristic at a place.
    Value(usize),
    /// The client configuration of the characteristic at a place.
    Cccd(usize),
    /// A user-defined descriptor.
    Descriptor(DescMeta),
    /// None of these.
    Other,
}

/// The first characteristic, from place `i` on, that the handle belongs to.
pub open spec fn char_from(chars: Seq<CharEntry>, handle: u16, i: int) -> Option<Attribute>
    decreases chars.len() - i,
{
    if i < 0 || i >= chars.len() {
        None
    } else if chars[i].handle == handle {
        Some(Attribute::Value(i as usize))
    } else if chars[i].cccd == Some(handle) {
        Some(Attribute::Cccd(i as usize))
    } else {
        char_from(chars, handle, i + 1)
    }
}

/// The first characteristic, from place `i` on, whose value has the handle.
pub open spec fn value_from(chars: Seq<CharEntry>, handle: u16, i: int) -> Option<usize>
    decreases chars.len() - i,
{
    if i < 0 || i >= chars.len() {
        None
    } else if chars[i].handle == handle {
        Some(i as usize)
    } else {
        value_from(chars, handle, i + 1)
    }
}

/// The first descriptor, from `i` on, that has the handle.
pub open spec fn desc_from(descs: Seq<DescMeta>, handle: u16, i: int) -> Option<DescMeta>
    decreases descs.len() - i,
{
    if i < 0 || i >= descs.len() {
        None
    } else if descs[i].handle == handle {
        Some(descs[i])
    } else {
        desc_from(descs, handle, i + 1)
    }
}

/// What the handle of a write belongs to: characteristics go before
/// descriptors, earlier ones before later ones.
pub open spec fn attribute_of(index: GattIndex, handle: u16) -> Attribute {
    match char_from(index.chars@, handle, 0) {
        Some(a) => a,
        None => match desc_from(index.descriptors@, handle, 0) {
            Some(m) => Attribute::Descriptor(m),
            None => Attribute::Other,
        },
    }
}

/// The first descriptor that has the handle.
fn find_descriptor(descs: &Vec<DescMeta>, handle: u16) -> (r: Option<DescMeta>)
    ensures
        r == desc_from(descs@, handle, 0),
{
    let n: usize = descs.len();
    let mut i: usize = 0;
    while i < n
        invariant
            n == descs@.len(),
            i <= n,
            desc_from(descs@, handle, 0) == desc_from(descs@, handle, i as int),
        decreases n - i,
    {
        if descs[i].handle == handle {
            return Some(descs[i]);
        }
        i = i + 1;
    }
    None
}

/// What the handle of a write belongs to.
pub fn find_attribute(index: &GattIndex, handle: u16) -> (r: Attribute)
    ensures
        r == attribute_of(*index, handle),
{
    let n: usize = index.chars.len();
    let mut i: usize = 0;
    while i < n
        invariant
            n == index.chars@.len(),
            i <= n,
            char_from(index.chars@, handle, 0) == char_from(index.chars@, handle, i as int),
        decreases n - i,
    {
        let c: CharEntry = index.chars[i];
        if c.handle == handle {
            return Attribute::Value(i);
        }
        if let Some(cccd) = c.cccd {
            if cccd == handle {
                return Attribute::Cccd(i);
            }
        }
        i = i + 1;
    }
    match find_descriptor(&index.descriptors, handle) {
        Some(m) => Attribute::Descriptor(m),
        None => Attribute::Other,
    }
}

/// Bit `bit` of the client configuration that the bytes write: 1 where it is
/// set, 0 where it is not or there are fewer than two bytes.
pub open spec fn cccd_bit(data: Seq<u8>, bit: u16) -> u8 {
    if data.len() >= 2 && crate::bytes::from_le16(data[0], data[1]) & bit != 0 {
        1
    } else {
        0
    }
}

/// What the application is told of a write: at most as many bytes as a value
/// has room for, for what the handle belongs to. The built-in receive
/// characteristic reports to `on_data`, every other one to `on_write` and, with
/// the offset, to `on_write_ext`; descriptors report likewise.
pub open spec fn write_calls(
    build: Build,
    index: GattIndex,
    cb: RuntimeBleCallbacks,
    handle: u16,
    offset: u16,
    data: Seq<u8>,
) -> Calls {
    let d = clip(data, build.cap() as int);
    match attribute_of(index, handle) {
        Attribute::Value(i) => if index.nus_rx == Some(i) {
            called_if(cb.on_data, Emit::Data { data: d })
        } else {
            called_if(cb.on_write, Emit::Write { chr: i as u16, data: d }) + called_if(
                cb.on_write_ext,
                Emit::WriteExt { chr: i as u16, offset, data: d },
            )
        },
        Attribute::Cccd(i) => called_if(
            cb.on_subscription,
            Emit::Subscription {
                chr: i as u16,
                notify: cccd_bit(data, 0x0001),
                indicate: cccd_bit(data, 0x0002),
            },
        ),
        Attribute::Descriptor(m) => called_if(
            cb.on_descriptor_write,
            Emit::DescriptorWrite { handle: m.handle, chr: m.chr, desc: m.desc, data: d },
        ) + called_if(
            cb.on_descriptor_write_ext,
            Emit::DescriptorWriteExt {
                handle: m.handle,
                chr: m.chr,
                desc: m.desc,
                offset,
                data: d,
            },
        ),
        Attribute::Other => Calls::empty(),
    }
}

/// Bit `bit` of the client configuration that the bytes write.
fn read_cccd_bit(data: &[u8], bit: u16) -> (r: u8)
    ensures
        r == cccd_bit(data@, bit),
{
    if data.len() >= 2 {
        let cccd: u16 = u16_from_le(data[0], data[1]);
        if cccd & bit != 0 {
            return 1;
        }
    }
    0
}

/// What the application is told of a write.
pub fn on_write(
    build: &Build,
    index: &GattIndex,
    cb: &RuntimeBleCallbacks,
    handle: u16,
    offset: u16,
    data: &[u8],
) -> (r: Vec<Emit<Vec<u8>>>)
    ensures
        calls(r@) == write_calls(*build, *index, *cb, handle, offset, data@),
{
    match find_attribute(index, handle) {
        Attribute::Value(i) => {
            let chr: u16 = i as u16;
            let is_rx: bool = match index.nus_rx {
                Some(rx) => rx == i,
                None => false,
            };
            if is_rx {
                only_when(cb.on_data, Emit::Data { data: clipped(data, build.value_len()) })
            } else {
                let mut list = only_when(
                    cb.on_write,
                    Emit::Write { chr, data: clipped(data, build.value_len()) },
                );
                call_when(
                    &mut list,
                    cb.on_write_ext,
                    Emit::WriteExt { chr, offset, data: clipped(data, build.value_len()) },
                );
                list
            }
        },
        Attribute::Cccd(i) => only_when(
            cb.on_subscription,
            Emit::Subscription {
                chr: i as u16,
                notify: read_cccd_bit(data, 0x0001),
                indicate: read_cccd_bit(data, 0x0002),
            },
        ),
        Attribute::Descriptor(m) => {
            let mut list = only_when(
                cb.on_descriptor_write,
                Emit::DescriptorWrite {
                    handle: m.handle,
                    chr: m.chr,
                    desc: m.desc,
                    data: clipped(data, build.value_len()),
                },
            );
            call_when(
                &mut list,
                cb.on_descriptor_write_ext,
                Emit::DescriptorWriteExt {
                    handle: m.handle,
                    chr: m.chr,
                    desc: m.desc,
                    offset,
                    data: clipped(data, build.value_len()),
                },
            );
            list
        },
        Attribute::Other => no_calls(),
    }
}

/// Where the answer to a read comes from.
#[derive(Clone, Copy, Debug, PartialEq, Eq, Structural)]
pub enum ReadSource {
    /// From the application, for the characteristic at a place.
    Characteristic(u16),
    /// From the application, for a descriptor.
    Descriptor(DescMeta),
    /// From the attribute table.
    Table,
}

/// Where the answer to a read comes from: the application where it takes reads
/// of what the handle belongs to, the attribute table otherwise.
pub open spec fn read_source(
    index: GattIndex,
    cb: RuntimeBleCallbacks,
    handle: u16,
) -> ReadSource {
    match value_from(index.chars@, handle, 0) {
        Some(i) => if cb.on_read_value {
            ReadSource::Characteristic(i as u16)
        } else {
            ReadSource::Table
        },
        None => match desc_from(index.descriptors@, handle, 0) {
            Some(m) if cb.on_descriptor_read_value => ReadSource::Descriptor(m),
            _ => ReadSource::Table,
        },
    }
}

/// Where the answer to a read comes from.
pub fn on_read(index: &GattIndex, cb: &RuntimeBleCallbacks, handle: u16) -> (r: ReadSource)
    ensures
        r == read_source(*index, *cb, handle),
{
    let n: usize = index.chars.len();
    let mut i: usize = 0;
    while i < n
        invariant
            n == index.chars@.len(),
            i <= n,
            value_from(index.chars@, handle, 0) == value_from(index.chars@, handle, i as int),
        decreases n - i,
    {
        if index.chars[i].handle == handle {
            if cb.on_read_value {
                return ReadSource::Characteristic(i as u16);
            } else {
                return ReadSource::Table;
            }
        }
        i = i + 1;
    }
    match find_descriptor(&index.descriptors, handle) {
        Some(m) => if cb.on_descriptor_read_value {
            ReadSource::Descriptor(m)
        } else {
            ReadSource::Table
        },
        None => ReadSource::Table,
    }
}

/// How many bytes of the value buffer answer a read, where the application
/// says that it wrote `n`.
pub fn read_answer_len(build: &Build, n: usize) -> (r: usize)
    ensures
        r == if n < build.cap() {
            n
        } else {
            build.cap()
        },
{
    let cap: usize = build.value_len();
    if n < cap {
        n
    } else {
        cap
    }
}

/// What is sent for queued bytes, with the bytes in `B`.
#[derive(Debug, PartialEq, Eq)]
#[allow(inconsistent_fields)]
pub enum TxAction<B> {
    /// No bytes are queued.
    Idle,
    /// The characteristic does not exist or cannot send them.
    Dropped,
    /// A notification of the characteristic at a place.
    Notify { chr: usize, data: B },
    /// An indication of the characteristic at a place.
    Indicate { chr: usize, data: B },
}

impl View for TxAction<Vec<u8>> {
    type V = TxAction<Seq<u8>>;

    open spec fn view(&self) -> TxAction<Seq<u8>> {
        match *self {
            TxAction::Idle => TxAction::Idle,
            TxAction::Dropped => TxAction::Dropped,
            TxAction::Notify { chr, data } => TxAction::Notify { chr, data: data@ },
            TxAction::Indicate { chr, data } => TxAction::Indicate { chr, data: data@ },
        }
    }
}

/// The place of the characteristic that queued bytes go to, where it exists.
pub open spec fn target_place(index: GattIndex, target: TxTarget) -> Option<usize> {
    let place = match target {
        TxTarget::Nus => index.nus_tx,
        TxTarget::Chr(c) => Some(c as usize),
    };
    match place {
        Some(i) if i < index.chars@.len() => Some(i),
        _ => None,
    }
}

/// The properties of the characteristic at a place; none where none are known.
pub open spec fn props_at(index: GattIndex, i: usize) -> u16 {
    if i < index.props@.len() {
        index.props@[i as int]
    } else {
        0
    }
}

/// What is sent for queued bytes: at most as many as a value holds, as a
/// notification where that is asked for or left open and supported, else as an
/// indication where that is supported.
pub open spec fn tx_action(
    build: Build,
    index: GattIndex,
    send: SendSlot<Seq<u8>>,
) -> TxAction<Seq<u8>> {
    let data = clip(send.data, build.cap() as int);
    if !send.pending {
        TxAction::Idle
    } else {
        match target_place(index, send.target) {
            None => TxAction::Dropped,
            Some(chr) => if send.kind is Auto && any_bit(props_at(index, chr), C_PROP_NOTIFY) {
                TxAction::Notify { chr, data }
            } else if any_bit(props_at(index, chr), C_PROP_INDICATE) {
                TxAction::Indicate { chr, data }
            } else {
                TxAction::Dropped
            },
        }
    }
}

impl State<Seq<u8>> {
    /// The state after queued bytes were taken.
    pub open spec fn tx_taken(self) -> Model {
        State { send: SendSlot { pending: false, ..self.send }, ..self }
    }
}

/// Takes the queued bytes and says what is sent for them.
pub fn tx_step(rt: &mut Runtime, index: &GattIndex) -> (r: TxAction<Vec<u8>>)
    ensures
        r@ == tx_action(old(rt).build, *index, old(rt)@.send),
        final(rt)@ == old(rt)@.tx_taken(),
{
    if !rt.send.pending {
        return TxAction::Idle;
    }
    rt.send.pending = false;
    let chr: usize = match rt.send.target {
        TxTarget::Nus => match index.nus_tx {
            Some(i) => i,
            None => return TxAction::Dropped,
        },
        TxTarget::Chr(c) => c as usize,
    };
    if chr >= index.chars.len() {
        return TxAction::Dropped;
    }
    let props: u16 = if chr < index.props.len() {
        index.props[chr]
    } else {
        0
    };
    let data = clipped(rt.send.data.as_slice(), rt.build.value_len());
    match rt.send.kind {
        TxKind::Auto => {
            if props & C_PROP_NOTIFY != 0 {
                return TxAction::Notify { chr, data };
            }
        },
        TxKind::Indicate => {},
    }
    assert(0u16 & 0x08 == 0 && 0u16 & 0x10 == 0) by (bit_vector);
    if props & C_PROP_INDICATE != 0 {
        TxAction::Indicate { chr, data }
    } else {
        TxAction::Dropped
    }
}

/// Bytes that were queued for a characteristic are sent to that characteristic
/// by the next step: as many as a value holds, as a notification where it
/// can notify and the application left the choice open, as an indication where
/// it can only indicate or the application asked for one; otherwise they are
/// dropped. Bytes for a characteristic that does not exist are dropped.
pub proof fn law_queued_bytes_are_sent(
    m: Model,
    index: GattIndex,
    chr: u16,
    kind: TxKind,
    data: Seq<u8>,
)
    requires
        m.queue(TxTarget::Chr(chr), kind, Some(data)).1 == RUNTIME_BLE_OK,
        index.props@.len() == index.chars@.len(),
    ensures
        ({
            let queued = m.queue(TxTarget::Chr(chr), kind, Some(data)).0;
            let sent = tx_action(m.build, index, queued.send);
            let first = clip(data, m.build.cap() as int);
            if chr >= index.chars@.len() {
                sent == TxAction::<Seq<u8>>::Dropped
            } else {
                let notify = kind is Auto && any_bit(index.props@[chr as int], C_PROP_NOTIFY);
                let indicate = any_bit(index.props@[chr as int], C_PROP_INDICATE);
                &&& notify ==> sent == (TxAction::Notify { chr: chr as usize, data: first })
                &&& !notify && indicate ==> sent == (TxAction::Indicate {
                    chr: chr as usize,
                    data: first,
                })
                &&& !notify && !indicate ==> sent == TxAction::<Seq<u8>>::Dropped
            }
        }),
{
}

/// Bytes that were queued for the built-in service are sent as a notification
/// of its transmit characteristic where the table is the built-in one, and are
/// dropped where the application declared its own services.
pub proof fn law_uart_bytes_are_notified(
    m: Model,
    plan: GattPlan,
    services: Option<Vec<crate::config::RuntimeBleServiceDef>>,
    handles: Seq<CharHandles>,
    index: GattIndex,
    data: Seq<u8>,
)
    requires
        plan.builds(services, m.build.cap()),
        crate::gatt::handles_fit(plan.services@, handles),
        index.indexes(plan, handles),
        m.queue(TxTarget::Nus, TxKind::Auto, Some(data)).1 == RUNTIME_BLE_OK,
    ensures
        tx_action(m.build, index, m.queue(TxTarget::Nus, TxKind::Auto, Some(data)).0.send) == (
        if crate::config::service_defs(services).len() == 0 {
            TxAction::Notify { chr: 1usize, data: clip(data, m.build.cap() as int) }
        } else {
            TxAction::Dropped
        }),
{
    if crate::config::service_defs(services).len() == 0 {
        let s = plan.services@;
        reveal_with_fuel(crate::gatt::flat_chars, 2);
        assert(s.drop_last() =~= Seq::<crate::gatt::ServicePlan>::empty());
        assert(crate::gatt::flat_chars(s) =~= s[0].chars@);
        assert(index.props@[1] == crate::gatt::flat_chars(s)[1].props);
        assert(0x08u16 & 0x08u16 != 0) by (bit_vector);
    }
}

/// The slot holds one set of bytes: between a call that queued bytes and the
/// step that takes them, every further call that queues bytes is refused and
/// changes nothing; after that step the next such call is accepted.
pub proof fn law_one_set_of_bytes(
    m: Model,
    target: TxTarget,
    kind: TxKind,
    data: Seq<u8>,
    target2: TxTarget,
    kind2: TxKind,
    data2: Seq<u8>,
)
    requires
        sendable(Some(data2)),
        m.queue(target, kind, Some(data)).1 == RUNTIME_BLE_OK,
    ensures
        ({
            let queued = m.queue(target, kind, Some(data)).0;
            &&& queued.queue(target2, kind2, Some(data2)) == (queued, RUNTIME_BLE_ERR_NO_MEM)
            &&& queued.tx_taken().queue(target2, kind2, Some(data2)).1 == RUNTIME_BLE_OK
            &&& queued.started().queue(target2, kind2, Some(data2)).1 == RUNTIME_BLE_OK
        }),
{
}

/// What the peer writes to the receive characteristic of the built-in service
/// reaches the application through `on_data` alone.
pub proof fn law_uart_writes_reach_on_data(
    build: Build,
    index: GattIndex,
    cb: RuntimeBleCallbacks,
    handle: u16,
    offset: u16,
    data: Seq<u8>,
)
    requires
        index.nus_rx == Some(0usize),
        index.chars@.len() > 0,
        index.chars@[0].handle == handle,
        cb.on_data,
    ensures
        write_calls(build, index, cb, handle, offset, data) == seq![
            Emit::Data { data: clip(data, build.cap() as int) },
        ],
{
}

/// The handles of a characteristic: of its value, of its client configuration
/// where it has one, and of its descriptors.
pub open spec fn attr_handles(h: CharHandles) -> Seq<u16> {
    seq![h.value] + (match h.cccd {
        Some(c) => seq![c],
        None => Seq::empty(),
    }) + h.descriptors@
}

/// No two attributes have the same handle.
pub open spec fn handles_distinct(handles: Seq<CharHandles>) -> bool {
    forall|i: int, a: int, j: int, b: int|
        #![trigger attr_handles(handles[i])[a], attr_handles(handles[j])[b]]
        0 <= i < handles.len() && 0 <= a < attr_handles(handles[i]).len() && 0 <= j < handles.len()
            && 0 <= b < attr_handles(handles[j]).len() && attr_handles(handles[i])[a]
            == attr_handles(handles[j])[b] ==> i == j && a == b
}

/// In a table without shared handles, every handle names its attribute: that
/// of a value or of a client configuration the place of the characteristic in
/// declaration order, that of a descriptor also its own place in the
/// characteristic. Writes are reported, and reads answered, under these names.
pub proof fn law_handles_name_their_attribute(
    plan: GattPlan,
    handles: Seq<CharHandles>,
    index: GattIndex,
    cb: RuntimeBleCallbacks,
    i: int,
    j: int,
)
    requires
        index.indexes(plan, handles),
        handles_distinct(handles),
        0 <= i < handles.len() <= 0x1_0000,
    ensures
        attribute_of(index, handles[i].value) == Attribute::Value(i as usize),
        cb.on_read_value ==> read_source(index, cb, handles[i].value)
            == ReadSource::Characteristic(i as u16),
        handles[i].cccd matches Some(c) ==> attribute_of(index, c) == Attribute::Cccd(i as usize),
        0 <= j < handles[i].descriptors@.len() ==> ({
            let handle = handles[i].descriptors@[j];
            let meta = DescMeta {
                handle,
                chr: i as u16,
                desc: if j <= 255 {
                    j as u8
                } else {
                    255
                },
            };
            &&& attribute_of(index, handle) == Attribute::Descriptor(meta)
            &&& cb.on_descriptor_read_value ==> read_source(index, cb, handle)
                == ReadSource::Descriptor(meta)
        }),
{
    let n = handles.len() as int;
    let value = handles[i].value;
    assert(attr_handles(handles[i])[0] == value);
    assert forall|m: int| 0 <= m < i implies index.chars@[m].handle != value && index.chars@[m].cccd
        != Some(value) by {
        lemma_other_handle(handles, i, 0, m);
    }
    lemma_char_from(index.chars@, value, 0, i);
    lemma_value_from(index.chars@, value, 0, i);
    assert(index.chars@[i].handle == value);
    if let Some(c) = handles[i].cccd {
        assert(attr_handles(handles[i])[1] == c);
        assert forall|m: int| 0 <= m < i implies index.chars@[m].handle != c && index.chars@[m].cccd
            != Some(c) by {
            lemma_other_handle(handles, i, 1, m);
        }
        lemma_char_from(index.chars@, c, 0, i);
        assert(attr_handles(handles[i])[0] != attr_handles(handles[i])[1]);
        assert(index.chars@[i].handle != c);
    }
    if 0 <= j < handles[i].descriptors@.len() {
        let handle = handles[i].descriptors@[j];
        let a: int = if handles[i].cccd is Some {
            j + 2
        } else {
            j + 1
        };
        assert(attr_handles(handles[i])[a] == handle);
        assert forall|m: int| 0 <= m < n implies index.chars@[m].handle != handle
            && index.chars@[m].cccd != Some(handle) by {
            if m != i {
                lemma_other_handle(handles, i, a, m);
            } else {
                assert(attr_handles(handles[i])[0] != attr_handles(handles[i])[a]);
                if handles[i].cccd is Some {
                    assert(attr_handles(handles[i])[1] != attr_handles(handles[i])[a]);
                }
            }
        }
        lemma_char_from(index.chars@, handle, 0, n);
        lemma_value_from(index.chars@, handle, 0, n);
        lemma_desc_found(handles, n, i, j);
    }
}

/// The handle `a` of the characteristic at place `i` is not one of the value
/// or the client configuration of another.
proof fn lemma_other_handle(handles: Seq<CharHandles>, i: int, a: int, m: int)
    requires
        handles_distinct(handles),
        0 <= i < handles.len(),
        0 <= a < attr_handles(handles[i]).len(),
        0 <= m < handles.len(),
        m != i,
    ensures
        handles[m].value != attr_handles(handles[i])[a],
        handles[m].cccd != Some(attr_handles(handles[i])[a]),
{
    assert(attr_handles(handles[m])[0] == handles[m].value);
    if let Some(c) = handles[m].cccd {
        assert(attr_handles(handles[m])[1] == c);
    }
}

proof fn lemma_char_from(chars: Seq<CharEntry>, handle: u16, k: int, i: int)
    requires
        0 <= k <= i <= chars.len(),
        forall|m: int|
            k <= m < i ==> (#[trigger] chars[m]).handle != handle && chars[m].cccd != Some(handle),
    ensures
        char_from(chars, handle, k) == char_from(chars, handle, i),
    decreases i - k,
{
    if k < i {
        assert(chars[k].handle != handle);
        lemma_char_from(chars, handle, k + 1, i);
    }
}

proof fn lemma_value_from(chars: Seq<CharEntry>, handle: u16, k: int, i: int)
    requires
        0 <= k <= i <= chars.len(),
        forall|m: int| k <= m < i ==> (#[trigger] chars[m]).handle != handle,
    ensures
        value_from(chars, handle, k) == value_from(chars, handle, i),
    decreases i - k,
{
    if k < i {
        assert(chars[k].handle != handle);
        lemma_value_from(chars, handle, k + 1, i);
    }
}

proof fn lemma_desc_from(descs: Seq<DescMeta>, handle: u16, k: int, i: int)
    requires
        0 <= k <= i <= descs.len(),
        forall|m: int| k <= m < i ==> (#[trigger] descs[m]).handle != handle,
    ensures
        desc_from(descs, handle, k) == desc_from(descs, handle, i),
    decreases i - k,
{
    if k < i {
        assert(descs[k].handle != handle);
        lemma_desc_from(descs, handle, k + 1, i);
    }
}

/// A descriptor that is found stays found when others are added behind.
proof fn lemma_desc_from_prefix(a: Seq<DescMeta>, b: Seq<DescMeta>, handle: u16, k: int)
    requires
        0 <= k,
        desc_from(a, handle, k) is Some,
    ensures
        desc_from(a + b, handle, k) == desc_from(a, handle, k),
    decreases a.len() - k,
{
    if k < a.len() && a[k].handle != handle {
        lemma_desc_from_prefix(a, b, handle, k + 1);
    }
}

proof fn lemma_desc_absent(handles: Seq<CharHandles>, n: int, handle: u16)
    requires
        0 <= n <= handles.len(),
        forall|i: int, j: int|
            0 <= i < n && 0 <= j < handles[i].descriptors@.len()
                ==> #[trigger] handles[i].descriptors@[j] != handle,
    ensures
        forall|p: int|
            0 <= p < desc_metas(handles, n).len() ==> (#[trigger] desc_metas(handles, n)[p]).handle
                != handle,
    decreases n,
{
    if n > 0 {
        lemma_desc_absent(handles, n - 1, handle);
        let before = desc_metas(handles, n - 1);
        assert forall|p: int| 0 <= p < desc_metas(handles, n).len() implies (#[trigger] desc_metas(
            handles,
            n,
        )[p]).handle != handle by {
            if p < before.len() {
                assert(before[p].handle != handle);
            } else {
                assert(handles[n - 1].descriptors@[p - before.len()] != handle);
            }
        }
    }
}

/// The descriptor at place `j` of the characteristic at place `i` is found by
/// its handle among the descriptors of the first `n` characteristics.
proof fn lemma_desc_found(handles: Seq<CharHandles>, n: int, i: int, j: int)
    requires
        handles_distinct(handles),
        0 <= i < n <= handles.len(),
        0 <= j < handles[i].descriptors@.len(),
    ensures
        desc_from(desc_metas(handles, n), handles[i].descriptors@[j], 0) == Some(
            metas_of(handles[i].descriptors@, i)[j],
        ),
    decreases n,
{
    let handle = handles[i].descriptors@[j];
    let before = desc_metas(handles, n - 1);
    let own = metas_of(handles[n - 1].descriptors@, n - 1);
    if i < n - 1 {
        lemma_desc_found(handles, n - 1, i, j);
        lemma_desc_from_prefix(before, own, handle, 0);
    } else {
        let skip: int = if handles[i].cccd is Some {
            2
        } else {
            1
        };
        assert(attr_handles(handles[i])[skip + j] == handle);
        assert forall|k: int, l: int|
            0 <= k < n - 1 && 0 <= l < handles[k].descriptors@.len() implies
            #[trigger] handles[k].descriptors@[l] != handle by {
            let s: int = if handles[k].cccd is Some {
                2
            } else {
                1
            };
            assert(attr_handles(handles[k])[s + l] == handles[k].descriptors@[l]);
        }
        lemma_desc_absent(handles, n - 1, handle);
        let all = before + own;
        let at = before.len() + j;
        assert forall|m: int| 0 <= m < at implies (#[trigger] all[m]).handle != handle by {
            if m < before.len() {
                assert(before[m].handle != handle);
            } else {
                let l = m - before.len();
                assert(attr_handles(handles[i])[skip + l] == handles[i].descriptors@[l]);
            }
        }
        lemma_desc_from(all, handle, 0, at as int);
        assert(all[at as int] == own[j]);
    }
}

} // verus!
