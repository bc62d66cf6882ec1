//! The GATT client: with what each request is carried out, and what the
//! application is told of it.

use crate::central::{
    central_cmd, central_write, runtime_ble_client_discover, runtime_ble_client_discover_all,
    runtime_ble_client_discover_descriptors, runtime_ble_client_discover_services,
    runtime_ble_client_read, runtime_ble_client_read_blob, runtime_ble_client_read_by_uuid,
    runtime_ble_client_read_descriptor, runtime_ble_client_read_descriptor_blob,
    runtime_ble_client_subscribe, runtime_ble_client_subscribe_indicate,
    runtime_ble_client_unsubscribe, runtime_ble_client_write,
    runtime_ble_client_write_descriptor, runtime_ble_client_write_no_rsp,
    runtime_ble_disconnect,
};
use crate::client::{
    cccd_from, central_link_step, client_step, emit_client_read, emit_client_status,
    empty_char_store, find_cccd, on_notification, report_char, report_descriptor, report_service,
    report_value, CentralAction, CentralEvent, ClientAction,
};
use crate::config::RuntimeBleCallbacks;
use crate::emit::{calls, Emit};
use crate::gatt::props_to_c;
use crate::host::{client_chars, ClientCharStore};
use crate::laws::server::{fitting, told};
use crate::runtime::{CentralCmd, CentralSlot, Model, Runtime, State};
use vstd::prelude::*;

verus! {

/// A request to the central role, sound or not in itself, was queued with the
/// result 0, refused with the result -1 where it is not sound or there is no
/// central role, or refused with the result -2 because one is queued. It changed
/// nothing but the slot of the central role, nothing at all where the result is
/// -1, and left the request that was queued first.
pub open spec fn central_queued(before: Model, after: Model, sound: bool, r: i32) -> bool {
    &&& r == -1 <==> !before.build.central || !sound
    &&& r == -2 <==> before.build.central && sound && before.central.cmd is Some
    &&& r == 0 <==> before.build.central && sound && before.central.cmd is None
    &&& r == -1 ==> after == before
    &&& r == -2 ==> after.central.cmd == before.central.cmd && after.central.handle
        == before.central.handle
    &&& after == (State { central: after.central, ..before })
}

/// A UUID of two or of sixteen bytes.
pub open spec fn two_or_sixteen(uuid: Option<&[u8]>) -> bool {
    uuid is Some && (uuid->0@.len() == 2 || uuid->0@.len() == 16)
}

/// Between one and 512 bytes.
pub open spec fn some_bytes(data: Option<&[u8]>) -> bool {
    data is Some && 1 <= data->0@.len() <= 512
}

/// A step takes the request to the central role and nothing else.
pub proof fn law_client_step_takes_the_request(
    rt: &mut Runtime,
    store: ClientCharStore,
    r: ClientAction<Vec<u8>>,
)
    requires
        call_ensures(client_step, (rt, &store), r),
    ensures
        final(rt)@.central == (CentralSlot { cmd: None, ..old(rt)@.central }),
        final(rt)@ == (State { central: final(rt)@.central, ..old(rt)@ }),
        old(rt).central.cmd is None ==> r@ is Idle,
        old(rt).central.cmd == Some(CentralCmd::ScanStart) ==> r@ is Idle,
        old(rt).central.cmd == Some(CentralCmd::ScanStop) ==> r@ is Idle,
        old(rt).central.cmd == Some(CentralCmd::Connect) ==> r@ is Idle,
{
}

/// A read is of the handle that it was asked for with; a descriptor is read
/// likewise.
pub proof fn law_read_is_of_the_handle(
    rt: &mut Runtime,
    descriptor: bool,
    handle: u16,
    r: i32,
    next: &mut Runtime,
    store: ClientCharStore,
    step: ClientAction<Vec<u8>>,
)
    requires
        descriptor ==> call_ensures(runtime_ble_client_read_descriptor, (rt, handle), r),
        !descriptor ==> call_ensures(runtime_ble_client_read, (rt, handle), r),
        old(next)@ == final(rt)@,
        call_ensures(client_step, (next, &store), step),
    ensures
        central_queued(old(rt)@, final(rt)@, true, r),
        r == 0 ==> step@ == (ClientAction::<Seq<u8>>::Read { handle }),
{
}

/// A long read is of the handle and from the offset that it was asked for with.
pub proof fn law_long_read_is_from_the_offset(
    rt: &mut Runtime,
    descriptor: bool,
    handle: u16,
    offset: u16,
    r: i32,
    next: &mut Runtime,
    store: ClientCharStore,
    step: ClientAction<Vec<u8>>,
)
    requires
        descriptor ==> call_ensures(
            runtime_ble_client_read_descriptor_blob,
            (rt, handle, offset),
            r,
        ),
        !descriptor ==> call_ensures(runtime_ble_client_read_blob, (rt, handle, offset), r),
        old(next)@ == final(rt)@,
        call_ensures(client_step, (next, &store), step),
    ensures
        central_queued(old(rt)@, final(rt)@, true, r),
        r == 0 ==> step@ == (ClientAction::<Seq<u8>>::ReadBlob { handle, offset }),
{
    crate::central::law_pack_round_trip(offset, handle);
}

/// A read by UUID is of the range and the UUID that it was asked for with; a
/// range is empty where it ends before its start, and starts above zero.
pub proof fn law_read_by_uuid_is_of_the_range(
    rt: &mut Runtime,
    start: u16,
    end: u16,
    uuid: Option<&[u8]>,
    r: i32,
    next: &mut Runtime,
    store: ClientCharStore,
    step: ClientAction<Vec<u8>>,
)
    requires
        call_ensures(runtime_ble_client_read_by_uuid, (rt, start, end, uuid), r),
        old(next)@ == final(rt)@,
        call_ensures(client_step, (next, &store), step),
    ensures
        central_queued(
            old(rt)@,
            final(rt)@,
            1 <= start && start <= end && two_or_sixteen(uuid),
            r,
        ),
        r == 0 ==> step@ == (ClientAction::ReadByUuid { start, end, uuid: uuid->0@ }),
{
    crate::central::law_pack_round_trip(start, end);
}

/// Descriptors are looked for in the range that was asked for.
pub proof fn law_descriptors_are_of_the_range(
    rt: &mut Runtime,
    start: u16,
    end: u16,
    r: i32,
    next: &mut Runtime,
    store: ClientCharStore,
    step: ClientAction<Vec<u8>>,
)
    requires
        call_ensures(runtime_ble_client_discover_descriptors, (rt, start, end), r),
        old(next)@ == final(rt)@,
        call_ensures(client_step, (next, &store), step),
    ensures
        central_queued(old(rt)@, final(rt)@, 1 <= start && start <= end, r),
        r == 0 ==> step@ == (ClientAction::<Seq<u8>>::DiscoverDescriptors { start, end }),
{
    crate::central::law_pack_round_trip(start, end);
}

/// Characteristics are looked for in the services of the UUID that was asked
/// for.
pub proof fn law_characteristics_are_of_the_service(
    rt: &mut Runtime,
    uuid: Option<&[u8]>,
    r: i32,
    next: &mut Runtime,
    store: ClientCharStore,
    step: ClientAction<Vec<u8>>,
)
    requires
        call_ensures(runtime_ble_client_discover, (rt, uuid), r),
        old(next)@ == final(rt)@,
        call_ensures(client_step, (next, &store), step),
    ensures
        central_queued(old(rt)@, final(rt)@, two_or_sixteen(uuid), r),
        r == 0 ==> step@ == (ClientAction::Discover { uuid: uuid->0@ }),
        r == 0 ==> final(rt).central.handle == 0,
{
}

/// Services, every characteristic and the end of the link are what was asked
/// for; the three requests are made on three states.
pub proof fn law_plain_client_requests(
    a: &mut Runtime,
    b: &mut Runtime,
    c: &mut Runtime,
    ra: i32,
    rb: i32,
    rc: i32,
    next: &mut Runtime,
    store: ClientCharStore,
    step: ClientAction<Vec<u8>>,
)
    requires
        call_ensures(runtime_ble_client_discover_services, (a,), ra),
        call_ensures(runtime_ble_client_discover_all, (b,), rb),
        call_ensures(runtime_ble_disconnect, (c,), rc),
        call_ensures(client_step, (next, &store), step),
    ensures
        central_queued(old(a)@, final(a)@, true, ra),
        ra == 0 && old(next)@ == final(a)@ ==> step@ is DiscoverServices,
        central_queued(old(b)@, final(b)@, true, rb),
        rb == 0 && old(next)@ == final(b)@ ==> step@ is DiscoverAll,
        central_queued(old(c)@, final(c)@, true, rc),
        rc == 0 && old(next)@ == final(c)@ ==> step@ is Disconnect,
{
}

/// A write is to the handle and of the bytes that it was asked for with, up to
/// 244 of them; a descriptor is written likewise.
pub proof fn law_client_write_is_of_the_bytes(
    rt: &mut Runtime,
    descriptor: bool,
    handle: u16,
    data: Option<&[u8]>,
    r: i32,
    next: &mut Runtime,
    store: ClientCharStore,
    step: ClientAction<Vec<u8>>,
)
    requires
        descriptor ==> call_ensures(runtime_ble_client_write_descriptor, (rt, handle, data), r),
        !descriptor ==> call_ensures(runtime_ble_client_write, (rt, handle, data), r),
        old(next)@ == final(rt)@,
        call_ensures(client_step, (next, &store), step),
    ensures
        central_queued(old(rt)@, final(rt)@, some_bytes(data), r),
        r == 0 ==> step@ == (ClientAction::Write { handle, data: fitting(data->0@, 244) }),
{
}

/// A write without a response is likewise.
pub proof fn law_client_write_without_response(
    rt: &mut Runtime,
    handle: u16,
    data: Option<&[u8]>,
    r: i32,
    next: &mut Runtime,
    store: ClientCharStore,
    step: ClientAction<Vec<u8>>,
)
    requires
        call_ensures(runtime_ble_client_write_no_rsp, (rt, handle, data), r),
        old(next)@ == final(rt)@,
        call_ensures(client_step, (next, &store), step),
    ensures
        central_queued(old(rt)@, final(rt)@, some_bytes(data), r),
        r == 0 ==> step@ == (ClientAction::WriteNoRsp { handle, data: fitting(data->0@, 244) }),
{
}

/// A request is queued with its handle, and a write with its bytes.
pub proof fn law_central_request_is_queued(
    a: &mut Runtime,
    b: &mut Runtime,
    cmd: CentralCmd,
    word: u32,
    handle: u16,
    data: Option<&[u8]>,
    ra: i32,
    rb: i32,
)
    requires
        call_ensures(central_cmd, (a, cmd, word), ra),
        call_ensures(central_write, (b, cmd, handle, data), rb),
    ensures
        central_queued(old(a)@, final(a)@, true, ra),
        ra != 0 ==> final(a)@ == old(a)@,
        ra == 0 ==> final(a)@.central == (CentralSlot {
            cmd: Some(cmd),
            handle: word,
            ..old(a)@.central
        }),
        central_queued(old(b)@, final(b)@, some_bytes(data), rb),
        rb == 0 ==> final(b)@.central == (CentralSlot {
            cmd: Some(cmd),
            handle: handle as u32,
            data: data->0@,
            ..old(b)@.central
        }),
{
}

proof fn lemma_first_cccd(chars: Seq<(u16, Option<u16>)>, handle: u16, i: int, j: int)
    requires
        0 <= i <= j <= chars.len(),
        forall|k: int| i <= k < j ==> (#[trigger] chars[k]).0 != handle,
        j < chars.len() ==> chars[j].0 == handle,
    ensures
        cccd_from(chars, handle, i) == if j < chars.len() {
            chars[j].1
        } else {
            None
        },
    decreases j - i,
{
    if i < j {
        lemma_first_cccd(chars, handle, i + 1, j);
    }
}

/// The client configuration of a characteristic is the one that was discovered
/// with it, and the handle after the value, which is zero after the last one,
/// where none was.
pub proof fn law_configuration_of_a_characteristic(
    store: ClientCharStore,
    handle: u16,
    r: u16,
    j: int,
)
    requires
        call_ensures(find_cccd, (&store, handle), r),
        0 <= j <= client_chars(store).len(),
        forall|k: int| 0 <= k < j ==> (#[trigger] client_chars(store)[k]).0 != handle,
        j < client_chars(store).len() ==> client_chars(store)[j].0 == handle,
    ensures
        j < client_chars(store).len() && client_chars(store)[j].1 is Some ==> Some(r)
            == client_chars(store)[j].1,
        j == client_chars(store).len() || client_chars(store)[j].1 is None ==> {
            &&& handle < 0xffff ==> r == handle + 1
            &&& handle == 0xffff ==> r == 0
        },
{
    lemma_first_cccd(client_chars(store), handle, 0, j);
}

/// Subscribing writes 1, subscribing to indications 2 and unsubscribing 0 to
/// the client configuration of the characteristic, as the operations 9, 10 and
/// 12.
pub proof fn law_subscribing_writes_the_configuration(
    rt: &mut Runtime,
    indicate: bool,
    off: bool,
    handle: u16,
    r: i32,
    next: &mut Runtime,
    store: ClientCharStore,
    cccd: u16,
    step: ClientAction<Vec<u8>>,
)
    requires
        off ==> call_ensures(runtime_ble_client_unsubscribe, (rt, handle), r),
        !off && indicate ==> call_ensures(runtime_ble_client_subscribe_indicate, (rt, handle), r),
        !off && !indicate ==> call_ensures(runtime_ble_client_subscribe, (rt, handle), r),
        old(next)@ == final(rt)@,
        call_ensures(find_cccd, (&store, handle), cccd),
        call_ensures(client_step, (next, &store), step),
    ensures
        central_queued(old(rt)@, final(rt)@, true, r),
        r == 0 && off ==> step@ == (ClientAction::<Seq<u8>>::Configure {
            op: 12,
            handle,
            cccd,
            value: 0,
        }),
        r == 0 && !off && indicate ==> step@ == (ClientAction::<Seq<u8>>::Configure {
            op: 10,
            handle,
            cccd,
            value: 2,
        }),
        r == 0 && !off && !indicate ==> step@ == (ClientAction::<Seq<u8>>::Configure {
            op: 9,
            handle,
            cccd,
            value: 1,
        }),
{
}

/// The number of the operation of an action, and the handle that it is reported
/// with.
pub open spec fn operation(action: ClientAction<Seq<u8>>) -> Option<(u8, u16)> {
    match action {
        ClientAction::Idle => None,
        ClientAction::Disconnect => None,
        ClientAction::DiscoverServices => Some((1, 0)),
        ClientAction::Discover { .. } => Some((2, 0)),
        ClientAction::DiscoverAll => Some((3, 0)),
        ClientAction::DiscoverDescriptors { start, .. } => Some((4, start)),
        ClientAction::RejectedRange { start } => Some((4, start)),
        ClientAction::Read { handle } => Some((5, handle)),
        ClientAction::ReadBlob { handle, .. } => Some((6, handle)),
        ClientAction::Write { handle, .. } => Some((7, handle)),
        ClientAction::WriteNoRsp { handle, .. } => Some((8, handle)),
        ClientAction::ReadByUuid { start, .. } => Some((11, start)),
        ClientAction::Configure { op, handle, .. } => Some((op, handle)),
    }
}

/// The outcome of an action is told with its number and its handle, as 0 where
/// it worked and -1 where it did not.
pub proof fn law_outcome_is_told(
    cb: RuntimeBleCallbacks,
    action: ClientAction<Vec<u8>>,
    ok: bool,
    op: u8,
    handle: u16,
    r: Vec<Emit<Vec<u8>>>,
)
    requires
        call_ensures(emit_client_status, (&cb, &action, ok), r),
    ensures
        operation(action@) is None ==> calls(r@).len() == 0,
        operation(action@) == Some((op, handle)) ==> calls(r@) == told(
            cb.on_client_status,
            Emit::ClientStatus {
                op,
                status: if ok {
                    0i8
                } else {
                    -1i8
                },
                handle,
            },
        ),
{
}

/// What was read is told first, up to 244 bytes with its handle, and then that
/// the read worked; of a read that failed, only that it did.
pub proof fn law_read_is_told(
    cb: RuntimeBleCallbacks,
    action: ClientAction<Vec<u8>>,
    handle: u16,
    data: Option<&[u8]>,
    r: Vec<Emit<Vec<u8>>>,
    status: Vec<Emit<Vec<u8>>>,
)
    requires
        call_ensures(emit_client_read, (&cb, &action, handle, data), r),
        call_ensures(emit_client_status, (&cb, &action, data is Some), status),
    ensures
        data is None ==> calls(r@) == calls(status@),
        data is Some ==> calls(r@) == told(
            cb.on_read,
            Emit::Read { handle, data: fitting(data->0@, 244) },
        ) + calls(status@),
{
}

/// What a search finds is told as it is: a value with its handle, a service with
/// its range and UUID, a descriptor with its handle and UUID.
pub proof fn law_findings_are_told(
    cb: RuntimeBleCallbacks,
    first: u16,
    last: u16,
    bytes: &[u8],
    value: Vec<Emit<Vec<u8>>>,
    service: Vec<Emit<Vec<u8>>>,
    descriptor: Vec<Emit<Vec<u8>>>,
)
    requires
        call_ensures(report_value, (&cb, first, bytes), value),
        call_ensures(report_service, (&cb, first, last, bytes), service),
        call_ensures(report_descriptor, (&cb, first, bytes), descriptor),
    ensures
        calls(value@) == told(
            cb.on_read,
            Emit::Read { handle: first, data: fitting(bytes@, 244) },
        ),
        calls(service@) == told(
            cb.on_service,
            Emit::Service { start: first, end: last, uuid: bytes@ },
        ),
        calls(descriptor@) == told(
            cb.on_descriptor,
            Emit::Descriptor { handle: first, uuid: bytes@ },
        ),
{
}

/// A characteristic that was found is told with its handle, UUID and properties
/// and kept with its client configuration, up to 32 of them from none on.
pub proof fn law_found_characteristic_is_kept(
    none: ClientCharStore,
    cb: RuntimeBleCallbacks,
    store: &mut ClientCharStore,
    handle: u16,
    cccd: Option<u16>,
    uuid: &[u8],
    raw: u8,
    props: u16,
    r: Vec<Emit<Vec<u8>>>,
)
    requires
        call_ensures(empty_char_store, (), none),
        call_ensures(report_char, (&cb, store, handle, cccd, uuid, raw), r),
        call_ensures(props_to_c, (raw,), props),
    ensures
        client_chars(none).len() == 0,
        calls(r@) == told(cb.on_discovered, Emit::Discovered { handle, uuid: uuid@, props }),
        client_chars(*old(store)).len() < 32 ==> client_chars(*final(store)) == client_chars(
            *old(store),
        ).push((handle, cccd)),
        client_chars(*old(store)).len() >= 32 ==> client_chars(*final(store)) == client_chars(
            *old(store),
        ),
{
}

/// A notification is told as it is, and an indication is confirmed.
pub proof fn law_notification_is_told(
    cb: RuntimeBleCallbacks,
    handle: u16,
    data: &[u8],
    indication: bool,
    r: (Vec<Emit<Vec<u8>>>, bool),
)
    requires
        call_ensures(on_notification, (&cb, handle, data, indication), r),
    ensures
        calls(r.0@) == told(cb.on_notification, Emit::Notification { handle, data: data@ }),
        r.1 <==> indication,
{
}

/// Of a link of the central role the application is told when it is up and when
/// it is down; it is served in between, and a connection that failed is followed
/// by a pause.
pub proof fn law_central_link_is_told(
    cb: RuntimeBleCallbacks,
    event: CentralEvent,
    r: (Vec<Emit<Vec<u8>>>, CentralAction),
)
    requires
        call_ensures(central_link_step, (&cb, event), r),
    ensures
        event is LinkUp ==> r.1 is Serve && calls(r.0@) == told(cb.on_connected, Emit::Connected),
        event is LinkDown ==> r.1 is Next && calls(r.0@) == told(
            cb.on_disconnected,
            Emit::Disconnected { reason: 0 },
        ),
        event is ConnectFailed ==> r.1 is Pause && calls(r.0@).len() == 0,
{
}

} // verus!
