//! The central role on a link: which device to connect to, and what the GATT
//! client does for each request and tells the application of its outcome.

use crate::address::{peer, peer_address, Address};
use crate::bytes::{clip, clipped, copied};
use crate::central::{high_half, is_range, low_half, packed};
use crate::config::{RuntimeBleCallbacks, RuntimeCfg, VALUE_LEN};
use crate::emit::{call_when, called_if, calls, no_calls, only_when, times, Calls, Emit};
use crate::events::{emit_connected, emit_disconnected};
use crate::gatt::{c_props, props_to_c, uuid_from, uuid_of, GattIndex};
use crate::host::{
    char_store_get, char_store_len, char_store_new, char_store_push, client_chars,
    conn_params_default, conn_params_valid, default_conn_params, ClientCharStore, ConnParams,
    CLIENT_CHAR_CAP,
};
use crate::link::or_default;
use crate::runtime::{
    is_uuid, sendable, CentralCmd, Model, Runtime, State, TxKind, TxTarget,
    RUNTIME_BLE_ERR_INVALID, RUNTIME_BLE_ERR_NO_MEM, RUNTIME_BLE_OK,
};
use crate::server::tx_action;
use vstd::prelude::*;

verus! {

/// The connection parameters that a configuration asks for: zero stands for
/// intervals of 80 ms and a timeout of 8 s.
pub open spec fn configured_params(cfg: RuntimeCfg) -> ConnParams {
    ConnParams {
        min_interval_ms: or_default(cfg.central_conn_min_interval_ms, 80) as u64,
        max_interval_ms: or_default(cfg.central_conn_max_interval_ms, 80) as u64,
        max_latency: cfg.central_conn_latency,
        min_event_ms: 0,
        max_event_ms: 0,
        supervision_timeout_ms: or_default(cfg.central_conn_timeout_ms, 8000) as u64,
    }
}

/// The parameters of a new connection, and whether they are the configured
/// ones: configured ones that are out of range give way to the defaults.
pub fn central_connect_params(cfg: &RuntimeCfg) -> (r: (ConnParams, bool))
    ensures
        r.1 == configured_params(*cfg).valid(),
        r.0 == if r.1 {
            configured_params(*cfg)
        } else {
            default_conn_params()
        },
        r.0.valid(),
{
    let min_ms: u16 = cfg.central_conn_min_interval_ms;
    let max_ms: u16 = cfg.central_conn_max_interval_ms;
    let timeout_ms: u16 = cfg.central_conn_timeout_ms;
    let params = ConnParams {
        min_interval_ms: if min_ms == 0 {
            80
        } else {
            min_ms as u64
        },
        max_interval_ms: if max_ms == 0 {
            80
        } else {
            max_ms as u64
        },
        max_latency: cfg.central_conn_latency,
        min_event_ms: 0,
        max_event_ms: 0,
        supervision_timeout_ms: if timeout_ms == 0 {
            8000
        } else {
            timeout_ms as u64
        },
    };
    if conn_params_valid(&params) {
        (params, true)
    } else {
        (conn_params_default(), false)
    }
}

/// What the central role does while it has no link.
#[derive(Clone, Copy, Debug, PartialEq, Eq)]
pub enum CentralStep {
    /// The session is being torn down.
    Unloaded,
    /// Connect to a device.
    Connect(Address),
    /// Scan.
    Scan,
    /// Nothing yet.
    Wait,
}

impl State<Seq<u8>> {
    /// What the central role does while it has no link: unloading comes first;
    /// then the one connection to the configured device, which `auto` says is
    /// still to be made; then requests, of which only those to connect and to
    /// scan matter and every other one is dropped.
    pub open spec fn central_next(
        self,
        configured: Option<Address>,
        auto: bool,
    ) -> (Model, CentralStep) {
        if self.unload {
            (self, CentralStep::Unloaded)
        } else if auto && configured is Some {
            (self, CentralStep::Connect(configured->0))
        } else {
            (
                self.central_taken(),
                match self.central.cmd {
                    Some(CentralCmd::Connect) => CentralStep::Connect(
                        peer(self.central.addr, self.central.addr_kind),
                    ),
                    Some(CentralCmd::ScanStart) => CentralStep::Scan,
                    _ => CentralStep::Wait,
                },
            )
        }
    }
}

/// The device that the configuration names.
pub open spec fn configured_peer(cfg: RuntimeCfg) -> Option<Address> {
    match cfg.peer_address {
        Some(a) => Some(peer(a, cfg.peer_address_kind)),
        None => None,
    }
}

/// Looks at the state while there is no link and says what the central role
/// does. `auto` starts as `true` and is cleared by the connection to the
/// configured device.
pub fn central_step(rt: &mut Runtime, cfg: &RuntimeCfg, auto: &mut bool) -> (r: CentralStep)
    ensures
        (final(rt)@, r) == old(rt)@.central_next(configured_peer(*cfg), *old(auto)),
        *final(auto) == (*old(auto) && (old(rt).unload || configured_peer(*cfg) is None)),
{
    if rt.unload {
        return CentralStep::Unloaded;
    }
    if *auto {
        if let Some(a) = cfg.peer_address {
            *auto = false;
            return CentralStep::Connect(peer_address(a, cfg.peer_address_kind));
        }
    }
    let cmd: Option<CentralCmd> = rt.central.cmd;
    rt.central.cmd = None;
    match cmd {
        Some(CentralCmd::Connect) => CentralStep::Connect(
            peer_address(rt.central.addr, rt.central.addr_kind),
        ),
        Some(CentralCmd::ScanStart) => CentralStep::Scan,
        _ => CentralStep::Wait,
    }
}

/// What happened on the central side of a session.
#[derive(Clone, Copy, Debug, PartialEq, Eq, Structural)]
pub enum CentralEvent {
    /// The device is connected.
    LinkUp,
    LinkDown,
    /// The device could not be connected to.
    ConnectFailed,
}

/// What the central side of a session does after an event.
#[derive(Clone, Copy, Debug, PartialEq, Eq, Structural)]
pub enum CentralAction {
    /// Run the link until it goes down.
    Serve,
    /// Look for the next device.
    Next,
    /// Wait a second, and look for the next device.
    Pause,
}

/// What the central side of a session does after an event.
pub open spec fn central_action(event: CentralEvent) -> CentralAction {
    match event {
        CentralEvent::LinkUp => CentralAction::Serve,
        CentralEvent::LinkDown => CentralAction::Next,
        CentralEvent::ConnectFailed => CentralAction::Pause,
    }
}

/// What the application is told of an event on the central side.
pub open spec fn central_calls(cb: RuntimeBleCallbacks, event: CentralEvent) -> Calls {
    match event {
        CentralEvent::LinkUp => called_if(cb.on_connected, Emit::Connected),
        CentralEvent::LinkDown => called_if(cb.on_disconnected, Emit::Disconnected { reason: 0 }),
        CentralEvent::ConnectFailed => Calls::empty(),
    }
}

/// Tells the application of an event on the central side, and says what the
/// central side does next.
pub fn central_link_step(cb: &RuntimeBleCallbacks, event: CentralEvent) -> (r: (
    Vec<Emit<Vec<u8>>>,
    CentralAction,
))
    ensures
        calls(r.0@) == central_calls(*cb, event),
        r.1 == central_action(event),
{
    match event {
        CentralEvent::LinkUp => (emit_connected(cb), CentralAction::Serve),
        CentralEvent::LinkDown => (emit_disconnected(cb), CentralAction::Next),
        CentralEvent::ConnectFailed => (no_calls(), CentralAction::Pause),
    }
}

/// The events of a session in order: a link goes down after it came up, and
/// whatever else happens, happens without a link.
pub open spec fn central_run(events: Seq<CentralEvent>) -> bool
    decreases events.len(),
{
    events.len() == 0 || {
        let before = events.drop_last();
        &&& central_run(before)
        &&& events.last() is LinkDown <==> before.len() > 0 && central_action(
            before.last(),
        ) is Serve
    }
}

/// What the application is told of events in order.
pub open spec fn central_run_calls(cb: RuntimeBleCallbacks, events: Seq<CentralEvent>) -> Calls
    decreases events.len(),
{
    if events.len() == 0 {
        Calls::empty()
    } else {
        central_run_calls(cb, events.drop_last()) + central_calls(cb, events.last())
    }
}

/// Over the life of a session the application is told in turn that a link is
/// up and that it is down, starting with up, once each for every link; where the
/// last event is a link, the second report of it is still to come. Of a
/// connection that failed the application is told nothing.
pub proof fn law_link_reports_alternate(cb: RuntimeBleCallbacks, events: Seq<CentralEvent>)
    requires
        cb.on_connected,
        cb.on_disconnected,
        central_run(events),
    ensures
        ({
            let told = central_run_calls(cb, events);
            let up = times(events, CentralEvent::LinkUp);
            let down = times(events, CentralEvent::LinkDown);
            &&& told.len() == up + down
            &&& up == down + if events.len() > 0 && events.last() is LinkUp {
                1int
            } else {
                0int
            }
            &&& forall|k: int|
                0 <= k < told.len() ==> (#[trigger] told[k]) == if k % 2 == 0 {
                    Emit::<Seq<u8>>::Connected
                } else {
                    Emit::<Seq<u8>>::Disconnected { reason: 0 }
                }
        }),
    decreases events.len(),
{
    if events.len() > 0 {
        law_link_reports_alternate(cb, events.drop_last());
    }
}

pub const CLIENT_STATUS_OK: i8 = 0;

pub const CLIENT_STATUS_FAILED: i8 = -1;

pub const CLIENT_OP_DISCOVER_SERVICES: u8 = 1;

pub const CLIENT_OP_DISCOVER_CHARS: u8 = 2;

pub const CLIENT_OP_DISCOVER_ALL: u8 = 3;

pub const CLIENT_OP_DISCOVER_DESCRIPTORS: u8 = 4;

pub const CLIENT_OP_READ: u8 = 5;

pub const CLIENT_OP_READ_BLOB: u8 = 6;

pub const CLIENT_OP_WRITE: u8 = 7;

pub const CLIENT_OP_WRITE_NO_RSP: u8 = 8;

pub const CLIENT_OP_SUBSCRIBE: u8 = 9;

pub const CLIENT_OP_SUBSCRIBE_INDICATE: u8 = 10;

pub const CLIENT_OP_READ_BY_UUID: u8 = 11;

pub const CLIENT_OP_UNSUBSCRIBE: u8 = 12;

/// What the GATT client does for a request, with its byte strings in `B`.
#[derive(Debug, PartialEq, Eq)]
#[allow(inconsistent_fields)]
pub enum ClientAction<B> {
    Idle,
    /// Drop the link.
    Disconnect,
    DiscoverServices,
    DiscoverAll,
    /// Report the characteristics of the services with a UUID.
    Discover { uuid: B },
    DiscoverDescriptors { start: u16, end: u16 },
    /// The handle range is empty or starts at zero: fail without asking.
    RejectedRange { start: u16 },
    ReadByUuid { start: u16, end: u16, uuid: B },
    Read { handle: u16 },
    ReadBlob { handle: u16, offset: u16 },
    Write { handle: u16, data: B },
    WriteNoRsp { handle: u16, data: B },
    /// Write `value` to the client configuration `cccd` of the characteristic
    /// `handle`, for the operation `op`.
    Configure { op: u8, handle: u16, cccd: u16, value: u16 },
}

impl View for ClientAction<Vec<u8>> {
    type V = ClientAction<Seq<u8>>;

    open spec fn view(&self) -> ClientAction<Seq<u8>> {
        match *self {
            ClientAction::Idle => ClientAction::Idle,
            ClientAction::Disconnect => ClientAction::Disconnect,
            ClientAction::DiscoverServices => ClientAction::DiscoverServices,
            ClientAction::DiscoverAll => ClientAction::DiscoverAll,
            ClientAction::Discover { uuid } => ClientAction::Discover { uuid: uuid@ },
            ClientAction::DiscoverDescriptors { start, end } => {
                ClientAction::DiscoverDescriptors { start, end }
            },
            ClientAction::RejectedRange { start } => ClientAction::RejectedRange { start },
            ClientAction::ReadByUuid { start, end, uuid } => ClientAction::ReadByUuid {
                start,
                end,
                uuid: uuid@,
            },
            ClientAction::Read { handle } => ClientAction::Read { handle },
            ClientAction::ReadBlob { handle, offset } => ClientAction::ReadBlob { handle, offset },
            ClientAction::Write { handle, data } => ClientAction::Write { handle, data: data@ },
            ClientAction::WriteNoRsp { handle, data } => ClientAction::WriteNoRsp {
                handle,
                data: data@,
            },
            ClientAction::Configure { op, handle, cccd, value } => ClientAction::Configure {
                op,
                handle,
                cccd,
                value,
            },
        }
    }
}

/// The handle after `handle`; zero after the last one.
pub open spec fn next_handle(handle: u16) -> u16 {
    if handle == 0xffff {
        0
    } else {
        (handle + 1) as u16
    }
}

/// The client configuration of the first discovered characteristic, from `i`
/// on, that has the handle; none where none has it or it has no configuration.
pub open spec fn cccd_from(
    chars: Seq<(u16, Option<u16>)>,
    handle: u16,
    i: int,
) -> Option<u16>
    decreases chars.len() - i,
{
    if i < 0 || i >= chars.len() {
        None
    } else if chars[i].0 == handle {
        chars[i].1
    } else {
        cccd_from(chars, handle, i + 1)
    }
}

/// The handle to write the client configuration of a characteristic to: the
/// discovered one, else the one that follows the value.
pub open spec fn cccd_of(chars: Seq<(u16, Option<u16>)>, handle: u16) -> u16 {
    match cccd_from(chars, handle, 0) {
        Some(cccd) => cccd,
        None => next_handle(handle),
    }
}

/// What the GATT client does for the request in the state, where `chars` are
/// the discovered characteristics. Requests that need no link are dropped.
pub open spec fn client_action(
    m: Model,
    chars: Seq<(u16, Option<u16>)>,
) -> ClientAction<Seq<u8>> {
    let word = m.central.handle;
    let handle = low_half(word);
    match m.central.cmd {
        Some(CentralCmd::Disconnect) => ClientAction::Disconnect,
        Some(CentralCmd::DiscoverServices) => ClientAction::DiscoverServices,
        Some(CentralCmd::DiscoverAll) => ClientAction::DiscoverAll,
        Some(CentralCmd::Discover) => ClientAction::Discover {
            uuid: uuid_of(Some(m.central.uuid)),
        },
        Some(CentralCmd::DiscoverDescriptors) => if is_range(high_half(word), handle) {
            ClientAction::DiscoverDescriptors { start: high_half(word), end: handle }
        } else {
            ClientAction::RejectedRange { start: high_half(word) }
        },
        Some(CentralCmd::ReadByUuid) => ClientAction::ReadByUuid {
            start: high_half(word),
            end: handle,
            uuid: uuid_of(Some(m.central.uuid)),
        },
        Some(CentralCmd::Read) => ClientAction::Read { handle },
        Some(CentralCmd::ReadBlob) => ClientAction::ReadBlob { handle, offset: high_half(word) },
        Some(CentralCmd::Write) => ClientAction::Write {
            handle,
            data: clip(m.central.data, VALUE_LEN as int),
        },
        Some(CentralCmd::WriteNoRsp) => ClientAction::WriteNoRsp {
            handle,
            data: clip(m.central.data, VALUE_LEN as int),
        },
        Some(CentralCmd::Subscribe) => ClientAction::Configure {
            op: CLIENT_OP_SUBSCRIBE,
            handle,
            cccd: cccd_of(chars, handle),
            value: 0x0001,
        },
        Some(CentralCmd::SubscribeIndicate) => ClientAction::Configure {
            op: CLIENT_OP_SUBSCRIBE_INDICATE,
            handle,
            cccd: cccd_of(chars, handle),
            value: 0x0002,
        },
        Some(CentralCmd::Unsubscribe) => ClientAction::Configure {
            op: CLIENT_OP_UNSUBSCRIBE,
            handle,
            cccd: cccd_of(chars, handle),
            value: 0x0000,
        },
        _ => ClientAction::Idle,
    }
}

/// No characteristic was discovered yet.
pub fn empty_char_store() -> (r: ClientCharStore)
    ensures
        client_chars(r) == Seq::<(u16, Option<u16>)>::empty(),
{
    char_store_new()
}

/// The handle to write the client configuration of a characteristic to.
pub fn find_cccd(store: &ClientCharStore, handle: u16) -> (r: u16)
    ensures
        r == cccd_of(client_chars(*store), handle),
{
    let next: u16 = if handle == 0xffff {
        0
    } else {
        handle + 1
    };
    let n: usize = char_store_len(store);
    let mut i: usize = 0;
    while i < n
        invariant
            n == client_chars(*store).len(),
            i <= n,
            next == next_handle(handle),
            cccd_from(client_chars(*store), handle, 0) == cccd_from(
                client_chars(*store),
                handle,
                i as int,
            ),
        decreases n - i,
    {
        let (value, cccd) = char_store_get(store, i);
        if value == handle {
            return match cccd {
                Some(c) => c,
                None => next,
            };
        }
        i = i + 1;
    }
    next
}

/// The bytes to write.
fn write_data(rt: &Runtime) -> (r: Vec<u8>)
    ensures
        r@ == clip(rt.central.data@, VALUE_LEN as int),
{
    clipped(rt.central.data.as_slice(), VALUE_LEN)
}

/// The UUID of the request.
fn request_uuid(rt: &Runtime) -> (r: Vec<u8>)
    ensures
        r@ == uuid_of(Some(rt.central.uuid@)),
{
    let field: Option<Vec<u8>> = Some(copied(rt.central.uuid.as_slice()));
    uuid_from(&field)
}

/// Takes the request to the GATT client and says what is done for it.
pub fn client_step(rt: &mut Runtime, store: &ClientCharStore) -> (r: ClientAction<Vec<u8>>)
    ensures
        r@ == client_action(old(rt)@, client_chars(*store)),
        final(rt)@ == old(rt)@.central_taken(),
{
    let cmd: Option<CentralCmd> = rt.central.cmd;
    rt.central.cmd = None;
    let word: u32 = rt.central.handle;
    let high: u16 = (word / 65536) as u16;
    let handle: u16 = (word % 65536) as u16;
    match cmd {
        Some(CentralCmd::Disconnect) => ClientAction::Disconnect,
        Some(CentralCmd::DiscoverServices) => ClientAction::DiscoverServices,
        Some(CentralCmd::DiscoverAll) => ClientAction::DiscoverAll,
        Some(CentralCmd::Discover) => ClientAction::Discover { uuid: request_uuid(rt) },
        Some(CentralCmd::DiscoverDescriptors) => if high == 0 || handle < high {
            ClientAction::RejectedRange { start: high }
        } else {
            ClientAction::DiscoverDescriptors { start: high, end: handle }
        },
        Some(CentralCmd::ReadByUuid) => ClientAction::ReadByUuid {
            start: high,
            end: handle,
            uuid: request_uuid(rt),
        },
        Some(CentralCmd::Read) => ClientAction::Read { handle },
        Some(CentralCmd::ReadBlob) => ClientAction::ReadBlob { handle, offset: high },
        Some(CentralCmd::Write) => ClientAction::Write { handle, data: write_data(rt) },
        Some(CentralCmd::WriteNoRsp) => ClientAction::WriteNoRsp { handle, data: write_data(rt) },
        Some(CentralCmd::Subscribe) => ClientAction::Configure {
            op: CLIENT_OP_SUBSCRIBE,
            handle,
            cccd: find_cccd(store, handle),
            value: 0x0001,
        },
        Some(CentralCmd::SubscribeIndicate) => ClientAction::Configure {
            op: CLIENT_OP_SUBSCRIBE_INDICATE,
            handle,
            cccd: find_cccd(store, handle),
            value: 0x0002,
        },
        Some(CentralCmd::Unsubscribe) => ClientAction::Configure {
            op: CLIENT_OP_UNSUBSCRIBE,
            handle,
            cccd: find_cccd(store, handle),
            value: 0x0000,
        },
        _ => ClientAction::Idle,
    }
}

/// The operation and the handle that the outcome of an action is reported
/// with; none for actions without a report.
pub open spec fn reported_as(action: ClientAction<Seq<u8>>) -> Option<(u8, u16)> {
    match action {
        ClientAction::Idle => None,
        ClientAction::Disconnect => None,
        ClientAction::DiscoverServices => Some((CLIENT_OP_DISCOVER_SERVICES, 0)),
        ClientAction::DiscoverAll => Some((CLIENT_OP_DISCOVER_ALL, 0)),
        ClientAction::Discover { .. } => Some((CLIENT_OP_DISCOVER_CHARS, 0)),
        ClientAction::DiscoverDescriptors { start, .. } => Some(
            (CLIENT_OP_DISCOVER_DESCRIPTORS, start),
        ),
        ClientAction::RejectedRange { start } => Some((CLIENT_OP_DISCOVER_DESCRIPTORS, start)),
        ClientAction::ReadByUuid { start, .. } => Some((CLIENT_OP_READ_BY_UUID, start)),
        ClientAction::Read { handle } => Some((CLIENT_OP_READ, handle)),
        ClientAction::ReadBlob { handle, .. } => Some((CLIENT_OP_READ_BLOB, handle)),
        ClientAction::Write { handle, .. } => Some((CLIENT_OP_WRITE, handle)),
        ClientAction::WriteNoRsp { handle, .. } => Some((CLIENT_OP_WRITE_NO_RSP, handle)),
        ClientAction::Configure { op, handle, .. } => Some((op, handle)),
    }
}

/// The report of the outcome of an action.
pub open spec fn status_calls(
    cb: RuntimeBleCallbacks,
    action: ClientAction<Seq<u8>>,
    ok: bool,
) -> Calls {
    match reported_as(action) {
        Some((op, handle)) => called_if(
            cb.on_client_status,
            Emit::ClientStatus {
                op,
                status: if ok {
                    CLIENT_STATUS_OK
                } else {
                    CLIENT_STATUS_FAILED
                },
                handle,
            },
        ),
        None => Calls::empty(),
    }
}

/// The operation and the handle that the outcome of an action is reported
/// with.
fn report_key(action: &ClientAction<Vec<u8>>) -> (r: Option<(u8, u16)>)
    ensures
        r == reported_as(action@),
{
    match action {
        ClientAction::Idle => None,
        ClientAction::Disconnect => None,
        ClientAction::DiscoverServices => Some((CLIENT_OP_DISCOVER_SERVICES, 0)),
        ClientAction::DiscoverAll => Some((CLIENT_OP_DISCOVER_ALL, 0)),
        ClientAction::Discover { .. } => Some((CLIENT_OP_DISCOVER_CHARS, 0)),
        ClientAction::DiscoverDescriptors { start, .. } => Some(
            (CLIENT_OP_DISCOVER_DESCRIPTORS, *start),
        ),
        ClientAction::RejectedRange { start } => Some((CLIENT_OP_DISCOVER_DESCRIPTORS, *start)),
        ClientAction::ReadByUuid { start, .. } => Some((CLIENT_OP_READ_BY_UUID, *start)),
        ClientAction::Read { handle } => Some((CLIENT_OP_READ, *handle)),
        ClientAction::ReadBlob { handle, .. } => Some((CLIENT_OP_READ_BLOB, *handle)),
        ClientAction::Write { handle, .. } => Some((CLIENT_OP_WRITE, *handle)),
        ClientAction::WriteNoRsp { handle, .. } => Some((CLIENT_OP_WRITE_NO_RSP, *handle)),
        ClientAction::Configure { op, handle, .. } => Some((*op, *handle)),
    }
}

/// Tells the application how an action went.
pub fn emit_client_status(
    cb: &RuntimeBleCallbacks,
    action: &ClientAction<Vec<u8>>,
    ok: bool,
) -> (r: Vec<Emit<Vec<u8>>>)
    ensures
        calls(r@) == status_calls(*cb, action@, ok),
{
    match report_key(action) {
        Some((op, handle)) => only_when(
            cb.on_client_status,
            Emit::ClientStatus {
                op,
                status: if ok {
                    CLIENT_STATUS_OK
                } else {
                    CLIENT_STATUS_FAILED
                },
                handle,
            },
        ),
        None => no_calls(),
    }
}

/// Tells the application what was read and then how the read went, where
/// `data` are the bytes that a read that worked gave.
pub fn emit_client_read(
    cb: &RuntimeBleCallbacks,
    action: &ClientAction<Vec<u8>>,
    handle: u16,
    data: Option<&[u8]>,
) -> (r: Vec<Emit<Vec<u8>>>)
    ensures
        calls(r@) == match data {
            Some(d) => called_if(
                cb.on_read,
                Emit::Read { handle, data: clip(d@, VALUE_LEN as int) },
            ) + status_calls(*cb, action@, true),
            None => status_calls(*cb, action@, false),
        },
{
    match data {
        Some(d) => {
            let mut list = only_when(
                cb.on_read,
                Emit::Read { handle, data: clipped(d, VALUE_LEN) },
            );
            let ghost first = calls(list@);
            match report_key(action) {
                Some((op, handle)) => {
                    call_when(
                        &mut list,
                        cb.on_client_status,
                        Emit::ClientStatus { op, status: CLIENT_STATUS_OK, handle },
                    );
                },
                None => {
                    assert(first + Calls::empty() =~= first);
                },
            }
            list
        },
        None => emit_client_status(cb, action, false),
    }
}

/// Tells the application of one attribute that a read by UUID gave.
pub fn report_value(
    cb: &RuntimeBleCallbacks,
    handle: u16,
    data: &[u8],
) -> (r: Vec<Emit<Vec<u8>>>)
    ensures
        calls(r@) == called_if(
            cb.on_read,
            Emit::Read { handle, data: clip(data@, VALUE_LEN as int) },
        ),
{
    only_when(cb.on_read, Emit::Read { handle, data: clipped(data, VALUE_LEN) })
}

/// Tells the application of a discovered service.
pub fn report_service(
    cb: &RuntimeBleCallbacks,
    start: u16,
    end: u16,
    uuid: &[u8],
) -> (r: Vec<Emit<Vec<u8>>>)
    ensures
        calls(r@) == called_if(cb.on_service, Emit::Service { start, end, uuid: uuid@ }),
{
    only_when(cb.on_service, Emit::Service { start, end, uuid: copied(uuid) })
}

/// Keeps track of a discovered characteristic, where there is room, and tells
/// the application of it.
pub fn report_char(
    cb: &RuntimeBleCallbacks,
    store: &mut ClientCharStore,
    handle: u16,
    cccd: Option<u16>,
    uuid: &[u8],
    ble_props: u8,
) -> (r: Vec<Emit<Vec<u8>>>)
    ensures
        client_chars(*final(store)) == if client_chars(*old(store)).len() < CLIENT_CHAR_CAP {
            client_chars(*old(store)).push((handle, cccd))
        } else {
            client_chars(*old(store))
        },
        calls(r@) == called_if(
            cb.on_discovered,
            Emit::Discovered { handle, uuid: uuid@, props: c_props(ble_props) },
        ),
{
    char_store_push(store, (handle, cccd));
    only_when(
        cb.on_discovered,
        Emit::Discovered { handle, uuid: copied(uuid), props: props_to_c(ble_props) },
    )
}

/// Tells the application of a discovered descriptor.
pub fn report_descriptor(
    cb: &RuntimeBleCallbacks,
    handle: u16,
    uuid: &[u8],
) -> (r: Vec<Emit<Vec<u8>>>)
    ensures
        calls(r@) == called_if(cb.on_descriptor, Emit::Descriptor { handle, uuid: uuid@ }),
{
    only_when(cb.on_descriptor, Emit::Descriptor { handle, uuid: copied(uuid) })
}

/// Tells the application of a notification or an indication, and says whether
/// it is confirmed to the peer after that: an indication is.
pub fn on_notification(
    cb: &RuntimeBleCallbacks,
    handle: u16,
    data: &[u8],
    indication: bool,
) -> (r: (Vec<Emit<Vec<u8>>>, bool))
    ensures
        calls(r.0@) == called_if(cb.on_notification, Emit::Notification { handle, data: data@ }),
        r.1 == indication,
{
    (
        only_when(cb.on_notification, Emit::Notification { handle, data: copied(data) }),
        indication,
    )
}

/// The slot of the central role holds one request: between a call that made
/// one and the step that takes it, every further request without parameters is
/// refused and changes nothing; after that step the next request is accepted.
pub proof fn law_one_central_request(
    m: Model,
    cmd: CentralCmd,
    handle: u32,
    cmd2: CentralCmd,
    handle2: u32,
)
    requires
        m.central_request(cmd, handle).1 == RUNTIME_BLE_OK,
    ensures
        ({
            let queued = m.central_request(cmd, handle).0;
            &&& queued.central_request(cmd2, handle2) == (queued, RUNTIME_BLE_ERR_NO_MEM)
            &&& queued.central_taken().central_request(cmd2, handle2).1 == RUNTIME_BLE_OK
        }),
{
}

/// While a request is queued, requests with parameters are refused too, and
/// the first one stays queued with its handle.
pub proof fn law_refused_central_request_keeps_first(
    m: Model,
    active: u8,
    interval_ms: u16,
    window_ms: u16,
    timeout_ms: u16,
    options: u8,
    filter: Option<[u8; 6]>,
    addr: [u8; 6],
    kind: u8,
    uuid: Seq<u8>,
    cmd: CentralCmd,
    handle: u16,
    data: Seq<u8>,
)
    requires
        m.build.central,
        m.central.cmd is Some,
        is_uuid(Some(uuid)),
        sendable(Some(data)),
    ensures
        first_stays(
            m,
            m.scan_start(active, interval_ms, window_ms, timeout_ms, options, filter, kind),
        ),
        first_stays(m, m.connect(Some(addr), kind)),
        first_stays(m, m.uuid_request(cmd, handle as u32, Some(uuid))),
        first_stays(m, m.client_write(cmd, handle, Some(data))),
{
}

/// The step was refused for want of room, and the queued request stayed, as did
/// the bytes that the server has queued.
pub open spec fn first_stays(before: Model, step: (Model, i32)) -> bool {
    &&& step.1 == RUNTIME_BLE_ERR_NO_MEM
    &&& step.0.central.cmd == before.central.cmd
    &&& step.0.central.handle == before.central.handle
    &&& step.0.send == before.send
}

/// A build without the central role refuses every call of it and changes
/// nothing.
pub proof fn law_no_central_role(
    m: Model,
    cmd: CentralCmd,
    word: u32,
    active: u8,
    interval_ms: u16,
    window_ms: u16,
    timeout_ms: u16,
    options: u8,
    addr: Option<[u8; 6]>,
    kind: u8,
    uuid: Option<Seq<u8>>,
    start: u16,
    end: u16,
    data: Option<Seq<u8>>,
)
    requires
        !m.build.central,
    ensures
        m.central_request(cmd, word) == (m, RUNTIME_BLE_ERR_INVALID),
        m.scan_start(active, interval_ms, window_ms, timeout_ms, options, addr, kind) == (
            m,
            RUNTIME_BLE_ERR_INVALID,
        ),
        m.connect(addr, kind) == (m, RUNTIME_BLE_ERR_INVALID),
        m.uuid_request(cmd, word, uuid) == (m, RUNTIME_BLE_ERR_INVALID),
        m.read_by_uuid(start, end, uuid) == (m, RUNTIME_BLE_ERR_INVALID),
        m.discover_descriptors(start, end) == (m, RUNTIME_BLE_ERR_INVALID),
        m.client_write(cmd, start, data) == (m, RUNTIME_BLE_ERR_INVALID),
{
}

/// A request to connect leads to a connection to the device that it names,
/// from the idle state and out of a scan.
pub proof fn law_connect_reaches_the_device(
    m: Model,
    addr: [u8; 6],
    kind: u8,
    configured: Option<Address>,
    now_ms: u64,
)
    requires
        m.build.central,
        m.central.cmd is None,
        !m.unload,
    ensures
        m.connect(Some(addr), kind).0.central_next(configured, false).1 == CentralStep::Connect(
            peer(addr, kind),
        ),
        m.connect(Some(addr), kind).0.scan_next(None, now_ms).1
            == crate::scan::ScanStep::Connect(peer(addr, kind)),
{
}

/// The configured device is connected to first, and once, before any request.
pub proof fn law_configured_device_comes_first(m: Model, configured: Address)
    requires
        !m.unload,
    ensures
        m.central_next(Some(configured), true) == (m, CentralStep::Connect(configured)),
{
}

/// Once that connection was made, every further one is asked for.
pub proof fn law_later_connections_are_requested(m: Model, configured: Option<Address>)
    ensures
        m.central_next(configured, false).1 is Connect <==> !m.unload && m.central.cmd == Some(
            CentralCmd::Connect,
        ),
{
}

/// Requests to the GATT client are carried out with the handles, offsets, UUID
/// and bytes that they were made with; of the bytes at most `VALUE_LEN` are
/// written.
pub proof fn law_client_requests_arrive(
    m: Model,
    chars: Seq<(u16, Option<u16>)>,
    handle: u16,
    offset: u16,
    start: u16,
    end: u16,
    uuid: Seq<u8>,
    data: Seq<u8>,
)
    requires
        m.build.central,
        m.central.cmd is None,
        is_uuid(Some(uuid)),
        is_range(start, end),
        sendable(Some(data)),
    ensures
        client_action(m.central_request(CentralCmd::Read, handle as u32).0, chars) == (
        ClientAction::<Seq<u8>>::Read { handle }),
        client_action(m.central_request(CentralCmd::ReadBlob, packed(offset, handle)).0, chars)
            == (ClientAction::<Seq<u8>>::ReadBlob { handle, offset }),
        client_action(m.uuid_request(CentralCmd::Discover, 0, Some(uuid)).0, chars) == (
        ClientAction::Discover { uuid }),
        client_action(m.read_by_uuid(start, end, Some(uuid)).0, chars) == (
        ClientAction::ReadByUuid { start, end, uuid }),
        client_action(m.discover_descriptors(start, end).0, chars) == (
        ClientAction::<Seq<u8>>::DiscoverDescriptors { start, end }),
        client_action(m.client_write(CentralCmd::Write, handle, Some(data)).0, chars) == (
        ClientAction::Write { handle, data: clip(data, VALUE_LEN as int) }),
        client_action(m.client_write(CentralCmd::WriteNoRsp, handle, Some(data)).0, chars) == (
        ClientAction::WriteNoRsp { handle, data: clip(data, VALUE_LEN as int) }),
{
    crate::central::law_pack_round_trip(offset, handle);
    crate::central::law_pack_round_trip(start, end);
}

/// The server and the client of a device that is both keep their bytes apart:
/// a write of the client, accepted or not, leaves what the server sends as it
/// was, and bytes queued for the server leave what the client does as it was.
pub proof fn law_roles_keep_their_bytes(
    m: Model,
    cmd: CentralCmd,
    handle: u16,
    written: Option<Seq<u8>>,
    target: TxTarget,
    kind: TxKind,
    sent: Option<Seq<u8>>,
    index: GattIndex,
    chars: Seq<(u16, Option<u16>)>,
)
    ensures
        tx_action(m.build, index, m.client_write(cmd, handle, written).0.send) == tx_action(
            m.build,
            index,
            m.send,
        ),
        client_action(m.queue(target, kind, sent).0, chars) == client_action(m, chars),
{
}

/// Subscribing to a discovered characteristic writes 1, or 2 for indications,
/// to its client configuration, and unsubscribing writes 0 there.
pub proof fn law_subscriptions_reach_the_configuration(
    m: Model,
    chars: Seq<(u16, Option<u16>)>,
    place: int,
    cccd: u16,
)
    requires
        m.build.central,
        m.central.cmd is None,
        0 <= place < chars.len(),
        chars[place].1 == Some(cccd),
        forall|i: int| 0 <= i < place ==> (#[trigger] chars[i]).0 != chars[place].0,
    ensures
        ({
            let handle = chars[place].0;
            &&& client_action(m.central_request(CentralCmd::Subscribe, handle as u32).0, chars)
                == (ClientAction::<Seq<u8>>::Configure {
                op: CLIENT_OP_SUBSCRIBE,
                handle,
                cccd,
                value: 1,
            })
            &&& client_action(
                m.central_request(CentralCmd::SubscribeIndicate, handle as u32).0,
                chars,
            ) == (ClientAction::<Seq<u8>>::Configure {
                op: CLIENT_OP_SUBSCRIBE_INDICATE,
                handle,
                cccd,
                value: 2,
            })
            &&& client_action(m.central_request(CentralCmd::Unsubscribe, handle as u32).0, chars)
                == (ClientAction::<Seq<u8>>::Configure {
                op: CLIENT_OP_UNSUBSCRIBE,
                handle,
                cccd,
                value: 0,
            })
        }),
{
    lemma_cccd_found(chars, place, 0);
}

proof fn lemma_cccd_found(chars: Seq<(u16, Option<u16>)>, place: int, i: int)
    requires
        0 <= i <= place < chars.len(),
        forall|k: int| 0 <= k < place ==> (#[trigger] chars[k]).0 != chars[place].0,
    ensures
        cccd_from(chars, chars[place].0, i) == chars[place].1,
    decreases place - i,
{
    if i < place {
        assert(chars[i].0 != chars[place].0);
        lemma_cccd_found(chars, place, i + 1);
    }
}

} // verus!
