//! The state shared between the application and a session, and the calls by
//! which the application configures the library, sends, and controls a link.
//!
//! Every request goes through a slot that holds one of its kind: the
//! application fills the slot, the session empties it. Each call is stated as
//! a step of the state, `Model`, that gives the state after it and its result.

use crate::bytes::{copied, opt_bytes};
use crate::config::{service_defs, Build, RuntimeBleConfig, RuntimeCfg, RUNTIME_BLE_ABI_VERSION};
use crate::gatt::{find_char, flat_char_defs, has_uuid};
use vstd::prelude::*;

verus! {

pub const RUNTIME_BLE_OK: i32 = 0;

pub const RUNTIME_BLE_ERR_INVALID: i32 = -1;

pub const RUNTIME_BLE_ERR_NO_MEM: i32 = -2;

pub const RUNTIME_BLE_ERR_MPSL: i32 = -3;

pub const RUNTIME_BLE_ERR_SDC: i32 = -4;

pub const RUNTIME_BLE_ERR_TIMEOUT: i32 = -5;

pub const RUNTIME_BLE_ERR_ABI: i32 = -6;

/// Load status while a load is in progress.
pub const RUNTIME_BLE_LOAD_PENDING: i32 = 1;

/// Most bytes that one request can carry.
pub const SEND_BUF_CAP: usize = 512;

/// The characteristic that queued bytes go to.
#[derive(Clone, Copy, Debug, PartialEq, Eq, Structural)]
pub enum TxTarget {
    /// The built-in transmit characteristic.
    Nus,
    /// The characteristic at a place in declaration order.
    Chr(u16),
}

/// How queued bytes are sent.
#[derive(Clone, Copy, Debug, PartialEq, Eq, Structural)]
pub enum TxKind {
    /// By notification, or by indication where only that is supported.
    Auto,
    /// By indication only.
    Indicate,
}

/// Bytes queued for a characteristic.
#[derive(Debug)]
pub struct SendSlot<B> {
    pub pending: bool,
    pub target: TxTarget,
    pub kind: TxKind,
    pub data: B,
}

/// A request on the active link.
#[derive(Clone, Copy, Debug, PartialEq, Eq, Structural)]
pub enum LinkCmd {
    SetPhy,
    DataLength,
    ConnParams,
    SecurityRequest,
    PasskeyConfirm,
    PasskeyCancel,
    PasskeyInput,
    ReadRssi,
    ReadAttMtu,
    FrameSpace,
    ConnectionRate,
    ReadPhy,
    ReadSecurity,
}

/// The request on the active link, and the latest parameters of each kind.
#[derive(Clone, Copy, Debug, PartialEq, Eq, Structural)]
pub struct LinkSlot {
    pub cmd: Option<LinkCmd>,
    pub phy: u8,
    pub dle_octets: u16,
    pub dle_time_us: u16,
    pub conn_min_ms: u16,
    pub conn_max_ms: u16,
    pub conn_latency: u16,
    pub conn_timeout_ms: u16,
    pub frame_space_min_us: u32,
    pub frame_space_max_us: u32,
    pub frame_space_phy_mask: u8,
    pub frame_space_types: u8,
    pub subrate_min: u16,
    pub subrate_max: u16,
    pub continuation_number: u16,
    pub passkey: u32,
}

/// A request on the bonds or the pairing capability.
#[derive(Clone, Copy, Debug, PartialEq, Eq, Structural)]
pub enum BondCmd {
    Enumerate,
    Delete,
    DeleteAll,
    SetIoCapability,
}

/// The request on the bonds, and the latest parameters of each kind.
#[derive(Clone, Copy, Debug, PartialEq, Eq, Structural)]
pub struct BondSlot {
    pub cmd: Option<BondCmd>,
    pub index: u8,
    pub io_capability: u8,
}

/// A request to the central role.
#[derive(Clone, Copy, Debug, PartialEq, Eq, Structural)]
pub enum CentralCmd {
    ScanStart,
    ScanStop,
    Connect,
    Disconnect,
    Discover,
    Read,
    Write,
    Subscribe,
    WriteNoRsp,
    DiscoverDescriptors,
    SubscribeIndicate,
    ReadBlob,
    DiscoverAll,
    DiscoverServices,
    ReadByUuid,
    Unsubscribe,
}

/// The request to the central role, and the latest parameters of each kind.
#[derive(Debug)]
pub struct CentralSlot<B> {
    pub cmd: Option<CentralCmd>,
    /// A handle in the lower half; a second handle or an offset in the upper.
    pub handle: u32,
    pub addr: [u8; 6],
    pub addr_kind: u8,
    pub uuid: B,
    /// The bytes of a write.
    pub data: B,
}

/// The latest scan parameters.
#[derive(Clone, Copy, Debug)]
pub struct ScanParams {
    pub active: bool,
    pub interval_ms: u16,
    pub window_ms: u16,
    pub timeout_ms: u16,
    pub filter_duplicates: bool,
    pub phy_options: u8,
    pub filter_addr_enabled: bool,
    pub filter_addr: [u8; 6],
    pub filter_addr_kind: u8,
}

/// Bytes queued for the L2CAP channel, and the request to close it.
#[derive(Debug)]
pub struct L2capSlot<B> {
    pub pending: bool,
    pub data: B,
    pub disconnect: bool,
}

/// The state shared between the application and a session, with its byte
/// strings in `B`.
#[derive(Debug)]
pub struct State<B> {
    pub build: Build,
    pub config: Option<RuntimeCfg>,
    pub load_status: i32,
    pub unload: bool,
    pub send: SendSlot<B>,
    pub link: LinkSlot,
    pub bond: BondSlot,
    pub central: CentralSlot<B>,
    pub scan: ScanParams,
    pub l2cap: L2capSlot<B>,
}

/// The state as the library holds it.
pub type Runtime = State<Vec<u8>>;

/// The state as contracts speak of it.
pub type Model = State<Seq<u8>>;

impl View for SendSlot<Vec<u8>> {
    type V = SendSlot<Seq<u8>>;

    open spec fn view(&self) -> SendSlot<Seq<u8>> {
        SendSlot {
            pending: self.pending,
            target: self.target,
            kind: self.kind,
            data: self.data@,
        }
    }
}

impl View for CentralSlot<Vec<u8>> {
    type V = CentralSlot<Seq<u8>>;

    open spec fn view(&self) -> CentralSlot<Seq<u8>> {
        CentralSlot {
            cmd: self.cmd,
            handle: self.handle,
            addr: self.addr,
            addr_kind: self.addr_kind,
            uuid: self.uuid@,
            data: self.data@,
        }
    }
}

impl View for L2capSlot<Vec<u8>> {
    type V = L2capSlot<Seq<u8>>;

    open spec fn view(&self) -> L2capSlot<Seq<u8>> {
        L2capSlot { pending: self.pending, data: self.data@, disconnect: self.disconnect }
    }
}

impl View for State<Vec<u8>> {
    type V = State<Seq<u8>>;

    open spec fn view(&self) -> State<Seq<u8>> {
        State {
            build: self.build,
            config: self.config,
            load_status: self.load_status,
            unload: self.unload,
            send: self.send@,
            link: self.link,
            bond: self.bond,
            central: self.central@,
            scan: self.scan,
            l2cap: self.l2cap@,
        }
    }
}

/// The link slot before any request.
pub open spec fn empty_link() -> LinkSlot {
    LinkSlot {
        cmd: None,
        phy: 0,
        dle_octets: 0,
        dle_time_us: 0,
        conn_min_ms: 0,
        conn_max_ms: 0,
        conn_latency: 0,
        conn_timeout_ms: 0,
        frame_space_min_us: 0,
        frame_space_max_us: 0,
        frame_space_phy_mask: 0,
        frame_space_types: 0,
        subrate_min: 0,
        subrate_max: 0,
        continuation_number: 0,
        passkey: 0,
    }
}

/// The state of a library that was not configured yet: nothing is requested,
/// queued or remembered.
pub open spec fn initial_state(build: Build) -> Model {
    State {
        build,
        config: None,
        load_status: RUNTIME_BLE_LOAD_PENDING,
        unload: false,
        send: SendSlot {
            pending: false,
            target: TxTarget::Nus,
            kind: TxKind::Auto,
            data: Seq::empty(),
        },
        link: empty_link(),
        bond: BondSlot { cmd: None, index: 0, io_capability: 0 },
        central: CentralSlot {
            cmd: None,
            handle: 0,
            addr: [0, 0, 0, 0, 0, 0],
            addr_kind: 0,
            uuid: Seq::empty(),
            data: Seq::empty(),
        },
        scan: ScanParams {
            active: false,
            interval_ms: 0,
            window_ms: 0,
            timeout_ms: 0,
            filter_duplicates: false,
            phy_options: 0,
            filter_addr_enabled: false,
            filter_addr: [0, 0, 0, 0, 0, 0],
            filter_addr_kind: 0,
        },
        l2cap: L2capSlot { pending: false, data: Seq::empty(), disconnect: false },
    }
}

/// The bytes can be queued: there are some, and they fit.
pub open spec fn sendable(data: Option<Seq<u8>>) -> bool {
    data matches Some(d) && 0 < d.len() <= SEND_BUF_CAP
}

/// A UUID of two or sixteen bytes.
pub open spec fn is_uuid(uuid: Option<Seq<u8>>) -> bool {
    uuid matches Some(u) && (u.len() == 2 || u.len() == 16)
}

impl State<Vec<u8>> {
    /// The state of a library that was not configured yet.
    pub fn new(build: Build) -> (r: Runtime)
        ensures
            r@ == initial_state(build),
            r@.wf(),
    {
        State {
            build,
            config: None,
            load_status: RUNTIME_BLE_LOAD_PENDING,
            unload: false,
            send: SendSlot {
                pending: false,
                target: TxTarget::Nus,
                kind: TxKind::Auto,
                data: Vec::new(),
            },
            link: LinkSlot {
                cmd: None,
                phy: 0,
                dle_octets: 0,
                dle_time_us: 0,
                conn_min_ms: 0,
                conn_max_ms: 0,
                conn_latency: 0,
                conn_timeout_ms: 0,
                frame_space_min_us: 0,
                frame_space_max_us: 0,
                frame_space_phy_mask: 0,
                frame_space_types: 0,
                subrate_min: 0,
                subrate_max: 0,
                continuation_number: 0,
                passkey: 0,
            },
            bond: BondSlot { cmd: None, index: 0, io_capability: 0 },
            central: CentralSlot {
                cmd: None,
                handle: 0,
                addr: [0, 0, 0, 0, 0, 0],
                addr_kind: 0,
                uuid: Vec::new(),
                data: Vec::new(),
            },
            scan: ScanParams {
                active: false,
                interval_ms: 0,
                window_ms: 0,
                timeout_ms: 0,
                filter_duplicates: false,
                phy_options: 0,
                filter_addr_enabled: false,
                filter_addr: [0, 0, 0, 0, 0, 0],
                filter_addr_kind: 0,
            },
            l2cap: L2capSlot { pending: false, data: Vec::new(), disconnect: false },
        }
    }
}

impl State<Seq<u8>> {
    /// The captured configuration has element counts of one byte.
    pub open spec fn wf(self) -> bool {
        self.config matches Some(cfg) ==> cfg.wf()
    }

    /// Step of `runtime_ble_init`: the layout version and then the values are
    /// checked; a configuration that passes is captured in flat form.
    pub open spec fn init(self, cfg: Option<RuntimeBleConfig>) -> (Model, i32) {
        match cfg {
            None => (self, RUNTIME_BLE_ERR_INVALID),
            Some(c) => if c.abi_version != RUNTIME_BLE_ABI_VERSION {
                (self, RUNTIME_BLE_ERR_ABI)
            } else if !c.acceptable() {
                (self, RUNTIME_BLE_ERR_INVALID)
            } else {
                (State { config: Some(c.flat()), ..self }, RUNTIME_BLE_OK)
            },
        }
    }

    /// Step of a call that queues bytes for a characteristic.
    pub open spec fn queue(
        self,
        target: TxTarget,
        kind: TxKind,
        data: Option<Seq<u8>>,
    ) -> (Model, i32) {
        if !sendable(data) {
            (self, RUNTIME_BLE_ERR_INVALID)
        } else if self.send.pending {
            (self, RUNTIME_BLE_ERR_NO_MEM)
        } else {
            (
                State { send: SendSlot { pending: true, target, kind, data: data->0 }, ..self },
                RUNTIME_BLE_OK,
            )
        }
    }

    /// Step of a request on the active link.
    pub open spec fn link_request(self, cmd: LinkCmd) -> (Model, i32) {
        if self.link.cmd is Some {
            (self, RUNTIME_BLE_ERR_NO_MEM)
        } else {
            (State { link: LinkSlot { cmd: Some(cmd), ..self.link }, ..self }, RUNTIME_BLE_OK)
        }
    }

    /// Step of `runtime_ble_set_phy`.
    pub open spec fn set_phy(self, phy: u8) -> (Model, i32) {
        if 1 <= phy <= 3 {
            (State { link: LinkSlot { phy, ..self.link }, ..self }).link_request(LinkCmd::SetPhy)
        } else {
            (self, RUNTIME_BLE_ERR_INVALID)
        }
    }

    /// Step of `runtime_ble_update_data_length`.
    pub open spec fn update_data_length(self, tx_octets: u16, tx_time_us: u16) -> (Model, i32) {
        (State {
            link: LinkSlot { dle_octets: tx_octets, dle_time_us: tx_time_us, ..self.link },
            ..self
        }).link_request(LinkCmd::DataLength)
    }

    /// Step of `runtime_ble_update_conn_params`.
    pub open spec fn update_conn_params(
        self,
        min_interval_ms: u16,
        max_interval_ms: u16,
        latency: u16,
        timeout_ms: u16,
    ) -> (Model, i32) {
        (State {
            link: LinkSlot {
                conn_min_ms: min_interval_ms,
                conn_max_ms: max_interval_ms,
                conn_latency: latency,
                conn_timeout_ms: timeout_ms,
                ..self.link
            },
            ..self
        }).link_request(LinkCmd::ConnParams)
    }

    /// Step of `runtime_ble_update_frame_space`.
    pub open spec fn update_frame_space(
        self,
        min_us: u32,
        max_us: u32,
        phy_mask: u8,
        spacing_types: u8,
    ) -> (Model, i32) {
        (State {
            link: LinkSlot {
                frame_space_min_us: min_us,
                frame_space_max_us: max_us,
                frame_space_phy_mask: phy_mask,
                frame_space_types: spacing_types,
                ..self.link
            },
            ..self
        }).link_request(LinkCmd::FrameSpace)
    }

    /// Step of `runtime_ble_request_connection_rate`.
    pub open spec fn request_connection_rate(
        self,
        min_interval_ms: u16,
        max_interval_ms: u16,
        subrate_min: u16,
        subrate_max: u16,
        latency: u16,
        continuation_number: u16,
        timeout_ms: u16,
    ) -> (Model, i32) {
        (State {
            link: LinkSlot {
                conn_min_ms: min_interval_ms,
                conn_max_ms: max_interval_ms,
                subrate_min,
                subrate_max,
                conn_latency: latency,
                continuation_number,
                conn_timeout_ms: timeout_ms,
                ..self.link
            },
            ..self
        }).link_request(LinkCmd::ConnectionRate)
    }

    /// Step of `runtime_ble_passkey_input`.
    pub open spec fn passkey_input(self, passkey: u32) -> (Model, i32) {
        if passkey > 999_999 {
            (self, RUNTIME_BLE_ERR_INVALID)
        } else {
            (State { link: LinkSlot { passkey, ..self.link }, ..self }).link_request(
                LinkCmd::PasskeyInput,
            )
        }
    }

    /// Step of a request on the bonds. A refused one changes nothing.
    pub open spec fn bond_request(self, cmd: BondCmd, value: u8) -> (Model, i32) {
        if self.bond.cmd is Some {
            (self, RUNTIME_BLE_ERR_NO_MEM)
        } else {
            (
                State {
                    bond: BondSlot {
                        cmd: Some(cmd),
                        index: if cmd is Delete {
                            value
                        } else {
                            self.bond.index
                        },
                        io_capability: if cmd is SetIoCapability {
                            value
                        } else {
                            self.bond.io_capability
                        },
                    },
                    ..self
                },
                RUNTIME_BLE_OK,
            )
        }
    }

    /// Step of `runtime_ble_set_io_capability`.
    pub open spec fn set_io_capability(self, capability: u8) -> (Model, i32) {
        if capability > 5 {
            (self, RUNTIME_BLE_ERR_INVALID)
        } else {
            self.bond_request(BondCmd::SetIoCapability, capability)
        }
    }

    /// Step of `runtime_ble_l2cap_send`.
    pub open spec fn l2cap_queue(self, data: Option<Seq<u8>>) -> (Model, i32) {
        if !self.build.l2cap || !sendable(data) {
            (self, RUNTIME_BLE_ERR_INVALID)
        } else if self.l2cap.pending {
            (self, RUNTIME_BLE_ERR_NO_MEM)
        } else {
            (
                State { l2cap: L2capSlot { pending: true, data: data->0, ..self.l2cap }, ..self },
                RUNTIME_BLE_OK,
            )
        }
    }

    /// Step of `runtime_ble_l2cap_disconnect`.
    pub open spec fn l2cap_close(self) -> (Model, i32) {
        if self.build.l2cap {
            (State { l2cap: L2capSlot { disconnect: true, ..self.l2cap }, ..self }, RUNTIME_BLE_OK)
        } else {
            (self, RUNTIME_BLE_ERR_INVALID)
        }
    }

    /// Step of `runtime_ble_run` before the radio is brought up: no unload and
    /// no bytes are queued, and the load is in progress.
    pub open spec fn started(self) -> Model {
        State {
            unload: false,
            send: SendSlot { pending: false, ..self.send },
            load_status: RUNTIME_BLE_LOAD_PENDING,
            ..self
        }
    }
}

/// The most recent load result: `RUNTIME_BLE_OK`, an error, or
/// `RUNTIME_BLE_LOAD_PENDING` while a load is in progress.
pub fn runtime_ble_load_status(rt: &Runtime) -> (r: i32)
    ensures
        r == rt.load_status,
{
    rt.load_status
}

/// Configures the library. `None` is a null pointer. A configuration that is
/// refused leaves the captured one in place.
pub fn runtime_ble_init(rt: &mut Runtime, cfg: Option<RuntimeBleConfig>) -> (r: i32)
    requires
        old(rt)@.wf(),
        cfg matches Some(c) ==> c.wf(),
    ensures
        (final(rt)@, r) == old(rt)@.init(cfg),
        final(rt)@.wf(),
{
    let c = match cfg {
        None => return RUNTIME_BLE_ERR_INVALID,
        Some(c) => c,
    };
    if c.abi_version != RUNTIME_BLE_ABI_VERSION {
        return RUNTIME_BLE_ERR_ABI;
    }
    if !c.is_acceptable() {
        return RUNTIME_BLE_ERR_INVALID;
    }
    rt.config = Some(c.flatten());
    RUNTIME_BLE_OK
}

/// Asks the running session to tear down.
pub fn runtime_ble_signal_unload(rt: &mut Runtime)
    ensures
        final(rt)@ == (State { unload: true, ..old(rt)@ }),
{
    rt.unload = true;
}

/// Starts a session: says whether there is a configuration to run.
pub fn runtime_ble_run(rt: &mut Runtime, _mode: i32) -> (r: bool)
    ensures
        final(rt)@ == old(rt)@.started(),
        r == (old(rt).config is Some),
{
    rt.unload = false;
    rt.send.pending = false;
    rt.load_status = RUNTIME_BLE_LOAD_PENDING;
    rt.config.is_some()
}

/// Whether `data` can be queued.
fn is_sendable(data: Option<&[u8]>) -> (r: bool)
    ensures
        r == sendable(opt_bytes(data)),
{
    match data {
        Some(d) => d.len() > 0 && d.len() <= SEND_BUF_CAP,
        None => false,
    }
}

/// Queues bytes for a characteristic.
pub fn queue_tx(rt: &mut Runtime, target: TxTarget, kind: TxKind, data: Option<&[u8]>) -> (r: i32)
    ensures
        (final(rt)@, r) == old(rt)@.queue(target, kind, opt_bytes(data)),
{
    if !is_sendable(data) {
        return RUNTIME_BLE_ERR_INVALID;
    }
    if rt.send.pending {
        return RUNTIME_BLE_ERR_NO_MEM;
    }
    if let Some(d) = data {
        rt.send = SendSlot { pending: true, target, kind, data: copied(d) };
    }
    RUNTIME_BLE_OK
}

/// Queues one notification on the built-in transmit characteristic.
pub fn runtime_ble_send(rt: &mut Runtime, data: Option<&[u8]>) -> (r: i32)
    ensures
        (final(rt)@, r) == old(rt)@.queue(TxTarget::Nus, TxKind::Auto, opt_bytes(data)),
{
    queue_tx(rt, TxTarget::Nus, TxKind::Auto, data)
}

/// Queues one notification, or an indication where only that is supported, on
/// the characteristic at place `chr`.
pub fn runtime_ble_notify(rt: &mut Runtime, chr: u16, data: Option<&[u8]>) -> (r: i32)
    ensures
        (final(rt)@, r) == old(rt)@.queue(TxTarget::Chr(chr), TxKind::Auto, opt_bytes(data)),
{
    queue_tx(rt, TxTarget::Chr(chr), TxKind::Auto, data)
}

/// Queues one indication on the characteristic at place `chr`.
pub fn runtime_ble_indicate(rt: &mut Runtime, chr: u16, data: Option<&[u8]>) -> (r: i32)
    ensures
        (final(rt)@, r) == old(rt)@.queue(TxTarget::Chr(chr), TxKind::Indicate, opt_bytes(data)),
{
    queue_tx(rt, TxTarget::Chr(chr), TxKind::Indicate, data)
}

/// The characteristics that the captured configuration declares.
pub open spec fn declared(config: Option<RuntimeCfg>) -> Seq<crate::config::RuntimeBleCharDef> {
    match config {
        Some(cfg) => flat_char_defs(service_defs(cfg.services)),
        None => Seq::empty(),
    }
}

/// The place of the first declared characteristic with the UUID `uuid`, which
/// `runtime_ble_notify` accepts and the callbacks report; an error where the
/// UUID is not one, or no characteristic has it.
pub fn runtime_ble_char_index(rt: &Runtime, uuid: Option<&[u8]>) -> (r: i32)
    requires
        rt@.wf(),
    ensures
        r < 0 ==> r == RUNTIME_BLE_ERR_INVALID,
        r < 0 <==> !is_uuid(opt_bytes(uuid)) || forall|k: int|
            0 <= k < declared(rt.config).len() ==> !has_uuid(
                #[trigger] declared(rt.config)[k],
                opt_bytes(uuid)->0,
            ),
        r >= 0 ==> r < declared(rt.config).len() && has_uuid(
            declared(rt.config)[r as int],
            opt_bytes(uuid)->0,
        ) && forall|k: int|
            0 <= k < r ==> !has_uuid(#[trigger] declared(rt.config)[k], opt_bytes(uuid)->0),
{
    let want: &[u8] = match uuid {
        Some(u) => u,
        None => return RUNTIME_BLE_ERR_INVALID,
    };
    if want.len() != 2 && want.len() != 16 {
        return RUNTIME_BLE_ERR_INVALID;
    }
    if let Some(cfg) = &rt.config {
        if let Some(services) = &cfg.services {
            if let Some(place) = find_char(services, want) {
                assert(has_uuid(declared(rt.config)[place as int], want@));
                return place as i32;
            }
        }
    }
    RUNTIME_BLE_ERR_INVALID
}

/// Queues a request on the active link.
pub fn link_cmd(rt: &mut Runtime, cmd: LinkCmd) -> (r: i32)
    ensures
        (final(rt)@, r) == old(rt)@.link_request(cmd),
{
    if rt.link.cmd.is_some() {
        return RUNTIME_BLE_ERR_NO_MEM;
    }
    rt.link.cmd = Some(cmd);
    RUNTIME_BLE_OK
}

/// Asks for a PHY: 1 for 1M, 2 for 2M, 3 for coded.
pub fn runtime_ble_set_phy(rt: &mut Runtime, phy: u8) -> (r: i32)
    ensures
        (final(rt)@, r) == old(rt)@.set_phy(phy),
{
    if phy != 1 && phy != 2 && phy != 3 {
        return RUNTIME_BLE_ERR_INVALID;
    }
    rt.link.phy = phy;
    link_cmd(rt, LinkCmd::SetPhy)
}

/// Asks for a data length.
pub fn runtime_ble_update_data_length(
    rt: &mut Runtime,
    tx_octets: u16,
    tx_time_us: u16,
) -> (r: i32)
    ensures
        (final(rt)@, r) == old(rt)@.update_data_length(tx_octets, tx_time_us),
{
    rt.link.dle_octets = tx_octets;
    rt.link.dle_time_us = tx_time_us;
    link_cmd(rt, LinkCmd::DataLength)
}

/// Asks for connection parameters.
pub fn runtime_ble_update_conn_params(
    rt: &mut Runtime,
    min_interval_ms: u16,
    max_interval_ms: u16,
    latency: u16,
    timeout_ms: u16,
) -> (r: i32)
    ensures
        (final(rt)@, r) == old(rt)@.update_conn_params(
            min_interval_ms,
            max_interval_ms,
            latency,
            timeout_ms,
        ),
{
    rt.link.conn_min_ms = min_interval_ms;
    rt.link.conn_max_ms = max_interval_ms;
    rt.link.conn_latency = latency;
    rt.link.conn_timeout_ms = timeout_ms;
    link_cmd(rt, LinkCmd::ConnParams)
}

/// Asks for a frame spacing.
pub fn runtime_ble_update_frame_space(
    rt: &mut Runtime,
    min_us: u32,
    max_us: u32,
    phy_mask: u8,
    spacing_types: u8,
) -> (r: i32)
    ensures
        (final(rt)@, r) == old(rt)@.update_frame_space(min_us, max_us, phy_mask, spacing_types),
{
    rt.link.frame_space_min_us = min_us;
    rt.link.frame_space_max_us = max_us;
    rt.link.frame_space_phy_mask = phy_mask;
    rt.link.frame_space_types = spacing_types;
    link_cmd(rt, LinkCmd::FrameSpace)
}

/// Asks for a connection rate.
pub fn runtime_ble_request_connection_rate(
    rt: &mut Runtime,
    min_interval_ms: u16,
    max_interval_ms: u16,
    subrate_min: u16,
    subrate_max: u16,
    latency: u16,
    continuation_number: u16,
    timeout_ms: u16,
) -> (r: i32)
    ensures
        (final(rt)@, r) == old(rt)@.request_connection_rate(
            min_interval_ms,
            max_interval_ms,
            subrate_min,
            subrate_max,
            latency,
            continuation_number,
            timeout_ms,
        ),
{
    rt.link.conn_min_ms = min_interval_ms;
    rt.link.conn_max_ms = max_interval_ms;
    rt.link.subrate_min = subrate_min;
    rt.link.subrate_max = subrate_max;
    rt.link.conn_latency = latency;
    rt.link.continuation_number = continuation_number;
    rt.link.conn_timeout_ms = timeout_ms;
    link_cmd(rt, LinkCmd::ConnectionRate)
}

/// Asks for the signal strength of the link.
pub fn runtime_ble_read_rssi(rt: &mut Runtime) -> (r: i32)
    ensures
        (final(rt)@, r) == old(rt)@.link_request(LinkCmd::ReadRssi),
{
    link_cmd(rt, LinkCmd::ReadRssi)
}

/// Asks for the ATT MTU of the link.
pub fn runtime_ble_read_att_mtu(rt: &mut Runtime) -> (r: i32)
    ensures
        (final(rt)@, r) == old(rt)@.link_request(LinkCmd::ReadAttMtu),
{
    link_cmd(rt, LinkCmd::ReadAttMtu)
}

/// Asks for the PHY of the link.
pub fn runtime_ble_read_phy(rt: &mut Runtime) -> (r: i32)
    ensures
        (final(rt)@, r) == old(rt)@.link_request(LinkCmd::ReadPhy),
{
    link_cmd(rt, LinkCmd::ReadPhy)
}

/// Asks for the security state of the link.
pub fn runtime_ble_read_security(rt: &mut Runtime) -> (r: i32)
    ensures
        (final(rt)@, r) == old(rt)@.link_request(LinkCmd::ReadSecurity),
{
    link_cmd(rt, LinkCmd::ReadSecurity)
}

/// Asks for pairing or encryption.
pub fn runtime_ble_request_security(rt: &mut Runtime) -> (r: i32)
    ensures
        (final(rt)@, r) == old(rt)@.link_request(LinkCmd::SecurityRequest),
{
    link_cmd(rt, LinkCmd::SecurityRequest)
}

/// Confirms a passkey, or cancels pairing where `accept` is zero.
pub fn runtime_ble_passkey_confirm(rt: &mut Runtime, accept: u8) -> (r: i32)
    ensures
        (final(rt)@, r) == old(rt)@.link_request(
            if accept == 0 {
                LinkCmd::PasskeyCancel
            } else {
                LinkCmd::PasskeyConfirm
            },
        ),
{
    link_cmd(
        rt,
        if accept == 0 {
            LinkCmd::PasskeyCancel
        } else {
            LinkCmd::PasskeyConfirm
        },
    )
}

/// Hands over a passkey of at most six digits.
pub fn runtime_ble_passkey_input(rt: &mut Runtime, passkey: u32) -> (r: i32)
    ensures
        (final(rt)@, r) == old(rt)@.passkey_input(passkey),
{
    if passkey > 999_999 {
        return RUNTIME_BLE_ERR_INVALID;
    }
    rt.link.passkey = passkey;
    link_cmd(rt, LinkCmd::PasskeyInput)
}

/// Whether the number names an input/output capability.
pub fn valid_io_capability(capability: u8) -> (r: bool)
    ensures
        r == (capability <= 5),
{
    capability <= 5
}

/// Queues a request on the bonds. `value` is the slot to delete or the
/// capability to set.
pub fn bond_admin_cmd(rt: &mut Runtime, cmd: BondCmd, value: u8) -> (r: i32)
    ensures
        (final(rt)@, r) == old(rt)@.bond_request(cmd, value),
{
    if rt.bond.cmd.is_some() {
        return RUNTIME_BLE_ERR_NO_MEM;
    }
    match cmd {
        BondCmd::Delete => {
            rt.bond.index = value;
        },
        BondCmd::SetIoCapability => {
            rt.bond.io_capability = value;
        },
        _ => {},
    }
    rt.bond.cmd = Some(cmd);
    RUNTIME_BLE_OK
}

/// Sets the input/output capability used for pairing.
pub fn runtime_ble_set_io_capability(rt: &mut Runtime, capability: u8) -> (r: i32)
    ensures
        (final(rt)@, r) == old(rt)@.set_io_capability(capability),
{
    if !valid_io_capability(capability) {
        return RUNTIME_BLE_ERR_INVALID;
    }
    bond_admin_cmd(rt, BondCmd::SetIoCapability, capability)
}

/// Asks for a report of every bond.
pub fn runtime_ble_bond_enumerate(rt: &mut Runtime) -> (r: i32)
    ensures
        (final(rt)@, r) == old(rt)@.bond_request(BondCmd::Enumerate, 0),
{
    bond_admin_cmd(rt, BondCmd::Enumerate, 0)
}

/// Asks for the removal of the bond in slot `index`.
pub fn runtime_ble_bond_delete(rt: &mut Runtime, index: u8) -> (r: i32)
    ensures
        (final(rt)@, r) == old(rt)@.bond_request(BondCmd::Delete, index),
{
    bond_admin_cmd(rt, BondCmd::Delete, index)
}

/// Asks for the removal of every bond.
pub fn runtime_ble_bond_delete_all(rt: &mut Runtime) -> (r: i32)
    ensures
        (final(rt)@, r) == old(rt)@.bond_request(BondCmd::DeleteAll, 0),
{
    bond_admin_cmd(rt, BondCmd::DeleteAll, 0)
}

/// Queues one packet on the L2CAP channel.
pub fn runtime_ble_l2cap_send(rt: &mut Runtime, data: Option<&[u8]>) -> (r: i32)
    ensures
        (final(rt)@, r) == old(rt)@.l2cap_queue(opt_bytes(data)),
{
    if !rt.build.l2cap || !is_sendable(data) {
        return RUNTIME_BLE_ERR_INVALID;
    }
    if rt.l2cap.pending {
        return RUNTIME_BLE_ERR_NO_MEM;
    }
    if let Some(d) = data {
        rt.l2cap.data = copied(d);
        rt.l2cap.pending = true;
    }
    RUNTIME_BLE_OK
}

/// Asks for the L2CAP channel to be closed.
pub fn runtime_ble_l2cap_disconnect(rt: &mut Runtime) -> (r: i32)
    ensures
        (final(rt)@, r) == old(rt)@.l2cap_close(),
{
    if !rt.build.l2cap {
        return RUNTIME_BLE_ERR_INVALID;
    }
    rt.l2cap.disconnect = true;
    RUNTIME_BLE_OK
}

/// A null pointer, another layout version and values out of range are refused,
/// in this order, and leave the captured configuration in place; everything
/// else is captured field by field.
pub proof fn law_init_checks_then_captures(m: Model, cfg: RuntimeBleConfig)
    ensures
        m.init(None) == (m, RUNTIME_BLE_ERR_INVALID),
        cfg.abi_version != RUNTIME_BLE_ABI_VERSION ==> m.init(Some(cfg)) == (
            m,
            RUNTIME_BLE_ERR_ABI,
        ),
        cfg.abi_version == RUNTIME_BLE_ABI_VERSION && !cfg.acceptable() ==> m.init(Some(cfg)) == (
            m,
            RUNTIME_BLE_ERR_INVALID,
        ),
        cfg.abi_version == RUNTIME_BLE_ABI_VERSION && cfg.acceptable() ==> m.init(Some(cfg)).1
            == RUNTIME_BLE_OK && m.init(Some(cfg)).0.config == Some(cfg.flat()),
{
}

/// Bytes that are missing, empty or too many are refused by every call that
/// takes bytes, whatever is queued, and change nothing.
pub proof fn law_bad_bytes_are_refused(
    m: Model,
    target: TxTarget,
    kind: TxKind,
    data: Option<Seq<u8>>,
)
    requires
        data is None || data->0.len() == 0 || data->0.len() > SEND_BUF_CAP,
    ensures
        m.queue(target, kind, data) == (m, RUNTIME_BLE_ERR_INVALID),
        m.l2cap_queue(data) == (m, RUNTIME_BLE_ERR_INVALID),
{
}

/// A session starts with no unload request and an empty transmit slot, and a
/// load that is pending; everything else is kept from before, the captured
/// configuration too.
pub proof fn law_session_starts_clean(m: Model)
    ensures
        !m.started().unload,
        !m.started().send.pending,
        m.started().load_status == RUNTIME_BLE_LOAD_PENDING,
        m.started().config == m.config,
        m.started().link == m.link,
        m.started().bond == m.bond,
        m.started().central == m.central,
        m.started().scan == m.scan,
        m.started().l2cap == m.l2cap,
{
}

/// The bond slot holds one request: a further one is refused and changes
/// nothing.
pub proof fn law_one_bond_request(m: Model, cmd: BondCmd, value: u8, cmd2: BondCmd, value2: u8)
    requires
        m.bond_request(cmd, value).1 == RUNTIME_BLE_OK,
    ensures
        m.bond_request(cmd, value).0.bond_request(cmd2, value2) == (
            m.bond_request(cmd, value).0,
            RUNTIME_BLE_ERR_NO_MEM,
        ),
{
}

} // verus!
