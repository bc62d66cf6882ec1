//! Calls of the central role and of the GATT client.
//!
//! They exist in every build; a build without the central role refuses them.

use crate::bytes::{copied, opt_bytes};
use crate::runtime::{
    is_uuid, sendable, CentralCmd, CentralSlot, Model, Runtime, ScanParams, State,
    RUNTIME_BLE_ERR_INVALID, RUNTIME_BLE_ERR_NO_MEM, RUNTIME_BLE_OK, SEND_BUF_CAP,
};
use vstd::prelude::*;

verus! {

/// Two halves in one word.
pub open spec fn packed(high: u16, low: u16) -> u32 {
    (high * 65536 + low) as u32
}

/// The upper half of a word.
pub open spec fn high_half(word: u32) -> u16 {
    (word / 65536) as u16
}

/// The lower half of a word.
pub open spec fn low_half(word: u32) -> u16 {
    (word % 65536) as u16
}

/// Halves come back out of the word that they were put into.
pub proof fn law_pack_round_trip(high: u16, low: u16)
    ensures
        high_half(packed(high, low)) == high,
        low_half(packed(high, low)) == low,
{
}

/// Puts two halves in one word.
pub fn pack(high: u16, low: u16) -> (r: u32)
    ensures
        r == packed(high, low),
{
    (high as u32) * 65536 + (low as u32)
}

/// A handle range that is not empty and does not start at the reserved handle.
pub open spec fn is_range(start: u16, end: u16) -> bool {
    start != 0 && start <= end
}

impl State<Seq<u8>> {
    /// Step of a request to the central role.
    pub open spec fn central_request(self, cmd: CentralCmd, handle: u32) -> (Model, i32) {
        if !self.build.central {
            (self, RUNTIME_BLE_ERR_INVALID)
        } else if self.central.cmd is Some {
            (self, RUNTIME_BLE_ERR_NO_MEM)
        } else {
            (
                State {
                    central: CentralSlot { cmd: Some(cmd), handle, ..self.central },
                    ..self
                },
                RUNTIME_BLE_OK,
            )
        }
    }

    /// Step of `runtime_ble_scan_start_ex`. The parameters are kept even where
    /// the request is refused because another one is queued.
    pub open spec fn scan_start(
        self,
        active: u8,
        interval_ms: u16,
        window_ms: u16,
        timeout_ms: u16,
        options: u8,
        filter_addr: Option<[u8; 6]>,
        filter_addr_kind: u8,
    ) -> (Model, i32) {
        if !self.build.central {
            (self, RUNTIME_BLE_ERR_INVALID)
        } else {
            (State {
                scan: ScanParams {
                    active: active != 0,
                    interval_ms,
                    window_ms,
                    timeout_ms,
                    filter_duplicates: options & 0x01 != 0,
                    phy_options: options & 0x0e,
                    filter_addr_enabled: filter_addr is Some,
                    filter_addr: match filter_addr {
                        Some(a) => a,
                        None => self.scan.filter_addr,
                    },
                    filter_addr_kind,
                },
                ..self
            }).central_request(CentralCmd::ScanStart, 0)
        }
    }

    /// Step of `runtime_ble_connect_addr`.
    pub open spec fn connect(self, addr: Option<[u8; 6]>, addr_kind: u8) -> (Model, i32) {
        match addr {
            Some(a) if self.build.central => (State {
                central: CentralSlot { addr: a, addr_kind, ..self.central },
                ..self
            }).central_request(CentralCmd::Connect, 0),
            _ => (self, RUNTIME_BLE_ERR_INVALID),
        }
    }

    /// Step of a request that carries a UUID.
    pub open spec fn uuid_request(
        self,
        cmd: CentralCmd,
        handle: u32,
        uuid: Option<Seq<u8>>,
    ) -> (Model, i32) {
        if !self.build.central || !is_uuid(uuid) {
            (self, RUNTIME_BLE_ERR_INVALID)
        } else {
            (State {
                central: CentralSlot { uuid: uuid->0, ..self.central },
                ..self
            }).central_request(cmd, handle)
        }
    }

    /// Step of `runtime_ble_client_read_by_uuid`.
    pub open spec fn read_by_uuid(
        self,
        start: u16,
        end: u16,
        uuid: Option<Seq<u8>>,
    ) -> (Model, i32) {
        if !is_range(start, end) {
            (self, RUNTIME_BLE_ERR_INVALID)
        } else {
            self.uuid_request(CentralCmd::ReadByUuid, packed(start, end), uuid)
        }
    }

    /// Step of `runtime_ble_client_discover_descriptors`.
    pub open spec fn discover_descriptors(self, start: u16, end: u16) -> (Model, i32) {
        if !is_range(start, end) {
            (self, RUNTIME_BLE_ERR_INVALID)
        } else {
            self.central_request(CentralCmd::DiscoverDescriptors, packed(start, end))
        }
    }

    /// Step of a write of the GATT client. The bytes are kept, apart from those
    /// that the server sends, even where the request is refused because another
    /// one is queued.
    pub open spec fn client_write(
        self,
        cmd: CentralCmd,
        handle: u16,
        data: Option<Seq<u8>>,
    ) -> (Model, i32) {
        if !self.build.central || !sendable(data) {
            (self, RUNTIME_BLE_ERR_INVALID)
        } else {
            (State {
                central: CentralSlot { data: data->0, ..self.central },
                ..self
            }).central_request(cmd, handle as u32)
        }
    }
}

/// Queues a request to the central role.
pub fn central_cmd(rt: &mut Runtime, cmd: CentralCmd, handle: u32) -> (r: i32)
    ensures
        (final(rt)@, r) == old(rt)@.central_request(cmd, handle),
{
    if !rt.build.central {
        return RUNTIME_BLE_ERR_INVALID;
    }
    if rt.central.cmd.is_some() {
        return RUNTIME_BLE_ERR_NO_MEM;
    }
    rt.central.handle = handle;
    rt.central.cmd = Some(cmd);
    RUNTIME_BLE_OK
}

/// Starts a scan for every device on the 1M PHY, reporting duplicates.
pub fn runtime_ble_scan_start(
    rt: &mut Runtime,
    active: u8,
    interval_ms: u16,
    window_ms: u16,
    timeout_ms: u16,
) -> (r: i32)
    ensures
        (final(rt)@, r) == old(rt)@.scan_start(
            active,
            interval_ms,
            window_ms,
            timeout_ms,
            0,
            None,
            0,
        ),
{
    runtime_ble_scan_start_ex(rt, active, interval_ms, window_ms, timeout_ms, 0, None, 0)
}

/// Starts a scan. Bit 0 of `options` filters duplicates, bits 1 to 3 select
/// the 1M, 2M and coded PHY; an address limits the scan to one device.
pub fn runtime_ble_scan_start_ex(
    rt: &mut Runtime,
    active: u8,
    interval_ms: u16,
    window_ms: u16,
    timeout_ms: u16,
    options: u8,
    filter_addr: Option<[u8; 6]>,
    filter_addr_kind: u8,
) -> (r: i32)
    ensures
        (final(rt)@, r) == old(rt)@.scan_start(
            active,
            interval_ms,
            window_ms,
            timeout_ms,
            options,
            filter_addr,
            filter_addr_kind,
        ),
{
    if !rt.build.central {
        return RUNTIME_BLE_ERR_INVALID;
    }
    rt.scan = ScanParams {
        active: active != 0,
        interval_ms,
        window_ms,
        timeout_ms,
        filter_duplicates: options & 0x01 != 0,
        phy_options: options & 0x0e,
        filter_addr_enabled: filter_addr.is_some(),
        filter_addr: match filter_addr {
            Some(a) => a,
            None => rt.scan.filter_addr,
        },
        filter_addr_kind,
    };
    central_cmd(rt, CentralCmd::ScanStart, 0)
}

/// Stops the scan.
pub fn runtime_ble_scan_stop(rt: &mut Runtime) -> (r: i32)
    ensures
        (final(rt)@, r) == old(rt)@.central_request(CentralCmd::ScanStop, 0),
{
    central_cmd(rt, CentralCmd::ScanStop, 0)
}

/// Connects to a device with a random address.
pub fn runtime_ble_connect(rt: &mut Runtime, addr: Option<[u8; 6]>) -> (r: i32)
    ensures
        (final(rt)@, r) == old(rt)@.connect(addr, 0),
{
    runtime_ble_connect_addr(rt, addr, 0)
}

/// Connects to a device.
pub fn runtime_ble_connect_addr(
    rt: &mut Runtime,
    addr: Option<[u8; 6]>,
    addr_kind: u8,
) -> (r: i32)
    ensures
        (final(rt)@, r) == old(rt)@.connect(addr, addr_kind),
{
    if !rt.build.central {
        return RUNTIME_BLE_ERR_INVALID;
    }
    match addr {
        None => RUNTIME_BLE_ERR_INVALID,
        Some(a) => {
            rt.central.addr = a;
            rt.central.addr_kind = addr_kind;
            central_cmd(rt, CentralCmd::Connect, 0)
        },
    }
}

/// Drops the link of the central role.
pub fn runtime_ble_disconnect(rt: &mut Runtime) -> (r: i32)
    ensures
        (final(rt)@, r) == old(rt)@.central_request(CentralCmd::Disconnect, 0),
{
    central_cmd(rt, CentralCmd::Disconnect, 0)
}

/// Asks for the primary services of the peer.
pub fn runtime_ble_client_discover_services(rt: &mut Runtime) -> (r: i32)
    ensures
        (final(rt)@, r) == old(rt)@.central_request(CentralCmd::DiscoverServices, 0),
{
    central_cmd(rt, CentralCmd::DiscoverServices, 0)
}

/// Keeps a UUID and queues the request that uses it.
fn central_uuid(
    rt: &mut Runtime,
    cmd: CentralCmd,
    handle: u32,
    uuid: Option<&[u8]>,
) -> (r: i32)
    ensures
        (final(rt)@, r) == old(rt)@.uuid_request(cmd, handle, opt_bytes(uuid)),
{
    if !rt.build.central {
        return RUNTIME_BLE_ERR_INVALID;
    }
    if let Some(u) = uuid {
        if u.len() == 2 || u.len() == 16 {
            rt.central.uuid = copied(u);
            return central_cmd(rt, cmd, handle);
        }
    }
    RUNTIME_BLE_ERR_INVALID
}

/// Asks for the characteristics of the services with a UUID.
pub fn runtime_ble_client_discover(rt: &mut Runtime, uuid: Option<&[u8]>) -> (r: i32)
    ensures
        (final(rt)@, r) == old(rt)@.uuid_request(CentralCmd::Discover, 0, opt_bytes(uuid)),
{
    central_uuid(rt, CentralCmd::Discover, 0, uuid)
}

/// Asks for every service and characteristic of the peer.
pub fn runtime_ble_client_discover_all(rt: &mut Runtime) -> (r: i32)
    ensures
        (final(rt)@, r) == old(rt)@.central_request(CentralCmd::DiscoverAll, 0),
{
    central_cmd(rt, CentralCmd::DiscoverAll, 0)
}

/// Reads an attribute.
pub fn runtime_ble_client_read(rt: &mut Runtime, handle: u16) -> (r: i32)
    ensures
        (final(rt)@, r) == old(rt)@.central_request(CentralCmd::Read, handle as u32),
{
    central_cmd(rt, CentralCmd::Read, handle as u32)
}

/// Reads an attribute from an offset on.
pub fn runtime_ble_client_read_blob(rt: &mut Runtime, handle: u16, offset: u16) -> (r: i32)
    ensures
        (final(rt)@, r) == old(rt)@.central_request(CentralCmd::ReadBlob, packed(offset, handle)),
{
    central_cmd(rt, CentralCmd::ReadBlob, pack(offset, handle))
}

/// Reads the attributes with a UUID in a handle range.
pub fn runtime_ble_client_read_by_uuid(
    rt: &mut Runtime,
    start_handle: u16,
    end_handle: u16,
    uuid: Option<&[u8]>,
) -> (r: i32)
    ensures
        (final(rt)@, r) == old(rt)@.read_by_uuid(start_handle, end_handle, opt_bytes(uuid)),
{
    if start_handle == 0 || end_handle < start_handle {
        return RUNTIME_BLE_ERR_INVALID;
    }
    central_uuid(rt, CentralCmd::ReadByUuid, pack(start_handle, end_handle), uuid)
}

/// Reads a descriptor.
pub fn runtime_ble_client_read_descriptor(rt: &mut Runtime, handle: u16) -> (r: i32)
    ensures
        (final(rt)@, r) == old(rt)@.central_request(CentralCmd::Read, handle as u32),
{
    runtime_ble_client_read(rt, handle)
}

/// Reads a descriptor from an offset on.
pub fn runtime_ble_client_read_descriptor_blob(
    rt: &mut Runtime,
    handle: u16,
    offset: u16,
) -> (r: i32)
    ensures
        (final(rt)@, r) == old(rt)@.central_request(CentralCmd::ReadBlob, packed(offset, handle)),
{
    runtime_ble_client_read_blob(rt, handle, offset)
}

/// Asks for the descriptors in a handle range.
pub fn runtime_ble_client_discover_descriptors(
    rt: &mut Runtime,
    start_handle: u16,
    end_handle: u16,
) -> (r: i32)
    ensures
        (final(rt)@, r) == old(rt)@.discover_descriptors(start_handle, end_handle),
{
    if start_handle == 0 || end_handle < start_handle {
        return RUNTIME_BLE_ERR_INVALID;
    }
    central_cmd(rt, CentralCmd::DiscoverDescriptors, pack(start_handle, end_handle))
}

/// Keeps the bytes to write and queues the write.
pub fn central_write(
    rt: &mut Runtime,
    cmd: CentralCmd,
    handle: u16,
    data: Option<&[u8]>,
) -> (r: i32)
    ensures
        (final(rt)@, r) == old(rt)@.client_write(cmd, handle, opt_bytes(data)),
{
    if !rt.build.central {
        return RUNTIME_BLE_ERR_INVALID;
    }
    if let Some(d) = data {
        if d.len() > 0 && d.len() <= SEND_BUF_CAP {
            rt.central.data = copied(d);
            return central_cmd(rt, cmd, handle as u32);
        }
    }
    RUNTIME_BLE_ERR_INVALID
}

/// Writes an attribute and waits for the response.
pub fn runtime_ble_client_write(rt: &mut Runtime, handle: u16, data: Option<&[u8]>) -> (r: i32)
    ensures
        (final(rt)@, r) == old(rt)@.client_write(CentralCmd::Write, handle, opt_bytes(data)),
{
    central_write(rt, CentralCmd::Write, handle, data)
}

/// Writes an attribute without a response.
pub fn runtime_ble_client_write_no_rsp(
    rt: &mut Runtime,
    handle: u16,
    data: Option<&[u8]>,
) -> (r: i32)
    ensures
        (final(rt)@, r) == old(rt)@.client_write(CentralCmd::WriteNoRsp, handle, opt_bytes(data)),
{
    central_write(rt, CentralCmd::WriteNoRsp, handle, data)
}

/// Writes a descriptor.
pub fn runtime_ble_client_write_descriptor(
    rt: &mut Runtime,
    handle: u16,
    data: Option<&[u8]>,
) -> (r: i32)
    ensures
        (final(rt)@, r) == old(rt)@.client_write(CentralCmd::Write, handle, opt_bytes(data)),
{
    runtime_ble_client_write(rt, handle, data)
}

/// Subscribes to notifications of a characteristic.
pub fn runtime_ble_client_subscribe(rt: &mut Runtime, handle: u16) -> (r: i32)
    ensures
        (final(rt)@, r) == old(rt)@.central_request(CentralCmd::Subscribe, handle as u32),
{
    central_cmd(rt, CentralCmd::Subscribe, handle as u32)
}

/// Subscribes to indications of a characteristic.
pub fn runtime_ble_client_subscribe_indicate(rt: &mut Runtime, handle: u16) -> (r: i32)
    ensures
        (final(rt)@, r) == old(rt)@.central_request(CentralCmd::SubscribeIndicate, handle as u32),
{
    central_cmd(rt, CentralCmd::SubscribeIndicate, handle as u32)
}

/// Ends notifications and indications of a characteristic.
pub fn runtime_ble_client_unsubscribe(rt: &mut Runtime, handle: u16) -> (r: i32)
    ensures
        (final(rt)@, r) == old(rt)@.central_request(CentralCmd::Unsubscribe, handle as u32),
{
    central_cmd(rt, CentralCmd::Unsubscribe, handle as u32)
}

} // verus!
