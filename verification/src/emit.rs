//! Calls to the application: what the session tells it, in order.

use vstd::prelude::*;

verus! {

/// One call of an application callback, with its byte strings in `B`.
#[derive(Debug, PartialEq, Eq)]
#[allow(inconsistent_fields)]
pub enum Emit<B> {
    /// `on_connected`.
    Connected,
    /// `on_disconnected`.
    Disconnected { reason: u8 },
    /// `on_data`: bytes written to the built-in receive characteristic.
    Data { data: B },
    /// `on_write`: bytes written to a user-defined characteristic.
    Write { chr: u16, data: B },
    /// `on_write_ext`: the same with the ATT offset.
    WriteExt { chr: u16, offset: u16, data: B },
    /// `on_scan_result`.
    ScanResult { addr: [u8; 6], rssi: i8, adv: B },
    /// `on_scan_result_ext`.
    ScanResultExt { addr: [u8; 6], addr_kind: u8, rssi: i8, adv: B },
    /// `on_scan_result_meta`.
    ScanResultMeta {
        addr: [u8; 6],
        addr_kind: u8,
        rssi: i8,
        adv: B,
        flags: u16,
        primary_phy: u8,
        secondary_phy: u8,
        tx_power_dbm: i8,
        sid: u8,
    },
    /// `on_service`.
    Service { start: u16, end: u16, uuid: B },
    /// `on_discovered`.
    Discovered { handle: u16, uuid: B, props: u16 },
    /// `on_descriptor`.
    Descriptor { handle: u16, uuid: B },
    /// `on_read`.
    Read { handle: u16, data: B },
    /// `on_notification`.
    Notification { handle: u16, data: B },
    /// `on_subscription`.
    Subscription { chr: u16, notify: u8, indicate: u8 },
    /// `on_conn_params`.
    ConnParams { interval_ms: u16, latency: u16, timeout_ms: u16 },
    /// `on_phy_update`.
    PhyUpdate { tx: u8, rx: u8 },
    /// `on_data_length_update`.
    DataLengthUpdate { tx_octets: u16, rx_octets: u16 },
    /// `on_att_mtu`.
    AttMtu { mtu: u16 },
    /// `on_frame_space`.
    FrameSpace { micros: u32 },
    /// `on_connection_rate`.
    ConnectionRate {
        interval_ms: u16,
        subrate_factor: u16,
        latency: u16,
        continuation_number: u16,
        timeout_ms: u16,
    },
    /// `on_rssi`.
    Rssi { rssi: i8 },
    /// `on_security_event`.
    SecurityEvent { event: u8, level: u8, passkey: u32, flags: u8 },
    /// `on_bond_store` with a blob.
    BondStore { index: u8, blob: B },
    /// `on_bond_store` with a null blob of length zero.
    BondClear { index: u8 },
    /// `on_bond`.
    Bond { index: u8, addr: [u8; 6], addr_kind: u8, level: u8, key_len: u8, flags: u8 },
    /// `on_bond_deleted`.
    BondDeleted { index: u8, status: i8 },
    /// `on_oob_local_data`.
    OobLocalData { random: [u8; 16], confirm: [u8; 16] },
    /// `on_l2cap_connected`.
    L2capConnected,
    /// `on_l2cap_data`.
    L2capData { data: B },
    /// `on_l2cap_disconnected`.
    L2capDisconnected,
    /// `on_client_status`.
    ClientStatus { op: u8, status: i8, handle: u16 },
    /// `on_descriptor_write`.
    DescriptorWrite { handle: u16, chr: u16, desc: u8, data: B },
    /// `on_descriptor_write_ext`.
    DescriptorWriteExt { handle: u16, chr: u16, desc: u8, offset: u16, data: B },
    /// `on_security_state`.
    SecurityState { level: u8, key_len: u8, flags: u8 },
}

impl View for Emit<Vec<u8>> {
    type V = Emit<Seq<u8>>;

    open spec fn view(&self) -> Emit<Seq<u8>> {
        match *self {
            Emit::Connected => Emit::Connected,
            Emit::Disconnected { reason } => Emit::Disconnected { reason },
            Emit::Data { data } => Emit::Data { data: data@ },
            Emit::Write { chr, data } => Emit::Write { chr, data: data@ },
            Emit::WriteExt { chr, offset, data } => Emit::WriteExt { chr, offset, data: data@ },
            Emit::ScanResult { addr, rssi, adv } => Emit::ScanResult { addr, rssi, adv: adv@ },
            Emit::ScanResultExt { addr, addr_kind, rssi, adv } => Emit::ScanResultExt {
                addr,
                addr_kind,
                rssi,
                adv: adv@,
            },
            Emit::ScanResultMeta {
                addr,
                addr_kind,
                rssi,
                adv,
                flags,
                primary_phy,
                secondary_phy,
                tx_power_dbm,
                sid,
            } => Emit::ScanResultMeta {
                addr,
                addr_kind,
                rssi,
                adv: adv@,
                flags,
                primary_phy,
                secondary_phy,
                tx_power_dbm,
                sid,
            },
            Emit::Service { start, end, uuid } => Emit::Service { start, end, uuid: uuid@ },
            Emit::Discovered { handle, uuid, props } => Emit::Discovered {
                handle,
                uuid: uuid@,
                props,
            },
            Emit::Descriptor { handle, uuid } => Emit::Descriptor { handle, uuid: uuid@ },
            Emit::Read { handle, data } => Emit::Read { handle, data: data@ },
            Emit::Notification { handle, data } => Emit::Notification { handle, data: data@ },
            Emit::Subscription { chr, notify, indicate } => Emit::Subscription {
                chr,
                notify,
                indicate,
            },
            Emit::ConnParams { interval_ms, latency, timeout_ms } => Emit::ConnParams {
                interval_ms,
                latency,
                timeout_ms,
            },
            Emit::PhyUpdate { tx, rx } => Emit::PhyUpdate { tx, rx },
            Emit::DataLengthUpdate { tx_octets, rx_octets } => Emit::DataLengthUpdate {
                tx_octets,
                rx_octets,
            },
            Emit::AttMtu { mtu } => Emit::AttMtu { mtu },
            Emit::FrameSpace { micros } => Emit::FrameSpace { micros },
            Emit::ConnectionRate {
                interval_ms,
                subrate_factor,
                latency,
                continuation_number,
                timeout_ms,
            } => Emit::ConnectionRate {
                interval_ms,
                subrate_factor,
                latency,
                continuation_number,
                timeout_ms,
            },
            Emit::Rssi { rssi } => Emit::Rssi { rssi },
            Emit::SecurityEvent { event, level, passkey, flags } => Emit::SecurityEvent {
                event,
                level,
                passkey,
                flags,
            },
            Emit::BondStore { index, blob } => Emit::BondStore { index, blob: blob@ },
            Emit::BondClear { index } => Emit::BondClear { index },
            Emit::Bond { index, addr, addr_kind, level, key_len, flags } => Emit::Bond {
                index,
                addr,
                addr_kind,
                level,
                key_len,
                flags,
            },
            Emit::BondDeleted { index, status } => Emit::BondDeleted { index, status },
            Emit::OobLocalData { random, confirm } => Emit::OobLocalData { random, confirm },
            Emit::L2capConnected => Emit::L2capConnected,
            Emit::L2capData { data } => Emit::L2capData { data: data@ },
            Emit::L2capDisconnected => Emit::L2capDisconnected,
            Emit::ClientStatus { op, status, handle } => Emit::ClientStatus { op, status, handle },
            Emit::DescriptorWrite { handle, chr, desc, data } => Emit::DescriptorWrite {
                handle,
                chr,
                desc,
                data: data@,
            },
            Emit::DescriptorWriteExt { handle, chr, desc, offset, data } => {
                Emit::DescriptorWriteExt { handle, chr, desc, offset, data: data@ }
            },
            Emit::SecurityState { level, key_len, flags } => Emit::SecurityState {
                level,
                key_len,
                flags,
            },
        }
    }
}

/// Calls in order, with their byte strings as sequences.
pub type Calls = Seq<Emit<Seq<u8>>>;

/// What a list of calls says.
pub open spec fn calls(list: Seq<Emit<Vec<u8>>>) -> Calls {
    list.map_values(|e: Emit<Vec<u8>>| e@)
}

/// The call `e` where its callback is installed, no call where it is not.
pub open spec fn called_if(installed: bool, e: Emit<Seq<u8>>) -> Calls {
    if installed {
        seq![e]
    } else {
        Seq::empty()
    }
}

/// How often an event is among events.
pub open spec fn times<E>(events: Seq<E>, event: E) -> nat
    decreases events.len(),
{
    if events.len() == 0 {
        0
    } else {
        times(events.drop_last(), event) + if events.last() == event {
            1nat
        } else {
            0nat
        }
    }
}

/// Adds the call `e` to a list where its callback is installed.
pub fn call_when(list: &mut Vec<Emit<Vec<u8>>>, installed: bool, e: Emit<Vec<u8>>)
    ensures
        calls(final(list)@) == calls(old(list)@) + called_if(installed, e@),
{
    if installed {
        list.push(e);
    }
    assert(calls(list@) =~= calls(old(list)@) + called_if(installed, e@));
}

/// The list of the call `e` alone, where its callback is installed.
pub fn only_when(installed: bool, e: Emit<Vec<u8>>) -> (r: Vec<Emit<Vec<u8>>>)
    ensures
        calls(r@) == called_if(installed, e@),
{
    let mut list: Vec<Emit<Vec<u8>>> = Vec::new();
    call_when(&mut list, installed, e);
    assert(calls(list@) =~= called_if(installed, e@));
    list
}

/// The empty list of calls.
pub fn no_calls() -> (r: Vec<Emit<Vec<u8>>>)
    ensures
        calls(r@) == Calls::empty(),
{
    let list: Vec<Emit<Vec<u8>>> = Vec::new();
    assert(calls(list@) =~= Calls::empty());
    list
}

} // verus!
