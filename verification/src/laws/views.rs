//! Views keep what they view: the order of calls and every field, with bytes as
//! sequences.

use crate::adv::Advertisement;
use crate::client::ClientAction;
use crate::emit::{calls, Emit};
use crate::l2cap::PumpStep;
use crate::runtime::Runtime;
use crate::serve::ServeAction;
use crate::server::TxAction;
use vstd::prelude::*;

verus! {

/// A list of calls says as many calls as it holds, in its order.
pub proof fn law_calls_keep_order(list: Seq<Emit<Vec<u8>>>, i: int)
    requires
        0 <= i < list.len(),
    ensures
        calls(list).len() == list.len(),
        calls(list)[i] == list[i]@,
{
}

/// The view of a call without bytes has its variant and its fields.
pub proof fn law_plain_call_is_kept(e: Emit<Vec<u8>>)
    ensures
        e is Connected ==> e@ == Emit::<Seq<u8>>::Connected,
        e matches Emit::Disconnected { reason } ==> e@ == (Emit::<Seq<u8>>::Disconnected {
            reason,
        }),
        e matches Emit::Subscription { chr, notify, indicate } ==> e@ == (Emit::<
            Seq<u8>,
        >::Subscription { chr, notify, indicate }),
        e matches Emit::ConnParams { interval_ms, latency, timeout_ms } ==> e@ == (Emit::<
            Seq<u8>,
        >::ConnParams { interval_ms, latency, timeout_ms }),
        e matches Emit::PhyUpdate { tx, rx } ==> e@ == (Emit::<Seq<u8>>::PhyUpdate { tx, rx }),
        e matches Emit::DataLengthUpdate { tx_octets, rx_octets } ==> e@ == (Emit::<
            Seq<u8>,
        >::DataLengthUpdate { tx_octets, rx_octets }),
        e matches Emit::AttMtu { mtu } ==> e@ == (Emit::<Seq<u8>>::AttMtu { mtu }),
        e matches Emit::FrameSpace { micros } ==> e@ == (Emit::<Seq<u8>>::FrameSpace { micros }),
        e matches Emit::ConnectionRate {
            interval_ms,
            subrate_factor,
            latency,
            continuation_number,
            timeout_ms,
        } ==> e@ == (Emit::<Seq<u8>>::ConnectionRate {
            interval_ms,
            subrate_factor,
            latency,
            continuation_number,
            timeout_ms,
        }),
        e matches Emit::Rssi { rssi } ==> e@ == (Emit::<Seq<u8>>::Rssi { rssi }),
        e matches Emit::SecurityEvent { event, level, passkey, flags } ==> e@ == (Emit::<
            Seq<u8>,
        >::SecurityEvent { event, level, passkey, flags }),
        e matches Emit::BondClear { index } ==> e@ == (Emit::<Seq<u8>>::BondClear { index }),
        e matches Emit::Bond { index, addr, addr_kind, level, key_len, flags } ==> e@ == (Emit::<
            Seq<u8>,
        >::Bond { index, addr, addr_kind, level, key_len, flags }),
        e matches Emit::BondDeleted { index, status } ==> e@ == (Emit::<Seq<u8>>::BondDeleted {
            index,
            status,
        }),
        e matches Emit::OobLocalData { random, confirm } ==> e@ == (Emit::<
            Seq<u8>,
        >::OobLocalData { random, confirm }),
        e is L2capConnected ==> e@ == Emit::<Seq<u8>>::L2capConnected,
        e is L2capDisconnected ==> e@ == Emit::<Seq<u8>>::L2capDisconnected,
        e matches Emit::ClientStatus { op, status, handle } ==> e@ == (Emit::<
            Seq<u8>,
        >::ClientStatus { op, status, handle }),
        e matches Emit::SecurityState { level, key_len, flags } ==> e@ == (Emit::<
            Seq<u8>,
        >::SecurityState { level, key_len, flags }),
{
}

/// The view of a call with bytes has its variant, its fields and its bytes.
pub proof fn law_call_with_bytes_is_kept(e: Emit<Vec<u8>>)
    ensures
        e matches Emit::Data { data } ==> e@ == (Emit::Data { data: data@ }),
        e matches Emit::Write { chr, data } ==> e@ == (Emit::Write { chr, data: data@ }),
        e matches Emit::WriteExt { chr, offset, data } ==> e@ == (Emit::WriteExt {
            chr,
            offset,
            data: data@,
        }),
        e matches Emit::ScanResult { addr, rssi, adv } ==> e@ == (Emit::ScanResult {
            addr,
            rssi,
            adv: adv@,
        }),
        e matches Emit::ScanResultExt { addr, addr_kind, rssi, adv } ==> e@ == (
        Emit::ScanResultExt { addr, addr_kind, rssi, adv: adv@ }),
        e matches Emit::ScanResultMeta {
            addr,
            addr_kind,
            rssi,
            adv,
            flags,
            primary_phy,
            secondary_phy,
            tx_power_dbm,
            sid,
        } ==> e@ == (Emit::ScanResultMeta {
            addr,
            addr_kind,
            rssi,
            adv: adv@,
            flags,
            primary_phy,
            secondary_phy,
            tx_power_dbm,
            sid,
        }),
        e matches Emit::Service { start, end, uuid } ==> e@ == (Emit::Service {
            start,
            end,
            uuid: uuid@,
        }),
        e matches Emit::Discovered { handle, uuid, props } ==> e@ == (Emit::Discovered {
            handle,
            uuid: uuid@,
            props,
        }),
        e matches Emit::Descriptor { handle, uuid } ==> e@ == (Emit::Descriptor {
            handle,
            uuid: uuid@,
        }),
        e matches Emit::Read { handle, data } ==> e@ == (Emit::Read { handle, data: data@ }),
        e matches Emit::Notification { handle, data } ==> e@ == (Emit::Notification {
            handle,
            data: data@,
        }),
        e matches Emit::BondStore { index, blob } ==> e@ == (Emit::BondStore {
            index,
            blob: blob@,
        }),
        e matches Emit::L2capData { data } ==> e@ == (Emit::L2capData { data: data@ }),
        e matches Emit::DescriptorWrite { handle, chr, desc, data } ==> e@ == (
        Emit::DescriptorWrite { handle, chr, desc, data: data@ }),
        e matches Emit::DescriptorWriteExt { handle, chr, desc, offset, data } ==> e@ == (
        Emit::DescriptorWriteExt { handle, chr, desc, offset, data: data@ }),
{
}

/// The view of the state has every field of the state.
pub proof fn law_state_is_kept(rt: Runtime)
    ensures
        rt@.build == rt.build,
        rt@.config == rt.config,
        rt@.load_status == rt.load_status,
        rt@.unload == rt.unload,
        rt@.send.pending == rt.send.pending,
        rt@.send.target == rt.send.target,
        rt@.send.kind == rt.send.kind,
        rt@.send.data == rt.send.data@,
        rt@.link == rt.link,
        rt@.bond == rt.bond,
        rt@.central.cmd == rt.central.cmd,
        rt@.central.handle == rt.central.handle,
        rt@.central.addr == rt.central.addr,
        rt@.central.addr_kind == rt.central.addr_kind,
        rt@.central.uuid == rt.central.uuid@,
        rt@.central.data == rt.central.data@,
        rt@.scan == rt.scan,
        rt@.l2cap.pending == rt.l2cap.pending,
        rt@.l2cap.data == rt.l2cap.data@,
        rt@.l2cap.disconnect == rt.l2cap.disconnect,
{
}

/// The views of what a session does next have its variants, fields and bytes.
pub proof fn law_actions_are_kept(
    tx: TxAction<Vec<u8>>,
    pump: PumpStep<Vec<u8>>,
    adv: Advertisement<Vec<u8>>,
    serve: ServeAction<Vec<u8>>,
)
    ensures
        tx is Idle <==> tx@ is Idle,
        tx is Dropped <==> tx@ is Dropped,
        tx matches TxAction::Notify { chr, data } ==> tx@ == (TxAction::Notify {
            chr,
            data: data@,
        }),
        tx matches TxAction::Indicate { chr, data } ==> tx@ == (TxAction::Indicate {
            chr,
            data: data@,
        }),
        pump is Idle <==> pump@ is Idle,
        pump is Close <==> pump@ is Close,
        pump matches PumpStep::Send { data } ==> pump@ == (PumpStep::Send { data: data@ }),
        adv matches Advertisement::Directed { peer, high_duty } ==> adv@ == (Advertisement::<
            Seq<u8>,
        >::Directed { peer, high_duty }),
        adv matches Advertisement::ConnectableScannable { adv: a, scan } ==> adv@ == (
        Advertisement::ConnectableScannable { adv: a@, scan: scan@ }),
        adv matches Advertisement::NonconnectableScannable { adv: a, scan } ==> adv@ == (
        Advertisement::NonconnectableScannable { adv: a@, scan: scan@ }),
        adv matches Advertisement::NonconnectableNonscannable { adv: a } ==> adv@ == (
        Advertisement::NonconnectableNonscannable { adv: a@ }),
        serve matches ServeAction::Accept(a) ==> serve@ == ServeAction::Accept(a@),
        serve matches ServeAction::Broadcast(a) ==> serve@ == ServeAction::Broadcast(a@),
        serve is Pause <==> serve@ is Pause,
        serve is ServeLink <==> serve@ is ServeLink,
        serve is Stop <==> serve@ is Stop,
{
}

/// The view of what the GATT client does has its variant, fields and bytes.
pub proof fn law_client_action_is_kept(a: ClientAction<Vec<u8>>)
    ensures
        a is Idle <==> a@ is Idle,
        a is Disconnect <==> a@ is Disconnect,
        a is DiscoverServices <==> a@ is DiscoverServices,
        a is DiscoverAll <==> a@ is DiscoverAll,
        a matches ClientAction::Discover { uuid } ==> a@ == (ClientAction::Discover {
            uuid: uuid@,
        }),
        a matches ClientAction::DiscoverDescriptors { start, end } ==> a@ == (ClientAction::<
            Seq<u8>,
        >::DiscoverDescriptors { start, end }),
        a matches ClientAction::RejectedRange { start } ==> a@ == (ClientAction::<
            Seq<u8>,
        >::RejectedRange { start }),
        a matches ClientAction::ReadByUuid { start, end, uuid } ==> a@ == (
        ClientAction::ReadByUuid { start, end, uuid: uuid@ }),
        a matches ClientAction::Read { handle } ==> a@ == (ClientAction::<Seq<u8>>::Read {
            handle,
        }),
        a matches ClientAction::ReadBlob { handle, offset } ==> a@ == (ClientAction::<
            Seq<u8>,
        >::ReadBlob { handle, offset }),
        a matches ClientAction::Write { handle, data } ==> a@ == (ClientAction::Write {
            handle,
            data: data@,
        }),
        a matches ClientAction::WriteNoRsp { handle, data } ==> a@ == (ClientAction::WriteNoRsp {
            handle,
            data: data@,
        }),
        a matches ClientAction::Configure { op, handle, cccd, value } ==> a@ == (ClientAction::<
            Seq<u8>,
        >::Configure { op, handle, cccd, value }),
{
}

} // verus!
