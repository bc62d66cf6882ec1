//! Addresses, scanning and connecting.

use crate::address::{
    addr_kind_to_c, c_addr_kind, device_address, peer_address, Address,
};
use crate::central::{
    runtime_ble_connect, runtime_ble_connect_addr, runtime_ble_scan_start,
    runtime_ble_scan_start_ex, runtime_ble_scan_stop,
};
use crate::client::{central_connect_params, central_step, CentralStep};
use crate::config::{RuntimeBleCallbacks, RuntimeCfg};
use crate::emit::{calls, Emit};
use crate::events::PhyKind;
use crate::host::ConnParams;
use crate::laws::server::told;
use crate::runtime::{CentralCmd, Runtime};
use crate::scan::{
    ext_adv_flags, ext_data_status_flags, legacy_adv_flags, on_adv_report, on_ext_adv_report,
    plan_scan, scan_deadline, scan_phys, scan_step, AdvEventKind, ExtDataStatus, ExtEventKind,
    ScanPhys, ScanPlan, ScanStep,
};
use vstd::prelude::*;

verus! {

/// The address types of the application interface are 1 for public and 0 for
/// random, the raw ones 0 for public and 1 for random; each names the other.
pub proof fn law_address_types(kind: u8, raw: u8, to_raw: u8, to_c: u8)
    requires
        call_ensures(c_addr_kind, (kind,), to_raw),
        call_ensures(addr_kind_to_c, (raw,), to_c),
    ensures
        to_raw == 0 <==> kind == 1,
        to_raw == 1 <==> kind != 1,
        to_c == 1 <==> raw == 0,
        to_c == 0 <==> raw != 0,
{
}

/// An address keeps its bytes, and its type names the raw type.
pub proof fn law_peer_address(addr: [u8; 6], kind: u8, r: Address)
    requires
        call_ensures(peer_address, (addr, kind), r),
    ensures
        r.addr == addr,
        r.kind == 0 <==> kind == 1,
        r.kind == 1 <==> kind != 1,
{
}

/// A session has the configured address, and the one of the device where none
/// is configured; it is a random address.
pub proof fn law_session_address(cfg: RuntimeCfg, factory: [u8; 6], r: Address)
    requires
        call_ensures(device_address, (&cfg, factory), r),
    ensures
        r.kind == 1,
        cfg.address is Some ==> Some(r.addr) == cfg.address,
        cfg.address is None ==> r.addr == factory,
{
}

/// What a legacy report says of the advertiser: bit 0x01 that it is
/// connectable, 0x02 scannable, 0x04 directed, 0x08 a scan response, and 0x10
/// always.
pub proof fn law_legacy_flags(kind: AdvEventKind, r: u16)
    requires
        call_ensures(legacy_adv_flags, (kind,), r),
    ensures
        r & 0x01 != 0 <==> kind is AdvInd || kind is AdvDirectInd,
        r & 0x02 != 0 <==> kind is AdvInd || kind is AdvScanInd,
        r & 0x04 != 0 <==> kind is AdvDirectInd,
        r & 0x08 != 0 <==> kind is ScanRsp,
        r & 0x10 != 0,
        r & 0xffe0 == 0,
{
    assert((0x01u16 | 0x02u16 | 0x10u16) == 0x13u16 && (0x01u16 | 0x04u16 | 0x10u16) == 0x15u16
        && (0x02u16 | 0x10u16) == 0x12u16 && (0x08u16 | 0x10u16) == 0x18u16) by (bit_vector);
    assert(0x13u16 & 0x01 != 0 && 0x13u16 & 0x02 != 0 && 0x13u16 & 0x04 == 0 && 0x13u16 & 0x08 == 0
        && 0x15u16 & 0x01 != 0 && 0x15u16 & 0x02 == 0 && 0x15u16 & 0x04 != 0 && 0x15u16 & 0x08 == 0
        && 0x12u16 & 0x01 == 0 && 0x12u16 & 0x02 != 0 && 0x12u16 & 0x04 == 0 && 0x12u16 & 0x08 == 0
        && 0x10u16 & 0x01 == 0 && 0x10u16 & 0x02 == 0 && 0x10u16 & 0x04 == 0 && 0x10u16 & 0x08 == 0
        && 0x18u16 & 0x01 == 0 && 0x18u16 & 0x02 == 0 && 0x18u16 & 0x04 == 0 && 0x18u16 & 0x08
        != 0) by (bit_vector);
    assert(0x13u16 & 0x10 != 0 && 0x15u16 & 0x10 != 0 && 0x12u16 & 0x10 != 0 && 0x10u16 & 0x10 != 0
        && 0x18u16 & 0x10 != 0 && 0x13u16 & 0xffe0 == 0 && 0x15u16 & 0xffe0 == 0 && 0x12u16
        & 0xffe0 == 0 && 0x10u16 & 0xffe0 == 0 && 0x18u16 & 0xffe0 == 0) by (bit_vector);
}

/// What an extended report says of the advertiser, bit by bit, and of its data:
/// 0x40 that they were cut off, 0x20 that they are incomplete in another way.
pub proof fn law_extended_flags(kind: ExtEventKind, r: u16)
    requires
        call_ensures(ext_adv_flags, (kind,), r),
    ensures
        r & 0x01 != 0 <==> kind.connectable,
        r & 0x02 != 0 <==> kind.scannable,
        r & 0x04 != 0 <==> kind.directed,
        r & 0x08 != 0 <==> kind.scan_response,
        r & 0x10 != 0 <==> kind.legacy,
        r & 0x20 != 0 <==> kind.data_status is IncompleteMoreExpected || kind.data_status
            is Reserved,
        r & 0x40 != 0 <==> kind.data_status is IncompleteTruncated,
{
    crate::scan::law_ext_flags_are_separate(kind);
}

/// The completeness of the data of a report is no flag, 0x20 or 0x40.
pub proof fn law_data_status_flags(status: ExtDataStatus, r: u16)
    requires
        call_ensures(ext_data_status_flags, (status,), r),
    ensures
        r == 0 <==> status is Complete,
        r == 0x20 <==> status is IncompleteMoreExpected || status is Reserved,
        r == 0x40 <==> status is IncompleteTruncated,
{
}

/// A legacy report reaches every installed callback for reports, with the
/// address of the advertiser, its type where the callback takes one, the signal
/// strength and the data; it was sent on the 1M PHY and has no secondary PHY,
/// power or set.
pub proof fn law_legacy_report_reaches_the_application(
    cb: RuntimeBleCallbacks,
    addr: [u8; 6],
    raw: u8,
    rssi: i8,
    kind: AdvEventKind,
    data: &[u8],
    flags: u16,
    r: Vec<Emit<Vec<u8>>>,
)
    requires
        call_ensures(legacy_adv_flags, (kind,), flags),
        call_ensures(on_adv_report, (&cb, addr, raw, rssi, kind, data), r),
    ensures
        ({
            let addr_kind: u8 = if raw == 0 {
                1
            } else {
                0
            };
            calls(r@) == told(
                cb.on_scan_result_meta,
                Emit::ScanResultMeta {
                    addr,
                    addr_kind,
                    rssi,
                    adv: data@,
                    flags,
                    primary_phy: 1,
                    secondary_phy: 0,
                    tx_power_dbm: 127,
                    sid: 255,
                },
            ) + told(
                cb.on_scan_result_ext,
                Emit::ScanResultExt { addr, addr_kind, rssi, adv: data@ },
            ) + told(cb.on_scan_result, Emit::ScanResult { addr, rssi, adv: data@ })
        }),
{
}

/// An extended report reaches every installed callback likewise, with its PHYs,
/// power and set.
pub proof fn law_extended_report_reaches_the_application(
    cb: RuntimeBleCallbacks,
    addr: [u8; 6],
    raw: u8,
    rssi: i8,
    kind: ExtEventKind,
    data: &[u8],
    primary: PhyKind,
    secondary: Option<PhyKind>,
    tx_power_dbm: i8,
    sid: u8,
    flags: u16,
    r: Vec<Emit<Vec<u8>>>,
)
    requires
        call_ensures(ext_adv_flags, (kind,), flags),
        call_ensures(
            on_ext_adv_report,
            (&cb, addr, raw, rssi, kind, data, primary, secondary, tx_power_dbm, sid),
            r,
        ),
    ensures
        ({
            let addr_kind: u8 = if raw == 0 {
                1
            } else {
                0
            };
            let code = |phy: PhyKind|
                if phy is Le1M {
                    1u8
                } else if phy is Le2M {
                    2u8
                } else {
                    3u8
                };
            calls(r@) == told(
                cb.on_scan_result_meta,
                Emit::ScanResultMeta {
                    addr,
                    addr_kind,
                    rssi,
                    adv: data@,
                    flags,
                    primary_phy: code(primary),
                    secondary_phy: if secondary is Some {
                        code(secondary->0)
                    } else {
                        0
                    },
                    tx_power_dbm,
                    sid,
                },
            ) + told(
                cb.on_scan_result_ext,
                Emit::ScanResultExt { addr, addr_kind, rssi, adv: data@ },
            ) + told(cb.on_scan_result, Emit::ScanResult { addr, rssi, adv: data@ })
        }),
{
}

/// The address and the address type that a call reports.
pub open spec fn reported_device(call: Emit<Seq<u8>>) -> Option<([u8; 6], u8)> {
    match call {
        Emit::ScanResultExt { addr, addr_kind, .. } => Some((addr, addr_kind)),
        Emit::ScanResultMeta { addr, addr_kind, .. } => Some((addr, addr_kind)),
        _ => None,
    }
}

/// A reported device can be connected to: the address and the type that a call
/// of a report carries, passed back to a connection request that is accepted,
/// lead to a connection to the address and the raw type of the report.
pub proof fn law_reported_device_can_be_connected_to(
    cb: RuntimeBleCallbacks,
    addr: [u8; 6],
    raw: u8,
    rssi: i8,
    kind: AdvEventKind,
    ext: ExtEventKind,
    data: &[u8],
    primary: PhyKind,
    secondary: Option<PhyKind>,
    power: i8,
    sid: u8,
    legacy: bool,
    r: Vec<Emit<Vec<u8>>>,
    k: int,
    told_addr: [u8; 6],
    told_kind: u8,
    rt: &mut Runtime,
    accepted: i32,
    next: &mut Runtime,
    cfg: RuntimeCfg,
    auto: &mut bool,
    step: CentralStep,
)
    requires
        raw == 0 || raw == 1,
        legacy ==> call_ensures(on_adv_report, (&cb, addr, raw, rssi, kind, data), r),
        !legacy ==> call_ensures(
            on_ext_adv_report,
            (&cb, addr, raw, rssi, ext, data, primary, secondary, power, sid),
            r,
        ),
        0 <= k < calls(r@).len(),
        reported_device(calls(r@)[k]) == Some((told_addr, told_kind)),
        call_ensures(runtime_ble_connect_addr, (rt, Some(told_addr), told_kind), accepted),
        accepted == 0,
        old(next)@ == final(rt)@,
        !old(next).unload,
        !*old(auto),
        call_ensures(central_step, (next, &cfg, auto), step),
    ensures
        step == CentralStep::Connect(Address { kind: raw, addr }),
{
}

/// A request to connect is accepted, where there is the central role and an
/// address, unless a request is queued, and leads to that device: out of the
/// idle state and out of a scan. Without a type the address is random.
pub proof fn law_connection_is_to_the_asked_device(
    rt: &mut Runtime,
    addr: Option<[u8; 6]>,
    kind: u8,
    r: i32,
    next: &mut Runtime,
    cfg: RuntimeCfg,
    auto: &mut bool,
    step: CentralStep,
    scanning: &mut Runtime,
    scan: ScanStep,
)
    requires
        kind == 0 ==> call_ensures(runtime_ble_connect, (rt, addr), r),
        kind != 0 ==> call_ensures(runtime_ble_connect_addr, (rt, addr, kind), r),
        old(next)@ == final(rt)@,
        old(scanning)@ == final(rt)@,
        !*old(auto),
        call_ensures(central_step, (next, &cfg, auto), step),
        call_ensures(scan_step, (scanning, None, 0), scan),
    ensures
        r == -1 <==> !old(rt).build.central || addr is None,
        r == -2 <==> old(rt).build.central && addr is Some && old(rt).central.cmd is Some,
        r == 0 <==> old(rt).build.central && addr is Some && old(rt).central.cmd is None,
        r == -1 ==> final(rt)@ == old(rt)@,
        r == 0 && !old(rt).unload ==> {
            let raw: u8 = if kind == 1 {
                0
            } else {
                1
            };
            &&& step == CentralStep::Connect(Address { kind: raw, addr: addr->0 })
            &&& scan == ScanStep::Connect(Address { kind: raw, addr: addr->0 })
            &&& final(next).central.cmd is None
            &&& final(scanning).central.cmd is None
        },
{
}

/// The first connection of a session is to the configured device, without a
/// request and once; with none configured, and after that, a connection or a
/// scan needs its request, and every other request is dropped.
pub proof fn law_idle_central_role(
    rt: &mut Runtime,
    cfg: RuntimeCfg,
    auto: &mut bool,
    step: CentralStep,
)
    requires
        call_ensures(central_step, (rt, &cfg, auto), step),
    ensures
        old(rt).unload ==> step is Unloaded && final(rt)@ == old(rt)@ && *final(auto) == *old(auto),
        !old(rt).unload && *old(auto) && cfg.peer_address is Some ==> {
            &&& step == CentralStep::Connect(
                Address {
                    kind: if cfg.peer_address_kind == 1 {
                        0
                    } else {
                        1
                    },
                    addr: cfg.peer_address->0,
                },
            )
            &&& !*final(auto)
            &&& final(rt)@ == old(rt)@
        },
        !old(rt).unload && !(*old(auto) && cfg.peer_address is Some) ==> {
            &&& step is Connect <==> old(rt).central.cmd == Some(CentralCmd::Connect)
            &&& step is Scan <==> old(rt).central.cmd == Some(CentralCmd::ScanStart)
            &&& !(step is Unloaded)
            &&& final(rt).central.cmd is None
            &&& !*old(auto) ==> !*final(auto)
        },
{
}

/// The connection parameters of a new connection are the configured ones where
/// they are in range, zero standing for 80 ms and 8 s, and the defaults where
/// they are not; which of the two is said.
pub proof fn law_connection_parameters_are_the_configured_ones(
    cfg: RuntimeCfg,
    r: (ConnParams, bool),
)
    requires
        call_ensures(central_connect_params, (&cfg,), r),
    ensures
        ({
            let min: int = if cfg.central_conn_min_interval_ms == 0 {
                80
            } else {
                cfg.central_conn_min_interval_ms as int
            };
            let max: int = if cfg.central_conn_max_interval_ms == 0 {
                80
            } else {
                cfg.central_conn_max_interval_ms as int
            };
            let timeout: int = if cfg.central_conn_timeout_ms == 0 {
                8000
            } else {
                cfg.central_conn_timeout_ms as int
            };
            let latency = cfg.central_conn_latency as int;
            &&& r.1 <==> 8 <= min <= max <= 4000 && latency < 500 && 100 <= timeout <= 32000
                && timeout > 2 * (latency + 1) * max
            &&& r.1 ==> r.0.min_interval_ms == min && r.0.max_interval_ms == max && r.0.max_latency
                == latency && r.0.supervision_timeout_ms == timeout
            &&& !r.1 ==> r.0.min_interval_ms == 80 && r.0.max_interval_ms == 80 && r.0.max_latency
                == 0 && r.0.supervision_timeout_ms == 8000
            &&& r.0.min_event_ms == 0 && r.0.max_event_ms == 0
        }),
{
}

/// A scan is on exactly the PHYs whose bits are set, 0x02 for 1M, 0x04 for 2M
/// and 0x08 for coded, and on 1M where none is.
pub proof fn law_scan_is_on_the_selected_phys(options: u8, r: ScanPhys)
    requires
        call_ensures(scan_phys, (options,), r),
    ensures
        r is M1 || r is M1M2 || r is M1Coded || r is M1M2Coded <==> options & 0x02 != 0 || options
            & 0x0e == 0,
        r is M2 || r is M1M2 || r is M2Coded || r is M1M2Coded <==> options & 0x04 != 0,
        r is Coded || r is M1Coded || r is M2Coded || r is M1M2Coded <==> options & 0x08 != 0,
{
    crate::scan::law_scan_phys_are_the_selected_ones(options);
}

/// A scan runs with the parameters that it was asked for with: zero stands for
/// an interval of 100 ms and a window of 50 ms, bit 0x01 of the options filters
/// duplicates, and an address limits the scan to its device.
pub proof fn law_scan_runs_with_its_parameters(
    rt: &mut Runtime,
    active: u8,
    interval_ms: u16,
    window_ms: u16,
    timeout_ms: u16,
    options: u8,
    filter: Option<[u8; 6]>,
    kind: u8,
    r: i32,
    next: Runtime,
    plan: ScanPlan,
    phys: ScanPhys,
)
    requires
        call_ensures(
            runtime_ble_scan_start_ex,
            (rt, active, interval_ms, window_ms, timeout_ms, options, filter, kind),
            r,
        ),
        next@ == final(rt)@,
        call_ensures(plan_scan, (&next,), plan),
        call_ensures(scan_phys, (options,), phys),
    ensures
        r == -1 <==> !old(rt).build.central,
        r == -2 <==> old(rt).build.central && old(rt).central.cmd is Some,
        r == 0 <==> old(rt).build.central && old(rt).central.cmd is None,
        r == 0 ==> final(rt).central.cmd == Some(CentralCmd::ScanStart),
        r == -1 ==> final(rt)@ == old(rt)@,
        r == 0 ==> {
            &&& plan.active <==> active != 0
            &&& interval_ms > 0 ==> plan.interval_ms == interval_ms
            &&& interval_ms == 0 ==> plan.interval_ms == 100
            &&& window_ms > 0 ==> plan.window_ms == window_ms
            &&& window_ms == 0 ==> plan.window_ms == 50
            &&& plan.timeout_ms == timeout_ms
            &&& plan.filter_duplicates <==> options & 0x01 != 0
            &&& plan.phys == phys
            &&& plan.filter is Some <==> filter is Some
            &&& plan.filter is Some ==> Some(plan.filter->0.addr) == filter && (
            plan.filter->0.kind == 0 <==> kind == 1) && (plan.filter->0.kind == 1 <==> kind != 1)
        },
{
    assert((options & 0x0e) & 0x0e == options & 0x0e) by (bit_vector);
}

/// A plain scan is for every device, on the 1M PHY, and reports duplicates.
pub proof fn law_plain_scan(
    rt: &mut Runtime,
    active: u8,
    interval_ms: u16,
    window_ms: u16,
    timeout_ms: u16,
    r: i32,
    next: Runtime,
    plan: ScanPlan,
)
    requires
        call_ensures(
            runtime_ble_scan_start,
            (rt, active, interval_ms, window_ms, timeout_ms),
            r,
        ),
        r == 0,
        next@ == final(rt)@,
        call_ensures(plan_scan, (&next,), plan),
    ensures
        final(rt).central.cmd == Some(CentralCmd::ScanStart),
        plan.active <==> active != 0,
        interval_ms > 0 ==> plan.interval_ms == interval_ms,
        window_ms > 0 ==> plan.window_ms == window_ms,
        plan.timeout_ms == timeout_ms,
        !plan.filter_duplicates,
        plan.phys is M1,
        plan.filter is None,
{
    assert(0u8 & 0x0e == 0 && 0u8 & 0x01 == 0) by (bit_vector);
}

/// A scan with a timeout ends that many milliseconds after its start, and one
/// without never ends by itself.
pub proof fn law_scan_has_its_time(plan: ScanPlan, now_ms: u64, r: Option<u64>)
    requires
        now_ms <= u64::MAX - u16::MAX,
        call_ensures(scan_deadline, (&plan, now_ms), r),
    ensures
        plan.timeout_ms == 0 <==> r is None,
        r is Some ==> r->0 - now_ms == plan.timeout_ms,
{
}

/// A scan ends by unloading, at its deadline, by a request to stop and by one to
/// connect, in this order; unloading and the deadline leave a request queued,
/// and any other request is dropped.
pub proof fn law_scan_ends(
    rt: &mut Runtime,
    deadline: Option<u64>,
    now_ms: u64,
    r: ScanStep,
)
    requires
        call_ensures(scan_step, (rt, deadline, now_ms), r),
    ensures
        r is Unloaded <==> old(rt).unload,
        r is TimedOut <==> !old(rt).unload && deadline is Some && deadline->0 <= now_ms,
        r is Unloaded || r is TimedOut ==> final(rt)@ == old(rt)@,
        !(r is Unloaded || r is TimedOut) ==> {
            &&& final(rt).central.cmd is None
            &&& r is Stopped <==> old(rt).central.cmd == Some(CentralCmd::ScanStop)
            &&& r is Connect <==> old(rt).central.cmd == Some(CentralCmd::Connect)
        },
{
}

/// A request to stop the scan stops it.
pub proof fn law_scan_is_stopped(rt: &mut Runtime, r: i32, next: &mut Runtime, step: ScanStep)
    requires
        call_ensures(runtime_ble_scan_stop, (rt,), r),
        old(next)@ == final(rt)@,
        call_ensures(scan_step, (next, None, 0), step),
    ensures
        r == -1 <==> !old(rt).build.central,
        r == -2 <==> old(rt).build.central && old(rt).central.cmd is Some,
        r != 0 ==> final(rt)@ == old(rt)@,
        r == 0 && !old(rt).unload ==> step is Stopped,
{
}

} // verus!
