//! Scanning: what the application is told of advertising reports, how a scan
//! is set up, and when it ends.

use crate::address::{addr_kind_to_c, c_kind, peer, peer_address, Address};
use crate::bytes::copied;
use crate::config::RuntimeBleCallbacks;
use crate::emit::{call_when, called_if, calls, only_when, Calls, Emit};
use crate::events::{phy_code, phy_to_c, PhyKind};
use crate::runtime::{CentralCmd, CentralSlot, Model, Runtime, ScanParams, State};
use vstd::prelude::*;

verus! {

pub const SCAN_F_CONNECTABLE: u16 = 0x01;

pub const SCAN_F_SCANNABLE: u16 = 0x02;

pub const SCAN_F_DIRECTED: u16 = 0x04;

pub const SCAN_F_SCAN_RESPONSE: u16 = 0x08;

pub const SCAN_F_LEGACY: u16 = 0x10;

pub const SCAN_F_DATA_INCOMPLETE: u16 = 0x20;

pub const SCAN_F_DATA_TRUNCATED: u16 = 0x40;

/// Kind of a legacy advertising report.
#[derive(Clone, Copy, Debug, PartialEq, Eq, Structural)]
pub enum AdvEventKind {
    AdvInd,
    AdvDirectInd,
    AdvScanInd,
    AdvNonconnInd,
    ScanRsp,
}

/// Completeness of the data of an extended advertising report.
#[derive(Clone, Copy, Debug, PartialEq, Eq, Structural)]
pub enum ExtDataStatus {
    Complete,
    IncompleteMoreExpected,
    IncompleteTruncated,
    Reserved,
}

/// The flags of a legacy report.
pub open spec fn legacy_flags(kind: AdvEventKind) -> u16 {
    match kind {
        AdvEventKind::AdvInd => SCAN_F_CONNECTABLE | SCAN_F_SCANNABLE | SCAN_F_LEGACY,
        AdvEventKind::AdvDirectInd => SCAN_F_CONNECTABLE | SCAN_F_DIRECTED | SCAN_F_LEGACY,
        AdvEventKind::AdvScanInd => SCAN_F_SCANNABLE | SCAN_F_LEGACY,
        AdvEventKind::AdvNonconnInd => SCAN_F_LEGACY,
        AdvEventKind::ScanRsp => SCAN_F_SCAN_RESPONSE | SCAN_F_LEGACY,
    }
}

/// The flags of a legacy report.
pub fn legacy_adv_flags(kind: AdvEventKind) -> (r: u16)
    ensures
        r == legacy_flags(kind),
{
    match kind {
        AdvEventKind::AdvInd => SCAN_F_CONNECTABLE | SCAN_F_SCANNABLE | SCAN_F_LEGACY,
        AdvEventKind::AdvDirectInd => SCAN_F_CONNECTABLE | SCAN_F_DIRECTED | SCAN_F_LEGACY,
        AdvEventKind::AdvScanInd => SCAN_F_SCANNABLE | SCAN_F_LEGACY,
        AdvEventKind::AdvNonconnInd => SCAN_F_LEGACY,
        AdvEventKind::ScanRsp => SCAN_F_SCAN_RESPONSE | SCAN_F_LEGACY,
    }
}

/// The flag for the completeness of the data of an extended report.
pub open spec fn data_status_flags(status: ExtDataStatus) -> u16 {
    match status {
        ExtDataStatus::Complete => 0,
        ExtDataStatus::IncompleteMoreExpected => SCAN_F_DATA_INCOMPLETE,
        ExtDataStatus::IncompleteTruncated => SCAN_F_DATA_TRUNCATED,
        ExtDataStatus::Reserved => SCAN_F_DATA_INCOMPLETE,
    }
}

/// The flag for the completeness of the data of an extended report.
pub fn ext_data_status_flags(status: ExtDataStatus) -> (r: u16)
    ensures
        r == data_status_flags(status),
{
    match status {
        ExtDataStatus::Complete => 0,
        ExtDataStatus::IncompleteMoreExpected => SCAN_F_DATA_INCOMPLETE,
        ExtDataStatus::IncompleteTruncated => SCAN_F_DATA_TRUNCATED,
        ExtDataStatus::Reserved => SCAN_F_DATA_INCOMPLETE,
    }
}

/// Kind of an extended advertising report.
#[derive(Clone, Copy, Debug, PartialEq, Eq, Structural)]
pub struct ExtEventKind {
    pub connectable: bool,
    pub scannable: bool,
    pub directed: bool,
    pub scan_response: bool,
    pub legacy: bool,
    pub data_status: ExtDataStatus,
}

/// The flags of an extended report.
pub open spec fn ext_flags(kind: ExtEventKind) -> u16 {
    data_status_flags(kind.data_status) | (if kind.connectable {
        SCAN_F_CONNECTABLE
    } else {
        0u16
    }) | (if kind.scannable {
        SCAN_F_SCANNABLE
    } else {
        0u16
    }) | (if kind.directed {
        SCAN_F_DIRECTED
    } else {
        0u16
    }) | (if kind.scan_response {
        SCAN_F_SCAN_RESPONSE
    } else {
        0u16
    }) | (if kind.legacy {
        SCAN_F_LEGACY
    } else {
        0u16
    })
}

/// The flags of an extended report.
pub fn ext_adv_flags(kind: ExtEventKind) -> (r: u16)
    ensures
        r == ext_flags(kind),
{
    ext_data_status_flags(kind.data_status) | (if kind.connectable {
        SCAN_F_CONNECTABLE
    } else {
        0u16
    }) | (if kind.scannable {
        SCAN_F_SCANNABLE
    } else {
        0u16
    }) | (if kind.directed {
        SCAN_F_DIRECTED
    } else {
        0u16
    }) | (if kind.scan_response {
        SCAN_F_SCAN_RESPONSE
    } else {
        0u16
    }) | (if kind.legacy {
        SCAN_F_LEGACY
    } else {
        0u16
    })
}

/// Each property of an extended report is one flag, and no other changes it.
pub proof fn law_ext_flags_are_separate(kind: ExtEventKind)
    ensures
        (ext_flags(kind) & SCAN_F_CONNECTABLE != 0) == kind.connectable,
        (ext_flags(kind) & SCAN_F_SCANNABLE != 0) == kind.scannable,
        (ext_flags(kind) & SCAN_F_DIRECTED != 0) == kind.directed,
        (ext_flags(kind) & SCAN_F_SCAN_RESPONSE != 0) == kind.scan_response,
        (ext_flags(kind) & SCAN_F_LEGACY != 0) == kind.legacy,
        (ext_flags(kind) & SCAN_F_DATA_TRUNCATED != 0) == (kind.data_status
            == ExtDataStatus::IncompleteTruncated),
        (ext_flags(kind) & SCAN_F_DATA_INCOMPLETE != 0) == (kind.data_status
            == ExtDataStatus::IncompleteMoreExpected || kind.data_status
            == ExtDataStatus::Reserved),
{
    let s = data_status_flags(kind.data_status);
    let a = kind.connectable;
    let b = kind.scannable;
    let c = kind.directed;
    let d = kind.scan_response;
    let e = kind.legacy;
    assert(s == 0 || s == 0x20 || s == 0x40);
    assert({
        let f = s | (if a { 0x01u16 } else { 0u16 }) | (if b { 0x02u16 } else { 0u16 }) | (if c {
            0x04u16
        } else {
            0u16
        }) | (if d { 0x08u16 } else { 0u16 }) | (if e { 0x10u16 } else { 0u16 });
        &&& (f & 0x01 != 0) == a
        &&& (f & 0x02 != 0) == b
        &&& (f & 0x04 != 0) == c
        &&& (f & 0x08 != 0) == d
        &&& (f & 0x10 != 0) == e
        &&& (f & 0x20 != 0) == (s == 0x20)
        &&& (f & 0x40 != 0) == (s == 0x40)
    }) by (bit_vector)
        requires
            s == 0u16 || s == 0x20u16 || s == 0x40u16,
    ;
}

/// What a report says beside its flags, PHYs, power and set: the address of
/// the advertiser with its raw type, the signal strength and the data.
pub open spec fn report_calls(
    cb: RuntimeBleCallbacks,
    addr: [u8; 6],
    addr_kind: u8,
    rssi: i8,
    adv: Seq<u8>,
    flags: u16,
    primary_phy: u8,
    secondary_phy: u8,
    tx_power_dbm: i8,
    sid: u8,
) -> Calls {
    called_if(
        cb.on_scan_result_meta,
        Emit::ScanResultMeta {
            addr,
            addr_kind: c_kind(addr_kind),
            rssi,
            adv,
            flags,
            primary_phy,
            secondary_phy,
            tx_power_dbm,
            sid,
        },
    ) + called_if(
        cb.on_scan_result_ext,
        Emit::ScanResultExt { addr, addr_kind: c_kind(addr_kind), rssi, adv },
    ) + called_if(cb.on_scan_result, Emit::ScanResult { addr, rssi, adv })
}

/// Tells the application of a report, through each callback for reports.
fn emit_report(
    cb: &RuntimeBleCallbacks,
    addr: [u8; 6],
    addr_kind: u8,
    rssi: i8,
    adv: &[u8],
    flags: u16,
    primary_phy: u8,
    secondary_phy: u8,
    tx_power_dbm: i8,
    sid: u8,
) -> (r: Vec<Emit<Vec<u8>>>)
    ensures
        calls(r@) == report_calls(
            *cb,
            addr,
            addr_kind,
            rssi,
            adv@,
            flags,
            primary_phy,
            secondary_phy,
            tx_power_dbm,
            sid,
        ),
{
    let mut list = only_when(
        cb.on_scan_result_meta,
        Emit::ScanResultMeta {
            addr,
            addr_kind: addr_kind_to_c(addr_kind),
            rssi,
            adv: copied(adv),
            flags,
            primary_phy,
            secondary_phy,
            tx_power_dbm,
            sid,
        },
    );
    call_when(
        &mut list,
        cb.on_scan_result_ext,
        Emit::ScanResultExt { addr, addr_kind: addr_kind_to_c(addr_kind), rssi, adv: copied(adv) },
    );
    call_when(&mut list, cb.on_scan_result, Emit::ScanResult { addr, rssi, adv: copied(adv) });
    list
}

/// Secondary PHY of a report without one.
pub const NO_SECONDARY_PHY: u8 = 0;

/// Power of a report without one.
pub const NO_TX_POWER: i8 = 127;

/// Advertising set of a report without one.
pub const NO_SID: u8 = 0xff;

/// Tells the application of a legacy report: sent on the 1M PHY, without a
/// secondary PHY, power or set.
pub fn on_adv_report(
    cb: &RuntimeBleCallbacks,
    addr: [u8; 6],
    addr_kind: u8,
    rssi: i8,
    kind: AdvEventKind,
    data: &[u8],
) -> (r: Vec<Emit<Vec<u8>>>)
    ensures
        calls(r@) == report_calls(
            *cb,
            addr,
            addr_kind,
            rssi,
            data@,
            legacy_flags(kind),
            1,
            NO_SECONDARY_PHY,
            NO_TX_POWER,
            NO_SID,
        ),
{
    emit_report(
        cb,
        addr,
        addr_kind,
        rssi,
        data,
        legacy_adv_flags(kind),
        1,
        NO_SECONDARY_PHY,
        NO_TX_POWER,
        NO_SID,
    )
}

/// Tells the application of an extended report.
pub fn on_ext_adv_report(
    cb: &RuntimeBleCallbacks,
    addr: [u8; 6],
    addr_kind: u8,
    rssi: i8,
    kind: ExtEventKind,
    data: &[u8],
    primary_phy: PhyKind,
    secondary_phy: Option<PhyKind>,
    tx_power_dbm: i8,
    sid: u8,
) -> (r: Vec<Emit<Vec<u8>>>)
    ensures
        calls(r@) == report_calls(
            *cb,
            addr,
            addr_kind,
            rssi,
            data@,
            ext_flags(kind),
            phy_code(primary_phy),
            match secondary_phy {
                Some(phy) => phy_code(phy),
                None => NO_SECONDARY_PHY,
            },
            tx_power_dbm,
            sid,
        ),
{
    let secondary: u8 = match secondary_phy {
        Some(phy) => phy_to_c(phy),
        None => NO_SECONDARY_PHY,
    };
    emit_report(
        cb,
        addr,
        addr_kind,
        rssi,
        data,
        ext_adv_flags(kind),
        phy_to_c(primary_phy),
        secondary,
        tx_power_dbm,
        sid,
    )
}

/// The PHYs to scan on.
#[derive(Clone, Copy, Debug, PartialEq, Eq, Structural)]
pub enum ScanPhys {
    M1,
    M2,
    M1M2,
    Coded,
    M1Coded,
    M2Coded,
    M1M2Coded,
}

impl ScanPhys {
    /// The 1M PHY is among them.
    pub open spec fn has_1m(self) -> bool {
        self is M1 || self is M1M2 || self is M1Coded || self is M1M2Coded
    }

    /// The 2M PHY is among them.
    pub open spec fn has_2m(self) -> bool {
        self is M2 || self is M1M2 || self is M2Coded || self is M1M2Coded
    }

    /// The coded PHY is among them.
    pub open spec fn has_coded(self) -> bool {
        self is Coded || self is M1Coded || self is M2Coded || self is M1M2Coded
    }
}

/// The PHYs that scan options select: bit 1 for 1M, bit 2 for 2M, bit 3 for
/// coded; 1M where none is selected.
pub open spec fn phys_selected(options: u8) -> ScanPhys {
    let bits = options & 0x0e;
    if bits == 0x04 {
        ScanPhys::M2
    } else if bits == 0x08 {
        ScanPhys::Coded
    } else if bits == 0x06 {
        ScanPhys::M1M2
    } else if bits == 0x0a {
        ScanPhys::M1Coded
    } else if bits == 0x0c {
        ScanPhys::M2Coded
    } else if bits == 0x0e {
        ScanPhys::M1M2Coded
    } else {
        ScanPhys::M1
    }
}

/// The PHYs that scan options select.
pub fn scan_phys(options: u8) -> (r: ScanPhys)
    ensures
        r == phys_selected(options),
{
    match options & 0x0e {
        0x04 => ScanPhys::M2,
        0x08 => ScanPhys::Coded,
        0x06 => ScanPhys::M1M2,
        0x0a => ScanPhys::M1Coded,
        0x0c => ScanPhys::M2Coded,
        0x0e => ScanPhys::M1M2Coded,
        _ => ScanPhys::M1,
    }
}

/// A scan is on exactly the PHYs whose bits are set, and on 1M where none is.
pub proof fn law_scan_phys_are_the_selected_ones(options: u8)
    ensures
        phys_selected(options).has_2m() == (options & 0x04 != 0),
        phys_selected(options).has_coded() == (options & 0x08 != 0),
        phys_selected(options).has_1m() == (options & 0x02 != 0 || options & 0x0e == 0),
{
    let bits = options & 0x0e;
    assert(bits == 0 || bits == 0x02 || bits == 0x04 || bits == 0x06 || bits == 0x08 || bits == 0x0a
        || bits == 0x0c || bits == 0x0e) by (bit_vector)
        requires
            bits == options & 0x0e,
    ;
    assert((options & 0x02 != 0) == (bits == 0x02 || bits == 0x06 || bits == 0x0a || bits == 0x0e)
        && (options & 0x04 != 0) == (bits == 0x04 || bits == 0x06 || bits == 0x0c || bits == 0x0e)
        && (options & 0x08 != 0) == (bits == 0x08 || bits == 0x0a || bits == 0x0c || bits == 0x0e))
        by (bit_vector)
        requires
            bits == options & 0x0e,
    ;
}

/// How a scan is set up.
#[derive(Clone, Copy, Debug, PartialEq, Eq)]
pub struct ScanPlan {
    pub active: bool,
    /// The one device to report, where there is one.
    pub filter: Option<Address>,
    pub phys: ScanPhys,
    pub interval_ms: u16,
    pub window_ms: u16,
    pub timeout_ms: u16,
    pub filter_duplicates: bool,
}

/// The scan that parameters ask for: zero stands for an interval of 100 ms and
/// a window of 50 ms.
pub open spec fn plan_of(scan: ScanParams) -> ScanPlan {
    ScanPlan {
        active: scan.active,
        filter: if scan.filter_addr_enabled {
            Some(peer(scan.filter_addr, scan.filter_addr_kind))
        } else {
            None
        },
        phys: phys_selected(scan.phy_options),
        interval_ms: if scan.interval_ms == 0 {
            100
        } else {
            scan.interval_ms
        },
        window_ms: if scan.window_ms == 0 {
            50
        } else {
            scan.window_ms
        },
        timeout_ms: scan.timeout_ms,
        filter_duplicates: scan.filter_duplicates,
    }
}

/// The scan that the latest parameters ask for.
pub fn plan_scan(rt: &Runtime) -> (r: ScanPlan)
    ensures
        r == plan_of(rt.scan),
{
    let scan = &rt.scan;
    ScanPlan {
        active: scan.active,
        filter: if scan.filter_addr_enabled {
            Some(peer_address(scan.filter_addr, scan.filter_addr_kind))
        } else {
            None
        },
        phys: scan_phys(scan.phy_options),
        interval_ms: if scan.interval_ms == 0 {
            100
        } else {
            scan.interval_ms
        },
        window_ms: if scan.window_ms == 0 {
            50
        } else {
            scan.window_ms
        },
        timeout_ms: scan.timeout_ms,
        filter_duplicates: scan.filter_duplicates,
    }
}

/// When a scan that starts at `now_ms` ends by itself; never where the timeout
/// is zero.
pub open spec fn deadline_of(timeout_ms: u16, now_ms: u64) -> Option<u64> {
    if timeout_ms == 0 {
        None
    } else {
        Some((now_ms + timeout_ms) as u64)
    }
}

/// When a scan that starts at `now_ms` ends by itself.
pub fn scan_deadline(plan: &ScanPlan, now_ms: u64) -> (r: Option<u64>)
    requires
        now_ms <= u64::MAX - u16::MAX,
    ensures
        r == deadline_of(plan.timeout_ms, now_ms),
{
    if plan.timeout_ms == 0 {
        None
    } else {
        Some(now_ms + plan.timeout_ms as u64)
    }
}

/// How a scan goes on.
#[derive(Clone, Copy, Debug, PartialEq, Eq)]
pub enum ScanStep {
    /// It ends: the session is being torn down.
    Unloaded,
    /// It ends: its time is over.
    TimedOut,
    /// It ends: the application stopped it.
    Stopped,
    /// It ends, and a connection to a device follows.
    Connect(Address),
    /// It goes on.
    Continue,
}

/// A scan has run out of time.
pub open spec fn expired(deadline: Option<u64>, now_ms: u64) -> bool {
    deadline matches Some(at) && now_ms >= at
}

impl State<Seq<u8>> {
    /// The state after the request to the central role was taken.
    pub open spec fn central_taken(self) -> Model {
        State { central: CentralSlot { cmd: None, ..self.central }, ..self }
    }

    /// How a scan goes on: unloading and the deadline come before requests,
    /// which then stay queued; of the requests only stop and connect matter,
    /// and every other one is dropped.
    pub open spec fn scan_next(self, deadline: Option<u64>, now_ms: u64) -> (Model, ScanStep) {
        if self.unload {
            (self, ScanStep::Unloaded)
        } else if expired(deadline, now_ms) {
            (self, ScanStep::TimedOut)
        } else {
            (
                self.central_taken(),
                match self.central.cmd {
                    Some(CentralCmd::ScanStop) => ScanStep::Stopped,
                    Some(CentralCmd::Connect) => ScanStep::Connect(
                        peer(self.central.addr, self.central.addr_kind),
                    ),
                    _ => ScanStep::Continue,
                },
            )
        }
    }
}

/// Looks at the state during a scan and says how it goes on.
pub fn scan_step(rt: &mut Runtime, deadline: Option<u64>, now_ms: u64) -> (r: ScanStep)
    ensures
        (final(rt)@, r) == old(rt)@.scan_next(deadline, now_ms),
{
    if rt.unload {
        return ScanStep::Unloaded;
    }
    if let Some(at) = deadline {
        if now_ms >= at {
            return ScanStep::TimedOut;
        }
    }
    let cmd: Option<CentralCmd> = rt.central.cmd;
    rt.central.cmd = None;
    match cmd {
        Some(CentralCmd::ScanStop) => ScanStep::Stopped,
        Some(CentralCmd::Connect) => ScanStep::Connect(
            peer_address(rt.central.addr, rt.central.addr_kind),
        ),
        _ => ScanStep::Continue,
    }
}

/// A scan runs with the parameters that it was started with.
pub proof fn law_scan_runs_as_asked(
    m: Model,
    active: u8,
    interval_ms: u16,
    window_ms: u16,
    timeout_ms: u16,
    options: u8,
    filter: Option<[u8; 6]>,
    kind: u8,
)
    requires
        m.build.central,
        interval_ms > 0,
        window_ms > 0,
    ensures
        ({
            let plan = plan_of(
                m.scan_start(
                    active,
                    interval_ms,
                    window_ms,
                    timeout_ms,
                    options,
                    filter,
                    kind,
                ).0.scan,
            );
            &&& plan.active == (active != 0)
            &&& plan.interval_ms == interval_ms
            &&& plan.window_ms == window_ms
            &&& plan.timeout_ms == timeout_ms
            &&& plan.filter_duplicates == (options & 0x01 != 0)
            &&& plan.phys == phys_selected(options)
            &&& plan.filter == match filter {
                Some(a) => Some(peer(a, kind)),
                None => None,
            }
        }),
{
    assert((options & 0x0e) & 0x0e == options & 0x0e) by (bit_vector);
}

/// A scan with a timeout never outlasts it: once that long has passed, the
/// next look ends the scan.
pub proof fn law_scan_ends_in_time(m: Model, timeout_ms: u16, start_ms: u64, now_ms: u64)
    requires
        timeout_ms > 0,
        start_ms <= u64::MAX - u16::MAX,
        now_ms >= start_ms + timeout_ms,
    ensures
        m.scan_next(deadline_of(timeout_ms, start_ms), now_ms).1 is Unloaded || m.scan_next(
            deadline_of(timeout_ms, start_ms),
            now_ms,
        ).1 is TimedOut,
{
}

} // verus!
