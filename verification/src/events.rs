//! Events of a link, peripheral or central: what the application is told of
//! them.

use crate::bond::{
    blob_of, entries_after, level_code, security_level_to_c, slot_count, slot_of, slots_wf,
    store_bond, Bond, SecurityLevel,
};
use crate::bytes::copied;
use crate::config::{RuntimeBleCallbacks, RuntimeCfg};
use crate::emit::{call_when, called_if, calls, no_calls, only_when, Calls, Emit};
use crate::host::{bond_entries, BondSlots, Identity};
use vstd::prelude::*;
use vstd::string::StringSliceAdditionalSpecFns;

verus! {

/// A PHY as the controller reports it.
#[derive(Clone, Copy, Debug, PartialEq, Eq, Structural)]
pub enum PhyKind {
    Le1M,
    Le2M,
    LeCoded,
    LeCodedS2,
}

/// The number of a PHY in the application interface.
pub open spec fn phy_code(phy: PhyKind) -> u8 {
    match phy {
        PhyKind::Le1M => 1,
        PhyKind::Le2M => 2,
        PhyKind::LeCoded => 3,
        PhyKind::LeCodedS2 => 3,
    }
}

/// The number of a PHY in the application interface.
pub fn phy_to_c(phy: PhyKind) -> (r: u8)
    ensures
        r == phy_code(phy),
{
    match phy {
        PhyKind::Le1M => 1,
        PhyKind::Le2M => 2,
        PhyKind::LeCoded | PhyKind::LeCodedS2 => 3,
    }
}

pub const SECURITY_PASSKEY_DISPLAY: u8 = 1;

pub const SECURITY_PASSKEY_CONFIRM: u8 = 2;

pub const SECURITY_PASSKEY_INPUT: u8 = 3;

pub const SECURITY_PAIRING_COMPLETE: u8 = 4;

pub const SECURITY_PAIRING_FAILED: u8 = 5;

pub const SECURITY_BOND_LOST: u8 = 6;

pub const SECURITY_ENCRYPTED: u8 = 7;

pub const SECURITY_OOB_REQUEST: u8 = 8;

/// An event of a link.
#[derive(Clone, Copy, Debug)]
#[allow(inconsistent_fields)]
pub enum LinkEvent {
    ConnParamsUpdated { interval_ms: u64, latency: u16, timeout_ms: u64 },
    PhyUpdated { tx: PhyKind, rx: PhyKind },
    DataLengthUpdated { tx_octets: u16, rx_octets: u16 },
    FrameSpaceUpdated { micros: u64 },
    ConnectionRateChanged {
        interval_ms: u64,
        subrate_factor: u16,
        latency: u16,
        continuation_number: u16,
        timeout_ms: u64,
    },
    PassKeyDisplay(u32),
    PassKeyConfirm(u32),
    PassKeyInput,
    PairingComplete { level: SecurityLevel, bond: Option<Bond> },
    PairingFailed,
    BondLost,
    Encrypted { level: SecurityLevel, bond: Option<Bond> },
    OobRequest,
}

impl LinkEvent {
    /// A bond that comes with the event is well formed.
    pub open spec fn wf(self) -> bool {
        match self {
            LinkEvent::PairingComplete { bond, .. } => bond matches Some(b) ==> b.wf(),
            LinkEvent::Encrypted { bond, .. } => bond matches Some(b) ==> b.wf(),
            _ => true,
        }
    }

    /// The bond that comes with the event.
    pub open spec fn bond(self) -> Option<Bond> {
        match self {
            LinkEvent::PairingComplete { bond, .. } => bond,
            LinkEvent::Encrypted { bond, .. } => bond,
            _ => None,
        }
    }
}

/// `v`, or the largest two-byte number where `v` is larger.
pub open spec fn saturated16(v: u64) -> u16 {
    if v > 0xffff {
        0xffff
    } else {
        v as u16
    }
}

/// `v`, or the largest four-byte number where `v` is larger.
pub open spec fn saturated32(v: u64) -> u32 {
    if v > 0xffff_ffff {
        0xffff_ffff
    } else {
        v as u32
    }
}

fn saturate16(v: u64) -> (r: u16)
    ensures
        r == saturated16(v),
{
    if v > 0xffff {
        0xffff
    } else {
        v as u16
    }
}

fn saturate32(v: u64) -> (r: u32)
    ensures
        r == saturated32(v),
{
    if v > 0xffff_ffff {
        0xffff_ffff
    } else {
        v as u32
    }
}

/// A security event; flag 1 says that the peer is bonded.
pub open spec fn security_event(
    event: u8,
    level: SecurityLevel,
    passkey: u32,
    bonded: bool,
) -> Emit<Seq<u8>> {
    Emit::SecurityEvent {
        event,
        level: level_code(level),
        passkey,
        flags: if bonded {
            1
        } else {
            0
        },
    }
}

/// The storing of the bond that comes with an event.
pub open spec fn bond_calls(
    cfg: RuntimeCfg,
    entries: Seq<(Identity, u8)>,
    bond: Option<Bond>,
) -> Calls {
    match bond {
        Some(b) => called_if(
            cfg.callbacks.on_bond_store,
            Emit::BondStore {
                index: slot_of(entries, b.identity, slot_count(cfg.bond_slot_count)),
                blob: blob_of(b),
            },
        ),
        None => Calls::empty(),
    }
}

/// The entries after the bond that comes with an event was stored.
pub open spec fn event_entries(
    cfg: RuntimeCfg,
    entries: Seq<(Identity, u8)>,
    bond: Option<Bond>,
) -> Seq<(Identity, u8)> {
    match bond {
        Some(b) if cfg.callbacks.on_bond_store => entries_after(
            entries,
            b.identity,
            slot_count(cfg.bond_slot_count),
        ),
        _ => entries,
    }
}

/// What the application is told of an event.
pub open spec fn event_calls(
    cfg: RuntimeCfg,
    entries: Seq<(Identity, u8)>,
    event: LinkEvent,
) -> Calls {
    let cb = cfg.callbacks;
    match event {
        LinkEvent::ConnParamsUpdated { interval_ms, latency, timeout_ms } => called_if(
            cb.on_conn_params,
            Emit::ConnParams {
                interval_ms: saturated16(interval_ms),
                latency,
                timeout_ms: saturated16(timeout_ms),
            },
        ),
        LinkEvent::PhyUpdated { tx, rx } => called_if(
            cb.on_phy_update,
            Emit::PhyUpdate { tx: phy_code(tx), rx: phy_code(rx) },
        ),
        LinkEvent::DataLengthUpdated { tx_octets, rx_octets } => called_if(
            cb.on_data_length_update,
            Emit::DataLengthUpdate { tx_octets, rx_octets },
        ),
        LinkEvent::FrameSpaceUpdated { micros } => called_if(
            cb.on_frame_space,
            Emit::FrameSpace { micros: saturated32(micros) },
        ),
        LinkEvent::ConnectionRateChanged {
            interval_ms,
            subrate_factor,
            latency,
            continuation_number,
            timeout_ms,
        } => called_if(
            cb.on_connection_rate,
            Emit::ConnectionRate {
                interval_ms: saturated16(interval_ms),
                subrate_factor,
                latency,
                continuation_number,
                timeout_ms: saturated16(timeout_ms),
            },
        ),
        LinkEvent::PassKeyDisplay(key) => called_if(
            cb.on_security_event,
            security_event(SECURITY_PASSKEY_DISPLAY, SecurityLevel::NoEncryption, key, false),
        ),
        LinkEvent::PassKeyConfirm(key) => called_if(
            cb.on_security_event,
            security_event(SECURITY_PASSKEY_CONFIRM, SecurityLevel::NoEncryption, key, false),
        ),
        LinkEvent::PassKeyInput => called_if(
            cb.on_security_event,
            security_event(SECURITY_PASSKEY_INPUT, SecurityLevel::NoEncryption, 0, false),
        ),
        LinkEvent::PairingComplete { level, bond } => bond_calls(cfg, entries, bond) + called_if(
            cb.on_security_event,
            security_event(
                SECURITY_PAIRING_COMPLETE,
                level,
                0,
                bond is Some && bond->0.is_bonded,
            ),
        ),
        LinkEvent::PairingFailed => called_if(
            cb.on_security_event,
            security_event(SECURITY_PAIRING_FAILED, SecurityLevel::NoEncryption, 0, false),
        ),
        LinkEvent::BondLost => called_if(
            cb.on_security_event,
            security_event(SECURITY_BOND_LOST, SecurityLevel::NoEncryption, 0, false),
        ),
        LinkEvent::Encrypted { level, bond } => bond_calls(cfg, entries, bond) + called_if(
            cb.on_security_event,
            security_event(SECURITY_ENCRYPTED, level, 0, bond is Some && bond->0.is_bonded),
        ),
        LinkEvent::OobRequest => called_if(
            cb.on_security_event,
            security_event(SECURITY_OOB_REQUEST, SecurityLevel::NoEncryption, 0, false),
        ),
    }
}

/// Tells the application of a security event.
pub fn emit_security_event(
    cb: &RuntimeBleCallbacks,
    event: u8,
    level: SecurityLevel,
    passkey: u32,
    bonded: bool,
) -> (r: Vec<Emit<Vec<u8>>>)
    ensures
        calls(r@) == called_if(
            cb.on_security_event,
            security_event(event, level, passkey, bonded),
        ),
{
    only_when(
        cb.on_security_event,
        Emit::SecurityEvent {
            event,
            level: security_level_to_c(level),
            passkey,
            flags: if bonded {
                1
            } else {
                0
            },
        },
    )
}

/// Stores the bond that comes with an event, then tells the application of the
/// event.
fn bonding_event(
    cfg: &RuntimeCfg,
    slots: &mut BondSlots,
    event: u8,
    level: SecurityLevel,
    bond: Option<Bond>,
) -> (r: Vec<Emit<Vec<u8>>>)
    requires
        slots_wf(*old(slots)),
        bond matches Some(b) ==> b.wf(),
    ensures
        slots_wf(*final(slots)),
        bond_entries(*final(slots)) == event_entries(*cfg, bond_entries(*old(slots)), bond),
        calls(r@) == bond_calls(*cfg, bond_entries(*old(slots)), bond) + called_if(
            cfg.callbacks.on_security_event,
            security_event(event, level, 0, bond is Some && bond->0.is_bonded),
        ),
{
    let mut list = match &bond {
        Some(b) => store_bond(cfg, slots, b),
        None => no_calls(),
    };
    let bonded: bool = match &bond {
        Some(b) => b.is_bonded,
        None => false,
    };
    call_when(
        &mut list,
        cfg.callbacks.on_security_event,
        Emit::SecurityEvent {
            event,
            level: security_level_to_c(level),
            passkey: 0,
            flags: if bonded {
                1
            } else {
                0
            },
        },
    );
    list
}

/// Handles an event of a link: stores a bond that comes with it, and tells the
/// application.
pub fn on_link_event(
    cfg: &RuntimeCfg,
    slots: &mut BondSlots,
    event: LinkEvent,
) -> (r: Vec<Emit<Vec<u8>>>)
    requires
        slots_wf(*old(slots)),
        event.wf(),
    ensures
        slots_wf(*final(slots)),
        bond_entries(*final(slots)) == event_entries(
            *cfg,
            bond_entries(*old(slots)),
            event.bond(),
        ),
        calls(r@) == event_calls(*cfg, bond_entries(*old(slots)), event),
{
    let cb = &cfg.callbacks;
    match event {
        LinkEvent::ConnParamsUpdated { interval_ms, latency, timeout_ms } => only_when(
            cb.on_conn_params,
            Emit::ConnParams {
                interval_ms: saturate16(interval_ms),
                latency,
                timeout_ms: saturate16(timeout_ms),
            },
        ),
        LinkEvent::PhyUpdated { tx, rx } => only_when(
            cb.on_phy_update,
            Emit::PhyUpdate { tx: phy_to_c(tx), rx: phy_to_c(rx) },
        ),
        LinkEvent::DataLengthUpdated { tx_octets, rx_octets } => only_when(
            cb.on_data_length_update,
            Emit::DataLengthUpdate { tx_octets, rx_octets },
        ),
        LinkEvent::FrameSpaceUpdated { micros } => only_when(
            cb.on_frame_space,
            Emit::FrameSpace { micros: saturate32(micros) },
        ),
        LinkEvent::ConnectionRateChanged {
            interval_ms,
            subrate_factor,
            latency,
            continuation_number,
            timeout_ms,
        } => only_when(
            cb.on_connection_rate,
            Emit::ConnectionRate {
                interval_ms: saturate16(interval_ms),
                subrate_factor,
                latency,
                continuation_number,
                timeout_ms: saturate16(timeout_ms),
            },
        ),
        LinkEvent::PassKeyDisplay(key) => emit_security_event(
            cb,
            SECURITY_PASSKEY_DISPLAY,
            SecurityLevel::NoEncryption,
            key,
            false,
        ),
        LinkEvent::PassKeyConfirm(key) => emit_security_event(
            cb,
            SECURITY_PASSKEY_CONFIRM,
            SecurityLevel::NoEncryption,
            key,
            false,
        ),
        LinkEvent::PassKeyInput => emit_security_event(
            cb,
            SECURITY_PASSKEY_INPUT,
            SecurityLevel::NoEncryption,
            0,
            false,
        ),
        LinkEvent::PairingComplete { level, bond } => bonding_event(
            cfg,
            slots,
            SECURITY_PAIRING_COMPLETE,
            level,
            bond,
        ),
        LinkEvent::PairingFailed => emit_security_event(
            cb,
            SECURITY_PAIRING_FAILED,
            SecurityLevel::NoEncryption,
            0,
            false,
        ),
        LinkEvent::BondLost => emit_security_event(
            cb,
            SECURITY_BOND_LOST,
            SecurityLevel::NoEncryption,
            0,
            false,
        ),
        LinkEvent::Encrypted { level, bond } => bonding_event(
            cfg,
            slots,
            SECURITY_ENCRYPTED,
            level,
            bond,
        ),
        LinkEvent::OobRequest => emit_security_event(
            cb,
            SECURITY_OOB_REQUEST,
            SecurityLevel::NoEncryption,
            0,
            false,
        ),
    }
}

/// Whether the application answered a request for out-of-band data: it takes
/// such requests and returned something other than zero.
pub fn load_oob_data(cb: &RuntimeBleCallbacks, answer: u8) -> (r: bool)
    ensures
        r == (cb.on_oob_request && answer != 0),
{
    cb.on_oob_request && answer != 0
}

/// Whether the application is told its own out-of-band data: it is configured
/// to pair that way and takes the data.
pub fn wants_local_oob_data(cfg: &RuntimeCfg) -> (r: bool)
    ensures
        r == (cfg.security_oob_available != 0 && cfg.callbacks.on_oob_local_data),
{
    cfg.security_oob_available != 0 && cfg.callbacks.on_oob_local_data
}

/// Tells the application its own out-of-band data, where it is configured to
/// pair that way.
pub fn emit_local_oob_data(
    cfg: &RuntimeCfg,
    random: [u8; 16],
    confirm: [u8; 16],
) -> (r: Vec<Emit<Vec<u8>>>)
    ensures
        calls(r@) == called_if(
            cfg.security_oob_available != 0 && cfg.callbacks.on_oob_local_data,
            Emit::OobLocalData { random, confirm },
        ),
{
    only_when(wants_local_oob_data(cfg), Emit::OobLocalData { random, confirm })
}

/// Tells the application the security of the link: no level where the host
/// knows none, and a key length that is not known.
pub fn emit_security_state(
    cb: &RuntimeBleCallbacks,
    level: Option<SecurityLevel>,
    bonded: bool,
) -> (r: Vec<Emit<Vec<u8>>>)
    ensures
        calls(r@) == called_if(
            cb.on_security_state,
            Emit::SecurityState {
                level: match level {
                    Some(l) => level_code(l),
                    None => 0,
                },
                key_len: 0,
                flags: if bonded {
                    1
                } else {
                    0
                },
            },
        ),
{
    let code: u8 = match level {
        Some(l) => security_level_to_c(l),
        None => 0,
    };
    only_when(
        cb.on_security_state,
        Emit::SecurityState {
            level: code,
            key_len: 0,
            flags: if bonded {
                1
            } else {
                0
            },
        },
    )
}

/// Tells the application the ATT MTU of the link.
pub fn emit_att_mtu(cb: &RuntimeBleCallbacks, mtu: u16) -> (r: Vec<Emit<Vec<u8>>>)
    ensures
        calls(r@) == called_if(cb.on_att_mtu, Emit::AttMtu { mtu }),
{
    only_when(cb.on_att_mtu, Emit::AttMtu { mtu })
}

/// Tells the application the signal strength of the link, where it was read.
pub fn emit_rssi(cb: &RuntimeBleCallbacks, rssi: Option<i8>) -> (r: Vec<Emit<Vec<u8>>>)
    ensures
        calls(r@) == match rssi {
            Some(rssi) => called_if(cb.on_rssi, Emit::Rssi { rssi }),
            None => Calls::empty(),
        },
{
    match rssi {
        Some(rssi) => only_when(cb.on_rssi, Emit::Rssi { rssi }),
        None => no_calls(),
    }
}

/// Tells the application the PHYs of the link, where they were read.
pub fn emit_phy(
    cb: &RuntimeBleCallbacks,
    phys: Option<(PhyKind, PhyKind)>,
) -> (r: Vec<Emit<Vec<u8>>>)
    ensures
        calls(r@) == match phys {
            Some((tx, rx)) => called_if(
                cb.on_phy_update,
                Emit::PhyUpdate { tx: phy_code(tx), rx: phy_code(rx) },
            ),
            None => Calls::empty(),
        },
{
    match phys {
        Some((tx, rx)) => only_when(
            cb.on_phy_update,
            Emit::PhyUpdate { tx: phy_to_c(tx), rx: phy_to_c(rx) },
        ),
        None => no_calls(),
    }
}

/// Tells the application that a link came up.
pub fn emit_connected(cb: &RuntimeBleCallbacks) -> (r: Vec<Emit<Vec<u8>>>)
    ensures
        calls(r@) == called_if(cb.on_connected, Emit::Connected),
{
    only_when(cb.on_connected, Emit::Connected)
}

/// Tells the application that a link went down; the reason is not passed on.
pub fn emit_disconnected(cb: &RuntimeBleCallbacks) -> (r: Vec<Emit<Vec<u8>>>)
    ensures
        calls(r@) == called_if(cb.on_disconnected, Emit::Disconnected { reason: 0 }),
{
    only_when(cb.on_disconnected, Emit::Disconnected { reason: 0 })
}

/// The hexadecimal digit of a number below sixteen.
pub open spec fn hex_digit(n: u8) -> u8 {
    if n < 10 {
        (0x30 + n) as u8
    } else {
        (0x57 + n) as u8
    }
}

/// The log line on a link that went down, with the two hexadecimal digits of
/// the reason. It ends in a zero byte.
pub open spec fn disconnected_line(reason: u8) -> Seq<u8> {
    "[link] disconnected reason=0x".spec_bytes() + seq![
        hex_digit(reason / 16),
        hex_digit(reason % 16),
        0u8,
    ]
}

fn to_hex_digit(n: u8) -> (r: u8)
    requires
        n < 16,
    ensures
        r == hex_digit(n),
{
    if n < 10 {
        0x30 + n
    } else {
        0x57 + n
    }
}

/// The log line on a link that went down.
pub fn disconnect_reason_line(reason: u8) -> (r: Vec<u8>)
    ensures
        r@ == disconnected_line(reason),
{
    let mut line: Vec<u8> = copied("[link] disconnected reason=0x".as_bytes());
    line.push(to_hex_digit(reason / 16));
    line.push(to_hex_digit(reason % 16));
    line.push(0);
    assert(line@ =~= disconnected_line(reason));
    line
}

/// What is set on a link when it comes up.
#[derive(Clone, Copy, Debug, PartialEq, Eq, Structural)]
pub struct LinkSetup {
    pub bondable: bool,
    pub oob_available: bool,
    pub request_security: bool,
}

/// What is set on a link when it comes up.
pub fn link_setup(cfg: &RuntimeCfg) -> (r: LinkSetup)
    ensures
        r == (LinkSetup {
            bondable: cfg.security_bondable != 0,
            oob_available: cfg.security_oob_available != 0,
            request_security: cfg.security_request_on_connect != 0,
        }),
{
    LinkSetup {
        bondable: cfg.security_bondable != 0,
        oob_available: cfg.security_oob_available != 0,
        request_security: cfg.security_request_on_connect != 0,
    }
}

/// Time after which the ATT MTU of a new link is reported.
pub const MTU_REPORT_DELAY_MS: u64 = 400;

/// The one report of the ATT MTU of a link.
#[derive(Clone, Copy, Debug, PartialEq, Eq, Structural)]
pub struct MtuReport {
    pub at_ms: u64,
    pub done: bool,
}

impl MtuReport {
    /// The report is due: its time has come and it was not made yet.
    pub open spec fn due(self, now_ms: u64) -> bool {
        !self.done && now_ms >= self.at_ms
    }

    /// The report of a link that came up at `now_ms`.
    pub fn new(now_ms: u64) -> (r: MtuReport)
        requires
            now_ms <= u64::MAX - MTU_REPORT_DELAY_MS,
        ensures
            r == (MtuReport { at_ms: (now_ms + MTU_REPORT_DELAY_MS) as u64, done: false }),
    {
        MtuReport { at_ms: now_ms + MTU_REPORT_DELAY_MS, done: false }
    }

    /// Says whether the report is to be made now, and notes that it was.
    pub fn take(&mut self, now_ms: u64) -> (r: bool)
        ensures
            r == old(self).due(now_ms),
            *final(self) == (MtuReport { done: old(self).done || r, ..*old(self) }),
    {
        if !self.done && now_ms >= self.at_ms {
            self.done = true;
            true
        } else {
            false
        }
    }
}

/// After the report was made it is never due again.
pub proof fn law_mtu_is_reported_once(report: MtuReport, now_ms: u64, later_ms: u64)
    requires
        report.due(now_ms),
    ensures
        !(MtuReport { done: true, ..report }).due(later_ms),
{
}

/// An event of pairing or encryption that carries a bond has the bond stored
/// before it is reported, in the slot of its device, and the report says that
/// the peer is bonded exactly where the bond does.
pub proof fn law_bond_is_stored_before_report(
    cfg: RuntimeCfg,
    entries: Seq<(Identity, u8)>,
    level: SecurityLevel,
    bond: Bond,
)
    requires
        cfg.callbacks.on_bond_store,
        cfg.callbacks.on_security_event,
    ensures
        ({
            let store = Emit::BondStore {
                index: slot_of(entries, bond.identity, slot_count(cfg.bond_slot_count)),
                blob: blob_of(bond),
            };
            let flags: u8 = if bond.is_bonded {
                1
            } else {
                0
            };
            &&& event_calls(
                cfg,
                entries,
                LinkEvent::PairingComplete { level, bond: Some(bond) },
            ) == seq![
                store,
                Emit::SecurityEvent { event: 4, level: level_code(level), passkey: 0, flags },
            ]
            &&& event_calls(cfg, entries, LinkEvent::Encrypted { level, bond: Some(bond) })
                == seq![
                store,
                Emit::SecurityEvent { event: 7, level: level_code(level), passkey: 0, flags },
            ]
        }),
{
    let store = Emit::BondStore {
        index: slot_of(entries, bond.identity, slot_count(cfg.bond_slot_count)),
        blob: blob_of(bond),
    };
    let flags: u8 = if bond.is_bonded {
        1
    } else {
        0
    };
    assert(event_calls(cfg, entries, LinkEvent::PairingComplete { level, bond: Some(bond) })
        =~= seq![
        store,
        Emit::SecurityEvent { event: 4, level: level_code(level), passkey: 0, flags },
    ]);
    assert(event_calls(cfg, entries, LinkEvent::Encrypted { level, bond: Some(bond) }) =~= seq![
        store,
        Emit::SecurityEvent { event: 7, level: level_code(level), passkey: 0, flags },
    ]);
}

} // verus!
