//! Events of a link, and what the application is told of the link.

use crate::bond::{slots_wf, store_bond, Bond, SecurityLevel};
use crate::config::{RuntimeBleCallbacks, RuntimeCfg};
use crate::emit::{calls, Emit};
use crate::events::{
    disconnect_reason_line, emit_att_mtu, emit_connected, emit_disconnected, emit_local_oob_data,
    emit_phy, emit_rssi, emit_security_event, emit_security_state, link_setup, load_oob_data,
    on_link_event, phy_to_c, wants_local_oob_data, LinkEvent, LinkSetup, MtuReport, PhyKind,
};
use crate::host::{bond_entries, BondSlots};
use crate::laws::bond::level_number;
use crate::laws::server::told;
use vstd::prelude::*;
use vstd::string::StringSliceAdditionalSpecFns;

verus! {

/// The number of a PHY: 1 for 1M, 2 for 2M and 3 for either coded one.
pub open spec fn phy_number(phy: PhyKind) -> u8 {
    match phy {
        PhyKind::Le1M => 1,
        PhyKind::Le2M => 2,
        PhyKind::LeCoded => 3,
        PhyKind::LeCodedS2 => 3,
    }
}

/// A length, or the greatest number that a field takes where it is less.
pub open spec fn at_most(v: u64, greatest: int) -> int {
    if v <= greatest {
        v as int
    } else {
        greatest
    }
}

/// A PHY is told by its number.
pub proof fn law_phys_have_their_numbers(phy: PhyKind, r: u8)
    requires
        call_ensures(phy_to_c, (phy,), r),
    ensures
        r == phy_number(phy),
{
}

/// A change of the link is told with its values; lengths that are too great for
/// their field are told as the greatest that it takes. No bond is touched.
pub proof fn law_changes_of_the_link_are_told(
    cfg: RuntimeCfg,
    slots: &mut BondSlots,
    event: LinkEvent,
    r: Vec<Emit<Vec<u8>>>,
)
    requires
        call_ensures(on_link_event, (&cfg, slots, event), r),
    ensures
        event matches LinkEvent::ConnParamsUpdated { interval_ms, latency, timeout_ms } ==> calls(
            r@,
        ) == told(
            cfg.callbacks.on_conn_params,
            Emit::ConnParams {
                interval_ms: at_most(interval_ms, 65535) as u16,
                latency,
                timeout_ms: at_most(timeout_ms, 65535) as u16,
            },
        ),
        event matches LinkEvent::PhyUpdated { tx, rx } ==> calls(r@) == told(
            cfg.callbacks.on_phy_update,
            Emit::PhyUpdate { tx: phy_number(tx), rx: phy_number(rx) },
        ),
        event matches LinkEvent::DataLengthUpdated { tx_octets, rx_octets } ==> calls(r@) == told(
            cfg.callbacks.on_data_length_update,
            Emit::DataLengthUpdate { tx_octets, rx_octets },
        ),
        event matches LinkEvent::FrameSpaceUpdated { micros } ==> calls(r@) == told(
            cfg.callbacks.on_frame_space,
            Emit::FrameSpace { micros: at_most(micros, 4294967295) as u32 },
        ),
        event matches LinkEvent::ConnectionRateChanged {
            interval_ms,
            subrate_factor,
            latency,
            continuation_number,
            timeout_ms,
        } ==> calls(r@) == told(
            cfg.callbacks.on_connection_rate,
            Emit::ConnectionRate {
                interval_ms: at_most(interval_ms, 65535) as u16,
                subrate_factor,
                latency,
                continuation_number,
                timeout_ms: at_most(timeout_ms, 65535) as u16,
            },
        ),
        !(event is PairingComplete || event is Encrypted) ==> bond_entries(*final(slots))
            == bond_entries(*old(slots)),
{
}

/// What pairing needs is told with its number, from 1 to 8, and the passkey
/// where there is one.
pub proof fn law_steps_of_pairing_are_told(
    cfg: RuntimeCfg,
    slots: &mut BondSlots,
    event: LinkEvent,
    number: u8,
    passkey: u32,
    r: Vec<Emit<Vec<u8>>>,
)
    requires
        call_ensures(on_link_event, (&cfg, slots, event), r),
        event is PassKeyDisplay ==> number == 1 && event == LinkEvent::PassKeyDisplay(passkey),
        event is PassKeyConfirm ==> number == 2 && event == LinkEvent::PassKeyConfirm(passkey),
        event is PassKeyInput ==> number == 3 && passkey == 0,
        event is PairingFailed ==> number == 5 && passkey == 0,
        event is BondLost ==> number == 6 && passkey == 0,
        event is OobRequest ==> number == 8 && passkey == 0,
        event is PassKeyDisplay || event is PassKeyConfirm || event is PassKeyInput || event
            is PairingFailed || event is BondLost || event is OobRequest,
    ensures
        calls(r@) == told(
            cfg.callbacks.on_security_event,
            Emit::SecurityEvent { event: number, level: 0, passkey, flags: 0 },
        ),
{
}

/// The end of pairing is told as 4 and encryption as 7, with the level and, in
/// flag 1, whether the peer is bonded; a bond that comes with either is stored
/// before that.
pub proof fn law_bonding_is_told(
    cfg: RuntimeCfg,
    slots: &mut BondSlots,
    pairing: bool,
    level: SecurityLevel,
    bond: Option<Bond>,
    event: LinkEvent,
    r: Vec<Emit<Vec<u8>>>,
    other: &mut BondSlots,
    stored: Vec<Emit<Vec<u8>>>,
)
    requires
        pairing ==> event == (LinkEvent::PairingComplete { level, bond }),
        !pairing ==> event == (LinkEvent::Encrypted { level, bond }),
        call_ensures(on_link_event, (&cfg, slots, event), r),
        slots_wf(*old(slots)),
        *old(other) == *old(slots),
        bond is Some ==> call_ensures(store_bond, (&cfg, other, &bond->0), stored),
    ensures
        ({
            let report = told(
                cfg.callbacks.on_security_event,
                Emit::SecurityEvent {
                    event: if pairing {
                        4
                    } else {
                        7
                    },
                    level: level_number(level),
                    passkey: 0,
                    flags: if bond is Some && bond->0.is_bonded {
                        1
                    } else {
                        0
                    },
                },
            );
            &&& bond is None ==> calls(r@) == report && bond_entries(*final(slots))
                == bond_entries(*old(slots))
            &&& bond is Some ==> calls(r@) == calls(stored@) + report && bond_entries(*final(slots))
                == bond_entries(*final(other))
        }),
{
}

/// A security event is told with its number, the number of its level, the
/// passkey, and flag 1 for a bonded peer.
pub proof fn law_security_event_is_told(
    cb: RuntimeBleCallbacks,
    event: u8,
    level: SecurityLevel,
    passkey: u32,
    bonded: bool,
    r: Vec<Emit<Vec<u8>>>,
)
    requires
        call_ensures(emit_security_event, (&cb, event, level, passkey, bonded), r),
    ensures
        calls(r@) == told(
            cb.on_security_event,
            Emit::SecurityEvent {
                event,
                level: level_number(level),
                passkey,
                flags: if bonded {
                    1
                } else {
                    0
                },
            },
        ),
{
}

/// Out-of-band data of the peer is there where the application takes requests
/// for it and did not answer zero; its own is told where it is configured and
/// wanted, the random value before the confirmation.
pub proof fn law_out_of_band_data(
    cfg: RuntimeCfg,
    answer: u8,
    random: [u8; 16],
    confirm: [u8; 16],
    there: bool,
    wanted: bool,
    r: Vec<Emit<Vec<u8>>>,
)
    requires
        call_ensures(load_oob_data, (&cfg.callbacks, answer), there),
        call_ensures(wants_local_oob_data, (&cfg,), wanted),
        call_ensures(emit_local_oob_data, (&cfg, random, confirm), r),
    ensures
        there <==> cfg.callbacks.on_oob_request && answer > 0,
        wanted <==> cfg.security_oob_available > 0 && cfg.callbacks.on_oob_local_data,
        calls(r@) == told(wanted, Emit::OobLocalData { random, confirm }),
{
}

/// The security of the link is told by the number of its level, 0 where none is
/// known, and flag 1 for a bonded peer.
pub proof fn law_security_state_is_told(
    cb: RuntimeBleCallbacks,
    level: Option<SecurityLevel>,
    bonded: bool,
    r: Vec<Emit<Vec<u8>>>,
)
    requires
        call_ensures(emit_security_state, (&cb, level, bonded), r),
    ensures
        calls(r@) == told(
            cb.on_security_state,
            Emit::SecurityState {
                level: if level is Some {
                    level_number(level->0)
                } else {
                    0
                },
                key_len: 0,
                flags: if bonded {
                    1
                } else {
                    0
                },
            },
        ),
{
}

/// What was read of the link is told as it was read, and nothing where it was
/// not.
pub proof fn law_readings_are_told(
    cb: RuntimeBleCallbacks,
    mtu: u16,
    rssi: Option<i8>,
    phys: Option<(PhyKind, PhyKind)>,
    mtu_calls: Vec<Emit<Vec<u8>>>,
    rssi_calls: Vec<Emit<Vec<u8>>>,
    phy_calls: Vec<Emit<Vec<u8>>>,
)
    requires
        call_ensures(emit_att_mtu, (&cb, mtu), mtu_calls),
        call_ensures(emit_rssi, (&cb, rssi), rssi_calls),
        call_ensures(emit_phy, (&cb, phys), phy_calls),
    ensures
        calls(mtu_calls@) == told(cb.on_att_mtu, Emit::AttMtu { mtu }),
        rssi is None ==> calls(rssi_calls@).len() == 0,
        rssi is Some ==> calls(rssi_calls@) == told(cb.on_rssi, Emit::Rssi { rssi: rssi->0 }),
        phys is None ==> calls(phy_calls@).len() == 0,
        phys matches Some((tx, rx)) ==> calls(phy_calls@) == told(
            cb.on_phy_update,
            Emit::PhyUpdate { tx: phy_number(tx), rx: phy_number(rx) },
        ),
{
}

/// The ends of a link are told.
pub proof fn law_ends_of_a_link_are_told(
    cb: RuntimeBleCallbacks,
    up: Vec<Emit<Vec<u8>>>,
    down: Vec<Emit<Vec<u8>>>,
)
    requires
        call_ensures(emit_connected, (&cb,), up),
        call_ensures(emit_disconnected, (&cb,), down),
    ensures
        calls(up@) == told(cb.on_connected, Emit::Connected),
        calls(down@) == told(cb.on_disconnected, Emit::Disconnected { reason: 0 }),
{
}

/// The value of a hexadecimal digit, in lower case.
pub open spec fn hex_value(digit: u8) -> int {
    if 0x30 <= digit <= 0x39 {
        digit - 0x30
    } else if 0x61 <= digit <= 0x66 {
        digit - 0x57
    } else {
        -1
    }
}

/// The line on a link that went down ends in the two hexadecimal digits of the
/// reason and a zero byte.
pub proof fn law_reason_is_logged(reason: u8, r: Vec<u8>)
    requires
        call_ensures(disconnect_reason_line, (reason,), r),
    ensures
        ({
            let text = "[link] disconnected reason=0x".spec_bytes();
            let n = text.len() as int;
            &&& r@.len() == n + 3
            &&& r@.take(n) == text
            &&& hex_value(r@[n]) >= 0 && hex_value(r@[n + 1]) >= 0
            &&& 16 * hex_value(r@[n]) + hex_value(r@[n + 1]) == reason
            &&& r@[n + 2] == 0
        }),
{
}

/// A link is bondable, has out-of-band data and asks for security where that is
/// configured.
pub proof fn law_link_is_set_up_as_configured(cfg: RuntimeCfg, r: LinkSetup)
    requires
        call_ensures(link_setup, (&cfg,), r),
    ensures
        r.bondable <==> cfg.security_bondable > 0,
        r.oob_available <==> cfg.security_oob_available > 0,
        r.request_security <==> cfg.security_request_on_connect > 0,
{
}

/// The MTU of a link is reported once, 400 ms after it came up or later.
pub proof fn law_mtu_is_reported(
    up_ms: u64,
    fresh: MtuReport,
    report: &mut MtuReport,
    now_ms: u64,
    r: bool,
)
    requires
        up_ms <= u64::MAX - 400,
        call_ensures(MtuReport::new, (up_ms,), fresh),
        call_ensures(MtuReport::take, (report, now_ms), r),
    ensures
        fresh.at_ms - up_ms == 400,
        !fresh.done,
        r <==> !old(report).done && now_ms >= old(report).at_ms,
        final(report).done <==> old(report).done || r,
        final(report).at_ms == old(report).at_ms,
{
}

} // verus!
