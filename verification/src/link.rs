//! Requests on the active link: what a session does for each of them.

use crate::host::{conn_params_valid, ConnParams};
use crate::runtime::{
    LinkCmd, LinkSlot, Model, Runtime, State, RUNTIME_BLE_ERR_NO_MEM, RUNTIME_BLE_OK,
};
use vstd::prelude::*;

verus! {

/// A PHY that can be asked for.
#[derive(Clone, Copy, Debug, PartialEq, Eq, Structural)]
pub enum Phy {
    Le1M,
    Le2M,
    LeCoded,
}

/// The PHYs that a frame spacing applies to.
#[derive(Clone, Copy, Debug, PartialEq, Eq, Structural)]
pub struct FrameSpacePhys {
    pub le_1m: bool,
    pub le_2m: bool,
    pub le_coded: bool,
}

/// The kinds of spacing that a frame spacing applies to.
#[derive(Clone, Copy, Debug, PartialEq, Eq, Structural)]
pub struct FrameSpaceTypes {
    pub t_ifs_acl_cp: bool,
    pub t_ifs_acl_pc: bool,
    pub t_mces: bool,
    pub t_ifs_cis: bool,
    pub t_mss_cis: bool,
}

/// A connection rate to ask for. Event lengths are zero.
#[derive(Clone, Copy, Debug, PartialEq, Eq, Structural)]
pub struct RateParams {
    pub min_interval_ms: u64,
    pub max_interval_ms: u64,
    pub subrate_min: u16,
    pub subrate_max: u16,
    pub max_latency: u16,
    pub continuation_number: u16,
    pub supervision_timeout_ms: u64,
}

/// What a session does for a request on the link.
#[derive(Clone, Copy, Debug, PartialEq, Eq, Structural)]
pub enum LinkAction {
    Idle,
    SetPhy(Phy),
    DataLength { octets: u16, time_us: u16 },
    ConnParams(ConnParams),
    /// The connection parameters are out of range: nothing but a log line.
    InvalidConnParams,
    FrameSpace { min_us: u32, max_us: u32, phys: FrameSpacePhys, types: FrameSpaceTypes },
    /// The frame spacing is out of order: nothing but a log line.
    InvalidFrameSpace,
    ConnectionRate(RateParams),
    /// The connection rate is out of order: nothing but a log line.
    InvalidConnectionRate,
    RequestSecurity,
    PasskeyConfirm,
    PasskeyCancel,
    PasskeyInput(u32),
    ReadRssi,
    ReadAttMtu,
    ReadPhy,
    ReadSecurity,
}

/// `v`, or `default` where `v` is zero.
pub open spec fn or_default(v: u16, default: u16) -> u16 {
    if v == 0 {
        default
    } else {
        v
    }
}

/// The connection parameters in the slot: zero stands for intervals of 80 ms
/// and a timeout of 8 s.
pub open spec fn requested_params(slot: LinkSlot) -> ConnParams {
    ConnParams {
        min_interval_ms: or_default(slot.conn_min_ms, 80) as u64,
        max_interval_ms: or_default(slot.conn_max_ms, 80) as u64,
        max_latency: slot.conn_latency,
        min_event_ms: 0,
        max_event_ms: 0,
        supervision_timeout_ms: or_default(slot.conn_timeout_ms, 8000) as u64,
    }
}

/// The PHYs of a mask: bit 0 for 1M, bit 1 for 2M, bit 2 for coded, zero for
/// all.
pub open spec fn phys_of(mask: u8) -> FrameSpacePhys {
    FrameSpacePhys {
        le_1m: mask == 0 || mask & 0x01 != 0,
        le_2m: mask == 0 || mask & 0x02 != 0,
        le_coded: mask == 0 || mask & 0x04 != 0,
    }
}

/// The spacing kinds of a mask; zero stands for the two kinds between data
/// packets.
pub open spec fn types_of(mask: u8) -> FrameSpaceTypes {
    FrameSpaceTypes {
        t_ifs_acl_cp: mask == 0 || mask & 0x01 != 0,
        t_ifs_acl_pc: mask == 0 || mask & 0x02 != 0,
        t_mces: mask & 0x04 != 0,
        t_ifs_cis: mask & 0x08 != 0,
        t_mss_cis: mask & 0x10 != 0,
    }
}

/// What a session does for the frame spacing in the slot: zero stands for
/// 150 us and 10 ms.
pub open spec fn frame_space_action(slot: LinkSlot) -> LinkAction {
    let min_us = if slot.frame_space_min_us == 0 {
        150
    } else {
        slot.frame_space_min_us
    };
    let max_us = if slot.frame_space_max_us == 0 {
        10_000
    } else {
        slot.frame_space_max_us
    };
    if min_us > max_us {
        LinkAction::InvalidFrameSpace
    } else {
        LinkAction::FrameSpace {
            min_us,
            max_us,
            phys: phys_of(slot.frame_space_phy_mask),
            types: types_of(slot.frame_space_types),
        }
    }
}

/// The connection rate in the slot: zero stands for intervals of 80 ms, a
/// subrate of 1 and a timeout of 8 s.
pub open spec fn requested_rate(slot: LinkSlot) -> RateParams {
    RateParams {
        min_interval_ms: or_default(slot.conn_min_ms, 80) as u64,
        max_interval_ms: or_default(slot.conn_max_ms, 80) as u64,
        subrate_min: or_default(slot.subrate_min, 1),
        subrate_max: or_default(slot.subrate_max, 1),
        max_latency: slot.conn_latency,
        continuation_number: slot.continuation_number,
        supervision_timeout_ms: or_default(slot.conn_timeout_ms, 8000) as u64,
    }
}

/// What a session does for the request in the slot.
pub open spec fn link_action(slot: LinkSlot) -> LinkAction {
    match slot.cmd {
        None => LinkAction::Idle,
        Some(LinkCmd::SetPhy) => LinkAction::SetPhy(
            if slot.phy == 2 {
                Phy::Le2M
            } else if slot.phy == 3 {
                Phy::LeCoded
            } else {
                Phy::Le1M
            },
        ),
        Some(LinkCmd::DataLength) => LinkAction::DataLength {
            octets: or_default(slot.dle_octets, 251),
            time_us: or_default(slot.dle_time_us, 2120),
        },
        Some(LinkCmd::ConnParams) => if requested_params(slot).valid() {
            LinkAction::ConnParams(requested_params(slot))
        } else {
            LinkAction::InvalidConnParams
        },
        Some(LinkCmd::FrameSpace) => frame_space_action(slot),
        Some(LinkCmd::ConnectionRate) => if requested_rate(slot).min_interval_ms <= requested_rate(
            slot,
        ).max_interval_ms && requested_rate(slot).subrate_min <= requested_rate(slot).subrate_max {
            LinkAction::ConnectionRate(requested_rate(slot))
        } else {
            LinkAction::InvalidConnectionRate
        },
        Some(LinkCmd::SecurityRequest) => LinkAction::RequestSecurity,
        Some(LinkCmd::PasskeyConfirm) => LinkAction::PasskeyConfirm,
        Some(LinkCmd::PasskeyCancel) => LinkAction::PasskeyCancel,
        Some(LinkCmd::PasskeyInput) => LinkAction::PasskeyInput(slot.passkey),
        Some(LinkCmd::ReadRssi) => LinkAction::ReadRssi,
        Some(LinkCmd::ReadAttMtu) => LinkAction::ReadAttMtu,
        Some(LinkCmd::ReadPhy) => LinkAction::ReadPhy,
        Some(LinkCmd::ReadSecurity) => LinkAction::ReadSecurity,
    }
}

impl State<Seq<u8>> {
    /// The state after the request on the link was taken.
    pub open spec fn link_taken(self) -> Model {
        State { link: LinkSlot { cmd: None, ..self.link }, ..self }
    }
}

fn nonzero_or(v: u16, default: u16) -> (r: u16)
    ensures
        r == or_default(v, default),
{
    if v == 0 {
        default
    } else {
        v
    }
}

/// What a session does for the connection parameters in the slot.
fn conn_params_step(slot: &LinkSlot) -> (r: LinkAction)
    ensures
        r == if requested_params(*slot).valid() {
            LinkAction::ConnParams(requested_params(*slot))
        } else {
            LinkAction::InvalidConnParams
        },
{
    let params = ConnParams {
        min_interval_ms: nonzero_or(slot.conn_min_ms, 80) as u64,
        max_interval_ms: nonzero_or(slot.conn_max_ms, 80) as u64,
        max_latency: slot.conn_latency,
        min_event_ms: 0,
        max_event_ms: 0,
        supervision_timeout_ms: nonzero_or(slot.conn_timeout_ms, 8000) as u64,
    };
    if conn_params_valid(&params) {
        LinkAction::ConnParams(params)
    } else {
        LinkAction::InvalidConnParams
    }
}

/// What a session does for the frame spacing in the slot.
fn frame_space_step(slot: &LinkSlot) -> (r: LinkAction)
    ensures
        r == frame_space_action(*slot),
{
    let min_us: u32 = if slot.frame_space_min_us == 0 {
        150
    } else {
        slot.frame_space_min_us
    };
    let max_us: u32 = if slot.frame_space_max_us == 0 {
        10_000
    } else {
        slot.frame_space_max_us
    };
    if min_us > max_us {
        return LinkAction::InvalidFrameSpace;
    }
    let phy_bits: u8 = slot.frame_space_phy_mask;
    let type_bits: u8 = slot.frame_space_types;
    LinkAction::FrameSpace {
        min_us,
        max_us,
        phys: FrameSpacePhys {
            le_1m: phy_bits == 0 || phy_bits & 0x01 != 0,
            le_2m: phy_bits == 0 || phy_bits & 0x02 != 0,
            le_coded: phy_bits == 0 || phy_bits & 0x04 != 0,
        },
        types: FrameSpaceTypes {
            t_ifs_acl_cp: type_bits == 0 || type_bits & 0x01 != 0,
            t_ifs_acl_pc: type_bits == 0 || type_bits & 0x02 != 0,
            t_mces: type_bits & 0x04 != 0,
            t_ifs_cis: type_bits & 0x08 != 0,
            t_mss_cis: type_bits & 0x10 != 0,
        },
    }
}

/// What a session does for the connection rate in the slot.
fn connection_rate_step(slot: &LinkSlot) -> (r: LinkAction)
    ensures
        r == link_action(LinkSlot { cmd: Some(LinkCmd::ConnectionRate), ..*slot }),
{
    let params = RateParams {
        min_interval_ms: nonzero_or(slot.conn_min_ms, 80) as u64,
        max_interval_ms: nonzero_or(slot.conn_max_ms, 80) as u64,
        subrate_min: nonzero_or(slot.subrate_min, 1),
        subrate_max: nonzero_or(slot.subrate_max, 1),
        max_latency: slot.conn_latency,
        continuation_number: slot.continuation_number,
        supervision_timeout_ms: nonzero_or(slot.conn_timeout_ms, 8000) as u64,
    };
    if params.min_interval_ms <= params.max_interval_ms && params.subrate_min
        <= params.subrate_max {
        LinkAction::ConnectionRate(params)
    } else {
        LinkAction::InvalidConnectionRate
    }
}

/// Takes the request on the link and says what is done for it.
pub fn link_step(rt: &mut Runtime) -> (r: LinkAction)
    ensures
        r == link_action(old(rt).link),
        final(rt)@ == old(rt)@.link_taken(),
{
    let slot: LinkSlot = rt.link;
    rt.link.cmd = None;
    match slot.cmd {
        None => LinkAction::Idle,
        Some(cmd) => match cmd {
            LinkCmd::SetPhy => LinkAction::SetPhy(
                match slot.phy {
                    2 => Phy::Le2M,
                    3 => Phy::LeCoded,
                    _ => Phy::Le1M,
                },
            ),
            LinkCmd::DataLength => LinkAction::DataLength {
                octets: nonzero_or(slot.dle_octets, 251),
                time_us: nonzero_or(slot.dle_time_us, 2120),
            },
            LinkCmd::ConnParams => conn_params_step(&slot),
            LinkCmd::FrameSpace => frame_space_step(&slot),
            LinkCmd::ConnectionRate => connection_rate_step(&slot),
            LinkCmd::SecurityRequest => LinkAction::RequestSecurity,
            LinkCmd::PasskeyConfirm => LinkAction::PasskeyConfirm,
            LinkCmd::PasskeyCancel => LinkAction::PasskeyCancel,
            LinkCmd::PasskeyInput => LinkAction::PasskeyInput(slot.passkey),
            LinkCmd::ReadRssi => LinkAction::ReadRssi,
            LinkCmd::ReadAttMtu => LinkAction::ReadAttMtu,
            LinkCmd::ReadPhy => LinkAction::ReadPhy,
            LinkCmd::ReadSecurity => LinkAction::ReadSecurity,
        },
    }
}

/// The slot holds one request: between a call that made one and the step that
/// takes it, every further request without parameters is refused and changes
/// nothing; after that step the next request is accepted.
pub proof fn law_one_link_request(m: Model, cmd: LinkCmd, cmd2: LinkCmd)
    requires
        m.link_request(cmd).1 == RUNTIME_BLE_OK,
    ensures
        ({
            let queued = m.link_request(cmd).0;
            &&& queued.link.cmd == Some(cmd)
            &&& queued.link_request(cmd2) == (queued, RUNTIME_BLE_ERR_NO_MEM)
            &&& queued.link_taken().link_request(cmd2).1 == RUNTIME_BLE_OK
        }),
{
}

/// While a request is queued, a request with parameters is refused too. The
/// first one stays queued; nothing but the kept parameters changes.
pub proof fn law_refused_link_request_keeps_first(
    m: Model,
    phy: u8,
    a: u16,
    b: u16,
    c: u16,
    d: u16,
    e: u16,
    f: u16,
    g: u16,
    min_us: u32,
    max_us: u32,
    phy_mask: u8,
    types: u8,
    passkey: u32,
)
    requires
        m.link.cmd is Some,
        1 <= phy <= 3,
        passkey <= 999_999,
    ensures
        refused_keeps_first(m, m.set_phy(phy)),
        refused_keeps_first(m, m.update_data_length(a, b)),
        refused_keeps_first(m, m.update_conn_params(a, b, c, d)),
        refused_keeps_first(m, m.update_frame_space(min_us, max_us, phy_mask, types)),
        refused_keeps_first(m, m.request_connection_rate(a, b, c, d, e, f, g)),
        refused_keeps_first(m, m.passkey_input(passkey)),
{
}

/// The step was refused for want of room, and changed nothing but kept link
/// parameters.
pub open spec fn refused_keeps_first(before: Model, step: (Model, i32)) -> bool {
    &&& step.1 == RUNTIME_BLE_ERR_NO_MEM
    &&& step.0.link.cmd == before.link.cmd
    &&& step.0 == (State { link: step.0.link, ..before })
}

/// A request on the link is carried out with the parameters that it was made
/// with.
pub proof fn law_link_requests_arrive(
    m: Model,
    phy: u8,
    octets: u16,
    time_us: u16,
    passkey: u32,
)
    requires
        m.link.cmd is None,
        1 <= phy <= 3,
        octets > 0,
        time_us > 0,
        passkey <= 999_999,
    ensures
        link_action(m.set_phy(phy).0.link) == LinkAction::SetPhy(
            if phy == 1 {
                Phy::Le1M
            } else if phy == 2 {
                Phy::Le2M
            } else {
                Phy::LeCoded
            },
        ),
        link_action(m.update_data_length(octets, time_us).0.link) == (LinkAction::DataLength {
            octets,
            time_us,
        }),
        link_action(m.passkey_input(passkey).0.link) == LinkAction::PasskeyInput(passkey),
{
}

/// Connection parameters that are asked for are passed on where they are in
/// range, zero standing for the defaults, and dropped where they are not;
/// leaving every one at zero is in range.
pub proof fn law_conn_params_arrive(
    m: Model,
    min_ms: u16,
    max_ms: u16,
    latency: u16,
    timeout_ms: u16,
)
    requires
        m.link.cmd is None,
    ensures
        ({
            let params = ConnParams {
                min_interval_ms: or_default(min_ms, 80) as u64,
                max_interval_ms: or_default(max_ms, 80) as u64,
                max_latency: latency,
                min_event_ms: 0,
                max_event_ms: 0,
                supervision_timeout_ms: or_default(timeout_ms, 8000) as u64,
            };
            link_action(m.update_conn_params(min_ms, max_ms, latency, timeout_ms).0.link)
                == if params.valid() {
                LinkAction::ConnParams(params)
            } else {
                LinkAction::InvalidConnParams
            }
        }),
        link_action(m.update_conn_params(0, 0, 0, 0).0.link) == LinkAction::ConnParams(
            crate::host::default_conn_params(),
        ),
{
}

/// A request with a parameter out of range is refused and changes nothing.
pub proof fn law_invalid_link_requests_are_refused(m: Model, phy: u8, passkey: u32)
    requires
        phy == 0 || phy > 3,
        passkey > 999_999,
    ensures
        m.set_phy(phy) == (m, crate::runtime::RUNTIME_BLE_ERR_INVALID),
        m.passkey_input(passkey) == (m, crate::runtime::RUNTIME_BLE_ERR_INVALID),
{
}

} // verus!
