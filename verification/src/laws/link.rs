//! Requests on the active link: with what each of them is carried out.

use crate::config::Build;
use crate::host::ConnParams;
use crate::link::{link_step, FrameSpacePhys, FrameSpaceTypes, LinkAction, Phy, RateParams};
use crate::runtime::{
    link_cmd, runtime_ble_load_status, runtime_ble_passkey_confirm, runtime_ble_passkey_input,
    runtime_ble_read_att_mtu, runtime_ble_read_phy, runtime_ble_read_rssi,
    runtime_ble_read_security, runtime_ble_request_connection_rate, runtime_ble_request_security,
    runtime_ble_run, runtime_ble_set_phy, runtime_ble_signal_unload,
    runtime_ble_update_conn_params, runtime_ble_update_data_length,
    runtime_ble_update_frame_space, LinkCmd, LinkSlot, Model, Runtime, SendSlot, State,
    TxKind, TxTarget,
};
use vstd::prelude::*;

verus! {

/// A request on the link was queued, with the result 0, or refused because one
/// is queued, with the result -2; it changed nothing but the link slot, and the
/// request that was queued first stays.
pub open spec fn queued_or_full(before: Model, after: Model, r: i32) -> bool {
    &&& r == 0 <==> before.link.cmd is None
    &&& r == -2 <==> before.link.cmd is Some
    &&& r == -2 ==> after.link.cmd == before.link.cmd
    &&& r == 0 ==> after.link.cmd is Some
    &&& after == (State { link: after.link, ..before })
}

/// A value that was asked for, with zero standing for a default.
pub open spec fn given_or(v: int, default: int) -> int {
    if v > 0 {
        v
    } else {
        default
    }
}

/// A step takes the request and nothing else, and a free slot leads to nothing.
pub proof fn law_step_takes_the_request(rt: &mut Runtime, r: LinkAction)
    requires
        call_ensures(link_step, (rt,), r),
    ensures
        r is Idle <==> old(rt).link.cmd is None,
        final(rt).link == (LinkSlot { cmd: None, ..old(rt).link }),
        final(rt)@ == (State { link: final(rt).link, ..old(rt)@ }),
{
}

/// A PHY is asked for by its number: 1 for 1M, 2 for 2M and 3 for coded; any
/// other number is refused and changes nothing.
pub proof fn law_phy_is_asked_for(
    rt: &mut Runtime,
    phy: u8,
    r: i32,
    next: &mut Runtime,
    step: LinkAction,
)
    requires
        call_ensures(runtime_ble_set_phy, (rt, phy), r),
        old(next)@ == final(rt)@,
        call_ensures(link_step, (next,), step),
    ensures
        r == -1 <==> phy == 0 || phy > 3,
        r == -1 ==> final(rt)@ == old(rt)@,
        r != -1 ==> queued_or_full(old(rt)@, final(rt)@, r),
        r == 0 ==> step is SetPhy,
        r == 0 && phy == 1 ==> step == LinkAction::SetPhy(Phy::Le1M),
        r == 0 && phy == 2 ==> step == LinkAction::SetPhy(Phy::Le2M),
        r == 0 && phy == 3 ==> step == LinkAction::SetPhy(Phy::LeCoded),
{
}

/// A data length is asked for with its number of bytes and its time, zero
/// standing for 251 bytes and 2120 us.
pub proof fn law_data_length_is_asked_for(
    rt: &mut Runtime,
    octets: u16,
    time_us: u16,
    r: i32,
    next: &mut Runtime,
    step: LinkAction,
)
    requires
        call_ensures(runtime_ble_update_data_length, (rt, octets, time_us), r),
        old(next)@ == final(rt)@,
        call_ensures(link_step, (next,), step),
    ensures
        queued_or_full(old(rt)@, final(rt)@, r),
        r == 0 ==> step == (LinkAction::DataLength {
            octets: given_or(octets as int, 251) as u16,
            time_us: given_or(time_us as int, 2120) as u16,
        }),
{
}

/// Connection parameters are asked for with the least and the greatest
/// interval, the latency and the timeout where they are in range, zero standing
/// for 80 ms and 8 s; where they are not, nothing is asked for.
pub proof fn law_connection_parameters_are_asked_for(
    rt: &mut Runtime,
    min_ms: u16,
    max_ms: u16,
    latency: u16,
    timeout_ms: u16,
    r: i32,
    next: &mut Runtime,
    step: LinkAction,
)
    requires
        call_ensures(
            runtime_ble_update_conn_params,
            (rt, min_ms, max_ms, latency, timeout_ms),
            r,
        ),
        old(next)@ == final(rt)@,
        call_ensures(link_step, (next,), step),
    ensures
        queued_or_full(old(rt)@, final(rt)@, r),
        r == 0 ==> {
            let min = given_or(min_ms as int, 80);
            let max = given_or(max_ms as int, 80);
            let timeout = given_or(timeout_ms as int, 8000);
            let good = 8 <= min <= max <= 4000 && latency < 500 && 100 <= timeout <= 32000
                && timeout > 2 * (latency + 1) * max;
            &&& good ==> step == LinkAction::ConnParams(
                ConnParams {
                    min_interval_ms: min as u64,
                    max_interval_ms: max as u64,
                    max_latency: latency,
                    min_event_ms: 0,
                    max_event_ms: 0,
                    supervision_timeout_ms: timeout as u64,
                },
            )
            &&& !good ==> step is InvalidConnParams
        },
{
}

/// A frame spacing is asked for with its bounds, zero standing for 150 us and
/// 10 ms, for the PHYs and the kinds of spacing whose bits are set, where the
/// bounds are in order. No PHY stands for all of them, and no kind for the two
/// between data packets.
pub proof fn law_frame_spacing_is_asked_for(
    rt: &mut Runtime,
    min_us: u32,
    max_us: u32,
    phys: u8,
    types: u8,
    r: i32,
    next: &mut Runtime,
    step: LinkAction,
)
    requires
        call_ensures(runtime_ble_update_frame_space, (rt, min_us, max_us, phys, types), r),
        old(next)@ == final(rt)@,
        call_ensures(link_step, (next,), step),
    ensures
        queued_or_full(old(rt)@, final(rt)@, r),
        r == 0 ==> {
            let min = given_or(min_us as int, 150);
            let max = given_or(max_us as int, 10000);
            &&& min > max ==> step is InvalidFrameSpace
            &&& min <= max ==> step == (LinkAction::FrameSpace {
                min_us: min as u32,
                max_us: max as u32,
                phys: FrameSpacePhys {
                    le_1m: phys == 0 || phys & 0x01 != 0,
                    le_2m: phys == 0 || phys & 0x02 != 0,
                    le_coded: phys == 0 || phys & 0x04 != 0,
                },
                types: FrameSpaceTypes {
                    t_ifs_acl_cp: types == 0 || types & 0x01 != 0,
                    t_ifs_acl_pc: types == 0 || types & 0x02 != 0,
                    t_mces: types & 0x04 != 0,
                    t_ifs_cis: types & 0x08 != 0,
                    t_mss_cis: types & 0x10 != 0,
                },
            })
        },
{
}

/// A connection rate is asked for with each of its values, zero standing for
/// intervals of 80 ms, a subrate of 1 and a timeout of 8 s, where the intervals
/// and the subrates are in order.
pub proof fn law_connection_rate_is_asked_for(
    rt: &mut Runtime,
    min_ms: u16,
    max_ms: u16,
    subrate_min: u16,
    subrate_max: u16,
    latency: u16,
    continuation_number: u16,
    timeout_ms: u16,
    r: i32,
    next: &mut Runtime,
    step: LinkAction,
)
    requires
        call_ensures(
            runtime_ble_request_connection_rate,
            (
                rt,
                min_ms,
                max_ms,
                subrate_min,
                subrate_max,
                latency,
                continuation_number,
                timeout_ms,
            ),
            r,
        ),
        old(next)@ == final(rt)@,
        call_ensures(link_step, (next,), step),
    ensures
        queued_or_full(old(rt)@, final(rt)@, r),
        r == 0 ==> {
            let min = given_or(min_ms as int, 80);
            let max = given_or(max_ms as int, 80);
            let low = given_or(subrate_min as int, 1);
            let high = given_or(subrate_max as int, 1);
            &&& min > max || low > high ==> step is InvalidConnectionRate
            &&& min <= max && low <= high ==> step == LinkAction::ConnectionRate(
                RateParams {
                    min_interval_ms: min as u64,
                    max_interval_ms: max as u64,
                    subrate_min: low as u16,
                    subrate_max: high as u16,
                    max_latency: latency,
                    continuation_number,
                    supervision_timeout_ms: given_or(timeout_ms as int, 8000) as u64,
                },
            )
        },
{
}

/// A passkey of at most six digits is handed over as it is, and a longer one is
/// refused.
pub proof fn law_passkey_is_handed_over(
    rt: &mut Runtime,
    passkey: u32,
    r: i32,
    next: &mut Runtime,
    step: LinkAction,
)
    requires
        call_ensures(runtime_ble_passkey_input, (rt, passkey), r),
        old(next)@ == final(rt)@,
        call_ensures(link_step, (next,), step),
    ensures
        r == -1 <==> passkey >= 1000000,
        r == -1 ==> final(rt)@ == old(rt)@,
        r != -1 ==> queued_or_full(old(rt)@, final(rt)@, r),
        r == 0 ==> step == LinkAction::PasskeyInput(passkey),
{
}

/// A passkey is confirmed by any number but zero, which cancels the pairing.
pub proof fn law_passkey_is_confirmed(
    rt: &mut Runtime,
    accept: u8,
    r: i32,
    next: &mut Runtime,
    step: LinkAction,
)
    requires
        call_ensures(runtime_ble_passkey_confirm, (rt, accept), r),
        old(next)@ == final(rt)@,
        call_ensures(link_step, (next,), step),
    ensures
        queued_or_full(old(rt)@, final(rt)@, r),
        r == 0 && accept > 0 ==> step is PasskeyConfirm,
        r == 0 && accept == 0 ==> step is PasskeyCancel,
{
}

/// What is read of the link is what was asked for, and security is asked for
/// where it is; the five requests are made on five states.
pub proof fn law_what_is_asked_is_read(
    a: &mut Runtime,
    b: &mut Runtime,
    c: &mut Runtime,
    d: &mut Runtime,
    e: &mut Runtime,
    ra: i32,
    rb: i32,
    rc: i32,
    rd: i32,
    re: i32,
    next: &mut Runtime,
    step: LinkAction,
)
    requires
        call_ensures(runtime_ble_read_rssi, (a,), ra),
        call_ensures(runtime_ble_read_att_mtu, (b,), rb),
        call_ensures(runtime_ble_read_phy, (c,), rc),
        call_ensures(runtime_ble_read_security, (d,), rd),
        call_ensures(runtime_ble_request_security, (e,), re),
        call_ensures(link_step, (next,), step),
    ensures
        queued_or_full(old(a)@, final(a)@, ra) && (ra == 0 && old(next)@ == final(a)@ ==> step
            is ReadRssi),
        queued_or_full(old(b)@, final(b)@, rb) && (rb == 0 && old(next)@ == final(b)@ ==> step
            is ReadAttMtu),
        queued_or_full(old(c)@, final(c)@, rc) && (rc == 0 && old(next)@ == final(c)@ ==> step
            is ReadPhy),
        queued_or_full(old(d)@, final(d)@, rd) && (rd == 0 && old(next)@ == final(d)@ ==> step
            is ReadSecurity),
        queued_or_full(old(e)@, final(e)@, re) && (re == 0 && old(next)@ == final(e)@ ==> step
            is RequestSecurity),
{
}

/// A request is queued as it is.
pub proof fn law_request_is_queued(rt: &mut Runtime, cmd: LinkCmd, r: i32)
    requires
        call_ensures(link_cmd, (rt, cmd), r),
    ensures
        queued_or_full(old(rt)@, final(rt)@, r),
        r == 0 ==> final(rt).link == (LinkSlot { cmd: Some(cmd), ..old(rt).link }),
        r != 0 ==> final(rt)@ == old(rt)@,
{
}

/// The load status is the one of the state.
pub proof fn law_load_status_is_told(rt: Runtime, r: i32)
    requires
        call_ensures(runtime_ble_load_status, (&rt,), r),
    ensures
        r == rt.load_status,
{
}

/// A session runs where a configuration was accepted. It starts with a load in
/// progress, without an unload and without queued bytes, and keeps the rest.
pub proof fn law_session_starts(rt: &mut Runtime, mode: i32, r: bool)
    requires
        call_ensures(runtime_ble_run, (rt, mode), r),
    ensures
        r <==> old(rt).config is Some,
        !final(rt).send.pending,
        final(rt)@.send == (SendSlot { pending: false, ..old(rt)@.send }),
        final(rt)@ == (State {
            load_status: 1,
            unload: false,
            send: final(rt)@.send,
            ..old(rt)@
        }),
{
}

/// An unload is signalled and changes nothing else.
pub proof fn law_unload_is_signalled(rt: &mut Runtime)
    requires
        call_ensures(runtime_ble_signal_unload, (rt,), ()),
    ensures
        final(rt).unload,
        final(rt)@ == (State { unload: true, ..old(rt)@ }),
{
}

/// The library starts without a configuration, with a load in progress, without
/// any request or queued byte.
pub proof fn law_library_starts_empty(build: Build, r: Runtime)
    requires
        call_ensures(Runtime::new, (build,), r),
    ensures
        r.build == build,
        r.config is None,
        r.load_status == 1,
        !r.unload,
        !r.send.pending,
        r.send.target == TxTarget::Nus,
        r.send.kind == TxKind::Auto,
        r.send.data@.len() == 0,
        r.link.cmd is None,
        r.link.phy == 0 && r.link.dle_octets == 0 && r.link.dle_time_us == 0,
        r.link.conn_min_ms == 0 && r.link.conn_max_ms == 0 && r.link.conn_latency == 0,
        r.link.conn_timeout_ms == 0 && r.link.subrate_min == 0 && r.link.subrate_max == 0,
        r.link.frame_space_min_us == 0 && r.link.frame_space_max_us == 0,
        r.link.frame_space_phy_mask == 0 && r.link.frame_space_types == 0,
        r.link.continuation_number == 0 && r.link.passkey == 0,
        r.bond.cmd is None,
        r.bond.index == 0 && r.bond.io_capability == 0,
        r.central.cmd is None,
        r.central.handle == 0 && r.central.addr_kind == 0,
        forall|i: int| 0 <= i < 6 ==> r.central.addr@[i] == 0,
        !r.scan.active && !r.scan.filter_duplicates && !r.scan.filter_addr_enabled,
        r.scan.interval_ms == 0 && r.scan.window_ms == 0 && r.scan.timeout_ms == 0,
        r.scan.phy_options == 0 && r.scan.filter_addr_kind == 0,
        r.central.uuid@.len() == 0,
        r.central.data@.len() == 0,
        !r.l2cap.pending,
        r.l2cap.data@.len() == 0,
        !r.l2cap.disconnect,
{
}

} // verus!
