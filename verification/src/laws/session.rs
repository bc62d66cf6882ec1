//! A session: the controller that it is given, its roles, what the server side
//! does, and its channel.

use crate::adv::{connectable_advertisement, nonconnectable_advertisement, Advertisement};
use crate::config::{Build, RuntimeBleCallbacks, RuntimeCfg};
use crate::controller::{
    decimal, plan_controller, publish_load, required_mem_line, sdc_pool, session_roles, BringUp,
    Roles, SdcPlan,
};
use crate::emit::{calls, Emit};
use crate::l2cap::{
    l2cap_closed, l2cap_enabled, l2cap_open, l2cap_step, on_l2cap_data, plan_channel, ChannelPlan,
    CreditPolicy, PumpStep,
};
use crate::laws::client::some_bytes;
use crate::laws::server::{fitting, told};
use crate::runtime::{
    runtime_ble_l2cap_disconnect, runtime_ble_l2cap_send, L2capSlot, Runtime, State,
};
use crate::serve::{serve_step, ServeAction, ServeEvent};
use vstd::prelude::*;
use vstd::string::StringSliceAdditionalSpecFns;

verus! {

/// The memory of the controller follows the chip and the roles.
pub proof fn law_memory_of_the_controller(build: Build, r: usize)
    requires
        call_ensures(sdc_pool, (&build,), r),
    ensures
        build.family is Nrf54l && build.lean ==> r == 6144,
        build.family is Nrf54l && !build.lean && build.central ==> r == 24576,
        build.family is Nrf54l && !build.lean && !build.central ==> r == 18432,
        build.family is Nrf52 && build.central ==> r == 20480,
        build.family is Nrf52 && !build.central ==> r == 16384,
{
}

/// The controller has each feature whose bit in the mask is not set, and
/// extended and periodic advertising where they are configured; a lean nRF54L
/// has none of the heavy ones. It advertises from a buffer of 31 bytes, and from
/// the larger one with extended advertising.
pub proof fn law_features_of_the_controller(
    build: Build,
    cfg: RuntimeCfg,
    ext_adv_max: u16,
    pool: usize,
    r: SdcPlan,
)
    requires
        call_ensures(plan_controller, (&build, &cfg, ext_adv_max), r),
        call_ensures(sdc_pool, (&build,), pool),
    ensures
        ({
            let heavy = !(build.family is Nrf54l && build.lean);
            let mask = cfg.sdc_disable;
            &&& r.ext_adv <==> heavy && (mask & 0x01 == 0 || cfg.adv_extended > 0
                || cfg.periodic_adv > 0)
            &&& r.periodic_adv <==> heavy && (mask & 0x02 == 0 || cfg.periodic_adv > 0)
            &&& r.le_coded_phy <==> heavy && mask & 0x04 == 0
            &&& r.le_2m_phy <==> mask & 0x08 == 0
            &&& r.dle <==> mask & 0x10 == 0
            &&& r.subrating <==> heavy && mask & 0x20 == 0
            &&& r.frame_space <==> heavy && mask & 0x40 == 0
            &&& r.extended_feature_set <==> heavy
            &&& r.central <==> build.central
            &&& r.ext_adv ==> r.adv_buffer == ext_adv_max
            &&& !r.ext_adv ==> r.adv_buffer == 31
            &&& r.pool == pool
        }),
{
}

/// The number that decimal digits write.
pub open spec fn digits_value(digits: Seq<u8>) -> int
    decreases digits.len(),
{
    if digits.len() == 0 {
        0
    } else {
        10 * digits_value(digits.drop_last()) + digits.last() - 0x30
    }
}

/// Decimal digits write a number, without a zero before it.
pub open spec fn writes(digits: Seq<u8>, n: int) -> bool {
    &&& digits.len() > 0
    &&& forall|i: int| 0 <= i < digits.len() ==> 0x30 <= #[trigger] digits[i] <= 0x39
    &&& digits.len() > 1 ==> digits[0] != 0x30
    &&& digits_value(digits) == n
}

/// The line on the memory that the controller needs and has.
pub open spec fn memory_line(line: Seq<u8>, need: Seq<u8>, have: Seq<u8>) -> bool {
    line == "[runtime-ble] sdc mem: need ".spec_bytes() + need + " have ".spec_bytes() + have
        + seq![0u8]
}

proof fn lemma_decimal_writes(n: nat)
    ensures
        writes(decimal(n), n as int),
        n > 0 ==> decimal(n)[0] != 0x30,
    decreases n,
{
    if n < 10 {
        assert(decimal(n).drop_last().len() == 0);
        assert(digits_value(decimal(n).drop_last()) == 0);
    } else {
        lemma_decimal_writes(n / 10);
        assert(decimal(n).drop_last() =~= decimal(n / 10));
    }
}

/// The line on the memory of the controller gives what it needs and then what
/// is set aside for it, both in decimal.
pub proof fn law_memory_is_logged(required: Option<usize>, pool: usize, r: Vec<u8>)
    requires
        call_ensures(required_mem_line, (required, pool), r),
    ensures
        required is None ==> r@ == "[runtime-ble] sdc required_memory query failed".spec_bytes()
            + seq![0u8],
        required is Some ==> exists|need: Seq<u8>, have: Seq<u8>| #[trigger]
            memory_line(r@, need, have) && writes(need, required->0 as int) && writes(
                have,
                pool as int,
            ),
{
    lemma_decimal_writes(pool as nat);
    if let Some(n) = required {
        lemma_decimal_writes(n as nat);
        assert(memory_line(r@, decimal(n as nat), decimal(pool as nat)));
    }
}

/// How bringing the radio up ended is told as 0, -3 or -4, and changes nothing
/// else.
pub proof fn law_load_is_published(rt: &mut Runtime, outcome: BringUp)
    requires
        call_ensures(publish_load, (rt, outcome), ()),
    ensures
        outcome is Loaded ==> final(rt).load_status == 0,
        outcome is MpslFailed ==> final(rt).load_status == -3,
        outcome is SdcFailed ==> final(rt).load_status == -4,
        final(rt)@ == (State { load_status: final(rt).load_status, ..old(rt)@ }),
{
}

/// The role 1 is the central one and 2 both, where the build has the central
/// role; in every other case there is the server.
pub proof fn law_roles_are_the_configured_ones(build: Build, cfg: RuntimeCfg, r: Roles)
    requires
        call_ensures(session_roles, (&build, &cfg), r),
    ensures
        r.central <==> build.central && (cfg.role == 1 || cfg.role == 2),
        r.server <==> !build.central || cfg.role != 1,
{
}

/// The server side advertises when it starts and after a link, serves a link
/// that came up, and waits after advertising failed. A device that is not
/// connectable broadcasts until it is unloaded. The application is told when a
/// link is up and when it is down.
pub proof fn law_server_side_goes_on(
    cfg: RuntimeCfg,
    unload: bool,
    event: ServeEvent,
    r: (Vec<Emit<Vec<u8>>>, ServeAction<Vec<u8>>),
)
    requires
        call_ensures(serve_step, (&cfg, unload, event), r),
    ensures
        event is LinkUp ==> calls(r.0@) == told(cfg.callbacks.on_connected, Emit::Connected),
        event is LinkDown ==> calls(r.0@) == told(
            cfg.callbacks.on_disconnected,
            Emit::Disconnected { reason: 0 },
        ),
        !(event is LinkUp || event is LinkDown) ==> calls(r.0@).len() == 0,
        r.1@ is ServeLink <==> event is LinkUp,
        event is AdvertiseFailed ==> r.1@ is Pause,
        event is BroadcastEnded ==> r.1@ is Stop,
        event is Ready || event is LinkDown ==> {
            &&& cfg.nonconnectable == 0 ==> r.1@ is Accept || r.1@ is Pause
            &&& cfg.nonconnectable > 0 && unload ==> r.1@ is Stop
            &&& cfg.nonconnectable > 0 && !unload ==> r.1@ is Broadcast || r.1@ is Pause
        },
{
}

/// What is advertised is the advertisement of the configuration, and a pause
/// follows where its payload does not fit.
pub proof fn law_server_side_advertises(
    cfg: RuntimeCfg,
    event: ServeEvent,
    r: (Vec<Emit<Vec<u8>>>, ServeAction<Vec<u8>>),
    open: Advertisement<Vec<u8>>,
    closed: Advertisement<Vec<u8>>,
)
    requires
        event is Ready || event is LinkDown,
        call_ensures(serve_step, (&cfg, false, event), r),
    ensures
        cfg.nonconnectable == 0 && call_ensures(connectable_advertisement, (&cfg,), Ok(open))
            ==> r.1@ == ServeAction::Accept(open@),
        cfg.nonconnectable > 0 && call_ensures(nonconnectable_advertisement, (&cfg,), Ok(closed))
            ==> r.1@ == ServeAction::Broadcast(closed@),
{
}

/// There is a channel where the build has them and its number is not zero; it
/// is opened with the configured values, zero leaving each of them open, and
/// gives credits out by the configured rule.
pub proof fn law_channel_is_the_configured_one(
    build: Build,
    cfg: RuntimeCfg,
    enabled: bool,
    r: ChannelPlan,
)
    requires
        call_ensures(l2cap_enabled, (&build, &cfg), enabled),
        call_ensures(plan_channel, (&cfg,), r),
    ensures
        enabled <==> build.l2cap && cfg.l2cap_psm > 0,
        cfg.l2cap_mtu == 0 ==> r.mtu is None,
        cfg.l2cap_mtu > 0 ==> r.mtu == Some(cfg.l2cap_mtu),
        cfg.l2cap_mps == 0 ==> r.mps is None,
        cfg.l2cap_mps > 0 ==> r.mps == Some(cfg.l2cap_mps),
        cfg.l2cap_initial_credits == 0 ==> r.initial_credits is None,
        cfg.l2cap_initial_credits > 0 ==> r.initial_credits == Some(cfg.l2cap_initial_credits),
        cfg.l2cap_credit_policy_value == 0 ==> r.policy is None,
        cfg.l2cap_credit_policy_value > 0 && cfg.l2cap_credit_policy == 0 ==> r.policy == Some(
            CreditPolicy::Every(cfg.l2cap_credit_policy_value),
        ),
        cfg.l2cap_credit_policy_value > 0 && cfg.l2cap_credit_policy > 0 ==> r.policy == Some(
            CreditPolicy::MinThreshold(cfg.l2cap_credit_policy_value),
        ),
{
}

/// A packet that was accepted is sent, up to 244 bytes of it, unless the channel
/// is being closed; one that is queued leaves no room for another.
pub proof fn law_packet_is_sent(
    rt: &mut Runtime,
    data: Option<&[u8]>,
    r: i32,
    next: &mut Runtime,
    step: PumpStep<Vec<u8>>,
)
    requires
        call_ensures(runtime_ble_l2cap_send, (rt, data), r),
        old(next)@ == final(rt)@,
        call_ensures(l2cap_step, (next,), step),
    ensures
        r == -1 <==> !old(rt).build.l2cap || !some_bytes(data),
        r == -2 <==> old(rt).build.l2cap && some_bytes(data) && old(rt).l2cap.pending,
        r == 0 <==> old(rt).build.l2cap && some_bytes(data) && !old(rt).l2cap.pending,
        r != 0 ==> final(rt)@ == old(rt)@,
        r == 0 && !old(rt).l2cap.disconnect ==> step@ == (PumpStep::Send {
            data: fitting(data->0@, 244),
        }),
        old(rt).l2cap.disconnect ==> step@ is Close,
        final(rt)@ == (State { l2cap: final(rt)@.l2cap, ..old(rt)@ }),
{
}

/// A channel that was asked to close closes, and what was queued is dropped.
pub proof fn law_channel_is_closed(
    rt: &mut Runtime,
    r: i32,
    next: &mut Runtime,
    step: PumpStep<Vec<u8>>,
)
    requires
        call_ensures(runtime_ble_l2cap_disconnect, (rt,), r),
        old(next)@ == final(rt)@,
        call_ensures(l2cap_step, (next,), step),
    ensures
        r == 0 <==> old(rt).build.l2cap,
        r == -1 <==> !old(rt).build.l2cap,
        r == -1 ==> final(rt)@ == old(rt)@,
        r == 0 ==> step@ is Close && final(rt)@ == (State {
            l2cap: L2capSlot { disconnect: true, ..old(rt)@.l2cap },
            ..old(rt)@
        }),
{
}

/// A step of the pump takes what is queued and nothing else, and a free pump is
/// idle.
pub proof fn law_pump_takes_what_is_queued(rt: &mut Runtime, r: PumpStep<Vec<u8>>)
    requires
        call_ensures(l2cap_step, (rt,), r),
    ensures
        r@ is Idle <==> !old(rt).l2cap.disconnect && !old(rt).l2cap.pending,
        r@ is Close <==> old(rt).l2cap.disconnect,
        final(rt)@ == (State {
            l2cap: L2capSlot { pending: false, disconnect: false, ..old(rt)@.l2cap },
            ..old(rt)@
        }),
{
}

/// A channel opens with nothing queued; the application is told when it opens,
/// what it brings, and when it closes.
pub proof fn law_channel_is_told(
    rt: &mut Runtime,
    cb: RuntimeBleCallbacks,
    data: &[u8],
    opened: Vec<Emit<Vec<u8>>>,
    received: Vec<Emit<Vec<u8>>>,
    closed: Vec<Emit<Vec<u8>>>,
)
    requires
        call_ensures(l2cap_open, (rt, &cb), opened),
        call_ensures(on_l2cap_data, (&cb, data), received),
        call_ensures(l2cap_closed, (&cb,), closed),
    ensures
        final(rt)@ == (State {
            l2cap: L2capSlot { pending: false, disconnect: false, ..old(rt)@.l2cap },
            ..old(rt)@
        }),
        calls(opened@) == told(cb.on_l2cap_connected, Emit::L2capConnected),
        calls(received@) == told(cb.on_l2cap_data, Emit::L2capData { data: data@ }),
        calls(closed@) == told(cb.on_l2cap_disconnected, Emit::L2capDisconnected),
{
}

} // verus!
