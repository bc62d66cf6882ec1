//! L2CAP connection-oriented channels: how a channel is set up, and what the
//! send pump does.

use crate::bytes::{clip, clipped, copied};
use crate::config::{Build, RuntimeBleCallbacks, RuntimeCfg, VALUE_LEN};
use crate::emit::{called_if, calls, only_when, Emit};
use crate::runtime::{
    sendable, L2capSlot, Model, Runtime, State, RUNTIME_BLE_ERR_INVALID, RUNTIME_BLE_ERR_NO_MEM,
    RUNTIME_BLE_OK,
};
use vstd::prelude::*;

verus! {

/// Whether a link carries a channel: the build has them and a PSM is
/// configured.
pub fn l2cap_enabled(build: &Build, cfg: &RuntimeCfg) -> (r: bool)
    ensures
        r == (build.l2cap && cfg.l2cap_psm != 0),
{
    build.l2cap && cfg.l2cap_psm != 0
}

/// When the receiving end gives out credits.
#[derive(Clone, Copy, Debug, PartialEq, Eq, Structural)]
pub enum CreditPolicy {
    /// After this many packets.
    Every(u16),
    /// When fewer than this many are left.
    MinThreshold(u16),
}

/// How a channel is set up; the host chooses what is left open.
#[derive(Clone, Copy, Debug, PartialEq, Eq, Structural)]
pub struct ChannelPlan {
    pub mtu: Option<u16>,
    pub mps: Option<u16>,
    pub initial_credits: Option<u16>,
    /// `None` keeps the policy of the host.
    pub policy: Option<CreditPolicy>,
}

/// `v`, or nothing where `v` is zero.
pub open spec fn unless_zero(v: u16) -> Option<u16> {
    if v == 0 {
        None
    } else {
        Some(v)
    }
}

/// The channel that a configuration asks for; zero leaves a value open.
pub open spec fn channel_of(cfg: RuntimeCfg) -> ChannelPlan {
    ChannelPlan {
        mtu: unless_zero(cfg.l2cap_mtu),
        mps: unless_zero(cfg.l2cap_mps),
        initial_credits: unless_zero(cfg.l2cap_initial_credits),
        policy: if cfg.l2cap_credit_policy_value == 0 {
            None
        } else if cfg.l2cap_credit_policy == 0 {
            Some(CreditPolicy::Every(cfg.l2cap_credit_policy_value))
        } else {
            Some(CreditPolicy::MinThreshold(cfg.l2cap_credit_policy_value))
        },
    }
}

fn nonzero(v: u16) -> (r: Option<u16>)
    ensures
        r == unless_zero(v),
{
    if v == 0 {
        None
    } else {
        Some(v)
    }
}

/// The channel that a configuration asks for.
pub fn plan_channel(cfg: &RuntimeCfg) -> (r: ChannelPlan)
    ensures
        r == channel_of(*cfg),
{
    ChannelPlan {
        mtu: nonzero(cfg.l2cap_mtu),
        mps: nonzero(cfg.l2cap_mps),
        initial_credits: nonzero(cfg.l2cap_initial_credits),
        policy: if cfg.l2cap_credit_policy_value == 0 {
            None
        } else if cfg.l2cap_credit_policy == 0 {
            Some(CreditPolicy::Every(cfg.l2cap_credit_policy_value))
        } else {
            Some(CreditPolicy::MinThreshold(cfg.l2cap_credit_policy_value))
        },
    }
}

/// What the send pump of a channel does, with the bytes in `B`.
#[derive(Debug, PartialEq, Eq)]
pub enum PumpStep<B> {
    Idle,
    /// Close the channel.
    Close,
    /// Send a packet.
    Send { data: B },
}

impl View for PumpStep<Vec<u8>> {
    type V = PumpStep<Seq<u8>>;

    open spec fn view(&self) -> PumpStep<Seq<u8>> {
        match *self {
            PumpStep::Idle => PumpStep::Idle,
            PumpStep::Close => PumpStep::Close,
            PumpStep::Send { data } => PumpStep::Send { data: data@ },
        }
    }
}

impl State<Seq<u8>> {
    /// The state when a channel is opened: nothing is queued for it.
    pub open spec fn l2cap_opened(self) -> Model {
        State { l2cap: L2capSlot { pending: false, disconnect: false, ..self.l2cap }, ..self }
    }

    /// What the send pump does: closing drops queued bytes; of queued bytes at
    /// most `VALUE_LEN` are sent.
    pub open spec fn l2cap_next(self) -> PumpStep<Seq<u8>> {
        if self.l2cap.disconnect {
            PumpStep::Close
        } else if self.l2cap.pending {
            PumpStep::Send { data: clip(self.l2cap.data, VALUE_LEN as int) }
        } else {
            PumpStep::Idle
        }
    }
}

/// Opens a channel: forgets what was queued before, and tells the application,
/// which may queue bytes from then on.
pub fn l2cap_open(rt: &mut Runtime, cb: &RuntimeBleCallbacks) -> (r: Vec<Emit<Vec<u8>>>)
    ensures
        final(rt)@ == old(rt)@.l2cap_opened(),
        calls(r@) == called_if(cb.on_l2cap_connected, Emit::L2capConnected),
{
    rt.l2cap.pending = false;
    rt.l2cap.disconnect = false;
    only_when(cb.on_l2cap_connected, Emit::L2capConnected)
}

/// Takes what is queued for the channel and says what the send pump does.
pub fn l2cap_step(rt: &mut Runtime) -> (r: PumpStep<Vec<u8>>)
    ensures
        r@ == old(rt)@.l2cap_next(),
        final(rt)@ == old(rt)@.l2cap_opened(),
{
    let close: bool = rt.l2cap.disconnect;
    let send: bool = rt.l2cap.pending;
    rt.l2cap.disconnect = false;
    rt.l2cap.pending = false;
    if close {
        PumpStep::Close
    } else if send {
        PumpStep::Send { data: clipped(rt.l2cap.data.as_slice(), VALUE_LEN) }
    } else {
        PumpStep::Idle
    }
}

/// Tells the application of a received packet.
pub fn on_l2cap_data(cb: &RuntimeBleCallbacks, data: &[u8]) -> (r: Vec<Emit<Vec<u8>>>)
    ensures
        calls(r@) == called_if(cb.on_l2cap_data, Emit::L2capData { data: data@ }),
{
    only_when(cb.on_l2cap_data, Emit::L2capData { data: copied(data) })
}

/// Tells the application that the channel is closed.
pub fn l2cap_closed(cb: &RuntimeBleCallbacks) -> (r: Vec<Emit<Vec<u8>>>)
    ensures
        calls(r@) == called_if(cb.on_l2cap_disconnected, Emit::L2capDisconnected),
{
    only_when(cb.on_l2cap_disconnected, Emit::L2capDisconnected)
}

/// A packet that was queued on an open channel is what the pump sends next, at
/// most `VALUE_LEN` bytes of it. Until then every further packet is refused and
/// changes nothing; after that the next one is accepted.
pub proof fn law_queued_packet_is_sent(m: Model, data: Seq<u8>, data2: Seq<u8>)
    requires
        m.l2cap_queue(Some(data)).1 == RUNTIME_BLE_OK,
        !m.l2cap.disconnect,
        sendable(Some(data2)),
    ensures
        ({
            let queued = m.l2cap_queue(Some(data)).0;
            &&& queued.l2cap_next() == (PumpStep::Send {
                data: clip(data, VALUE_LEN as int),
            })
            &&& queued.l2cap_queue(Some(data2)) == (queued, RUNTIME_BLE_ERR_NO_MEM)
            &&& queued.l2cap_opened().l2cap_queue(Some(data2)).1 == RUNTIME_BLE_OK
        }),
{
}

/// A request to close the channel closes it, and queued bytes are not sent.
pub proof fn law_closing_comes_first(m: Model)
    requires
        m.build.l2cap,
    ensures
        m.l2cap_close().1 == RUNTIME_BLE_OK,
        m.l2cap_close().0.l2cap_next() == PumpStep::<Seq<u8>>::Close,
        !m.l2cap_close().0.l2cap_opened().l2cap.pending,
{
}

/// A build without channels refuses every call on them and changes nothing.
pub proof fn law_no_channels(m: Model, data: Option<Seq<u8>>)
    requires
        !m.build.l2cap,
    ensures
        m.l2cap_queue(data) == (m, RUNTIME_BLE_ERR_INVALID),
        m.l2cap_close() == (m, RUNTIME_BLE_ERR_INVALID),
{
}

} // verus!
