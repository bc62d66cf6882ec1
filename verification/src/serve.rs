//! The server side of a session: advertise, serve a link, advertise again.

use crate::adv::{
    connectable_advertisement, connectable_of, nonconnectable_advertisement, nonconnectable_of,
    Advertisement,
};
use crate::config::RuntimeCfg;
use crate::emit::{called_if, calls, no_calls, times, Calls, Emit};
use crate::events::{emit_connected, emit_disconnected};
use vstd::prelude::*;

verus! {

/// What happened on the server side of a session.
#[derive(Clone, Copy, Debug, PartialEq, Eq, Structural)]
pub enum ServeEvent {
    /// The session started, or a pause is over.
    Ready,
    /// Advertising did not start, or ended without a link.
    AdvertiseFailed,
    /// The broadcast ended with the session.
    BroadcastEnded,
    LinkUp,
    LinkDown,
}

/// What the server side of a session does next, with payloads in `B`.
#[derive(Debug, PartialEq, Eq)]
pub enum ServeAction<B> {
    /// Advertise until a central connects.
    Accept(Advertisement<B>),
    /// Advertise until the session ends.
    Broadcast(Advertisement<B>),
    /// Wait a second.
    Pause,
    /// Serve the link until it goes down.
    ServeLink,
    /// Nothing more.
    Stop,
}

impl View for ServeAction<Vec<u8>> {
    type V = ServeAction<Seq<u8>>;

    open spec fn view(&self) -> ServeAction<Seq<u8>> {
        match *self {
            ServeAction::Accept(a) => ServeAction::Accept(a@),
            ServeAction::Broadcast(a) => ServeAction::Broadcast(a@),
            ServeAction::Pause => ServeAction::Pause,
            ServeAction::ServeLink => ServeAction::ServeLink,
            ServeAction::Stop => ServeAction::Stop,
        }
    }
}

/// How a session advertises: a broadcaster until it is torn down, any other
/// one for a connection; it waits where the payload does not fit.
pub open spec fn advertise_action(cfg: RuntimeCfg, unload: bool) -> ServeAction<Seq<u8>> {
    if cfg.nonconnectable != 0 {
        if unload {
            ServeAction::Stop
        } else {
            match nonconnectable_of(cfg) {
                Some(a) => ServeAction::Broadcast(a),
                None => ServeAction::Pause,
            }
        }
    } else {
        match connectable_of(cfg) {
            Some(a) => ServeAction::Accept(a),
            None => ServeAction::Pause,
        }
    }
}

/// What the server side of a session does after an event.
pub open spec fn serve_action(
    cfg: RuntimeCfg,
    unload: bool,
    event: ServeEvent,
) -> ServeAction<Seq<u8>> {
    match event {
        ServeEvent::Ready => advertise_action(cfg, unload),
        ServeEvent::AdvertiseFailed => ServeAction::Pause,
        ServeEvent::BroadcastEnded => ServeAction::Stop,
        ServeEvent::LinkUp => ServeAction::ServeLink,
        ServeEvent::LinkDown => advertise_action(cfg, unload),
    }
}

/// What the application is told of an event on the server side.
pub open spec fn serve_calls(cfg: RuntimeCfg, event: ServeEvent) -> Calls {
    match event {
        ServeEvent::LinkUp => called_if(cfg.callbacks.on_connected, Emit::Connected),
        ServeEvent::LinkDown => called_if(
            cfg.callbacks.on_disconnected,
            Emit::Disconnected { reason: 0 },
        ),
        _ => Calls::empty(),
    }
}

/// How a session advertises.
fn start_advertising(cfg: &RuntimeCfg, unload: bool) -> (r: ServeAction<Vec<u8>>)
    ensures
        r@ == advertise_action(*cfg, unload),
{
    if cfg.nonconnectable != 0 {
        if unload {
            ServeAction::Stop
        } else {
            match nonconnectable_advertisement(cfg) {
                Ok(a) => ServeAction::Broadcast(a),
                Err(_) => ServeAction::Pause,
            }
        }
    } else {
        match connectable_advertisement(cfg) {
            Ok(a) => ServeAction::Accept(a),
            Err(_) => ServeAction::Pause,
        }
    }
}

/// Tells the application of an event on the server side, and says what the
/// server side does next.
pub fn serve_step(cfg: &RuntimeCfg, unload: bool, event: ServeEvent) -> (r: (
    Vec<Emit<Vec<u8>>>,
    ServeAction<Vec<u8>>,
))
    ensures
        calls(r.0@) == serve_calls(*cfg, event),
        r.1@ == serve_action(*cfg, unload, event),
{
    match event {
        ServeEvent::Ready => (no_calls(), start_advertising(cfg, unload)),
        ServeEvent::AdvertiseFailed => (no_calls(), ServeAction::Pause),
        ServeEvent::BroadcastEnded => (no_calls(), ServeAction::Stop),
        ServeEvent::LinkUp => (emit_connected(&cfg.callbacks), ServeAction::ServeLink),
        ServeEvent::LinkDown => (
            emit_disconnected(&cfg.callbacks),
            start_advertising(cfg, unload),
        ),
    }
}

/// A device that is not connectable never accepts a link, and one that is
/// never broadcasts or stops; either way nothing is advertised but what the
/// configuration gives.
pub proof fn law_advertising_follows_the_configuration(
    cfg: RuntimeCfg,
    unload: bool,
    event: ServeEvent,
)
    ensures
        serve_action(cfg, unload, event) matches ServeAction::Accept(a) ==> cfg.nonconnectable == 0
            && connectable_of(cfg) == Some(a),
        serve_action(cfg, unload, event) matches ServeAction::Broadcast(a) ==> cfg.nonconnectable
            != 0 && !unload && nonconnectable_of(cfg) == Some(a),
        serve_action(cfg, unload, event) is Stop && event != ServeEvent::BroadcastEnded
            ==> cfg.nonconnectable != 0 && unload,
{
}

/// The events of a session in order: a link goes down after it came up, and
/// whatever else happens, happens without a link.
pub open spec fn serve_run(events: Seq<ServeEvent>) -> bool
    decreases events.len(),
{
    events.len() == 0 || {
        let before = events.drop_last();
        &&& serve_run(before)
        &&& events.last() is LinkDown <==> before.len() > 0 && before.last() is LinkUp
    }
}

/// What the application is told of events in order.
pub open spec fn serve_run_calls(cfg: RuntimeCfg, events: Seq<ServeEvent>) -> Calls
    decreases events.len(),
{
    if events.len() == 0 {
        Calls::empty()
    } else {
        serve_run_calls(cfg, events.drop_last()) + serve_calls(cfg, events.last())
    }
}

/// Over the life of a session the application is told in turn that a link is
/// up and that it is down, starting with up, once each for every link; where the
/// last event is a link, the second report of it is still to come. Of
/// advertising the application is told nothing.
pub proof fn law_served_links_are_reported_in_turn(cfg: RuntimeCfg, events: Seq<ServeEvent>)
    requires
        cfg.callbacks.on_connected,
        cfg.callbacks.on_disconnected,
        serve_run(events),
    ensures
        ({
            let told = serve_run_calls(cfg, events);
            let up = times(events, ServeEvent::LinkUp);
            let down = times(events, ServeEvent::LinkDown);
            &&& told.len() == up + down
            &&& up == down + if events.len() > 0 && events.last() is LinkUp {
                1int
            } else {
                0int
            }
            &&& forall|k: int|
                0 <= k < told.len() ==> (#[trigger] told[k]) == if k % 2 == 0 {
                    Emit::<Seq<u8>>::Connected
                } else {
                    Emit::<Seq<u8>>::Disconnected { reason: 0 }
                }
        }),
    decreases events.len(),
{
    if events.len() > 0 {
        law_served_links_are_reported_in_turn(cfg, events.drop_last());
    }
}

/// A link is served where one came up, and only there.
pub proof fn law_links_are_served(cfg: RuntimeCfg, unload: bool, event: ServeEvent)
    ensures
        serve_action(cfg, unload, event) is ServeLink <==> event is LinkUp,
{
}

} // verus!
