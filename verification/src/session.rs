//! The connection supervisor's state machine and the command API. The
//! session owns the cached state and the event bus; the transport itself
//! (connect, send, receive) lives outside. The caller drives the lifecycle:
//! it reports a successful connect, sends the handshake commands this module
//! hands it, and feeds every receive outcome — a frame, a peer reset, or an
//! I/O failure — into the matching handler. The handlers decode, update the
//! cache and publish, and decide the next phase; once `Terminated` the
//! session is permanently inert.

use vstd::prelude::*;
use crate::bus::{EventBus, RecvOutcome, Subscription};
use crate::codec::{
    enable_notifications_command, init_command, spec_decode, AAPEvent, BatteryState, ANC,
};
use crate::state::{spec_apply, SessionState};

verus! {

/// Where the session stands in its lifetime. `Connecting` ends when the
/// caller reports the transport established (a failed connect means the
/// session is dropped and no further phase is entered); `Handshaking` covers
/// the init and enable-notifications sends; `Active` is the receive loop;
/// `Terminated` is final.
#[derive(Clone, Copy, Debug, PartialEq, Eq, Structural)]
pub enum SessionPhase {
    Connecting,
    Handshaking,
    Active,
    Terminated,
}

/// The session as the contracts see it: the phase, the cached device state,
/// and every event published so far, in order.
#[verifier::ext_equal]
pub struct SessionModel {
    pub phase: SessionPhase,
    pub state: SessionState,
    pub events: Seq<AAPEvent>,
}

/// One session with a connected accessory: supervisor state machine, cached
/// device state, and the event bus its subscribers read.
pub struct Session {
    phase: SessionPhase,
    state: SessionState,
    bus: EventBus,
}

impl View for Session {
    type V = SessionModel;

    closed spec fn view(&self) -> SessionModel {
        SessionModel { phase: self.phase, state: self.state, events: self.bus@ }
    }
}

/// What one received frame does to the session: in `Active`, decode it,
/// apply the decoded message to the cached state, and publish the resulting
/// event if the message changed anything; in any other phase, nothing.
pub open spec fn spec_on_frame(m: SessionModel, buf: Seq<u8>) -> SessionModel {
    if m.phase == SessionPhase::Active {
        let applied = spec_apply(m.state, spec_decode(buf));
        SessionModel {
            phase: m.phase,
            state: applied.0,
            events: match applied.1 {
                Some(e) => m.events.push(e),
                None => m.events,
            },
        }
    } else {
        m
    }
}

/// What a peer-initiated reset does: an orderly disconnect. In `Active` it
/// publishes exactly one `Disconnected` and terminates; in any other phase
/// it terminates without an event.
pub open spec fn spec_on_peer_reset(m: SessionModel) -> SessionModel {
    SessionModel {
        phase: SessionPhase::Terminated,
        state: m.state,
        events: if m.phase == SessionPhase::Active {
            m.events.push(AAPEvent::Disconnected)
        } else {
            m.events
        },
    }
}

/// What any other I/O failure does: terminate with no event — the loss is
/// only observable through the loop's termination.
pub open spec fn spec_on_io_error(m: SessionModel) -> SessionModel {
    SessionModel { phase: SessionPhase::Terminated, state: m.state, events: m.events }
}

/// What the optimistic mode set does: overwrite the cached mode before any
/// device confirmation, publishing nothing (the device is expected to echo
/// the change, which then flows through the normal decode path).
pub open spec fn spec_set_anc(m: SessionModel, anc: ANC) -> SessionModel {
    SessionModel {
        phase: m.phase,
        state: SessionState { current_anc: anc, ..m.state },
        events: m.events,
    }
}

impl Session {
    /// A fresh session for a transport the caller is connecting: default
    /// cached state (mode `Off`, both buds in ear, no battery report) and an
    /// empty event log.
    pub fn new() -> (s: Session)
        ensures
            s@ == (SessionModel {
                phase: SessionPhase::Connecting,
                state: SessionState::spec_initial(),
                events: Seq::<AAPEvent>::empty(),
            }),
    {
        let s = Session {
            phase: SessionPhase::Connecting,
            state: SessionState::initial(),
            bus: EventBus::new(),
        };
        proof {
            assert(s@ =~= SessionModel {
                phase: SessionPhase::Connecting,
                state: SessionState::spec_initial(),
                events: Seq::<AAPEvent>::empty(),
            });
        }
        s
    }

    /// The caller reports the transport established. The session enters
    /// `Handshaking` and hands back the fixed init command, which the caller
    /// must send (and then wait a short settle delay) before completing the
    /// handshake.
    pub fn on_connected(&mut self) -> (cmd: Vec<u8>)
        requires
            old(self)@.phase == SessionPhase::Connecting,
        ensures
            final(self)@ == (SessionModel { phase: SessionPhase::Handshaking, ..old(self)@ }),
            cmd@ == seq![
                0x00u8, 0x00, 0x04, 0x00, 0x01, 0x00, 0x02, 0x00, 0x00, 0x00, 0x00, 0x00, 0x00,
                0x00, 0x00, 0x00,
            ],
    {
        self.phase = SessionPhase::Handshaking;
        init_command()
    }

    /// The caller reports the init command sent and the settle delay over.
    /// The session enters `Active` and hands back the enable-notifications
    /// command; once that is sent, received frames are meaningful device
    /// state and the receive loop may run.
    pub fn complete_handshake(&mut self) -> (cmd: Vec<u8>)
        requires
            old(self)@.phase == SessionPhase::Handshaking,
        ensures
            final(self)@ == (SessionModel { phase: SessionPhase::Active, ..old(self)@ }),
            cmd@ == seq![0x04u8, 0x00, 0x04, 0x00, 0x0f, 0x00, 0xff, 0xff, 0xff, 0xff],
    {
        self.phase = SessionPhase::Active;
        enable_notifications_command()
    }

    /// A handshake send failed: the transport is no longer usable, the
    /// session terminates with no event and the receive loop never starts.
    /// (A failed command send after the handshake is reported to its caller
    /// instead and does not end the session.)
    pub fn on_send_failure(&mut self)
        ensures
            final(self)@ == spec_on_io_error(old(self)@),
    {
        self.phase = SessionPhase::Terminated;
    }

    /// One received frame: decode, apply to the cached state, publish the
    /// resulting event if the message changed anything. A decode anomaly is
    /// never fatal; outside `Active` the frame is ignored entirely. The one
    /// precondition is the machine limit that the event log's position fit a
    /// word.
    pub fn on_frame(&mut self, buf: &[u8])
        requires
            old(self)@.events.len() < usize::MAX,
        ensures
            final(self)@ == spec_on_frame(old(self)@, buf@),
    {
        if matches!(self.phase, SessionPhase::Active) {
            let m = crate::codec::decode_frame(buf);
            let ev = self.state.apply_message(m);
            match ev {
                Some(e) => self.bus.publish(e),
                None => (),
            }
            proof {
                assert(self@ =~= spec_on_frame(old(self)@, buf@));
            }
        } else {
            proof {
                assert(self@ =~= spec_on_frame(old(self)@, buf@));
            }
        }
    }

    /// The transport reported a peer-initiated reset: publish `Disconnected`
    /// (when the receive loop was running) and terminate. The one
    /// precondition is the machine limit that the event log's position fit a
    /// word.
    pub fn on_peer_reset(&mut self)
        requires
            old(self)@.events.len() < usize::MAX,
        ensures
            final(self)@ == spec_on_peer_reset(old(self)@),
    {
        if matches!(self.phase, SessionPhase::Active) {
            self.bus.publish(AAPEvent::Disconnected);
        }
        self.phase = SessionPhase::Terminated;
        proof {
            assert(self@ =~= spec_on_peer_reset(old(self)@));
        }
    }

    /// The transport reported some other I/O failure: terminate, no event.
    pub fn on_io_error(&mut self)
        ensures
            final(self)@ == spec_on_io_error(old(self)@),
    {
        self.phase = SessionPhase::Terminated;
        proof {
            assert(self@ =~= spec_on_io_error(old(self)@));
        }
    }

    /// Record a noise-control mode the caller has just sent to the device:
    /// optimistically overwrite the cached mode before the device confirms
    /// it (the device is expected to echo the change via a settings message,
    /// which re-applies the same value through the normal decode path). The
    /// caller encodes the command with `codec::set_anc_command` and sends it
    /// first, calling this only on a successful send — so after a failed
    /// send the cached mode is unchanged.
    pub fn set_anc(&mut self, anc: ANC)
        ensures
            final(self)@ == spec_set_anc(old(self)@, anc),
    {
        self.state.current_anc = anc;
        proof {
            assert(self@ =~= spec_set_anc(old(self)@, anc));
        }
    }

    /// The cached noise-control mode; never blocks on the network.
    pub fn get_anc(&self) -> (anc: ANC)
        ensures
            anc == self@.state.current_anc,
    {
        self.state.current_anc
    }

    /// The cached battery snapshot; never blocks on the network.
    pub fn get_batteries(&self) -> (b: BatteryState)
        ensures
            b == self@.state.batteries,
    {
        self.state.batteries
    }

    /// A new subscription to the event bus, positioned after everything
    /// published so far: it receives only events published after this call.
    pub fn subscribe(&self) -> (s: Subscription)
        ensures
            s.cursor() == self@.events.len(),
    {
        self.bus.subscribe()
    }

    /// One non-blocking read for a subscription of this session's bus.
    pub fn recv(&self, s: &mut Subscription) -> (r: RecvOutcome)
        ensures
            (r, final(s).cursor()) == crate::bus::spec_recv(self@.events, old(s).cursor()),
            old(s).cursor() <= self@.events.len() ==> final(s).cursor() <= self@.events.len(),
    {
        self.bus.recv(s)
    }

    /// How many events have been published over this session's lifetime —
    /// what the handlers' machine-limit precondition speaks of, so a caller
    /// can test it before feeding them a receive outcome.
    pub fn published_count(&self) -> (n: usize)
        ensures
            n == self@.events.len(),
    {
        self.bus.len()
    }

    /// Where the session stands in its lifetime.
    pub fn phase(&self) -> (p: SessionPhase)
        ensures
            p == self@.phase,
    {
        self.phase
    }

    /// The fixed enable-notifications command, for a caller that wants to
    /// re-send it; encoding it changes nothing, so the operation is
    /// idempotent.
    pub fn enable_notifications(&self) -> (cmd: Vec<u8>)
        ensures
            cmd@ == seq![0x04u8, 0x00, 0x04, 0x00, 0x0f, 0x00, 0xff, 0xff, 0xff, 0xff],
    {
        enable_notifications_command()
    }
}

/// Optimistic visibility: a mode set is visible to the very next read, before
/// any network round trip — setting `anc` leaves a model whose cached mode is
/// `anc`, and a get returns exactly the cached mode.
pub proof fn lemma_optimistic_set_visible(m: SessionModel, anc: ANC)
    ensures
        spec_set_anc(m, anc).state.current_anc == anc,
        spec_set_anc(m, anc).events == m.events,
{
}

/// A peer reset during `Active` publishes exactly one `Disconnected` — the
/// log grows by that one event and nothing else — and terminates the session.
pub proof fn lemma_peer_reset_publishes_once(m: SessionModel)
    requires
        m.phase == SessionPhase::Active,
    ensures
        spec_on_peer_reset(m).events == m.events.push(AAPEvent::Disconnected),
        spec_on_peer_reset(m).phase == SessionPhase::Terminated,
{
}

/// A terminated session is permanently inert: no received frame, reset or
/// failure changes its state or publishes a further event. Together with
/// `lemma_peer_reset_publishes_once` this gives the reset guarantee: exactly
/// one `Disconnected`, then nothing more.
pub proof fn lemma_terminated_inert(m: SessionModel, buf: Seq<u8>)
    requires
        m.phase == SessionPhase::Terminated,
    ensures
        spec_on_frame(m, buf) == m,
        spec_on_peer_reset(m) == m,
        spec_on_io_error(m) == m,
{
    assert(spec_on_peer_reset(m) =~= m);
    assert(spec_on_io_error(m) =~= m);
}

} // verus!
