//! The cached device state and the single step that applies one decoded
//! message to it, deciding which event (if any) to publish.

use vstd::prelude::*;
use crate::codec::{spec_anc_of_code, AAPEvent, BatteryState, DecodedMessage, ANC};

verus! {

/// The last-known device state. Created at connection establishment with
/// optimistic defaults (mode `Off`, both buds in ear, no battery report yet)
/// and mutated only by the supervisor's decode step — except that the
/// command API may optimistically overwrite `current_anc` before the device
/// confirms a mode change.
#[derive(Clone, Copy, Debug, PartialEq, Eq)]
pub struct SessionState {
    pub current_anc: ANC,
    pub ears_in: (bool, bool),
    pub batteries: BatteryState,
}

/// The device puts the same pattern on the wire for "Off" and "Adaptive", so
/// an incoming `Off` must not overwrite a cached `Off` or `Adaptive`: the
/// mode must never appear to regress from Adaptive to Off over this
/// ambiguity. Any other transition applies normally.
pub open spec fn spec_off_suppressed(cached: ANC, incoming: ANC) -> bool {
    incoming == ANC::Off && (cached == ANC::Off || cached == ANC::Adaptive)
}

/// The state after one decoded message, and the event that change publishes.
/// A noise-control message suppressed by the Off/Adaptive quirk, and an
/// `Ignored` or `Unrecognized` message, change nothing and publish nothing.
pub open spec fn spec_apply(s: SessionState, m: DecodedMessage) -> (SessionState, Option<AAPEvent>) {
    match m {
        DecodedMessage::NoiseControl { mode, recognized: _ } => {
            if spec_off_suppressed(s.current_anc, mode) {
                (s, None)
            } else {
                (
                    SessionState { current_anc: mode, ..s },
                    Some(AAPEvent::ANCChanged(mode)),
                )
            }
        },
        DecodedMessage::Battery(b) => (
            SessionState { batteries: b, ..s },
            Some(AAPEvent::BatteriesChanged(b)),
        ),
        DecodedMessage::Ears { left_in, right_in } => (
            SessionState { ears_in: (left_in, right_in), ..s },
            Some(AAPEvent::EarsChanged((left_in, right_in))),
        ),
        DecodedMessage::Ignored => (s, None),
        DecodedMessage::Unrecognized => (s, None),
    }
}

impl SessionState {
    pub open spec fn spec_initial() -> SessionState {
        SessionState {
            current_anc: ANC::Off,
            ears_in: (true, true),
            batteries: BatteryState::spec_empty(),
        }
    }

    /// The state at connection establishment, before any device data arrives.
    pub fn initial() -> (s: SessionState)
        ensures
            s == SessionState::spec_initial(),
    {
        SessionState {
            current_anc: ANC::Off,
            ears_in: (true, true),
            batteries: BatteryState::empty(),
        }
    }

    /// Apply one decoded message: mutate the cached state and return the
    /// event to publish, exactly as `spec_apply` lays it out.
    pub fn apply_message(&mut self, m: DecodedMessage) -> (e: Option<AAPEvent>)
        ensures
            (*final(self), e) == spec_apply(*old(self), m),
    {
        match m {
            DecodedMessage::NoiseControl { mode, recognized: _ } => {
                let cached = self.current_anc;
                if mode == ANC::Off && (cached == ANC::Off || cached == ANC::Adaptive) {
                    None
                } else {
                    self.current_anc = mode;
                    Some(AAPEvent::ANCChanged(mode))
                }
            },
            DecodedMessage::Battery(b) => {
                self.batteries = b;
                Some(AAPEvent::BatteriesChanged(b))
            },
            DecodedMessage::Ears { left_in, right_in } => {
                self.ears_in = (left_in, right_in);
                Some(AAPEvent::EarsChanged((left_in, right_in)))
            },
            DecodedMessage::Ignored => None,
            DecodedMessage::Unrecognized => None,
        }
    }
}

/// Quirk regression law: with `Adaptive` (or `Off`) cached, an incoming `Off`
/// leaves the state untouched and publishes no event — in particular no
/// `ANCChanged(Off)` — while with any other cached mode the decode table
/// applies: codes 1..=4 set Off, NoiseCancelling, Transparency, Adaptive and
/// publish exactly that change.
pub proof fn lemma_off_adaptive_quirk(s: SessionState, mode: ANC)
    ensures
        spec_off_suppressed(s.current_anc, mode) ==> spec_apply(
            s,
            DecodedMessage::NoiseControl { mode, recognized: true },
        ) == (s, None::<AAPEvent>),
        !spec_off_suppressed(s.current_anc, mode) ==> spec_apply(
            s,
            DecodedMessage::NoiseControl { mode, recognized: true },
        ) == (
            SessionState { current_anc: mode, ..s },
            Some(AAPEvent::ANCChanged(mode)),
        ),
{
}

/// Noise-control decode table: wire codes 1..=4 decode to Off,
/// NoiseCancelling, Transparency, Adaptive in that order, and when the
/// cached mode is neither Off nor Adaptive each of them is applied and
/// published exactly as decoded.
pub proof fn lemma_anc_decode_table(s: SessionState, code: u8)
    requires
        s.current_anc != ANC::Off,
        s.current_anc != ANC::Adaptive,
        1 <= code <= 4,
    ensures
        code == 1 ==> spec_anc_of_code(code) == ANC::Off,
        code == 2 ==> spec_anc_of_code(code) == ANC::NoiseCancelling,
        code == 3 ==> spec_anc_of_code(code) == ANC::Transparency,
        code == 4 ==> spec_anc_of_code(code) == ANC::Adaptive,
        spec_apply(
            s,
            DecodedMessage::NoiseControl { mode: spec_anc_of_code(code), recognized: true },
        ) == (
            SessionState { current_anc: spec_anc_of_code(code), ..s },
            Some(AAPEvent::ANCChanged(spec_anc_of_code(code))),
        ),
{
}

} // verus!
