//! Frame codec: pure, stateless translation between raw byte buffers and
//! typed protocol messages, plus the literal command byte sequences the
//! session sends. All offsets are 0-indexed into the inbound buffer.
//!
//! Inbound layout: byte 4 is the message identifier. Identifier 0x09 is a
//! settings message (byte 6 the setting type, 0x0D noise control, byte 7 the
//! mode code); 0x04 is a battery message (byte 6 an entry count, five bytes
//! per entry from byte 7); 0x06 is an ear-presence message (byte 6 right,
//! byte 7 left, 0 meaning in ear). Anything else, and any buffer too short
//! for the fields its identifier requires, decodes to `Unrecognized`: a
//! decode anomaly is never an error, it only produces no event.

use vstd::prelude::*;

verus! {

/// The device's active noise-control setting.
#[derive(Clone, Copy, Debug, PartialEq, Eq, Structural)]
pub enum ANC {
    Off,
    NoiseCancelling,
    Transparency,
    Adaptive,
}

/// Whether a battery component is charging. `Unknown` is the default and the
/// fallback for any unrecognized wire code.
#[derive(Clone, Copy, Debug, PartialEq, Eq, Structural)]
pub enum ChargingState {
    Unknown,
    Charging,
    NotCharging,
    Disconnected,
}

impl Default for ChargingState {
    fn default() -> (r: ChargingState)
        ensures
            r == ChargingState::Unknown,
    {
        ChargingState::Unknown
    }
}

/// Last reported battery levels, one optional slot per component. A slot is
/// `None` when the device has not reported that component. Each battery
/// message rebuilds the whole record, so a component absent from the current
/// message becomes `None` (full-replacement policy).
#[derive(Clone, Copy, Debug, PartialEq, Eq)]
pub struct BatteryState {
    pub single: Option<(u8, ChargingState)>,
    pub left: Option<(u8, ChargingState)>,
    pub right: Option<(u8, ChargingState)>,
    pub case: Option<(u8, ChargingState)>,
}

impl BatteryState {
    /// Every reported percentage is within 0..=100.
    pub open spec fn wf(self) -> bool {
        &&& Self::slot_wf(self.single)
        &&& Self::slot_wf(self.left)
        &&& Self::slot_wf(self.right)
        &&& Self::slot_wf(self.case)
    }

    pub open spec fn slot_wf(slot: Option<(u8, ChargingState)>) -> bool {
        match slot {
            Some(d) => d.0 <= 100,
            None => true,
        }
    }

    pub open spec fn spec_empty() -> BatteryState {
        BatteryState { single: None, left: None, right: None, case: None }
    }

    /// The record before any battery message has arrived: no slot reported.
    pub fn empty() -> (r: BatteryState)
        ensures
            r == BatteryState::spec_empty(),
    {
        BatteryState { single: None, left: None, right: None, case: None }
    }
}

impl Default for BatteryState {
    fn default() -> (r: BatteryState)
        ensures
            r == BatteryState::spec_empty(),
    {
        BatteryState::empty()
    }
}

/// One state-change notification, emitted once per observed change.
#[derive(Clone, Copy, Debug, PartialEq, Eq)]
pub enum AAPEvent {
    ANCChanged(ANC),
    EarsChanged((bool, bool)),
    BatteriesChanged(BatteryState),
    Disconnected,
}

/// The typed result of decoding one inbound frame.
///
/// `NoiseControl` carries `recognized: false` when the wire code was not one
/// of 1..=4 and the mode defaulted to `Off`, so callers can tell a genuine
/// `Off` from a defaulted one. `Ignored` is a well-formed settings message
/// about a setting this engine does not track; `Unrecognized` is any other
/// identifier or an undersized buffer. Neither produces an event.
#[derive(Clone, Copy, Debug, PartialEq, Eq)]
pub enum DecodedMessage {
    NoiseControl { mode: ANC, recognized: bool },
    Battery(BatteryState),
    Ears { left_in: bool, right_in: bool },
    Ignored,
    Unrecognized,
}

/// The wire code the device uses for each noise-control mode.
pub open spec fn spec_anc_code(anc: ANC) -> u8 {
    match anc {
        ANC::Off => 0x01,
        ANC::NoiseCancelling => 0x02,
        ANC::Transparency => 0x03,
        ANC::Adaptive => 0x04,
    }
}

impl ANC {
    /// The on-wire code for this mode: 1 Off, 2 NoiseCancelling,
    /// 3 Transparency, 4 Adaptive.
    pub fn to_u8(&self) -> (c: u8)
        ensures
            c == spec_anc_code(*self),
    {
        match self {
            ANC::Off => 0x01,
            ANC::NoiseCancelling => 0x02,
            ANC::Transparency => 0x03,
            ANC::Adaptive => 0x04,
        }
    }
}

/// The noise-control mode a wire code decodes to; an unrecognized code
/// defaults to `Off`.
pub open spec fn spec_anc_of_code(c: u8) -> ANC {
    if c == 1 {
        ANC::Off
    } else if c == 2 {
        ANC::NoiseCancelling
    } else if c == 3 {
        ANC::Transparency
    } else if c == 4 {
        ANC::Adaptive
    } else {
        ANC::Off
    }
}

/// The charging state a wire code decodes to; an unrecognized code defaults
/// to `Unknown`.
pub open spec fn spec_charging_of_code(c: u8) -> ChargingState {
    if c == 0 {
        ChargingState::Unknown
    } else if c == 1 {
        ChargingState::Charging
    } else if c == 2 {
        ChargingState::NotCharging
    } else if c == 4 {
        ChargingState::Disconnected
    } else {
        ChargingState::Unknown
    }
}

/// A raw percentage clamped into 0..=100.
pub open spec fn spec_clamp_percent(p: u8) -> u8 {
    if p > 100 {
        100
    } else {
        p
    }
}

/// The data of the battery entry starting at `base`: its clamped percentage
/// (offset 2) and decoded charging state (offset 3).
pub open spec fn spec_entry_data(buf: Seq<u8>, base: int) -> (u8, ChargingState)
    recommends
        0 <= base,
        base + 5 <= buf.len(),
{
    (spec_clamp_percent(buf[base + 2]), spec_charging_of_code(buf[base + 3]))
}

/// One battery entry applied to the record being built: the component named
/// by the entry's bitmask (offset 0) is replaced; an unrecognized bitmask
/// changes nothing.
pub open spec fn spec_apply_entry(st: BatteryState, mask: u8, data: (u8, ChargingState)) -> BatteryState {
    if mask == 0x01 {
        BatteryState { single: Some(data), ..st }
    } else if mask == 0x02 {
        BatteryState { right: Some(data), ..st }
    } else if mask == 0x04 {
        BatteryState { left: Some(data), ..st }
    } else if mask == 0x08 {
        BatteryState { case: Some(data), ..st }
    } else {
        st
    }
}

/// The record built from the first `k` entries of a battery frame, starting
/// from the empty record (full-replacement policy: later entries with the
/// same bitmask win, components in no entry stay `None`).
pub open spec fn spec_battery_of(buf: Seq<u8>, k: nat) -> BatteryState
    recommends
        7 + 5 * k <= buf.len(),
    decreases k,
{
    if k == 0 {
        BatteryState::spec_empty()
    } else {
        let base = 7 + 5 * (k - 1);
        spec_apply_entry(spec_battery_of(buf, (k - 1) as nat), buf[base], spec_entry_data(buf, base))
    }
}

/// What one inbound frame decodes to. This is the codec's whole inbound
/// behaviour; `decode_frame` returns exactly this.
pub open spec fn spec_decode(buf: Seq<u8>) -> DecodedMessage {
    if buf.len() < 5 {
        DecodedMessage::Unrecognized
    } else if buf[4] == 0x09 {
        if buf.len() < 7 {
            DecodedMessage::Unrecognized
        } else if buf[6] != 0x0D {
            DecodedMessage::Ignored
        } else if buf.len() < 8 {
            DecodedMessage::Unrecognized
        } else {
            DecodedMessage::NoiseControl {
                mode: spec_anc_of_code(buf[7]),
                recognized: 1 <= buf[7] <= 4,
            }
        }
    } else if buf[4] == 0x04 {
        if buf.len() < 7 || buf.len() < 7 + 5 * (buf[6] as int) {
            DecodedMessage::Unrecognized
        } else {
            DecodedMessage::Battery(spec_battery_of(buf, buf[6] as nat))
        }
    } else if buf[4] == 0x06 {
        if buf.len() < 8 {
            DecodedMessage::Unrecognized
        } else {
            DecodedMessage::Ears { left_in: buf[7] == 0, right_in: buf[6] == 0 }
        }
    } else {
        DecodedMessage::Unrecognized
    }
}

/// Decode the charging-state byte of a battery entry.
fn charging_of_code(c: u8) -> (r: ChargingState)
    ensures
        r == spec_charging_of_code(c),
{
    if c == 0 {
        ChargingState::Unknown
    } else if c == 1 {
        ChargingState::Charging
    } else if c == 2 {
        ChargingState::NotCharging
    } else if c == 4 {
        ChargingState::Disconnected
    } else {
        ChargingState::Unknown
    }
}

/// Decode one inbound frame into a typed protocol message.
pub fn decode_frame(buf: &[u8]) -> (m: DecodedMessage)
    ensures
        m == spec_decode(buf@),
        m matches DecodedMessage::Battery(b) ==> b.wf(),
{
    proof {
        lemma_battery_wf(buf@);
    }
    if buf.len() < 5 {
        DecodedMessage::Unrecognized
    } else if buf[4] == 0x09 {
        if buf.len() < 7 {
            DecodedMessage::Unrecognized
        } else if buf[6] != 0x0D {
            DecodedMessage::Ignored
        } else if buf.len() < 8 {
            DecodedMessage::Unrecognized
        } else {
            let code = buf[7];
            DecodedMessage::NoiseControl {
                mode: if code == 1 {
                    ANC::Off
                } else if code == 2 {
                    ANC::NoiseCancelling
                } else if code == 3 {
                    ANC::Transparency
                } else if code == 4 {
                    ANC::Adaptive
                } else {
                    ANC::Off
                },
                recognized: 1 <= code && code <= 4,
            }
        }
    } else if buf[4] == 0x04 {
        if buf.len() < 7 {
            return DecodedMessage::Unrecognized;
        }
        let count = buf[6];
        if buf.len() < 7 + 5 * (count as usize) {
            return DecodedMessage::Unrecognized;
        }
        let mut state = BatteryState::empty();
        let mut i: usize = 0;
        while i < count as usize
            invariant
                i <= count,
                7 + 5 * (count as int) <= buf@.len(),
                state == spec_battery_of(buf@, i as nat),
            decreases count as int - i,
        {
            let base = 7 + 5 * i;
            let charge = if buf[base + 2] > 100 {
                100
            } else {
                buf[base + 2]
            };
            let charging = charging_of_code(buf[base + 3]);
            let data = Some((charge, charging));
            let mask = buf[base];
            if mask == 0x01 {
                state.single = data;
            } else if mask == 0x02 {
                state.right = data;
            } else if mask == 0x04 {
                state.left = data;
            } else if mask == 0x08 {
                state.case = data;
            }
            i = i + 1;
        }
        DecodedMessage::Battery(state)
    } else if buf[4] == 0x06 {
        if buf.len() < 8 {
            DecodedMessage::Unrecognized
        } else {
            DecodedMessage::Ears { left_in: buf[7] == 0, right_in: buf[6] == 0 }
        }
    } else {
        DecodedMessage::Unrecognized
    }
}

/// A raw percentage above 100 decodes to exactly 100; one at or below 100
/// passes through unchanged.
pub proof fn lemma_percentage_clamped(raw: u8)
    ensures
        raw > 100 ==> spec_clamp_percent(raw) == 100,
        raw <= 100 ==> spec_clamp_percent(raw) == raw,
{
}

/// Any charging-state code other than 0, 1, 2 or 4 decodes to `Unknown` —
/// never to an error: decoding is total.
pub proof fn lemma_unrecognized_charging_state_is_unknown(code: u8)
    requires
        code != 0,
        code != 1,
        code != 2,
        code != 4,
    ensures
        spec_charging_of_code(code) == ChargingState::Unknown,
{
}

/// The component bitmask of battery entry `i` (offset 0 of the entry).
pub open spec fn spec_entry_mask(buf: Seq<u8>, i: int) -> u8
    recommends
        0 <= i,
        7 + 5 * i + 5 <= buf.len(),
{
    buf[7 + 5 * i]
}

/// The slot of the record that a component bitmask names: 0x01 single,
/// 0x02 right, 0x04 left, 0x08 case.
pub open spec fn spec_slot_of(st: BatteryState, mask: u8) -> Option<(u8, ChargingState)>
    recommends
        mask == 0x01 || mask == 0x02 || mask == 0x04 || mask == 0x08,
{
    if mask == 0x01 {
        st.single
    } else if mask == 0x02 {
        st.right
    } else if mask == 0x04 {
        st.left
    } else {
        st.case
    }
}

/// Exactly the reported slots are populated. For each component: if no entry
/// of the frame carries its bitmask, its slot of the decoded record is
/// `None`; if some entry does, the slot holds that entry's data (the last
/// such entry's, so with distinct bitmasks — the device's normal frames —
/// the one entry's). With `lemma_battery_wf` this pins the whole record of a
/// valid battery frame: each reported slot populated with its percentage in
/// 0..=100, every other slot absent.
pub proof fn lemma_battery_exact_slots(buf: Seq<u8>, n: nat, mask: u8)
    requires
        7 + 5 * n <= buf.len(),
        mask == 0x01 || mask == 0x02 || mask == 0x04 || mask == 0x08,
    ensures
        (forall|i: int| 0 <= i < n ==> spec_entry_mask(buf, i) != mask) ==> spec_slot_of(
            spec_battery_of(buf, n),
            mask,
        ) is None,
        forall|i: int|
            0 <= i < n && spec_entry_mask(buf, i) == mask && (forall|j: int|
                i < j < n ==> spec_entry_mask(buf, j) != mask) ==> spec_slot_of(
                spec_battery_of(buf, n),
                mask,
            ) == Some(spec_entry_data(buf, 7 + 5 * i)),
    decreases n,
{
    if n > 0 {
        lemma_battery_exact_slots(buf, (n - 1) as nat, mask);
        let base = 7 + 5 * (n - 1);
        let prev = spec_battery_of(buf, (n - 1) as nat);
        let m = spec_entry_mask(buf, n - 1);
        assert(spec_battery_of(buf, n) == spec_apply_entry(prev, m, spec_entry_data(buf, base)));
        if m == mask {
            assert(spec_slot_of(spec_battery_of(buf, n), mask) == Some(
                spec_entry_data(buf, base),
            ));
            assert forall|i: int|
                0 <= i < n && spec_entry_mask(buf, i) == mask && (forall|j: int|
                    i < j < n ==> spec_entry_mask(buf, j) != mask) implies spec_slot_of(
                spec_battery_of(buf, n),
                mask,
            ) == Some(spec_entry_data(buf, 7 + 5 * i)) by {
                if i < n - 1 {
                    assert(spec_entry_mask(buf, n - 1) == mask);
                }
            }
        } else {
            assert(spec_slot_of(spec_battery_of(buf, n), mask) == spec_slot_of(prev, mask));
            assert forall|i: int|
                0 <= i < n && spec_entry_mask(buf, i) == mask && (forall|j: int|
                    i < j < n ==> spec_entry_mask(buf, j) != mask) implies spec_slot_of(
                spec_battery_of(buf, n),
                mask,
            ) == Some(spec_entry_data(buf, 7 + 5 * i)) by {
                assert(i < n - 1 ==> (forall|j: int|
                    i < j < n - 1 ==> spec_entry_mask(buf, j) != mask));
            }
        }
    }
}

/// Every record a battery frame decodes to is well formed: each entry's
/// percentage is clamped on the way in, so every reported slot is in 0..=100.
pub proof fn lemma_battery_wf(buf: Seq<u8>)
    ensures
        forall|k: nat| #[trigger] spec_battery_of(buf, k).wf(),
{
    assert forall|k: nat| #[trigger] spec_battery_of(buf, k).wf() by {
        lemma_battery_wf_upto(buf, k);
    }
}

proof fn lemma_battery_wf_upto(buf: Seq<u8>, k: nat)
    ensures
        spec_battery_of(buf, k).wf(),
    decreases k,
{
    if k > 0 {
        lemma_battery_wf_upto(buf, (k - 1) as nat);
    }
}

/// The fixed init command the session sends right after connecting.
pub fn init_command() -> (v: Vec<u8>)
    ensures
        v@ == seq![
            0x00u8, 0x00, 0x04, 0x00, 0x01, 0x00, 0x02, 0x00, 0x00, 0x00, 0x00, 0x00, 0x00, 0x00,
            0x00, 0x00,
        ],
{
    let v: Vec<u8> = vec![
        0x00, 0x00, 0x04, 0x00, 0x01, 0x00, 0x02, 0x00, 0x00, 0x00, 0x00, 0x00, 0x00, 0x00, 0x00,
        0x00,
    ];
    v
}

/// The fixed enable-notifications command, sent after the settle delay and
/// whenever a caller asks for notifications again.
pub fn enable_notifications_command() -> (v: Vec<u8>)
    ensures
        v@ == seq![0x04u8, 0x00, 0x04, 0x00, 0x0f, 0x00, 0xff, 0xff, 0xff, 0xff],
{
    let v: Vec<u8> = vec![0x04, 0x00, 0x04, 0x00, 0x0f, 0x00, 0xff, 0xff, 0xff, 0xff];
    v
}

/// The set-mode command for a given noise-control mode: byte 7 carries the
/// mode's wire code.
pub open spec fn spec_set_anc_command(anc: ANC) -> Seq<u8> {
    seq![0x04u8, 0x00, 0x04, 0x00, 0x09, 0x00, 0x0D, spec_anc_code(anc), 0x00, 0x00, 0x00]
}

/// Encode the command that sets the device's noise-control mode.
pub fn set_anc_command(anc: ANC) -> (v: Vec<u8>)
    ensures
        v@ == spec_set_anc_command(anc),
{
    let v: Vec<u8> = vec![0x04, 0x00, 0x04, 0x00, 0x09, 0x00, 0x0D, anc.to_u8(), 0x00, 0x00, 0x00];
    v
}

} // verus!
