//! The fire alarm kind: three states, none with a payload. An alert is
//! signaled purely by the tag byte.
use vstd::prelude::*;

use crate::codec::{spec_raw_state, DecodeError};
use crate::types::{Gauge, GaugeState};

verus! {

/// The identifier bytes of the fire alarm kind: the ASCII of `fire_alarm`.
pub open spec fn spec_fire_alarm_id() -> Seq<u8> {
    seq![102u8, 105u8, 114u8, 101u8, 95u8, 97u8, 108u8, 97u8, 114u8, 109u8]
}

/// The identifier bytes of the fire alarm kind.
pub fn fire_alarm_id() -> (r: Vec<u8>)
    ensures
        r@ == spec_fire_alarm_id(),
{
    let mut v: Vec<u8> = Vec::new();
    v.push(102u8);
    v.push(105u8);
    v.push(114u8);
    v.push(101u8);
    v.push(95u8);
    v.push(97u8);
    v.push(108u8);
    v.push(97u8);
    v.push(114u8);
    v.push(109u8);
    proof {
        assert(v@ =~= spec_fire_alarm_id());
    }
    v
}

/// The states of a fire alarm. Tags: Disabled = 0, Enabled = 1, OnAlert = 2.
#[derive(Debug, Clone, Copy, PartialEq, Eq, Structural)]
pub enum FireAlarmState {
    Disabled,
    Enabled,
    OnAlert,
}

impl FireAlarmState {
    /// The human-readable name of the state.
    pub fn as_text(&self) -> (r: &'static str)
        ensures
            r@ == (match *self {
                FireAlarmState::Disabled => "Disabled"@,
                FireAlarmState::Enabled => "Enabled"@,
                FireAlarmState::OnAlert => "On alert"@,
            }),
    {
        match self {
            FireAlarmState::Disabled => "Disabled",
            FireAlarmState::Enabled => "Enabled",
            FireAlarmState::OnAlert => "On alert",
        }
    }
}

impl GaugeState for FireAlarmState {
    open spec fn wire_tag(&self) -> u8 {
        match self {
            FireAlarmState::Disabled => 0,
            FireAlarmState::Enabled => 1,
            FireAlarmState::OnAlert => 2,
        }
    }

    open spec fn wire_payload(&self) -> Option<Seq<u8>> {
        None
    }

    open spec fn spec_parse_state(raw: Seq<u8>) -> Result<FireAlarmState, DecodeError> {
        if raw.len() < 1 {
            Err(DecodeError::TruncatedFrame)
        } else if raw[0] == 0 {
            Ok(FireAlarmState::Disabled)
        } else if raw[0] == 1 {
            Ok(FireAlarmState::Enabled)
        } else if raw[0] == 2 {
            Ok(FireAlarmState::OnAlert)
        } else {
            Err(DecodeError::UnknownStateTag)
        }
    }

    proof fn lemma_wire_roundtrip(s: FireAlarmState) {
    }

    proof fn lemma_truncation_detected(s: FireAlarmState, k: int) {
        assert(spec_raw_state(s.wire_tag(), s.wire_payload()).take(k) =~= Seq::<u8>::empty());
    }

    /// Reads the tag byte; bytes after it are ignored, as no fire alarm
    /// state carries a payload.
    fn parse_state(state: Vec<u8>) -> (r: Result<FireAlarmState, DecodeError>)
    {
        if state.len() < 1 {
            Err(DecodeError::TruncatedFrame)
        } else if state[0] == 0 {
            Ok(FireAlarmState::Disabled)
        } else if state[0] == 1 {
            Ok(FireAlarmState::Enabled)
        } else if state[0] == 2 {
            Ok(FireAlarmState::OnAlert)
        } else {
            Err(DecodeError::UnknownStateTag)
        }
    }
}

/// The spec-level image of a fire alarm: its name and its state.
#[verifier::ext_equal]
pub ghost struct FireAlarmView {
    pub name: Seq<char>,
    pub state: FireAlarmState,
}

/// A fire alarm device: a name and one of the three alarm states.
#[derive(Debug)]
pub struct FireAlarm {
    pub name: String,
    pub state: FireAlarmState,
}

impl View for FireAlarm {
    type V = FireAlarmView;

    open spec fn view(&self) -> FireAlarmView {
        FireAlarmView { name: self.name@, state: self.state }
    }
}

impl PartialEq for FireAlarm {
    fn eq(&self, other: &FireAlarm) -> (r: bool) {
        self.name.eq(&other.name) && self.state == other.state
    }
}

impl vstd::std_specs::cmp::PartialEqSpecImpl for FireAlarm {
    open spec fn obeys_eq_spec() -> bool {
        true
    }

    open spec fn eq_spec(&self, other: &FireAlarm) -> bool {
        self@ == other@
    }
}

impl FireAlarm {
    /// Describes the alarm for a log line: its name and what it is doing.
    pub fn summary_string(&self) -> (r: String)
        ensures
            r@ == self.name@ + (match self.state {
                FireAlarmState::Disabled => " disabled"@,
                FireAlarmState::Enabled => " enabled"@,
                FireAlarmState::OnAlert => " catched fire"@,
            }),
    {
        let mut out = self.name.clone();
        match self.state {
            FireAlarmState::Disabled => out.append(" disabled"),
            FireAlarmState::Enabled => out.append(" enabled"),
            FireAlarmState::OnAlert => out.append(" catched fire"),
        }
        out
    }
}

impl Gauge for FireAlarm {
    type GaugeState = FireAlarmState;

    open spec fn spec_id() -> Seq<u8> {
        spec_fire_alarm_id()
    }

    open spec fn spec_name(&self) -> Seq<char> {
        self.name@
    }

    open spec fn spec_state(&self) -> FireAlarmState {
        self.state
    }

    open spec fn spec_tag(&self) -> u8 {
        self.state.wire_tag()
    }

    open spec fn spec_payload(&self) -> Option<Seq<u8>> {
        self.state.wire_payload()
    }

    proof fn lemma_id_len() {
    }

    proof fn lemma_payload_len(&self) {
    }

    proof fn lemma_wire_agrees(&self) {
    }

    fn new(name: String, state: FireAlarmState) -> (g: FireAlarm) {
        FireAlarm { name, state }
    }

    fn state(&self) -> (r: &FireAlarmState) {
        &self.state
    }

    fn set_state(&mut self, state: FireAlarmState) {
        self.state = state;
    }

    fn name(&self) -> (r: &String) {
        &self.name
    }

    fn set_name(&mut self, name: String) {
        self.name = name;
    }

    fn id() -> (r: Vec<u8>) {
        fire_alarm_id()
    }

    fn serialize_id(&self) -> (r: Vec<u8>) {
        fire_alarm_id()
    }

    fn serialize_name(&self) -> (r: Vec<u8>) {
        self.name.as_str().as_bytes_vec()
    }

    fn serialize_state(&self) -> (r: (u8, Option<Vec<u8>>)) {
        let tag: u8 = match self.state {
            FireAlarmState::Disabled => 0,
            FireAlarmState::Enabled => 1,
            FireAlarmState::OnAlert => 2,
        };
        (tag, None)
    }
}

} // verus!
