//! The temperature sensor kind: two bare states and a reading state whose
//! payload is the four big-endian bytes of an IEEE-754 single-precision
//! value. The library carries the reading as its raw bit pattern, so a
//! round-trip over the wire is bit-exact; turning bits into a float is the
//! caller's business.
use vstd::prelude::*;

use crate::codec::{spec_raw_state, DecodeError};
use crate::types::{Gauge, GaugeState};

verus! {

/// The identifier bytes of the temperature sensor kind: the ASCII of
/// `temperature_gauge`.
pub open spec fn spec_temperature_gauge_id() -> Seq<u8> {
    seq![
        116u8, 101u8, 109u8, 112u8, 101u8, 114u8, 97u8, 116u8, 117u8, 114u8, 101u8, 95u8, 103u8,
        97u8, 117u8, 103u8, 101u8,
    ]
}

/// The identifier bytes of the temperature sensor kind.
pub fn temperature_gauge_id() -> (r: Vec<u8>)
    ensures
        r@ == spec_temperature_gauge_id(),
{
    let mut v: Vec<u8> = Vec::new();
    v.push(116u8);
    v.push(101u8);
    v.push(109u8);
    v.push(112u8);
    v.push(101u8);
    v.push(114u8);
    v.push(97u8);
    v.push(116u8);
    v.push(117u8);
    v.push(114u8);
    v.push(101u8);
    v.push(95u8);
    v.push(103u8);
    v.push(97u8);
    v.push(117u8);
    v.push(103u8);
    v.push(101u8);
    proof {
        assert(v@ =~= spec_temperature_gauge_id());
    }
    v
}

/// The four big-endian bytes of a 32-bit value.
pub open spec fn spec_u32_to_be_bytes(v: u32) -> Seq<u8> {
    seq![
        ((v >> 24) & 0xff) as u8,
        ((v >> 16) & 0xff) as u8,
        ((v >> 8) & 0xff) as u8,
        (v & 0xff) as u8,
    ]
}

/// The 32-bit value read from four big-endian bytes.
pub open spec fn spec_u32_from_be_bytes(b0: u8, b1: u8, b2: u8, b3: u8) -> u32 {
    ((b0 as u32) << 24) | ((b1 as u32) << 16) | ((b2 as u32) << 8) | (b3 as u32)
}

/// Reading a value's big-endian bytes back yields the value.
pub proof fn lemma_u32_be_roundtrip(v: u32)
    ensures
        spec_u32_from_be_bytes(
            ((v >> 24) & 0xff) as u8,
            ((v >> 16) & 0xff) as u8,
            ((v >> 8) & 0xff) as u8,
            (v & 0xff) as u8,
        ) == v,
{
    assert(((((v >> 24) & 0xff) as u8 as u32) << 24) | ((((v >> 16) & 0xff) as u8 as u32) << 16)
        | ((((v >> 8) & 0xff) as u8 as u32) << 8) | ((v & 0xff) as u8 as u32) == v)
        by (bit_vector);
}

/// The states of a temperature sensor. Tags: Disabled = 0, Enabled = 1,
/// ReadingTemperature = 2 with the reading's IEEE-754 bits as payload.
#[derive(Debug, Clone, Copy, PartialEq, Eq, Structural)]
pub enum TemperatureGaugeState {
    Disabled,
    Enabled,
    /// A measurement, as the bit pattern of an IEEE-754 single-precision
    /// value.
    ReadingTemperature(u32),
}

impl GaugeState for TemperatureGaugeState {
    open spec fn wire_tag(&self) -> u8 {
        match self {
            TemperatureGaugeState::Disabled => 0,
            TemperatureGaugeState::Enabled => 1,
            TemperatureGaugeState::ReadingTemperature(_) => 2,
        }
    }

    open spec fn wire_payload(&self) -> Option<Seq<u8>> {
        match self {
            TemperatureGaugeState::Disabled => None,
            TemperatureGaugeState::Enabled => None,
            TemperatureGaugeState::ReadingTemperature(bits) => Some(spec_u32_to_be_bytes(*bits)),
        }
    }

    open spec fn spec_parse_state(raw: Seq<u8>) -> Result<TemperatureGaugeState, DecodeError> {
        if raw.len() < 1 {
            Err(DecodeError::TruncatedFrame)
        } else if raw[0] == 0 {
            Ok(TemperatureGaugeState::Disabled)
        } else if raw[0] == 1 {
            Ok(TemperatureGaugeState::Enabled)
        } else if raw[0] == 2 {
            if raw.len() < 2 {
                Err(DecodeError::TruncatedFrame)
            } else if 2 + raw[1] as int > raw.len() {
                Err(DecodeError::TruncatedFrame)
            } else if raw[1] != 4 {
                Err(DecodeError::MalformedPayload)
            } else {
                Ok(
                    TemperatureGaugeState::ReadingTemperature(
                        spec_u32_from_be_bytes(raw[2], raw[3], raw[4], raw[5]),
                    ),
                )
            }
        } else {
            Err(DecodeError::UnknownStateTag)
        }
    }

    proof fn lemma_wire_roundtrip(s: TemperatureGaugeState) {
        match s {
            TemperatureGaugeState::ReadingTemperature(bits) => {
                let raw = spec_raw_state(s.wire_tag(), s.wire_payload());
                assert(raw.len() == 6);
                assert(raw[0] == 2 && raw[1] == 4);
                lemma_u32_be_roundtrip(bits);
            },
            _ => {},
        }
    }

    proof fn lemma_truncation_detected(s: TemperatureGaugeState, k: int) {
        let raw = spec_raw_state(s.wire_tag(), s.wire_payload());
        if k == 0 {
            assert(raw.take(0) =~= Seq::<u8>::empty());
        } else {
            assert(raw.take(k)[0] == raw[0]);
            if k >= 2 {
                assert(raw.take(k)[1] == raw[1]);
            }
        }
    }

    /// Reads the tag byte and, for a reading, the length-prefixed payload.
    /// The payload of a reading must be declared and present as exactly
    /// four bytes; bytes after a bare tag or after the payload are ignored.
    fn parse_state(state: Vec<u8>) -> (r: Result<TemperatureGaugeState, DecodeError>)
    {
        if state.len() < 1 {
            return Err(DecodeError::TruncatedFrame);
        }
        let tag = state[0];
        if tag == 0 {
            Ok(TemperatureGaugeState::Disabled)
        } else if tag == 1 {
            Ok(TemperatureGaugeState::Enabled)
        } else if tag == 2 {
            if state.len() < 2 {
                return Err(DecodeError::TruncatedFrame);
            }
            let plen = state[1] as usize;
            if 2 + plen > state.len() {
                return Err(DecodeError::TruncatedFrame);
            }
            if plen != 4 {
                return Err(DecodeError::MalformedPayload);
            }
            let bits = ((state[2] as u32) << 24) | ((state[3] as u32) << 16) | (
            (state[4] as u32) << 8) | (state[5] as u32);
            Ok(TemperatureGaugeState::ReadingTemperature(bits))
        } else {
            Err(DecodeError::UnknownStateTag)
        }
    }
}

/// The spec-level image of a temperature sensor: its name and its state.
#[verifier::ext_equal]
pub ghost struct TemperatureGaugeView {
    pub name: Seq<char>,
    pub state: TemperatureGaugeState,
}

/// A temperature sensor device: a name and one of the three sensor states.
#[derive(Debug)]
pub struct TemperatureGauge {
    pub name: String,
    pub state: TemperatureGaugeState,
}

impl View for TemperatureGauge {
    type V = TemperatureGaugeView;

    open spec fn view(&self) -> TemperatureGaugeView {
        TemperatureGaugeView { name: self.name@, state: self.state }
    }
}

impl PartialEq for TemperatureGauge {
    fn eq(&self, other: &TemperatureGauge) -> (r: bool) {
        self.name.eq(&other.name) && self.state == other.state
    }
}

impl vstd::std_specs::cmp::PartialEqSpecImpl for TemperatureGauge {
    open spec fn obeys_eq_spec() -> bool {
        true
    }

    open spec fn eq_spec(&self, other: &TemperatureGauge) -> bool {
        self@ == other@
    }
}

impl Gauge for TemperatureGauge {
    type GaugeState = TemperatureGaugeState;

    open spec fn spec_id() -> Seq<u8> {
        spec_temperature_gauge_id()
    }

    open spec fn spec_name(&self) -> Seq<char> {
        self.name@
    }

    open spec fn spec_state(&self) -> TemperatureGaugeState {
        self.state
    }

    open spec fn spec_tag(&self) -> u8 {
        self.state.wire_tag()
    }

    open spec fn spec_payload(&self) -> Option<Seq<u8>> {
        self.state.wire_payload()
    }

    proof fn lemma_id_len() {
    }

    proof fn lemma_payload_len(&self) {
    }

    proof fn lemma_wire_agrees(&self) {
    }

    fn new(name: String, state: TemperatureGaugeState) -> (g: TemperatureGauge) {
        TemperatureGauge { name, state }
    }

    fn state(&self) -> (r: &TemperatureGaugeState) {
        &self.state
    }

    fn set_state(&mut self, state: TemperatureGaugeState) {
        self.state = state;
    }

    fn name(&self) -> (r: &String) {
        &self.name
    }

    fn set_name(&mut self, name: String) {
        self.name = name;
    }

    fn id() -> (r: Vec<u8>) {
        temperature_gauge_id()
    }

    fn serialize_id(&self) -> (r: Vec<u8>) {
        temperature_gauge_id()
    }

    fn serialize_name(&self) -> (r: Vec<u8>) {
        self.name.as_str().as_bytes_vec()
    }

    fn serialize_state(&self) -> (r: (u8, Option<Vec<u8>>)) {
        match self.state {
            TemperatureGaugeState::Disabled => (0, None),
            TemperatureGaugeState::Enabled => (1, None),
            TemperatureGaugeState::ReadingTemperature(bits) => {
                let mut p: Vec<u8> = Vec::new();
                p.push(((bits >> 24) & 0xff) as u8);
                p.push(((bits >> 16) & 0xff) as u8);
                p.push(((bits >> 8) & 0xff) as u8);
                p.push((bits & 0xff) as u8);
                proof {
                    assert(p@ =~= spec_u32_to_be_bytes(bits));
                    assert(p.deep_view() =~= spec_u32_to_be_bytes(bits));
                }
                (2, Some(p))
            },
        }
    }
}

} // verus!
