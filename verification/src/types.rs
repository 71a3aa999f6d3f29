//! The per-kind interface of the wire protocol.
//!
//! A gauge kind supplies a constant identifier, a state enumeration with its
//! tag/payload encoding, and accessors for the device name and the current
//! state. Everything else — the frame layout, the envelope split, the
//! serializer — is shared and stated here once.
pub mod fire_alarm;
pub mod temperature_gauge;

use vstd::prelude::*;
use vstd::utf8::encode_utf8;

use crate::codec::{
    spec_decode_envelope, spec_frame, spec_raw_state, DecodeError, DeserializedGauge, EncodeError,
    SerializedGauge,
};

verus! {

/// The state enumeration of one gauge kind together with its byte encoding.
///
/// `wire_tag` and `wire_payload` say how a state goes onto the wire;
/// `spec_parse_state` says what the kind's decoder makes of a raw state
/// field. The two lemmas oblige every kind to a lossless encoding whose
/// truncations are always detected.
pub trait GaugeState: Sized {
    /// The tag byte of this state.
    spec fn wire_tag(&self) -> u8;

    /// The payload bytes of this state, for tags that carry one.
    spec fn wire_payload(&self) -> Option<Seq<u8>>;

    /// What this kind's decoder makes of a raw state field.
    spec fn spec_parse_state(raw: Seq<u8>) -> Result<Self, DecodeError>;

    /// Every payload fits behind a one-byte length prefix, and decoding an
    /// encoded state yields the state back.
    proof fn lemma_wire_roundtrip(s: Self)
        ensures
            (s.wire_payload() matches Some(p) ==> p.len() <= 255),
            Self::spec_parse_state(spec_raw_state(s.wire_tag(), s.wire_payload()))
                == Ok::<Self, DecodeError>(s),
    ;

    /// Cutting an encoded state short at any byte is detected as truncation.
    proof fn lemma_truncation_detected(s: Self, k: int)
        requires
            0 <= k < spec_raw_state(s.wire_tag(), s.wire_payload()).len(),
        ensures
            Self::spec_parse_state(spec_raw_state(s.wire_tag(), s.wire_payload()).take(k))
                == Err::<Self, DecodeError>(DecodeError::TruncatedFrame),
    ;

    /// Decodes a raw state field, exactly as `spec_parse_state` says.
    fn parse_state(state: Vec<u8>) -> (r: Result<Self, DecodeError>)
        ensures
            r == Self::spec_parse_state(state@),
    ;
}

/// One gauge kind: a named device with a state drawn from the kind's closed
/// set, encoded to and decoded from the shared frame layout.
pub trait Gauge: Sized {
    type GaugeState: GaugeState;

    /// The kind's constant identifier bytes.
    spec fn spec_id() -> Seq<u8>;

    /// The device name.
    spec fn spec_name(&self) -> Seq<char>;

    /// The current state.
    spec fn spec_state(&self) -> Self::GaugeState;

    /// The tag byte of the current state.
    spec fn spec_tag(&self) -> u8;

    /// The payload bytes of the current state, for tags that carry one.
    spec fn spec_payload(&self) -> Option<Seq<u8>>;

    /// The identifier fits behind a one-byte length prefix.
    proof fn lemma_id_len()
        ensures
            1 <= Self::spec_id().len() <= 255,
    ;

    /// Every payload fits behind a one-byte length prefix.
    proof fn lemma_payload_len(&self)
        ensures
            self.spec_payload() matches Some(p) ==> p.len() <= 255,
    ;

    /// The tag and payload of a gauge are those of its current state, so
    /// frames built from them fall under the state's round-trip and
    /// truncation laws.
    proof fn lemma_wire_agrees(&self)
        ensures
            self.spec_tag() == self.spec_state().wire_tag(),
            self.spec_payload() == self.spec_state().wire_payload(),
    ;

    /// A gauge with the given name and state.
    fn new(name: String, state: Self::GaugeState) -> (g: Self)
        ensures
            g.spec_name() == name@,
            g.spec_state() == state,
    ;

    /// The current state.
    fn state(&self) -> (r: &Self::GaugeState)
        ensures
            *r == self.spec_state(),
    ;

    /// Replaces the state; the name is untouched.
    fn set_state(&mut self, state: Self::GaugeState)
        ensures
            final(self).spec_state() == state,
            final(self).spec_name() == old(self).spec_name(),
    ;

    /// The device name.
    fn name(&self) -> (r: &String)
        ensures
            r@ == self.spec_name(),
    ;

    /// Replaces the name; the state is untouched.
    fn set_name(&mut self, name: String)
        ensures
            final(self).spec_name() == name@,
            final(self).spec_state() == old(self).spec_state(),
    ;

    /// The kind's identifier bytes.
    fn id() -> (r: Vec<u8>)
        ensures
            r@ == Self::spec_id(),
    ;

    /// The identifier field of a frame for this gauge.
    fn serialize_id(&self) -> (r: Vec<u8>)
        ensures
            r@ == Self::spec_id(),
    ;

    /// The name field of a frame for this gauge: the name's UTF-8 bytes.
    fn serialize_name(&self) -> (r: Vec<u8>)
        ensures
            r@ == encode_utf8(self.spec_name()),
    ;

    /// The state tag and, for payload-carrying states, the payload bytes.
    fn serialize_state(&self) -> (r: (u8, Option<Vec<u8>>))
        ensures
            r.0 == self.spec_tag(),
            r.1.deep_view() == self.spec_payload(),
    ;

    /// Encodes the gauge as one frame. Succeeds exactly when the name fits
    /// behind its one-byte length prefix, that is, takes at most 255 bytes
    /// in UTF-8; a longer name is rejected, never cut.
    fn serialize(&self) -> (r: Result<Vec<u8>, EncodeError>)
        ensures
            match r {
                Ok(bytes) => encode_utf8(self.spec_name()).len() <= 255 && bytes@ == spec_frame(
                    Self::spec_id(),
                    encode_utf8(self.spec_name()),
                    spec_raw_state(self.spec_tag(), self.spec_payload()),
                ),
                Err(e) => e == EncodeError::NameTooLong && encode_utf8(self.spec_name()).len()
                    > 255,
            },
    {
        let mut id = self.serialize_id();
        let mut name = self.serialize_name();
        if name.len() > 255 {
            return Err(EncodeError::NameTooLong);
        }
        proof {
            Self::lemma_id_len();
            self.lemma_payload_len();
        }
        let mut out: Vec<u8> = Vec::new();
        out.push(id.len() as u8);
        out.append(&mut id);
        out.push(name.len() as u8);
        out.append(&mut name);
        let (tag, payload) = self.serialize_state();
        out.push(tag);
        match payload {
            Some(mut p) => {
                out.push(p.len() as u8);
                out.append(&mut p);
            },
            None => {},
        }
        proof {
            assert(out@ =~= spec_frame(
                Self::spec_id(),
                encode_utf8(self.spec_name()),
                spec_raw_state(self.spec_tag(), self.spec_payload()),
            ));
        }
        Ok(out)
    }

    /// Reads the name and the state out of an envelope; the identifier is
    /// the caller's business. Fails exactly when the kind's state decoder
    /// fails on the envelope's raw state bytes.
    fn parse(deserialized_gauge: DeserializedGauge) -> (r: Result<Self, DecodeError>)
        ensures
            match <Self::GaugeState as GaugeState>::spec_parse_state(deserialized_gauge@.state) {
                Ok(st) => r matches Ok(g) && g.spec_name() == deserialized_gauge@.name
                    && g.spec_state() == st,
                Err(e) => r == Err::<Self, DecodeError>(e),
            },
    {
        let name = deserialized_gauge.try_name();
        match <Self::GaugeState as GaugeState>::parse_state(deserialized_gauge.try_state()) {
            Ok(st) => Ok(Self::new(name, st)),
            Err(e) => Err(e),
        }
    }

    /// Decodes one frame of this kind: splits the envelope, then reads the
    /// name and the state. Fails exactly where the envelope split or this
    /// kind's state decoder fails.
    fn deserialize(gauge: SerializedGauge) -> (r: Result<Self, DecodeError>)
        ensures
            match spec_decode_envelope(gauge@) {
                Ok(env) => match <Self::GaugeState as GaugeState>::spec_parse_state(env.state) {
                    Ok(st) => r matches Ok(g) && g.spec_name() == env.name && g.spec_state()
                        == st,
                    Err(e) => r == Err::<Self, DecodeError>(e),
                },
                Err(e) => r == Err::<Self, DecodeError>(e),
            },
    {
        match DeserializedGauge::parse(gauge) {
            Ok(env) => Self::parse(env),
            Err(e) => Err(e),
        }
    }
}

} // verus!
