//! The kind registry: routes a decoded envelope to the decoder of the kind
//! its identifier names, and the laws of the whole pipeline.
use vstd::prelude::*;
use vstd::utf8::{encode_utf8, encode_utf8_decode_utf8, encode_utf8_valid_utf8};

use crate::codec::{
    lemma_decode_frame, lemma_decode_frame_truncated, spec_decode_envelope, spec_frame,
    spec_raw_state, bytes_eq, DecodeError, DeserializedGauge, EnvelopeView, SerializedGauge,
};
use crate::types::fire_alarm::{
    fire_alarm_id, spec_fire_alarm_id, FireAlarm, FireAlarmState, FireAlarmView,
};
use crate::types::temperature_gauge::{
    spec_temperature_gauge_id, temperature_gauge_id, TemperatureGauge, TemperatureGaugeState,
    TemperatureGaugeView,
};
use crate::types::{Gauge, GaugeState};

verus! {

/// A classified frame: one of the known kinds fully decoded, or the whole
/// envelope untouched when the identifier names no known kind.
#[derive(Debug)]
pub enum Gauges {
    FireAlarm(FireAlarm),
    TemperatureGauge(TemperatureGauge),
    Unknown(DeserializedGauge),
}

/// The spec-level image of a classified frame.
#[verifier::ext_equal]
pub ghost enum GaugesView {
    FireAlarm(FireAlarmView),
    TemperatureGauge(TemperatureGaugeView),
    Unknown(EnvelopeView),
}

impl View for Gauges {
    type V = GaugesView;

    open spec fn view(&self) -> GaugesView {
        match self {
            Gauges::FireAlarm(g) => GaugesView::FireAlarm(g@),
            Gauges::TemperatureGauge(g) => GaugesView::TemperatureGauge(g@),
            Gauges::Unknown(e) => GaugesView::Unknown(e@),
        }
    }
}

/// What the registry makes of an envelope: matching is exact byte equality
/// on the identifier; an unrecognized identifier is passed through, while a
/// recognized kind whose state decoder fails has that failure propagated.
pub open spec fn spec_classify(env: EnvelopeView) -> Result<GaugesView, DecodeError> {
    if env.id == spec_fire_alarm_id() {
        match FireAlarmState::spec_parse_state(env.state) {
            Ok(st) => Ok(GaugesView::FireAlarm(FireAlarmView { name: env.name, state: st })),
            Err(e) => Err(e),
        }
    } else if env.id == spec_temperature_gauge_id() {
        match TemperatureGaugeState::spec_parse_state(env.state) {
            Ok(st) => Ok(
                GaugesView::TemperatureGauge(TemperatureGaugeView { name: env.name, state: st }),
            ),
            Err(e) => Err(e),
        }
    } else {
        Ok(GaugesView::Unknown(env))
    }
}

/// The whole inbound pipeline on one frame: envelope split, then kind
/// classification and state decoding.
pub open spec fn spec_read_frame(bytes: Seq<u8>) -> Result<GaugesView, DecodeError> {
    match spec_decode_envelope(bytes) {
        Ok(env) => spec_classify(env),
        Err(e) => Err(e),
    }
}

/// Routes an envelope to the decoder of the kind its identifier names,
/// exactly as `spec_classify` says: an unrecognized identifier yields
/// `Unknown` with the envelope untouched, and a recognized kind's decode
/// failure is propagated.
pub fn read_gauge_by_id(gauge: DeserializedGauge) -> (r: Result<Gauges, DecodeError>)
    ensures
        match r {
            Ok(g) => spec_classify(gauge@) == Ok::<GaugesView, DecodeError>(g@),
            Err(e) => spec_classify(gauge@) == Err::<GaugesView, DecodeError>(e),
        },
{
    let id = gauge.try_id();
    let fire_id = fire_alarm_id();
    let temperature_id = temperature_gauge_id();
    if bytes_eq(id.as_slice(), fire_id.as_slice()) {
        match FireAlarm::parse(gauge) {
            Ok(g) => Ok(Gauges::FireAlarm(g)),
            Err(e) => Err(e),
        }
    } else if bytes_eq(id.as_slice(), temperature_id.as_slice()) {
        match TemperatureGauge::parse(gauge) {
            Ok(g) => Ok(Gauges::TemperatureGauge(g)),
            Err(e) => Err(e),
        }
    } else {
        Ok(Gauges::Unknown(gauge))
    }
}

/// Runs the whole pipeline — envelope split, then classification — on
/// every frame a connection delivered, strictly in the order the frames
/// were read: the outcome at each position is exactly `spec_read_frame`
/// of the bytes at that position, and one frame's failure touches no
/// other frame.
pub fn read_connection_frames(frames: Vec<SerializedGauge>) -> (r: Vec<
    Result<Gauges, DecodeError>,
>)
    ensures
        r@.len() == frames@.len(),
        forall|i: int|
            0 <= i < r@.len() ==> (match #[trigger] r@[i] {
                Ok(g) => spec_read_frame(frames@[i]@) == Ok::<GaugesView, DecodeError>(g@),
                Err(e) => spec_read_frame(frames@[i]@) == Err::<GaugesView, DecodeError>(e),
            }),
{
    let mut frames = frames;
    let mut out: Vec<Result<Gauges, DecodeError>> = Vec::new();
    let n = frames.len();
    let ghost all = frames@;
    let mut i: usize = 0;
    while i < n
        invariant
            i <= n,
            n == all.len(),
            frames@ == all.subrange(i as int, n as int),
            out@.len() == i,
            forall|k: int|
                0 <= k < i ==> (match #[trigger] out@[k] {
                    Ok(g) => spec_read_frame(all[k]@) == Ok::<GaugesView, DecodeError>(g@),
                    Err(e) => spec_read_frame(all[k]@) == Err::<GaugesView, DecodeError>(e),
                }),
        decreases n - i,
    {
        let frame = frames.remove(0);
        let outcome = match DeserializedGauge::parse(frame) {
            Ok(env) => read_gauge_by_id(env),
            Err(e) => Err(e),
        };
        out.push(outcome);
        i = i + 1;
        proof {
            assert(frames@ =~= all.subrange(i as int, n as int));
        }
    }
    out
}

/// Round-trip law, fire alarm: decoding an encoded fire alarm yields the
/// same name and state back, for every name that fits the length prefix
/// and every state.
pub proof fn lemma_round_trip_fire_alarm(name: Seq<char>, state: FireAlarmState)
    requires
        encode_utf8(name).len() <= 255,
    ensures
        spec_read_frame(
            spec_frame(
                spec_fire_alarm_id(),
                encode_utf8(name),
                spec_raw_state(state.wire_tag(), state.wire_payload()),
            ),
        ) == Ok::<GaugesView, DecodeError>(
            GaugesView::FireAlarm(FireAlarmView { name, state }),
        ),
{
    let raw_state = spec_raw_state(state.wire_tag(), state.wire_payload());
    encode_utf8_valid_utf8(name);
    encode_utf8_decode_utf8(name);
    FireAlarmState::lemma_wire_roundtrip(state);
    lemma_decode_frame(spec_fire_alarm_id(), encode_utf8(name), raw_state);
}

/// Round-trip law, temperature sensor: decoding an encoded temperature
/// sensor yields the same name and state back — for a reading, the very
/// bit pattern — for every name that fits the length prefix and every
/// state.
pub proof fn lemma_round_trip_temperature_gauge(name: Seq<char>, state: TemperatureGaugeState)
    requires
        encode_utf8(name).len() <= 255,
    ensures
        spec_read_frame(
            spec_frame(
                spec_temperature_gauge_id(),
                encode_utf8(name),
                spec_raw_state(state.wire_tag(), state.wire_payload()),
            ),
        ) == Ok::<GaugesView, DecodeError>(
            GaugesView::TemperatureGauge(TemperatureGaugeView { name, state }),
        ),
{
    let raw_state = spec_raw_state(state.wire_tag(), state.wire_payload());
    encode_utf8_valid_utf8(name);
    encode_utf8_decode_utf8(name);
    TemperatureGaugeState::lemma_wire_roundtrip(state);
    assert(spec_temperature_gauge_id() != spec_fire_alarm_id());
    lemma_decode_frame(spec_temperature_gauge_id(), encode_utf8(name), raw_state);
}

/// Unknown-kind passthrough law: an envelope whose identifier names no
/// known kind is classified as `Unknown`, carrying the envelope — its
/// name and raw state bytes — unchanged.
pub proof fn lemma_unknown_kind_passthrough(env: EnvelopeView)
    requires
        env.id != spec_fire_alarm_id(),
        env.id != spec_temperature_gauge_id(),
    ensures
        spec_classify(env) == Ok::<GaugesView, DecodeError>(GaugesView::Unknown(env)),
{
}

/// Truncation law, fire alarm: a valid fire alarm frame cut short at any
/// byte boundary before its declared end is rejected as `TruncatedFrame`.
pub proof fn lemma_truncation_rejected_fire_alarm(
    name: Seq<char>,
    state: FireAlarmState,
    k: int,
)
    requires
        encode_utf8(name).len() <= 255,
        0 <= k < spec_frame(
            spec_fire_alarm_id(),
            encode_utf8(name),
            spec_raw_state(state.wire_tag(), state.wire_payload()),
        ).len(),
    ensures
        spec_read_frame(
            spec_frame(
                spec_fire_alarm_id(),
                encode_utf8(name),
                spec_raw_state(state.wire_tag(), state.wire_payload()),
            ).take(k),
        ) == Err::<GaugesView, DecodeError>(DecodeError::TruncatedFrame),
{
    let raw_state = spec_raw_state(state.wire_tag(), state.wire_payload());
    let header = 2 + spec_fire_alarm_id().len() + encode_utf8(name).len();
    encode_utf8_valid_utf8(name);
    lemma_decode_frame_truncated(spec_fire_alarm_id(), encode_utf8(name), raw_state, k);
    if k >= header + 1 {
        FireAlarmState::lemma_truncation_detected(state, k - header);
    }
}

/// Truncation law, temperature sensor: a valid temperature sensor frame
/// cut short at any byte boundary before its declared end is rejected as
/// `TruncatedFrame`.
pub proof fn lemma_truncation_rejected_temperature_gauge(
    name: Seq<char>,
    state: TemperatureGaugeState,
    k: int,
)
    requires
        encode_utf8(name).len() <= 255,
        0 <= k < spec_frame(
            spec_temperature_gauge_id(),
            encode_utf8(name),
            spec_raw_state(state.wire_tag(), state.wire_payload()),
        ).len(),
    ensures
        spec_read_frame(
            spec_frame(
                spec_temperature_gauge_id(),
                encode_utf8(name),
                spec_raw_state(state.wire_tag(), state.wire_payload()),
            ).take(k),
        ) == Err::<GaugesView, DecodeError>(DecodeError::TruncatedFrame),
{
    let raw_state = spec_raw_state(state.wire_tag(), state.wire_payload());
    let header = 2 + spec_temperature_gauge_id().len() + encode_utf8(name).len();
    encode_utf8_valid_utf8(name);
    TemperatureGaugeState::lemma_wire_roundtrip(state);
    lemma_decode_frame_truncated(spec_temperature_gauge_id(), encode_utf8(name), raw_state, k);
    if k >= header + 1 {
        TemperatureGaugeState::lemma_truncation_detected(state, k - header);
    }
}

/// Tag exhaustiveness law, fire alarm: a state field whose tag lies
/// outside the fire alarm's defined set is rejected as `UnknownStateTag`.
pub proof fn lemma_unknown_tag_fire_alarm(raw: Seq<u8>)
    requires
        raw.len() >= 1,
        raw[0] > 2,
    ensures
        FireAlarmState::spec_parse_state(raw) == Err::<FireAlarmState, DecodeError>(
            DecodeError::UnknownStateTag,
        ),
{
}

/// Tag exhaustiveness law, temperature sensor: a state field whose tag
/// lies outside the temperature sensor's defined set is rejected as
/// `UnknownStateTag`.
pub proof fn lemma_unknown_tag_temperature_gauge(raw: Seq<u8>)
    requires
        raw.len() >= 1,
        raw[0] > 2,
    ensures
        TemperatureGaugeState::spec_parse_state(raw) == Err::<TemperatureGaugeState, DecodeError>(
            DecodeError::UnknownStateTag,
        ),
{
}

} // verus!
