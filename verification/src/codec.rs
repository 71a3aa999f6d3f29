//! The wire frame layout shared by every gauge kind, and the envelope
//! decoder that splits a raw frame into its fields.
//!
//! A frame is a flat byte sequence:
//! `[id_len][id bytes][name_len][name bytes][tag]` and, for state variants
//! that carry a payload, `[payload_len][payload bytes]` after the tag.
//! All three length prefixes are single bytes, so identifiers, names and
//! payloads are limited to 255 encoded bytes each.
use vstd::prelude::*;
use vstd::slice::{slice_subrange, slice_to_vec};
use vstd::utf8::{decode_utf8, valid_utf8};

verus! {

/// Why a frame was rejected by the decoder.
#[derive(Debug, Clone, Copy, PartialEq, Eq, Structural)]
pub enum DecodeError {
    /// A length prefix claims more bytes than remain in the buffer.
    TruncatedFrame,
    /// The name field is not valid UTF-8.
    InvalidText,
    /// A recognized kind carries a state tag outside its defined set.
    UnknownStateTag,
    /// A recognized tag carries a payload of the wrong size for its kind.
    MalformedPayload,
}

/// Why a gauge could not be encoded.
#[derive(Debug, Clone, Copy, PartialEq, Eq, Structural)]
pub enum EncodeError {
    /// The device name takes more than 255 bytes in UTF-8.
    NameTooLong,
}

/// The raw state field: the tag byte alone, or the tag byte followed by a
/// length-prefixed payload.
pub open spec fn spec_raw_state(tag: u8, payload: Option<Seq<u8>>) -> Seq<u8> {
    match payload {
        None => seq![tag],
        Some(p) => seq![tag, p.len() as u8] + p,
    }
}

/// The full frame for an identifier, the UTF-8 bytes of a name, and a raw
/// state field.
pub open spec fn spec_frame(id: Seq<u8>, name_bytes: Seq<u8>, raw_state: Seq<u8>) -> Seq<u8> {
    seq![id.len() as u8] + id + seq![name_bytes.len() as u8] + name_bytes + raw_state
}

/// The fields of a decoded envelope: the kind identifier, the device name,
/// and the raw state bytes, still uninterpreted.
#[verifier::ext_equal]
pub ghost struct EnvelopeView {
    pub id: Seq<u8>,
    pub name: Seq<char>,
    pub state: Seq<u8>,
}

/// What the envelope decoder makes of a byte sequence: either the three
/// fields located by the length prefixes, with the name decoded from UTF-8,
/// or the reason the buffer was rejected.
pub open spec fn spec_decode_envelope(bytes: Seq<u8>) -> Result<EnvelopeView, DecodeError> {
    if bytes.len() < 1 {
        Err(DecodeError::TruncatedFrame)
    } else {
        let id_len = bytes[0] as int;
        if 1 + id_len + 1 > bytes.len() {
            Err(DecodeError::TruncatedFrame)
        } else {
            let name_len = bytes[1 + id_len] as int;
            let name_start = 2 + id_len;
            if name_start + name_len + 1 > bytes.len() {
                Err(DecodeError::TruncatedFrame)
            } else {
                let name_bytes = bytes.subrange(name_start, name_start + name_len);
                if valid_utf8(name_bytes) {
                    Ok(EnvelopeView {
                        id: bytes.subrange(1, 1 + id_len),
                        name: decode_utf8(name_bytes),
                        state: bytes.subrange(name_start + name_len, bytes.len() as int),
                    })
                } else {
                    Err(DecodeError::InvalidText)
                }
            }
        }
    }
}

/// Splitting an encoded frame recovers exactly the fields it was built
/// from: the envelope decoder inverts the frame layout.
pub proof fn lemma_decode_frame(id: Seq<u8>, name_bytes: Seq<u8>, raw_state: Seq<u8>)
    requires
        id.len() <= 255,
        name_bytes.len() <= 255,
        1 <= raw_state.len(),
        valid_utf8(name_bytes),
    ensures
        spec_decode_envelope(spec_frame(id, name_bytes, raw_state)) == Ok::<
            EnvelopeView,
            DecodeError,
        >(EnvelopeView { id, name: decode_utf8(name_bytes), state: raw_state }),
{
    let bytes = spec_frame(id, name_bytes, raw_state);
    let id_len = id.len() as int;
    let name_start = 2 + id_len;
    assert(bytes[0] == id.len() as u8);
    assert(bytes[1 + id_len] == name_bytes.len() as u8);
    assert(bytes.subrange(1, 1 + id_len) =~= id);
    assert(bytes.subrange(name_start, name_start + name_bytes.len()) =~= name_bytes);
    assert(bytes.subrange(name_start + name_bytes.len(), bytes.len() as int) =~= raw_state);
    assert(spec_decode_envelope(bytes) matches Ok(env) && env =~= (EnvelopeView {
        id,
        name: decode_utf8(name_bytes),
        state: raw_state,
    }));
}

/// Cutting an encoded frame short anywhere in its header, its name, or at
/// its first state byte is detected by the envelope decoder as truncation;
/// a cut later than that leaves a well-formed envelope whose state bytes
/// are cut short by the same amount.
pub proof fn lemma_decode_frame_truncated(
    id: Seq<u8>,
    name_bytes: Seq<u8>,
    raw_state: Seq<u8>,
    k: int,
)
    requires
        id.len() <= 255,
        name_bytes.len() <= 255,
        1 <= raw_state.len(),
        valid_utf8(name_bytes),
        0 <= k < spec_frame(id, name_bytes, raw_state).len(),
    ensures
        ({
            let header = 2 + id.len() + name_bytes.len();
            if k < header + 1 {
                spec_decode_envelope(spec_frame(id, name_bytes, raw_state).take(k)) == Err::<
                    EnvelopeView,
                    DecodeError,
                >(DecodeError::TruncatedFrame)
            } else {
                spec_decode_envelope(spec_frame(id, name_bytes, raw_state).take(k)) == Ok::<
                    EnvelopeView,
                    DecodeError,
                >(
                    EnvelopeView {
                        id,
                        name: decode_utf8(name_bytes),
                        state: raw_state.take(k - header),
                    },
                )
            }
        }),
{
    let bytes = spec_frame(id, name_bytes, raw_state);
    let t = bytes.take(k);
    let id_len = id.len() as int;
    let name_start = 2 + id_len;
    let header = name_start + name_bytes.len();
    if k < 1 {
        assert(t.len() < 1);
    } else {
        assert(t[0] == id.len() as u8);
        if k < name_start {
            assert(1 + id_len + 1 > t.len());
        } else {
            assert(t[1 + id_len] == name_bytes.len() as u8);
            if k < header + 1 {
                assert(name_start + name_bytes.len() + 1 > t.len());
            } else {
                assert(t.subrange(1, 1 + id_len) =~= id);
                assert(t.subrange(name_start, name_start + name_bytes.len()) =~= name_bytes);
                assert(t.subrange(header as int, t.len() as int) =~= raw_state.take(k - header));
                assert(spec_decode_envelope(t) matches Ok(env) && env =~= (EnvelopeView {
                    id,
                    name: decode_utf8(name_bytes),
                    state: raw_state.take(k - header),
                }));
            }
        }
    }
}

/// One still-encoded frame, exactly as it came off the transport.
pub struct SerializedGauge(pub Vec<u8>);

impl View for SerializedGauge {
    type V = Seq<u8>;

    open spec fn view(&self) -> Seq<u8> {
        self.0@
    }
}

impl From<Vec<u8>> for SerializedGauge {
    fn from(value: Vec<u8>) -> (r: Self) {
        SerializedGauge(value)
    }
}

impl vstd::std_specs::convert::FromSpecImpl<Vec<u8>> for SerializedGauge {
    open spec fn obeys_from_spec() -> bool {
        true
    }

    open spec fn from_spec(value: Vec<u8>) -> Self {
        SerializedGauge(value)
    }
}

/// Relies on String::from_utf8: it succeeds exactly on valid UTF-8 input
/// and returns the characters that the bytes encode.
#[verifier::external_body]
fn string_from_utf8(bytes: Vec<u8>) -> (r: Option<String>)
    ensures
        r is Some <==> valid_utf8(bytes@),
        r matches Some(s) ==> s@ == decode_utf8(bytes@),
{
    String::from_utf8(bytes).ok()
}

/// An envelope: a frame split into its fields, before any kind-specific
/// interpretation of the state bytes.
#[derive(Debug)]
pub struct DeserializedGauge {
    pub id: Vec<u8>,
    pub name: String,
    pub state: Vec<u8>,
}

impl View for DeserializedGauge {
    type V = EnvelopeView;

    open spec fn view(&self) -> EnvelopeView {
        EnvelopeView { id: self.id@, name: self.name@, state: self.state@ }
    }
}

impl DeserializedGauge {
    /// Splits a raw frame at the boundaries its length prefixes declare and
    /// validates the name as UTF-8. Rejects the frame with `TruncatedFrame`
    /// when a declared length reads past the end of the buffer or no state
    /// byte remains, and with `InvalidText` when the name is not UTF-8.
    pub fn parse(gauge: SerializedGauge) -> (r: Result<DeserializedGauge, DecodeError>)
        ensures
            match r {
                Ok(env) => spec_decode_envelope(gauge@) == Ok::<EnvelopeView, DecodeError>(env@),
                Err(e) => spec_decode_envelope(gauge@) == Err::<EnvelopeView, DecodeError>(e),
            },
    {
        let bytes = gauge.0;
        let n = bytes.len();
        if n < 1 {
            return Err(DecodeError::TruncatedFrame);
        }
        let id_len = bytes[0] as usize;
        if 1 + id_len + 1 > n {
            return Err(DecodeError::TruncatedFrame);
        }
        let name_len = bytes[1 + id_len] as usize;
        let name_start = 2 + id_len;
        if name_start + name_len + 1 > n {
            return Err(DecodeError::TruncatedFrame);
        }
        let id = slice_to_vec(slice_subrange(bytes.as_slice(), 1, 1 + id_len));
        let name_bytes = slice_to_vec(
            slice_subrange(bytes.as_slice(), name_start, name_start + name_len),
        );
        let state = slice_to_vec(slice_subrange(bytes.as_slice(), name_start + name_len, n));
        match string_from_utf8(name_bytes) {
            Some(name) => Ok(DeserializedGauge { id, name, state }),
            None => Err(DecodeError::InvalidText),
        }
    }

    /// The device name carried by the envelope.
    pub fn try_name(&self) -> (r: String)
        ensures
            r@ == self@.name,
    {
        self.name.clone()
    }

    /// The raw state bytes carried by the envelope, not yet interpreted.
    pub fn try_state(&self) -> (r: Vec<u8>)
        ensures
            r@ == self@.state,
    {
        clone_bytes(&self.state)
    }

    /// The kind identifier carried by the envelope.
    pub fn try_id(&self) -> (r: Vec<u8>)
        ensures
            r@ == self@.id,
    {
        clone_bytes(&self.id)
    }
}

/// The one-line description of an envelope: name, identifier, state tag,
/// and state message, with a placeholder for whatever cannot be shown as
/// text.
pub open spec fn spec_envelope_summary(env: EnvelopeView) -> Seq<char> {
    "Name: "@ + env.name + ",\nId: "@ + (if valid_utf8(env.id) {
        decode_utf8(env.id)
    } else {
        "<Malformed id>"@
    }) + ",\nState: "@ + (if env.state.len() >= 1 {
        crate::text::spec_dec(env.state[0] as int)
    } else {
        "<Malformed state>"@
    }) + ",\nState message: "@ + (if env.state.len() > 1 {
        if valid_utf8(env.state.subrange(1, env.state.len() as int)) {
            decode_utf8(env.state.subrange(1, env.state.len() as int))
        } else {
            "<Malformed state message>"@
        }
    } else {
        "None"@
    })
}

impl DeserializedGauge {
    /// Describes the envelope for a log line, exactly as
    /// `spec_envelope_summary` says.
    pub fn summary_string(&self) -> (r: String)
        ensures
            r@ == spec_envelope_summary(self@),
    {
        let mut out = String::from_str("Name: ");
        out.append(self.name.as_str());
        out.append(",\nId: ");
        match string_from_utf8(clone_bytes(&self.id)) {
            Some(id_text) => out.append(id_text.as_str()),
            None => out.append("<Malformed id>"),
        }
        out.append(",\nState: ");
        if self.state.len() >= 1 {
            let tag_text = crate::text::u64_to_dec_string(self.state[0] as u64);
            out.append(tag_text.as_str());
        } else {
            out.append("<Malformed state>");
        }
        out.append(",\nState message: ");
        if self.state.len() > 1 {
            let tail = slice_to_vec(
                slice_subrange(self.state.as_slice(), 1, self.state.len()),
            );
            match string_from_utf8(tail) {
                Some(message) => out.append(message.as_str()),
                None => out.append("<Malformed state message>"),
            }
        } else {
            out.append("None");
        }
        proof {
            assert(out@ =~= spec_envelope_summary(self@));
        }
        out
    }
}

/// A copy of a byte vector.
pub fn clone_bytes(v: &Vec<u8>) -> (r: Vec<u8>)
    ensures
        r@ == v@,
{
    let mut out: Vec<u8> = Vec::new();
    let mut i: usize = 0;
    while i < v.len()
        invariant
            i <= v.len(),
            out@ == v@.subrange(0, i as int),
        decreases v.len() - i,
    {
        out.push(v[i]);
        i = i + 1;
        proof {
            assert(out@ =~= v@.subrange(0, i as int));
        }
    }
    proof {
        assert(out@ =~= v@);
    }
    out
}

/// Whether two byte slices hold the same bytes.
pub fn bytes_eq(a: &[u8], b: &[u8]) -> (r: bool)
    ensures
        r == (a@ == b@),
{
    if a.len() != b.len() {
        proof {
            assert(a@ != b@);
        }
        return false;
    }
    let mut i: usize = 0;
    while i < a.len()
        invariant
            i <= a.len(),
            a@.len() == b@.len(),
            forall|j: int| 0 <= j < i ==> a@[j] == b@[j],
        decreases a.len() - i,
    {
        if a[i] != b[i] {
            return false;
        }
        i = i + 1;
    }
    proof {
        assert(a@ =~= b@);
    }
    true
}

} // verus!
