//! Runtime metadata handed over as hex, in one of three envelopes that the
//! caller does not name: the decoder tries each in a fixed order.
use vstd::prelude::*;
use vstd::slice::slice_subrange;
use vstd::string::StringSliceAdditionalSpecFns;
use parity_scale_codec::DecodeAll;
use crate::scale::{
    le_u32_at, compact_u32_encoding, compact_u32_prefix, decode_opaque_all, decode_option_opaque_all,
    lemma_compact_u32_prefix_of_encoding, lemma_scale_bytes_round_trip,
    lemma_scale_option_bytes_round_trip, scale_bytes_all, scale_bytes_encoding,
    scale_option_bytes_all, scale_option_bytes_encoding,
};

verus! {

#[verifier::external_type_specification]
#[verifier::external_body]
pub struct ExRuntimeMetadataPrefixed(frame_metadata::RuntimeMetadataPrefixed);

#[verifier::external_type_specification]
#[verifier::external_body]
pub struct ExFromHexError(hex::FromHexError);

/// The tag that every metadata record begins with: `meta`, read as a
/// little-endian `u32`.
pub const META_RESERVED: u32 = 0x6174656d;

/// Whether `b` is, with nothing left over, the SCALE encoding of one
/// `frame_metadata::RuntimeMetadataPrefixed`: a `u32` tag, then the metadata.
pub uninterp spec fn record_decodes(b: Seq<u8>) -> bool;

/// Relies on `DecodeAll::decode_all` for
/// `frame_metadata::RuntimeMetadataPrefixed`: whether it succeeds depends on
/// the bytes alone.
#[verifier::external_body]
fn decode_record_all(b: &[u8]) -> (r: Result<
    frame_metadata::RuntimeMetadataPrefixed,
    parity_scale_codec::Error,
>)
    ensures
        r is Ok <==> record_decodes(b@),
{
    frame_metadata::RuntimeMetadataPrefixed::decode_all(&mut &*b)
}

/// The three ways in which a record may be wrapped.
#[derive(Clone, Copy, Debug, PartialEq, Eq, Structural)]
pub enum Envelope {
    /// An optional byte string, present, holding the record (a runtime call's
    /// return value).
    OptionalWrapped,
    /// A byte string holding the record (the legacy RPC return value).
    DirectlyWrapped,
    /// The record itself.
    Unwrapped,
}

/// Why metadata could not be decoded.
#[derive(Clone, Copy, Debug, PartialEq, Eq, Structural)]
pub enum DecodeError {
    /// The text is not hex: odd length or a character that is no hex digit.
    InvalidHex,
    /// The bytes match none of the envelopes.
    NoEnvelope,
    /// An envelope matched, but the record begins with this tag instead of
    /// `META_RESERVED`.
    WrongMagic(u32),
}

/// The order in which the envelopes are tried.
pub open spec fn envelope_order() -> Seq<Envelope> {
    seq![Envelope::OptionalWrapped, Envelope::DirectlyWrapped, Envelope::Unwrapped]
}

/// A record: a four-byte little-endian tag, then the encoded metadata taking
/// every byte that is left. The tag and the metadata's bytes.
pub open spec fn record_parse(b: Seq<u8>) -> Option<(u32, Seq<u8>)> {
    if b.len() >= 4 && record_decodes(b) {
        Some((crate::scale::le_u32_at(b, 0) as u32, b.subrange(4, b.len() as int)))
    } else {
        None
    }
}

/// What reading `b` in envelope `e` yields: the record's tag and metadata bytes.
pub open spec fn envelope_parse(e: Envelope, b: Seq<u8>) -> Option<(u32, Seq<u8>)> {
    match e {
        Envelope::OptionalWrapped => match scale_option_bytes_all(b) {
            Some(Some(inner)) => record_parse(inner),
            _ => None,
        },
        Envelope::DirectlyWrapped => match scale_bytes_all(b) {
            Some(inner) => record_parse(inner),
            None => None,
        },
        Envelope::Unwrapped => record_parse(b),
    }
}

/// The first of `order[i..]` in which `b` can be read, with what it yields.
pub open spec fn first_envelope(b: Seq<u8>, order: Seq<Envelope>, i: int) -> Option<
    (Envelope, u32, Seq<u8>),
>
    decreases order.len() - i,
{
    if i < 0 || i >= order.len() {
        None
    } else {
        match envelope_parse(order[i], b) {
            Some((m, body)) => Some((order[i], m, body)),
            None => first_envelope(b, order, i + 1),
        }
    }
}

/// What decoding `b` gives: the envelope that matched first and the metadata
/// bytes, or an error. The tag is checked only on the first match.
pub open spec fn decode_spec(b: Seq<u8>) -> Result<(Envelope, Seq<u8>), DecodeError> {
    match first_envelope(b, envelope_order(), 0) {
        Some((e, m, body)) => if m == META_RESERVED {
            Ok((e, body))
        } else {
            Err(DecodeError::WrongMagic(m))
        },
        None => Err(DecodeError::NoEnvelope),
    }
}

/// The value of an ASCII hex digit of either case.
pub open spec fn hex_digit_value(c: u8) -> Option<nat> {
    if 48 <= c <= 57 {
        Some((c - 48) as nat)
    } else if 97 <= c <= 102 {
        Some((c - 87) as nat)
    } else if 65 <= c <= 70 {
        Some((c - 55) as nat)
    } else {
        None
    }
}

/// An even number of hex digits.
pub open spec fn is_hex_text(t: Seq<u8>) -> bool {
    t.len() % 2 == 0 && forall|i: int| 0 <= i < t.len() ==> (#[trigger] hex_digit_value(t[i])) is Some
}

/// The bytes that hex text spells, two digits each, the high digit first.
pub open spec fn hex_bytes(t: Seq<u8>) -> Seq<u8> {
    Seq::new(
        t.len() / 2,
        |i: int| (hex_digit_value(t[2 * i])->0 * 16 + hex_digit_value(t[2 * i + 1])->0) as u8,
    )
}

/// Relies on `hex::decode`: upper and lower case digits, an error on an odd
/// length or on any other character.
#[verifier::external_body]
pub(crate) fn decode_hex(t: &[u8]) -> (r: Result<Vec<u8>, hex::FromHexError>)
    ensures
        r is Ok <==> is_hex_text(t@),
        r matches Ok(v) ==> v@ == hex_bytes(t@),
{
    hex::decode(t)
}

/// The text with a leading `0x` taken off, if it has one.
pub open spec fn strip_0x(s: Seq<u8>) -> Seq<u8> {
    if s.len() >= 2 && s[0] == 48 && s[1] == 120 {
        s.subrange(2, s.len() as int)
    } else {
        s
    }
}

/// What decoding the hex text `s` gives: see `decode_spec`.
pub open spec fn from_hex_spec(s: Seq<u8>) -> Result<(Envelope, Seq<u8>), DecodeError> {
    if is_hex_text(strip_0x(s)) {
        decode_spec(hex_bytes(strip_0x(s)))
    } else {
        Err(DecodeError::InvalidHex)
    }
}

/// Runtime metadata, with the envelope it came in. It is made only by
/// decoding, so `record` is always what the tag and `source` decode to.
pub struct RuntimeMetadata {
    record: frame_metadata::RuntimeMetadataPrefixed,
    envelope: Envelope,
    source: Ghost<Seq<u8>>,
}

impl RuntimeMetadata {
    /// The bytes of the record that follow its tag.
    pub closed spec fn source(&self) -> Seq<u8> {
        self.source@
    }

    /// The envelope the record came in.
    pub closed spec fn spec_envelope(&self) -> Envelope {
        self.envelope
    }

    pub fn envelope(&self) -> (r: Envelope)
        ensures
            r == self.spec_envelope(),
    {
        self.envelope
    }

    /// The decoded record; its tag is `META_RESERVED`.
    pub fn record(&self) -> &frame_metadata::RuntimeMetadataPrefixed {
        &self.record
    }
}

/// `r` is what `expected` describes: the same envelope and source bytes, or
/// the same error.
pub open spec fn decoded_as(
    r: Result<RuntimeMetadata, DecodeError>,
    expected: Result<(Envelope, Seq<u8>), DecodeError>,
) -> bool {
    match expected {
        Ok((e, body)) => r matches Ok(md) && md.spec_envelope() == e && md.source() == body,
        Err(err) => r matches Err(x) && x == err,
    }
}

fn read_record(b: &[u8]) -> (r: Option<(u32, frame_metadata::RuntimeMetadataPrefixed)>)
    ensures
        match record_parse(b@) {
            Some((m, _)) => r matches Some(p) && p.0 == m,
            None => r is None,
        },
{
    if b.len() < 4 {
        return None;
    }
    let magic: u32 = b[0] as u32 + 256 * (b[1] as u32) + 65536 * (b[2] as u32) + 16777216 * (
    b[3] as u32);
    match decode_record_all(b) {
        Ok(m) => Some((magic, m)),
        Err(_) => None,
    }
}

fn read_envelope(e: Envelope, b: &[u8]) -> (r: Option<(u32, frame_metadata::RuntimeMetadataPrefixed)>)
    ensures
        match envelope_parse(e, b@) {
            Some((m, _)) => r matches Some(p) && p.0 == m,
            None => r is None,
        },
{
    match e {
        Envelope::OptionalWrapped => match decode_option_opaque_all(b) {
            Ok(Some(inner)) => read_record(inner.as_slice()),
            _ => None,
        },
        Envelope::DirectlyWrapped => match decode_opaque_all(b) {
            Ok(inner) => read_record(inner.as_slice()),
            Err(_) => None,
        },
        Envelope::Unwrapped => read_record(b),
    }
}

/// Decodes metadata bytes: tries each envelope in `envelope_order()` and takes
/// the first that reads the bytes whole; its record's tag must be
/// `META_RESERVED`.
pub fn decode_metadata_bytes(bytes: &[u8]) -> (r: Result<RuntimeMetadata, DecodeError>)
    ensures
        decoded_as(r, decode_spec(bytes@)),
{
    let order: Vec<Envelope> = vec![
        Envelope::OptionalWrapped,
        Envelope::DirectlyWrapped,
        Envelope::Unwrapped,
    ];
    assert(order@ =~= envelope_order());
    let mut i: usize = 0;
    while i < order.len()
        invariant
            order@ == envelope_order(),
            0 <= i <= order@.len(),
            first_envelope(bytes@, envelope_order(), 0) == first_envelope(
                bytes@,
                envelope_order(),
                i as int,
            ),
        decreases order@.len() - i,
    {
        let e = order[i];
        match read_envelope(e, bytes) {
            Some((magic, record)) => {
                if magic != META_RESERVED {
                    return Err(DecodeError::WrongMagic(magic));
                }
                let ghost body = envelope_parse(e, bytes@).unwrap().1;
                return Ok(RuntimeMetadata { record, envelope: e, source: Ghost(body) });
            },
            None => {},
        }
        i = i + 1;
    }
    Err(DecodeError::NoEnvelope)
}

impl RuntimeMetadata {
    /// Decodes metadata from hex text, with or without a leading `0x`.
    pub fn from_hex(hex: &str) -> (r: Result<RuntimeMetadata, DecodeError>)
        ensures
            decoded_as(r, from_hex_spec(hex.spec_bytes())),
    {
        let s = hex.as_bytes();
        let t = if s.len() >= 2 && s[0] == 48 && s[1] == 120 {
            slice_subrange(s, 2, s.len())
        } else {
            s
        };
        assert(t@ == strip_0x(s@));
        match decode_hex(t) {
            Ok(bytes) => decode_metadata_bytes(bytes.as_slice()),
            Err(_) => Err(DecodeError::InvalidHex),
        }
    }
}

/// What decoding gives for the record `rec` once envelope `e` has matched it:
/// its metadata bytes, or the wrong-tag error.
pub open spec fn record_outcome(e: Envelope, rec: Seq<u8>) -> Result<
    (Envelope, Seq<u8>),
    DecodeError,
> {
    match record_parse(rec) {
        Some((m, body)) => if m == META_RESERVED {
            Ok((e, body))
        } else {
            Err(DecodeError::WrongMagic(m))
        },
        None => Err(DecodeError::NoEnvelope),
    }
}

/// A record wrapped as a present optional byte string decodes back to that
/// record, through the first envelope tried; a record with a foreign tag
/// fails with the wrong-tag error.
pub proof fn lemma_optional_wrapped_round_trip(rec: Seq<u8>)
    requires
        rec.len() < 0x1_0000_0000,
        record_parse(rec) is Some,
    ensures
        decode_spec(scale_option_bytes_encoding(rec)) == record_outcome(
            Envelope::OptionalWrapped,
            rec,
        ),
{
    lemma_scale_option_bytes_round_trip(rec);
    let b = scale_option_bytes_encoding(rec);
    assert(first_envelope(b, envelope_order(), 0) == Some(
        (Envelope::OptionalWrapped, record_parse(rec).unwrap().0, record_parse(rec).unwrap().1),
    ));
}

/// A record wrapped as a byte string decodes back to that record, where the
/// optional-wrapped reading, which is tried first, does not match the same
/// bytes; a record with a foreign tag fails with the wrong-tag error.
pub proof fn lemma_directly_wrapped_round_trip(rec: Seq<u8>)
    requires
        rec.len() < 0x1_0000_0000,
        record_parse(rec) is Some,
        envelope_parse(Envelope::OptionalWrapped, scale_bytes_encoding(rec)) is None,
    ensures
        decode_spec(scale_bytes_encoding(rec)) == record_outcome(Envelope::DirectlyWrapped, rec),
{
    lemma_scale_bytes_round_trip(rec);
    let b = scale_bytes_encoding(rec);
    assert(first_envelope(b, envelope_order(), 1) == Some(
        (Envelope::DirectlyWrapped, record_parse(rec).unwrap().0, record_parse(rec).unwrap().1),
    ));
    assert(first_envelope(b, envelope_order(), 0) == first_envelope(b, envelope_order(), 1));
}

/// A bare record decodes back to itself, where neither wrapped reading, which
/// are tried first, matches the same bytes; a record with a foreign tag fails
/// with the wrong-tag error.
pub proof fn lemma_unwrapped_round_trip(rec: Seq<u8>)
    requires
        record_parse(rec) is Some,
        envelope_parse(Envelope::OptionalWrapped, rec) is None,
        envelope_parse(Envelope::DirectlyWrapped, rec) is None,
    ensures
        decode_spec(rec) == record_outcome(Envelope::Unwrapped, rec),
{
    assert(first_envelope(rec, envelope_order(), 2) == Some(
        (Envelope::Unwrapped, record_parse(rec).unwrap().0, record_parse(rec).unwrap().1),
    ));
    assert(first_envelope(rec, envelope_order(), 1) == first_envelope(rec, envelope_order(), 2));
    assert(first_envelope(rec, envelope_order(), 0) == first_envelope(rec, envelope_order(), 1));
}

/// The byte-string envelope matches only where its length prefix accounts for
/// every byte that follows it.
pub proof fn lemma_directly_wrapped_consumes_all(b: Seq<u8>)
    requires
        compact_u32_prefix(b) is Some,
        b.len() != compact_u32_prefix(b).unwrap().0 + compact_u32_prefix(b).unwrap().1,
    ensures
        envelope_parse(Envelope::DirectlyWrapped, b) is None,
{
}

/// The optional envelope matches only where the length prefix after its tag
/// byte accounts for every byte that follows it.
pub proof fn lemma_optional_wrapped_consumes_all(b: Seq<u8>)
    requires
        b.len() >= 1,
        compact_u32_prefix(b.subrange(1, b.len() as int)) is Some,
        b.len() != 1 + compact_u32_prefix(b.subrange(1, b.len() as int)).unwrap().0
            + compact_u32_prefix(b.subrange(1, b.len() as int)).unwrap().1,
    ensures
        envelope_parse(Envelope::OptionalWrapped, b) is None,
{
}

/// Bytes appended after a wrapped record keep either wrapped envelope from
/// matching.
pub proof fn lemma_trailing_bytes_rejected(rec: Seq<u8>, extra: Seq<u8>)
    requires
        rec.len() < 0x1_0000_0000,
        extra.len() > 0,
    ensures
        envelope_parse(Envelope::DirectlyWrapped, scale_bytes_encoding(rec) + extra) is None,
        envelope_parse(Envelope::OptionalWrapped, scale_option_bytes_encoding(rec) + extra) is None,
{
    let e = compact_u32_encoding(rec.len());
    lemma_compact_u32_prefix_of_encoding(rec.len(), rec + extra);
    let b = scale_bytes_encoding(rec) + extra;
    assert(b =~= e + (rec + extra));
    let o = scale_option_bytes_encoding(rec) + extra;
    assert(o.subrange(1, o.len() as int) =~= b);
}

/// The four bytes of `META_RESERVED`, lowest first: `meta`.
pub open spec fn starts_with_magic(rec: Seq<u8>) -> bool {
    rec.len() >= 4 && rec[0] == 0x6d && rec[1] == 0x65 && rec[2] == 0x74 && rec[3] == 0x61
}

/// A record that begins with the tag, wrapped as a byte string, never reads
/// as an optional byte string.
pub proof fn lemma_tagged_bytes_not_optional(rec: Seq<u8>)
    requires
        rec.len() < 0x1_0000_0000,
        starts_with_magic(rec),
    ensures
        scale_option_bytes_all(scale_bytes_encoding(rec)) is None,
{
    let n = rec.len();
    let e = compact_u32_encoding(n);
    let b = scale_bytes_encoding(rec);
    if 64 <= n < 16384 {
        let v = 4 * n + 1;
        if v % 256 == 1 {
            let k = v / 256;
            assert(b[0] == 1 && b[1] == k);
            let inner = b.subrange(1, b.len() as int);
            assert(inner.len() == n + 1);
            assert(inner[0] == k && inner[1] == 0x6d && inner[2] == 0x65 && inner[3] == 0x74
                && inner[4] == 0x61);
            assert(n == 64 * k) by (nonlinear_arith)
                requires
                    v == 4 * n + 1,
                    v % 256 == 1,
                    k == v / 256,
            ;
            assert(1 <= k < 256);
            if k % 4 == 0 {
                assert(compact_u32_prefix(inner) == Some(((k / 4) as nat, 1nat)));
            } else if k % 4 == 1 {
                let x = ((k as nat) + 256 * 0x6d) / 4;
                assert(n != x + 1) by (nonlinear_arith)
                    requires
                        n == 64 * k,
                        x == ((k as nat) + 256 * 0x6d) / 4,
                ;
            } else if k % 4 == 2 {
                assert(le_u32_at(inner, 0) >= 16777216 * 0x74);
            } else if k == 3 {
                assert(le_u32_at(inner, 1) == 0x6174656d);
            }
        }
    } else if 16384 <= n < 0x4000_0000 {
        let v = 4 * n + 2;
        assert((v % 256) % 2 == 0) by (nonlinear_arith)
            requires
                v == 4 * n + 2,
        ;
        assert(b[0] == v % 256);
    } else if n < 64 {
        assert(b[0] == 4 * n);
    } else {
        assert(b[0] == 3);
    }
}

/// A tagged record wrapped as a byte string decodes back to that record.
pub proof fn lemma_tagged_directly_wrapped_round_trip(rec: Seq<u8>)
    requires
        rec.len() < 0x1_0000_0000,
        starts_with_magic(rec),
        record_parse(rec) is Some,
    ensures
        decode_spec(scale_bytes_encoding(rec)) == Ok::<(Envelope, Seq<u8>), DecodeError>(
            (Envelope::DirectlyWrapped, rec.subrange(4, rec.len() as int)),
        ),
{
    lemma_tagged_bytes_not_optional(rec);
    lemma_directly_wrapped_round_trip(rec);
    assert(crate::scale::le_u32_at(rec, 0) == 0x6174656d);
}

/// A bare tagged record decodes back to itself, unless it is exactly 6493
/// bytes long: only then can its tag also read as the length prefix of a
/// byte string that takes every byte.
pub proof fn lemma_tagged_unwrapped_round_trip(rec: Seq<u8>)
    requires
        starts_with_magic(rec),
        record_parse(rec) is Some,
        rec.len() != 6493,
    ensures
        decode_spec(rec) == Ok::<(Envelope, Seq<u8>), DecodeError>(
            (Envelope::Unwrapped, rec.subrange(4, rec.len() as int)),
        ),
{
    assert(compact_u32_prefix(rec) == Some((6491nat, 2nat)));
    lemma_unwrapped_round_trip(rec);
    assert(le_u32_at(rec, 0) == 0x6174656d);
}

} // verus!
