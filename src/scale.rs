//! The parts of the SCALE encoding that wrap a metadata record: compact
//! lengths, byte strings and optional byte strings.
use vstd::prelude::*;
use parity_scale_codec::DecodeAll;

verus! {

#[verifier::external_type_specification]
#[verifier::external_body]
pub struct ExCodecError(parity_scale_codec::Error);

/// The unsigned value of four little-endian bytes starting at `i`.
pub open spec fn le_u32_at(b: Seq<u8>, i: int) -> nat {
    (b[i] as nat) + 256 * (b[i + 1] as nat) + 65536 * (b[i + 2] as nat) + 16777216 * (
    b[i + 3] as nat)
}

/// A compact-encoded `u32` at the start of `b`: its value and how many bytes it
/// takes. `None` where the bytes are too few, the mode is unknown, or the value
/// is not in the range that its mode is reserved for.
pub open spec fn compact_u32_prefix(b: Seq<u8>) -> Option<(nat, nat)> {
    if b.len() == 0 {
        None
    } else if b[0] % 4 == 0 {
        Some(((b[0] / 4) as nat, 1))
    } else if b[0] % 4 == 1 {
        if b.len() < 2 {
            None
        } else {
            let x = ((b[0] as nat) + 256 * (b[1] as nat)) / 4;
            if 64 <= x && x < 16384 {
                Some((x, 2))
            } else {
                None
            }
        }
    } else if b[0] % 4 == 2 {
        if b.len() < 4 {
            None
        } else {
            let x = le_u32_at(b, 0) / 4;
            if 16384 <= x {
                Some((x, 4))
            } else {
                None
            }
        }
    } else if b[0] / 4 != 0 || b.len() < 5 {
        None
    } else {
        let x = le_u32_at(b, 1);
        if x >= 0x4000_0000 {
            Some((x, 5))
        } else {
            None
        }
    }
}

/// `b` is exactly one length-prefixed byte string: its contents.
pub open spec fn scale_bytes_all(b: Seq<u8>) -> Option<Seq<u8>> {
    match compact_u32_prefix(b) {
        Some((n, w)) => if b.len() == w + n {
            Some(b.subrange(w as int, b.len() as int))
        } else {
            None
        },
        None => None,
    }
}

/// `b` is exactly one optional length-prefixed byte string: a tag byte 0 for
/// an absent value, or 1 followed by the byte string.
pub open spec fn scale_option_bytes_all(b: Seq<u8>) -> Option<Option<Seq<u8>>> {
    if b.len() == 0 {
        None
    } else if b[0] == 0 {
        if b.len() == 1 {
            Some(None)
        } else {
            None
        }
    } else if b[0] == 1 {
        match scale_bytes_all(b.subrange(1, b.len() as int)) {
            Some(inner) => Some(Some(inner)),
            None => None,
        }
    } else {
        None
    }
}

/// Relies on `DecodeAll::decode_all` for `frame_metadata::OpaqueMetadata`, a
/// `Vec<u8>` behind a compact length, with nothing left over.
#[verifier::external_body]
pub(crate) fn decode_opaque_all(b: &[u8]) -> (r: Result<Vec<u8>, parity_scale_codec::Error>)
    ensures
        r matches Ok(v) ==> scale_bytes_all(b@) == Some(v@),
        r is Err ==> scale_bytes_all(b@) is None,
{
    frame_metadata::OpaqueMetadata::decode_all(&mut &*b).map(|o| o.0)
}

/// Relies on `DecodeAll::decode_all` for `Option<frame_metadata::OpaqueMetadata>`,
/// with nothing left over.
#[verifier::external_body]
pub(crate) fn decode_option_opaque_all(b: &[u8]) -> (r: Result<
    Option<Vec<u8>>,
    parity_scale_codec::Error,
>)
    ensures
        r matches Ok(v) ==> scale_option_bytes_all(b@) == Some(
            match v {
                Some(x) => Some(x@),
                None => None,
            },
        ),
        r is Err ==> scale_option_bytes_all(b@) is None,
{
    Option::<frame_metadata::OpaqueMetadata>::decode_all(&mut &*b).map(|o| o.map(|x| x.0))
}

/// The compact encoding of a `u32` value `n`: the shortest of the four modes
/// that holds it.
pub open spec fn compact_u32_encoding(n: nat) -> Seq<u8> {
    if n < 64 {
        seq![(4 * n) as u8]
    } else if n < 16384 {
        let v = 4 * n + 1;
        seq![(v % 256) as u8, (v / 256) as u8]
    } else if n < 0x4000_0000 {
        let v = 4 * n + 2;
        seq![(v % 256) as u8, (v / 256 % 256) as u8, (v / 65536 % 256) as u8, (v / 16777216) as u8]
    } else {
        seq![3u8, (n % 256) as u8, (n / 256 % 256) as u8, (n / 65536 % 256) as u8, (n / 16777216) as u8]
    }
}

/// A length-prefixed byte string holding `x`.
pub open spec fn scale_bytes_encoding(x: Seq<u8>) -> Seq<u8> {
    compact_u32_encoding(x.len()) + x
}

/// An optional length-prefixed byte string holding `x`.
pub open spec fn scale_option_bytes_encoding(x: Seq<u8>) -> Seq<u8> {
    seq![1u8] + scale_bytes_encoding(x)
}

proof fn lemma_le4(v: nat)
    requires
        v < 0x1_0000_0000,
    ensures
        (v % 256) + 256 * (v / 256 % 256) + 65536 * (v / 65536 % 256) + 16777216 * (v / 16777216)
            == v,
        v / 16777216 < 256,
{
    assert((v % 256) + 256 * (v / 256 % 256) + 65536 * (v / 65536 % 256) + 16777216 * (v
        / 16777216) == v) by (nonlinear_arith)
        requires
            v < 0x1_0000_0000,
    ;
}

/// A compact `u32` is read back whole from the front of any longer sequence.
pub proof fn lemma_compact_u32_prefix_of_encoding(n: nat, rest: Seq<u8>)
    requires
        n < 0x1_0000_0000,
    ensures
        compact_u32_prefix(compact_u32_encoding(n) + rest) == Some(
            (n, compact_u32_encoding(n).len()),
        ),
{
    let e = compact_u32_encoding(n);
    let b = e + rest;
    if n < 64 {
        assert(b[0] == 4 * n);
        assert((4 * n) % 4 == 0 && (4 * n) / 4 == n) by (nonlinear_arith);
    } else if n < 16384 {
        let v = 4 * n + 1;
        assert(b[0] == v % 256 && b[1] == v / 256);
        assert((v % 256) + 256 * (v / 256) == v) by (nonlinear_arith);
        assert((v % 256) % 4 == 1) by (nonlinear_arith)
            requires
                v == 4 * n + 1,
        ;
        assert(v / 4 == n) by (nonlinear_arith)
            requires
                v == 4 * n + 1,
        ;
    } else if n < 0x4000_0000 {
        let v = 4 * n + 2;
        lemma_le4(v);
        assert(b[0] == v % 256 && b[1] == v / 256 % 256 && b[2] == v / 65536 % 256 && b[3] == v
            / 16777216);
        assert(le_u32_at(b, 0) == v);
        assert((v % 256) % 4 == 2) by (nonlinear_arith)
            requires
                v == 4 * n + 2,
        ;
        assert(v / 4 == n) by (nonlinear_arith)
            requires
                v == 4 * n + 2,
        ;
    } else {
        lemma_le4(n);
        assert(b[0] == 3 && b[1] == n % 256 && b[2] == n / 256 % 256 && b[3] == n / 65536 % 256
            && b[4] == n / 16777216);
        assert(le_u32_at(b, 1) == n);
    }
}

/// Reading a length-prefixed byte string gives back what was written.
pub proof fn lemma_scale_bytes_round_trip(x: Seq<u8>)
    requires
        x.len() < 0x1_0000_0000,
    ensures
        scale_bytes_all(scale_bytes_encoding(x)) == Some(x),
{
    let e = compact_u32_encoding(x.len());
    lemma_compact_u32_prefix_of_encoding(x.len(), x);
    assert((e + x).subrange(e.len() as int, (e + x).len() as int) =~= x);
}

/// Reading an optional length-prefixed byte string gives back what was written.
pub proof fn lemma_scale_option_bytes_round_trip(x: Seq<u8>)
    requires
        x.len() < 0x1_0000_0000,
    ensures
        scale_option_bytes_all(scale_option_bytes_encoding(x)) == Some(Some(x)),
{
    let b = scale_option_bytes_encoding(x);
    lemma_scale_bytes_round_trip(x);
    assert(b.subrange(1, b.len() as int) =~= scale_bytes_encoding(x));
}

} // verus!
