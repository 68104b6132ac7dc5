//! The metadata digest and inclusion proofs, produced by `merkleized_metadata`
//! from decoded metadata, and their hashes as hex text.
use vstd::prelude::*;
use vstd::slice::slice_to_vec;
use vstd::utf8::encode_utf8;
use crate::metadata::{decode_hex, hex_bytes, is_hex_text, RuntimeMetadata};

verus! {

/// The ASCII lower-case hex digit for `d`, which is below 16.
pub open spec fn lower_hex_digit(d: nat) -> char {
    if d < 10 {
        (48 + d) as char
    } else {
        (87 + d) as char
    }
}

/// The lower-case hex text of `b`: two digits for each byte, the high digit
/// first.
pub open spec fn lower_hex(b: Seq<u8>) -> Seq<char> {
    Seq::new(
        2 * b.len(),
        |i: int|
            if i % 2 == 0 {
                lower_hex_digit((b[i / 2] / 16) as nat)
            } else {
                lower_hex_digit((b[i / 2] % 16) as nat)
            },
    )
}

/// Relies on `hex::encode`: lower-case digits, the high one first.
#[verifier::external_body]
pub(crate) fn encode_hex(b: &[u8]) -> (r: String)
    ensures
        r@ == lower_hex(b@),
{
    hex::encode(b)
}

/// What identifies the chain: its spec version and name, its address prefix,
/// and its token's decimals and symbol.
pub struct ExtraInfo {
    pub spec_version: u32,
    pub spec_name: String,
    pub base58_prefix: u16,
    pub decimals: u8,
    pub token_symbol: String,
}

impl ExtraInfo {
    pub fn from_opts(
        spec_version: u32,
        spec_name: String,
        base58_prefix: u16,
        decimals: u8,
        token_symbol: String,
    ) -> (r: ExtraInfo)
        ensures
            r.spec_version == spec_version,
            r.spec_name@ == spec_name@,
            r.base58_prefix == base58_prefix,
            r.decimals == decimals,
            r.token_symbol@ == token_symbol@,
    {
        ExtraInfo { spec_version, spec_name, base58_prefix, decimals, token_symbol }
    }
}

/// A metadata digest, held by its hash.
pub struct MetadataDigest {
    pub hash: Vec<u8>,
}

impl MetadataDigest {
    /// The digest's hash as lower-case hex.
    pub fn hash(&self) -> (r: String)
        ensures
            r@ == lower_hex(self.hash@),
    {
        encode_hex(self.hash.as_slice())
    }
}

/// A type that a proof reveals, held by its hash and its id.
pub struct Type {
    pub hash: Vec<u8>,
    pub type_id: u32,
}

impl Type {
    /// The type's hash as lower-case hex.
    pub fn hash(&self) -> (r: String)
        ensures
            r@ == lower_hex(self.hash@),
    {
        encode_hex(self.hash.as_slice())
    }

    pub fn type_id(&self) -> (r: u32)
        ensures
            r == self.type_id,
    {
        self.type_id
    }
}

/// A proof: the types it reveals, their places among the leaves, and the
/// hashes of the nodes that cannot be computed from them.
pub struct Proof {
    pub leaves: Vec<Type>,
    pub leaf_indices: Vec<u32>,
    pub nodes: Vec<Vec<u8>>,
}

/// What a proof holds: each leaf's hash and id, the leaf indices, and the
/// node hashes.
pub type ProofParts = (Seq<(Seq<u8>, u32)>, Seq<u32>, Seq<Seq<u8>>);

impl Proof {
    pub open spec fn parts(&self) -> ProofParts {
        (
            self.leaves@.map_values(|t: Type| (t.hash@, t.type_id)),
            self.leaf_indices@,
            self.nodes@.map_values(|n: Vec<u8>| n@),
        )
    }

    pub fn leaves(&self) -> (r: Vec<Type>)
        ensures
            r@.len() == self.leaves@.len(),
            forall|i: int|
                0 <= i < r@.len() ==> (#[trigger] r@[i]).hash@ == self.leaves@[i].hash@
                    && r@[i].type_id == self.leaves@[i].type_id,
    {
        let mut r: Vec<Type> = Vec::new();
        let mut i: usize = 0;
        while i < self.leaves.len()
            invariant
                i <= self.leaves@.len(),
                r@.len() == i,
                forall|j: int|
                    0 <= j < i ==> (#[trigger] r@[j]).hash@ == self.leaves@[j].hash@
                        && r@[j].type_id == self.leaves@[j].type_id,
            decreases self.leaves@.len() - i,
        {
            let t = &self.leaves[i];
            r.push(Type { hash: slice_to_vec(t.hash.as_slice()), type_id: t.type_id });
            i = i + 1;
        }
        r
    }

    pub fn leaf_indices(&self) -> (r: Vec<u32>)
        ensures
            r@ == self.leaf_indices@,
    {
        slice_to_vec(self.leaf_indices.as_slice())
    }

    /// The node hashes as lower-case hex, in order.
    pub fn nodes(&self) -> (r: Vec<String>)
        ensures
            r@.len() == self.nodes@.len(),
            forall|i: int| 0 <= i < r@.len() ==> (#[trigger] r@[i])@ == lower_hex(self.nodes@[i]@),
    {
        let mut r: Vec<String> = Vec::new();
        let mut i: usize = 0;
        while i < self.nodes.len()
            invariant
                i <= self.nodes@.len(),
                r@.len() == i,
                forall|j: int|
                    0 <= j < i ==> (#[trigger] r@[j])@ == lower_hex(self.nodes@[j]@),
            decreases self.nodes@.len() - i,
        {
            r.push(encode_hex(self.nodes[i].as_slice()));
            i = i + 1;
        }
        r
    }
}

/// The hex text of the parts of a signed extrinsic that a proof covers.
pub struct SignedExtrinsicData {
    pub in_extrinsic_hex: String,
    pub in_signed_data_hex: String,
}

impl SignedExtrinsicData {
    pub fn from_bytes(in_extrinsic_hex: String, in_signed_data_hex: String) -> (r:
        SignedExtrinsicData)
        ensures
            r.in_extrinsic_hex@ == in_extrinsic_hex@,
            r.in_signed_data_hex@ == in_signed_data_hex@,
    {
        SignedExtrinsicData { in_extrinsic_hex, in_signed_data_hex }
    }
}

/// The hash of the digest that `merkleized_metadata` makes of the metadata
/// whose record bytes after the tag are `metadata`, for these chain options,
/// or its error text.
pub uninterp spec fn metadata_digest_of(
    metadata: Seq<u8>,
    spec_version: u32,
    spec_name: Seq<char>,
    base58_prefix: u16,
    decimals: u8,
    token_symbol: Seq<char>,
) -> Result<Seq<u8>, Seq<char>>;

/// What `metadata_digest_of` gives for `metadata` and `info`.
pub open spec fn digest_for(metadata: &RuntimeMetadata, info: &ExtraInfo) -> Result<
    Seq<u8>,
    Seq<char>,
> {
    metadata_digest_of(
        metadata.source(),
        info.spec_version,
        info.spec_name@,
        info.base58_prefix,
        info.decimals,
        info.token_symbol@,
    )
}

/// The engine walks the metadata's type registry recursively, with no depth
/// limit: a registry nested deeper than the thread's stack allows overflows
/// it. How deep that is depends on the machine, not on the arguments, so no
/// `requires` here can leave such input out.
///
/// Relies on `merkleized_metadata::generate_metadata_digest`, and on
/// `MetadataDigest::hash` for the 32-byte hash that stands for the digest:
/// both depend on their arguments alone.
#[verifier::external_body]
fn metadata_digest_hash(metadata: &RuntimeMetadata, info: ExtraInfo) -> (r: Result<
    Vec<u8>,
    String,
>)
    ensures
        r matches Ok(h) ==> h@.len() == 32 && (metadata_digest_of(
            metadata.source(),
            info.spec_version,
            info.spec_name@,
            info.base58_prefix,
            info.decimals,
            info.token_symbol@,
        ) matches Ok(x) && x == h@),
        r matches Err(e) ==> (metadata_digest_of(
            metadata.source(),
            info.spec_version,
            info.spec_name@,
            info.base58_prefix,
            info.decimals,
            info.token_symbol@,
        ) matches Err(x) && x == e@),
{
    let info = merkleized_metadata::ExtraInfo {
        spec_version: info.spec_version,
        spec_name: info.spec_name,
        base58_prefix: info.base58_prefix,
        decimals: info.decimals,
        token_symbol: info.token_symbol,
    };
    merkleized_metadata::generate_metadata_digest(&metadata.record().1, info).map(|d| d.hash().to_vec())
}

/// The digest of `metadata` for the chain options `extra_info`, held by its
/// hash, or the generator's error text.
pub fn generate_metadata_digest(metadata: &RuntimeMetadata, extra_info: ExtraInfo) -> (r: Result<
    MetadataDigest,
    String,
>)
    ensures
        r matches Ok(d) ==> d.hash@.len() == 32 && (digest_for(metadata, &extra_info) matches Ok(
            x,
        ) && x == d.hash@),
        r matches Err(e) ==> (digest_for(metadata, &extra_info) matches Err(x) && x == e@),
{
    match metadata_digest_hash(metadata, extra_info) {
        Ok(hash) => Ok(MetadataDigest { hash }),
        Err(e) => Err(e),
    }
}

/// Why a proof could not be produced.
#[derive(Debug)]
pub enum ProofError {
    InvalidExtrinsicHex,
    InvalidAdditionalSignedHex,
    InvalidCallHex,
    InvalidInExtrinsicHex,
    InvalidInSignedDataHex,
    /// The proof generator refused the input, for this reason.
    Generation(String),
}

/// Whether the text `s` is hex, with no `0x` in front.
pub open spec fn is_hex_string(s: Seq<char>) -> bool {
    is_hex_text(encode_utf8(s))
}

/// The proof that `merkleized_metadata` makes for an extrinsic and the data
/// its signature covers beyond it, under the metadata whose record bytes
/// after the tag are `metadata`, or its error text.
pub uninterp spec fn proof_of(
    extrinsic: Seq<u8>,
    additional_signed: Option<Seq<u8>>,
    metadata: Seq<u8>,
) -> Result<ProofParts, Seq<char>>;

/// The proof that `merkleized_metadata` makes for a call and the two parts of
/// the signed extension data, if given, or its error text.
pub uninterp spec fn proof_parts_of(
    call: Seq<u8>,
    signed: Option<(Seq<u8>, Seq<u8>)>,
    metadata: Seq<u8>,
) -> Result<ProofParts, Seq<char>>;

/// `r` holds what `expected` describes: the same proof, or the generator's
/// error text.
pub open spec fn proof_returned<E>(r: Result<Proof, E>, expected: Result<ProofParts, Seq<char>>, err: spec_fn(E) -> Option<Seq<char>>) -> bool {
    match r {
        Ok(p) => expected == Ok::<ProofParts, Seq<char>>(p.parts()),
        Err(e) => err(e) matches Some(t) && expected == Err::<ProofParts, Seq<char>>(t),
    }
}

/// The engine walks the metadata's type registry recursively, with no depth
/// limit: a registry nested deeper than the thread's stack allows overflows
/// it. How deep that is depends on the machine, not on the arguments, so no
/// `requires` here can leave such input out.
///
/// Relies on `merkleized_metadata::generate_proof_for_extrinsic`; each leaf is
/// kept as its `Type::hash` and its id, each node as its bytes. The result
/// depends on the arguments alone.
#[verifier::external_body]
fn proof_for_extrinsic(
    extrinsic: &[u8],
    additional_signed: Option<&[u8]>,
    metadata: &RuntimeMetadata,
) -> (r: Result<Proof, String>)
    ensures
        proof_returned(
            r,
            proof_of(
                extrinsic@,
                match additional_signed {
                    Some(a) => Some(a@),
                    None => None,
                },
                metadata.source(),
            ),
            |e: String| Some(e@),
        ),
{
    merkleized_metadata::generate_proof_for_extrinsic(extrinsic, additional_signed, &metadata.record().1)
        .map(|p| Proof {
            leaves: p.leaves.iter().map(|t| Type { hash: t.hash().to_vec(), type_id: t.type_id.0 }).collect(),
            leaf_indices: p.leaf_indices,
            nodes: p.nodes.iter().map(|h| h.to_vec()).collect(),
        })
}

/// The engine walks the metadata's type registry recursively, with no depth
/// limit: a registry nested deeper than the thread's stack allows overflows
/// it. How deep that is depends on the machine, not on the arguments, so no
/// `requires` here can leave such input out.
///
/// Relies on `merkleized_metadata::generate_proof_for_extrinsic_parts`; each
/// leaf is kept as its `Type::hash` and its id, each node as its bytes. The
/// result depends on the arguments alone.
#[verifier::external_body]
fn proof_for_extrinsic_parts(
    call: &[u8],
    signed: Option<(&[u8], &[u8])>,
    metadata: &RuntimeMetadata,
) -> (r: Result<Proof, String>)
    ensures
        proof_returned(
            r,
            proof_parts_of(
                call@,
                match signed {
                    Some((e, s)) => Some((e@, s@)),
                    None => None,
                },
                metadata.source(),
            ),
            |e: String| Some(e@),
        ),
{
    let signed = signed.map(|(e, s)| merkleized_metadata::SignedExtrinsicData {
        included_in_extrinsic: e,
        included_in_signed_data: s,
    });
    merkleized_metadata::generate_proof_for_extrinsic_parts(call, signed, &metadata.record().1)
        .map(|p| Proof {
            leaves: p.leaves.iter().map(|t| Type { hash: t.hash().to_vec(), type_id: t.type_id.0 }).collect(),
            leaf_indices: p.leaf_indices,
            nodes: p.nodes.iter().map(|h| h.to_vec()).collect(),
        })
}

/// A proof for an encoded extrinsic, given as hex, and for the data that its
/// signature covers beyond it, if given.
pub fn generate_proof_for_extrinsic(
    extrinsic_hex: String,
    additional_signed_hex: Option<String>,
    metadata: &RuntimeMetadata,
) -> (r: Result<Proof, ProofError>)
    ensures
        !is_hex_string(extrinsic_hex@) ==> r matches Err(ProofError::InvalidExtrinsicHex),
        additional_signed_hex matches Some(a) ==> (is_hex_string(extrinsic_hex@) && !is_hex_string(
            a@,
        ) ==> r matches Err(ProofError::InvalidAdditionalSignedHex)),
        is_hex_string(extrinsic_hex@) && (additional_signed_hex matches Some(a) ==> is_hex_string(
            a@,
        )) ==> proof_returned(
            r,
            proof_of(
                hex_bytes(encode_utf8(extrinsic_hex@)),
                match additional_signed_hex {
                    Some(a) => Some(hex_bytes(encode_utf8(a@))),
                    None => None,
                },
                metadata.source(),
            ),
            |e: ProofError|
                match e {
                    ProofError::Generation(t) => Some(t@),
                    _ => None,
                },
        ),
{
    let extrinsic = match decode_hex(extrinsic_hex.as_str().as_bytes()) {
        Ok(b) => b,
        Err(_) => {
            return Err(ProofError::InvalidExtrinsicHex);
        },
    };
    let additional_signed = match &additional_signed_hex {
        Some(a) => match decode_hex(a.as_str().as_bytes()) {
            Ok(b) => Some(b),
            Err(_) => {
                return Err(ProofError::InvalidAdditionalSignedHex);
            },
        },
        None => None,
    };
    let additional = match &additional_signed {
        Some(b) => Some(b.as_slice()),
        None => None,
    };
    match proof_for_extrinsic(extrinsic.as_slice(), additional, metadata) {
        Ok(p) => Ok(p),
        Err(e) => Err(ProofError::Generation(e)),
    }
}

/// A proof for a call, given as hex, and for the signed extension data, whose
/// two parts are hex too, if given.
pub fn generate_proof_for_extrinsic_parts(
    call_hex: String,
    signed_ext_data: Option<SignedExtrinsicData>,
    metadata: &RuntimeMetadata,
) -> (r: Result<Proof, ProofError>)
    ensures
        !is_hex_string(call_hex@) ==> r matches Err(ProofError::InvalidCallHex),
        signed_ext_data matches Some(d) ==> (is_hex_string(call_hex@) && !is_hex_string(
            d.in_extrinsic_hex@,
        ) ==> r matches Err(ProofError::InvalidInExtrinsicHex)),
        signed_ext_data matches Some(d) ==> (is_hex_string(call_hex@) && is_hex_string(
            d.in_extrinsic_hex@,
        ) && !is_hex_string(d.in_signed_data_hex@) ==> r matches Err(
            ProofError::InvalidInSignedDataHex,
        )),
        is_hex_string(call_hex@) && (signed_ext_data matches Some(d) ==> is_hex_string(
            d.in_extrinsic_hex@,
        ) && is_hex_string(d.in_signed_data_hex@)) ==> proof_returned(
            r,
            proof_parts_of(
                hex_bytes(encode_utf8(call_hex@)),
                match signed_ext_data {
                    Some(d) => Some(
                        (
                            hex_bytes(encode_utf8(d.in_extrinsic_hex@)),
                            hex_bytes(encode_utf8(d.in_signed_data_hex@)),
                        ),
                    ),
                    None => None,
                },
                metadata.source(),
            ),
            |e: ProofError|
                match e {
                    ProofError::Generation(t) => Some(t@),
                    _ => None,
                },
        ),
{
    let call = match decode_hex(call_hex.as_str().as_bytes()) {
        Ok(b) => b,
        Err(_) => {
            return Err(ProofError::InvalidCallHex);
        },
    };
    let parts = match &signed_ext_data {
        Some(d) => {
            let e = match decode_hex(d.in_extrinsic_hex.as_str().as_bytes()) {
                Ok(b) => b,
                Err(_) => {
                    return Err(ProofError::InvalidInExtrinsicHex);
                },
            };
            let s = match decode_hex(d.in_signed_data_hex.as_str().as_bytes()) {
                Ok(b) => b,
                Err(_) => {
                    return Err(ProofError::InvalidInSignedDataHex);
                },
            };
            Some((e, s))
        },
        None => None,
    };
    let signed = match &parts {
        Some((e, s)) => Some((e.as_slice(), s.as_slice())),
        None => None,
    };
    match proof_for_extrinsic_parts(call.as_slice(), signed, metadata) {
        Ok(p) => Ok(p),
        Err(e) => Err(ProofError::Generation(e)),
    }
}

} // verus!
