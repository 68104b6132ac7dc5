use merkleized_metadata_sys::digest::{
    generate_metadata_digest, generate_proof_for_extrinsic, generate_proof_for_extrinsic_parts,
    ExtraInfo, MetadataDigest, Proof, ProofError, SignedExtrinsicData, Type,
};
use merkleized_metadata_sys::metadata::RuntimeMetadata;

fn old_metadata() -> RuntimeMetadata {
    RuntimeMetadata::from_hex("6d6574610800").unwrap()
}

#[test]
fn extra_info_keeps_options() {
    let e = ExtraInfo::from_opts(1002, "polkadot".to_string(), 0, 10, "DOT".to_string());
    assert_eq!(e.spec_version, 1002);
    assert_eq!(e.spec_name, "polkadot");
    assert_eq!(e.base58_prefix, 0);
    assert_eq!(e.decimals, 10);
    assert_eq!(e.token_symbol, "DOT");
}

#[test]
fn signed_extrinsic_data_keeps_hex() {
    let d = SignedExtrinsicData::from_bytes("00".to_string(), "0102".to_string());
    assert_eq!(d.in_extrinsic_hex, "00");
    assert_eq!(d.in_signed_data_hex, "0102");
}

#[test]
fn digest_hash_is_lower_hex() {
    let d = MetadataDigest { hash: vec![0x00, 0x1f, 0xab, 0xff] };
    assert_eq!(d.hash(), "001fabff");
}

#[test]
fn type_hash_and_id() {
    let t = Type { hash: vec![0xde, 0xad], type_id: 7 };
    assert_eq!(t.hash(), "dead");
    assert_eq!(t.type_id(), 7);
}

#[test]
fn proof_accessors() {
    let p = Proof {
        leaves: vec![Type { hash: vec![1], type_id: 3 }, Type { hash: vec![2], type_id: 9 }],
        leaf_indices: vec![0, 5],
        nodes: vec![vec![0x0a, 0xb0], vec![]],
    };
    let leaves = p.leaves();
    assert_eq!(leaves.len(), 2);
    assert_eq!(leaves[1].type_id(), 9);
    assert_eq!(leaves[0].hash(), "01");
    assert_eq!(p.leaf_indices(), vec![0, 5]);
    assert_eq!(p.nodes(), vec!["0ab0".to_string(), String::new()]);
}

#[test]
fn digest_of_old_metadata_fails() {
    let e = ExtraInfo::from_opts(1, "x".to_string(), 42, 12, "X".to_string());
    assert!(generate_metadata_digest(&old_metadata(), e).is_err());
}

#[test]
fn proof_rejects_bad_extrinsic_hex() {
    let r = generate_proof_for_extrinsic("0g".to_string(), None, &old_metadata());
    assert!(matches!(r, Err(ProofError::InvalidExtrinsicHex)));
}

#[test]
fn proof_rejects_bad_additional_signed_hex() {
    let r = generate_proof_for_extrinsic("00".to_string(), Some("123".to_string()), &old_metadata());
    assert!(matches!(r, Err(ProofError::InvalidAdditionalSignedHex)));
}

#[test]
fn proof_of_old_metadata_is_refused_by_generator() {
    let r = generate_proof_for_extrinsic("00".to_string(), Some("".to_string()), &old_metadata());
    assert!(matches!(r, Err(ProofError::Generation(_))));
}

#[test]
fn proof_parts_reject_bad_call_hex() {
    let r = generate_proof_for_extrinsic_parts("x".to_string(), None, &old_metadata());
    assert!(matches!(r, Err(ProofError::InvalidCallHex)));
}

#[test]
fn proof_parts_reject_bad_in_extrinsic_hex() {
    let d = SignedExtrinsicData::from_bytes("zz".to_string(), "00".to_string());
    let r = generate_proof_for_extrinsic_parts("00".to_string(), Some(d), &old_metadata());
    assert!(matches!(r, Err(ProofError::InvalidInExtrinsicHex)));
}

#[test]
fn proof_parts_reject_bad_in_signed_data_hex() {
    let d = SignedExtrinsicData::from_bytes("00".to_string(), "0".to_string());
    let r = generate_proof_for_extrinsic_parts("00".to_string(), Some(d), &old_metadata());
    assert!(matches!(r, Err(ProofError::InvalidInSignedDataHex)));
}

#[test]
fn proof_parts_of_old_metadata_is_refused_by_generator() {
    let r = generate_proof_for_extrinsic_parts("00".to_string(), None, &old_metadata());
    assert!(matches!(r, Err(ProofError::Generation(_))));
}

