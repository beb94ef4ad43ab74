use bridge_core::crypto::BridgeCrypto;
use bridge_core::types::{Bytes32, Proposal};
use sha2::{Digest, Sha256};

const DOMAIN_TYPE_HASH: &[u8] = b"EIP712Domain(string name,string version)";
const PROPOSALS_TYPE_HASH: &[u8] = b"Proposals(Proposal[] proposals)Proposal(uint8 originDomainID,uint64 depositNonce,bytes32 resourceID,bytes data)";
const PROPOSAL_TYPE_HASH: &[u8] =
    b"Proposal(uint8 originDomainID,uint64 depositNonce,bytes32 resourceID,bytes data)";

fn sha(parts: &[&[u8]]) -> Vec<u8> {
    let mut hasher = Sha256::new();
    for part in parts {
        hasher.update(part);
    }
    hasher.finalize().to_vec()
}

#[test]
fn typed_data_digest_known_answer() {
    let crypto = BridgeCrypto::new("Bridge", "3.1.0");
    let proposal = Proposal {
        origin_domain_id: 2,
        deposit_nonce: 1,
        resource_id: Bytes32 { bytes: [0u8; 32] },
        data: vec![0xBE, 0xEF],
    };
    let digest = crypto.hash_typed_data(&vec![proposal]).unwrap();

    let domain_separator = sha(&[DOMAIN_TYPE_HASH, b"Bridge", b"3.1.0"]);
    let proposal_hash = sha(&[
        PROPOSAL_TYPE_HASH,
        &[2u8],
        &1u64.to_be_bytes(),
        &[0u8; 32],
        &[0xBE, 0xEF],
    ]);
    let batch_hash = sha(&[PROPOSALS_TYPE_HASH, &proposal_hash]);
    let expected = sha(&[&domain_separator, &batch_hash]);
    assert_eq!(digest.bytes.to_vec(), expected);
}

#[test]
fn digest_depends_on_every_field() {
    let crypto = BridgeCrypto::new("Bridge", "3.1.0");
    let base = Proposal {
        origin_domain_id: 2,
        deposit_nonce: 1,
        resource_id: Bytes32 { bytes: [0u8; 32] },
        data: vec![0xBE, 0xEF],
    };
    let d0 = crypto.hash_typed_data(&vec![base.clone()]).unwrap().bytes;
    let mut p = base.clone();
    p.origin_domain_id = 3;
    assert_ne!(crypto.hash_typed_data(&vec![p]).unwrap().bytes, d0);
    let mut p = base.clone();
    p.deposit_nonce = 2;
    assert_ne!(crypto.hash_typed_data(&vec![p]).unwrap().bytes, d0);
    let mut p = base.clone();
    p.resource_id = Bytes32 { bytes: [1u8; 32] };
    assert_ne!(crypto.hash_typed_data(&vec![p]).unwrap().bytes, d0);
    let mut p = base;
    p.data = vec![0xBE, 0xEE];
    assert_ne!(crypto.hash_typed_data(&vec![p]).unwrap().bytes, d0);
}

#[test]
fn domain_separator_binds_name_and_version() {
    let a = BridgeCrypto::new("Bridge", "3.1.0");
    let b = BridgeCrypto::new("Bridge", "3.1.1");
    let proposal = Proposal {
        origin_domain_id: 2,
        deposit_nonce: 1,
        resource_id: Bytes32 { bytes: [0u8; 32] },
        data: Vec::new(),
    };
    let da = a.hash_typed_data(&vec![proposal.clone()]).unwrap().bytes;
    let db = b.hash_typed_data(&vec![proposal]).unwrap().bytes;
    assert_ne!(da, db);
}

#[test]
fn crypto_core_signer_slot() {
    let mut crypto = BridgeCrypto::new("Bridge", "3.1.0");
    assert!(crypto.get_mpc_address().is_none());
    let address = bridge_core::types::Address { bytes: [0x11; 20] };
    crypto.set_mpc_address(address);
    assert_eq!(crypto.get_mpc_address().unwrap().bytes, [0x11; 20]);
}

#[test]
fn verify_without_signer_fails() {
    let crypto = BridgeCrypto::new("Bridge", "3.1.0");
    let err = crypto.verify(&Vec::new(), &vec![0u8; 65]).unwrap_err();
    assert!(matches!(err, bridge_core::error::BridgeError::MPCAddressNotSet));
}
