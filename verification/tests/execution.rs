use bridge_core::bridge::Bridge;
use bridge_core::crypto::BridgeCrypto;
use bridge_core::doubles::{DummyAccessControl, DummyFeeHandler, EchoHandler, FailOnDataHandler};
use bridge_core::error::BridgeError;
use bridge_core::handler::ERC20Handler;
use bridge_core::traits::Handler;
use bridge_core::types::{Address, Bytes32, DepositStatus, Proposal};

fn addr(byte: u8) -> Address {
    Address { bytes: [byte; 20] }
}

fn rid(byte: u8) -> Bytes32 {
    Bytes32 { bytes: [byte; 32] }
}

fn test_key() -> k256::ecdsa::SigningKey {
    k256::ecdsa::SigningKey::from_slice(&[0x42u8; 32]).unwrap()
}

fn signer_address(key: &k256::ecdsa::SigningKey) -> Address {
    let point = key.verifying_key().to_sec1_point(false);
    let hash = ethers_core::utils::keccak256(&point.as_bytes()[1..]);
    let mut bytes = [0u8; 20];
    bytes.copy_from_slice(&hash[12..]);
    Address { bytes }
}

fn sign_batch(key: &k256::ecdsa::SigningKey, proposals: &Vec<Proposal>) -> Vec<u8> {
    let crypto = BridgeCrypto::new("Bridge", "3.1.0");
    let digest = crypto.hash_typed_data(proposals).unwrap();
    let (signature, recovery_id) = key.sign_prehash_recoverable(&digest.bytes);
    let mut out = signature.to_bytes().to_vec();
    out.push(27 + recovery_id.to_byte());
    out
}

fn proposal(origin: u8, nonce: u64, resource: Bytes32, data: Vec<u8>) -> Proposal {
    Proposal { origin_domain_id: origin, deposit_nonce: nonce, resource_id: resource, data }
}

fn signed_echo_bridge() -> (Bridge<DummyAccessControl, EchoHandler, DummyFeeHandler>, k256::ecdsa::SigningKey)
{
    let admin = addr(0x01);
    let key = test_key();
    let mut bridge = Bridge::new(1, DummyAccessControl, admin);
    bridge.set_fee_handler(DummyFeeHandler);
    bridge
        .admin_set_resource(admin, EchoHandler, rid(0x00), addr(0x00), Vec::new())
        .unwrap();
    bridge.end_keygen(admin, signer_address(&key)).unwrap();
    (bridge, key)
}

#[test]
fn execute_then_replay() {
    let (mut bridge, key) = signed_echo_bridge();
    let batch = vec![proposal(2, 1, rid(0x00), vec![0xBE, 0xEF])];
    let signature = sign_batch(&key, &batch);
    let mut rx = bridge.subscribe_to_executions();

    let out = bridge.execute_proposals(batch.clone(), signature.clone()).unwrap();
    assert_eq!(out, vec![0xBE, 0xEF]);
    assert!(bridge.is_proposal_executed(2, 1).unwrap());
    assert_eq!(bridge.execution_records().len(), 1);
    assert_eq!(bridge.execution_records()[0].status, DepositStatus::Executed);
    let event = rx.try_recv().unwrap();
    assert_eq!(event.deposit_nonce, 1);
    assert_eq!(event.status, DepositStatus::Executed);

    let out = bridge.execute_proposals(batch, signature).unwrap();
    assert_eq!(out, Vec::<u8>::new());
    assert!(bridge.is_proposal_executed(2, 1).unwrap());
    assert_eq!(bridge.execution_records().len(), 1);
    assert!(rx.try_recv().is_err());
}

#[test]
fn failure_clears_bit_and_retry_succeeds() {
    let admin = addr(0x01);
    let key = test_key();
    let mut bridge: Bridge<DummyAccessControl, FailOnDataHandler, DummyFeeHandler> =
        Bridge::new(1, DummyAccessControl, admin);
    let broken = FailOnDataHandler {
        fail_data: vec![0xBE, 0xEF],
        message: "handler exploded".to_string(),
    };
    bridge
        .admin_set_resource(admin, broken, rid(0x00), addr(0x00), Vec::new())
        .unwrap();
    bridge.end_keygen(admin, signer_address(&key)).unwrap();

    let batch = vec![proposal(2, 1, rid(0x00), vec![0xBE, 0xEF])];
    let signature = sign_batch(&key, &batch);
    let out = bridge.execute_proposals(batch.clone(), signature.clone()).unwrap();
    assert_eq!(out, Vec::<u8>::new());
    assert!(!bridge.is_proposal_executed(2, 1).unwrap());
    assert_eq!(bridge.execution_records().len(), 1);
    assert_eq!(bridge.execution_records()[0].status, DepositStatus::Failed);
    assert_eq!(
        bridge.execution_records()[0].error_message.as_deref(),
        Some("handler exploded")
    );

    let healed = FailOnDataHandler { fail_data: Vec::new(), message: String::new() };
    bridge
        .admin_set_resource(admin, healed, rid(0x00), addr(0x00), Vec::new())
        .unwrap();
    let out = bridge.execute_proposals(batch, signature).unwrap();
    assert_eq!(out, vec![0xBE, 0xEF]);
    assert!(bridge.is_proposal_executed(2, 1).unwrap());
    assert_eq!(bridge.execution_records().len(), 2);
    assert_eq!(bridge.execution_records()[1].status, DepositStatus::Executed);
}

#[test]
fn batch_partial_success() {
    let admin = addr(0x01);
    let key = test_key();
    let mut bridge: Bridge<DummyAccessControl, FailOnDataHandler, DummyFeeHandler> =
        Bridge::new(1, DummyAccessControl, admin);
    let handler = FailOnDataHandler { fail_data: vec![2], message: "middle failed".to_string() };
    bridge
        .admin_set_resource(admin, handler, rid(0x00), addr(0x00), Vec::new())
        .unwrap();
    bridge.end_keygen(admin, signer_address(&key)).unwrap();

    let batch = vec![
        proposal(2, 1, rid(0x00), vec![1]),
        proposal(2, 2, rid(0x00), vec![2]),
        proposal(2, 3, rid(0x00), vec![3]),
    ];
    let signature = sign_batch(&key, &batch);
    let out = bridge.execute_proposals(batch, signature).unwrap();
    assert_eq!(out, vec![1, 3]);
    let records = bridge.execution_records();
    assert_eq!(records.len(), 3);
    assert_eq!(records[0].status, DepositStatus::Executed);
    assert_eq!(records[1].status, DepositStatus::Failed);
    assert_eq!(records[2].status, DepositStatus::Executed);
    assert_eq!(
        (records[0].deposit_nonce, records[1].deposit_nonce, records[2].deposit_nonce),
        (1, 2, 3)
    );
    assert!(bridge.is_proposal_executed(2, 1).unwrap());
    assert!(!bridge.is_proposal_executed(2, 2).unwrap());
    assert!(bridge.is_proposal_executed(2, 3).unwrap());
}

#[test]
fn wrong_signer_is_rejected_before_any_proposal() {
    let (mut bridge, _key) = signed_echo_bridge();
    let wrong_key = k256::ecdsa::SigningKey::from_slice(&[0x43u8; 32]).unwrap();
    let batch = vec![proposal(2, 1, rid(0x00), vec![0xBE, 0xEF])];
    let signature = sign_batch(&wrong_key, &batch);
    let err = bridge.execute_proposals(batch, signature).unwrap_err();
    assert!(matches!(err, BridgeError::InvalidProposalSigner));
    assert!(!bridge.is_proposal_executed(2, 1).unwrap());
    assert_eq!(bridge.execution_records().len(), 0);
}

#[test]
fn malformed_signature_is_rejected() {
    let (mut bridge, _key) = signed_echo_bridge();
    let batch = vec![proposal(2, 1, rid(0x00), vec![0xBE, 0xEF])];
    let err = bridge.execute_proposals(batch, vec![0u8; 3]).unwrap_err();
    assert!(matches!(err, BridgeError::InvalidProposalSigner));
}

#[test]
fn empty_batch_is_rejected() {
    let (mut bridge, key) = signed_echo_bridge();
    let signature = sign_batch(&key, &Vec::new());
    let err = bridge.execute_proposals(Vec::new(), signature).unwrap_err();
    assert!(matches!(err, BridgeError::EmptyProposalsArray));
}

#[test]
fn unmapped_resource_aborts_batch_keeping_committed_work() {
    let (mut bridge, key) = signed_echo_bridge();
    let batch = vec![
        proposal(2, 1, rid(0x00), vec![1]),
        proposal(2, 2, rid(0x77), vec![2]),
        proposal(2, 3, rid(0x00), vec![3]),
    ];
    let signature = sign_batch(&key, &batch);
    let err = bridge.execute_proposals(batch, signature).unwrap_err();
    assert!(matches!(err, BridgeError::ResourceIDNotMappedToHandler));
    assert!(bridge.is_proposal_executed(2, 1).unwrap());
    assert!(!bridge.is_proposal_executed(2, 2).unwrap());
    assert!(!bridge.is_proposal_executed(2, 3).unwrap());
    assert_eq!(bridge.execution_records().len(), 1);
}

#[test]
fn execute_single_proposal_convenience() {
    let (mut bridge, key) = signed_echo_bridge();
    let p = proposal(2, 9, rid(0x00), vec![0xAB]);
    let signature = sign_batch(&key, &vec![p.clone()]);
    let out = bridge.execute_proposal(p, signature).unwrap();
    assert_eq!(out, vec![0xAB]);
    assert!(bridge.is_proposal_executed(2, 9).unwrap());
}

#[test]
fn bitmap_page_boundaries() {
    let (mut bridge, key) = signed_echo_bridge();
    let batch = vec![
        proposal(7, 300, rid(0x00), vec![1]),
        proposal(7, 255, rid(0x00), vec![2]),
        proposal(7, 256, rid(0x00), vec![3]),
    ];
    let signature = sign_batch(&key, &batch);
    bridge.execute_proposals(batch, signature).unwrap();
    assert!(bridge.is_proposal_executed(7, 300).unwrap());
    assert!(bridge.is_proposal_executed(7, 255).unwrap());
    assert!(bridge.is_proposal_executed(7, 256).unwrap());
    assert!(!bridge.is_proposal_executed(7, 44).unwrap());
    assert!(!bridge.is_proposal_executed(7, 299).unwrap());
    assert!(!bridge.is_proposal_executed(8, 300).unwrap());
}

#[test]
fn erc20_handler_behaviour() {
    let admin = addr(0x01);
    let key = test_key();
    let mut handler = ERC20Handler::new(addr(0x55));
    handler.set_burnable(&addr(0x66)).unwrap();
    assert!(handler.is_burnable(&addr(0x66)));
    assert!(!handler.is_burnable(&addr(0x67)));
    let mut bridge: Bridge<DummyAccessControl, ERC20Handler, DummyFeeHandler> =
        Bridge::new(1, DummyAccessControl, admin);
    bridge
        .admin_set_resource(admin, handler, rid(0x00), addr(0x00), Vec::new())
        .unwrap();
    bridge.end_keygen(admin, signer_address(&key)).unwrap();
    let (nonce, response) = bridge
        .deposit(addr(0x0A), 2, rid(0x00), vec![1, 2], Vec::new(), bridge_core::types::Uint256::zero())
        .unwrap();
    assert_eq!(nonce, 1);
    assert_eq!(response, Vec::<u8>::new());
    let batch = vec![proposal(2, 1, rid(0x00), vec![3, 4])];
    let signature = sign_batch(&key, &batch);
    let out = bridge.execute_proposals(batch, signature).unwrap();
    assert_eq!(out, Vec::<u8>::new());
    assert!(bridge.is_proposal_executed(2, 1).unwrap());
}

#[test]
fn erc20_registries_record_forwarded_calls() {
    let admin = addr(0x01);
    let mut routed = ERC20Handler::new(addr(0x55));
    routed.set_resource(&rid(0x02), &addr(0x20), &Vec::new()).unwrap();
    assert_eq!(routed.resource_contract(&rid(0x02)).unwrap().bytes, [0x20; 20]);
    assert!(routed.resource_contract(&rid(0x03)).is_none());

    let mut bridge: Bridge<DummyAccessControl, ERC20Handler, DummyFeeHandler> =
        Bridge::new(1, DummyAccessControl, admin);
    let mut sidecar = ERC20Handler::new(addr(0x55));
    bridge
        .admin_set_burnable(admin, &mut sidecar, addr(0x77))
        .unwrap();
    assert!(sidecar.is_burnable(&addr(0x77)));
    bridge
        .admin_withdraw(admin, &mut sidecar, vec![9, 9])
        .unwrap();
    assert!(sidecar.is_burnable(&addr(0x77)));
}
