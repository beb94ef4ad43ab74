use bridge_core::bridge::Bridge;
use bridge_core::doubles::{DenyAllAccessControl, DummyAccessControl, DummyFeeHandler, EchoHandler};
use bridge_core::error::BridgeError;
use bridge_core::pausable::Pausable;
use bridge_core::types::{Address, AdminOp, Bytes32, DepositStatus, Uint256};

fn addr(byte: u8) -> Address {
    Address { bytes: [byte; 20] }
}

fn rid(byte: u8) -> Bytes32 {
    Bytes32 { bytes: [byte; 32] }
}

fn echo_bridge() -> Bridge<DummyAccessControl, EchoHandler, DummyFeeHandler> {
    let admin = addr(0x01);
    let mut bridge = Bridge::new(1, DummyAccessControl, admin);
    bridge.set_fee_handler(DummyFeeHandler);
    bridge
        .admin_set_resource(admin, EchoHandler, rid(0x00), addr(0x00), Vec::new())
        .unwrap();
    bridge.end_keygen(admin, addr(0x11)).unwrap();
    bridge
}

#[test]
fn happy_deposit() {
    let mut bridge = echo_bridge();
    let mut rx = bridge.subscribe_to_deposits();
    let (nonce, response) = bridge
        .deposit(addr(0x0A), 2, rid(0x00), vec![0xDE, 0xAD], Vec::new(), Uint256::zero())
        .unwrap();
    assert_eq!(nonce, 1);
    assert_eq!(response, vec![0xDE, 0xAD]);
    let records = bridge.deposit_records();
    assert_eq!(records.len(), 1);
    assert_eq!(records[0].deposit_nonce, 1);
    assert_eq!(records[0].destination_domain_id, 2);
    assert_eq!(records[0].status, DepositStatus::Pending);
    assert_eq!(records[0].sender.bytes, [0x0A; 20]);
    let event = rx.try_recv().unwrap();
    assert_eq!(event.deposit_nonce, 1);
    assert_eq!(event.status, DepositStatus::Pending);
}

#[test]
fn self_deposit_rejected() {
    let mut bridge = echo_bridge();
    let err = bridge
        .deposit(addr(0x0A), 1, rid(0x00), vec![0xDE, 0xAD], Vec::new(), Uint256::zero())
        .unwrap_err();
    assert!(matches!(err, BridgeError::DepositToCurrentDomain));
    assert_eq!(bridge.get_deposit_count(1), 0);
    assert_eq!(bridge.deposit_records().len(), 0);
}

#[test]
fn deposit_nonces_are_contiguous() {
    let mut bridge = echo_bridge();
    let (n1, _) = bridge
        .deposit(addr(0x0A), 2, rid(0x00), vec![1], Vec::new(), Uint256::zero())
        .unwrap();
    let (n2, _) = bridge
        .deposit(addr(0x0A), 2, rid(0x00), vec![2], Vec::new(), Uint256::zero())
        .unwrap();
    let (n3, _) = bridge
        .deposit(addr(0x0B), 3, rid(0x00), vec![3], Vec::new(), Uint256::zero())
        .unwrap();
    assert_eq!((n1, n2, n3), (1, 2, 1));
    assert_eq!(bridge.get_deposit_count(2), 2);
    assert_eq!(bridge.get_deposit_count(3), 1);
}

#[test]
fn deposit_without_fee_handler_rejects_value() {
    let admin = addr(0x01);
    let mut bridge: Bridge<DummyAccessControl, EchoHandler, DummyFeeHandler> =
        Bridge::new(1, DummyAccessControl, admin);
    bridge
        .admin_set_resource(admin, EchoHandler, rid(0x00), addr(0x00), Vec::new())
        .unwrap();
    bridge.end_keygen(admin, addr(0x11)).unwrap();
    let err = bridge
        .deposit(addr(0x0A), 2, rid(0x00), vec![1], Vec::new(), Uint256::from_u64(5))
        .unwrap_err();
    match err {
        BridgeError::HandlerExecutionFailed(m) => {
            assert_eq!(m, "No FeeHandler, value must be zero")
        }
        other => panic!("unexpected error: {:?}", other),
    }
    assert_eq!(bridge.get_deposit_count(2), 0);
}

#[test]
fn deposit_unmapped_resource_fails() {
    let mut bridge = echo_bridge();
    let err = bridge
        .deposit(addr(0x0A), 2, rid(0x77), vec![1], Vec::new(), Uint256::zero())
        .unwrap_err();
    assert!(matches!(err, BridgeError::ResourceIDNotMappedToHandler));
    assert_eq!(bridge.get_deposit_count(2), 0);
}

#[test]
fn paused_gating() {
    let admin = addr(0x01);
    let mut bridge: Bridge<DummyAccessControl, EchoHandler, DummyFeeHandler> =
        Bridge::new(1, DummyAccessControl, admin);
    let err = bridge
        .deposit(addr(0x0A), 2, rid(0x00), vec![1], Vec::new(), Uint256::zero())
        .unwrap_err();
    assert!(matches!(err, BridgeError::BridgePaused));
    let err = bridge
        .execute_proposals(Vec::new(), vec![0u8; 65])
        .unwrap_err();
    assert!(matches!(err, BridgeError::BridgePaused));
    let err = bridge.admin_unpause_transfers(admin).unwrap_err();
    assert!(matches!(err, BridgeError::MPCAddressNotSet));
    assert_eq!(bridge.get_deposit_count(2), 0);
    assert_eq!(bridge.deposit_records().len(), 0);
}

#[test]
fn keygen_lifecycle_is_write_once() {
    let admin = addr(0x01);
    let mut bridge: Bridge<DummyAccessControl, EchoHandler, DummyFeeHandler> =
        Bridge::new(1, DummyAccessControl, admin);
    assert!(bridge.get_mpc_address().is_none());
    bridge.start_keygen(admin).unwrap();
    let err = bridge.end_keygen(admin, addr(0x00)).unwrap_err();
    assert!(matches!(err, BridgeError::MPCAddressZeroAddress));
    bridge.end_keygen(admin, addr(0x11)).unwrap();
    assert_eq!(bridge.get_mpc_address().unwrap().bytes, [0x11; 20]);
    let err = bridge.start_keygen(admin).unwrap_err();
    assert!(matches!(err, BridgeError::MPCAddressAlreadySet));
    let err = bridge.end_keygen(admin, addr(0x22)).unwrap_err();
    assert!(matches!(err, BridgeError::MPCAddressIsNotUpdatable));
    assert_eq!(bridge.get_mpc_address().unwrap().bytes, [0x11; 20]);
}

#[test]
fn end_keygen_unpauses() {
    let admin = addr(0x01);
    let mut bridge: Bridge<DummyAccessControl, EchoHandler, DummyFeeHandler> =
        Bridge::new(1, DummyAccessControl, admin);
    bridge
        .admin_set_resource(admin, EchoHandler, rid(0x00), addr(0x00), Vec::new())
        .unwrap();
    bridge.end_keygen(admin, addr(0x11)).unwrap();
    bridge
        .deposit(addr(0x0A), 2, rid(0x00), vec![1], Vec::new(), Uint256::zero())
        .unwrap();
}

#[test]
fn pause_and_unpause_respect_pauser() {
    let admin = addr(0x01);
    let intruder = addr(0x02);
    let mut bridge: Bridge<DummyAccessControl, EchoHandler, DummyFeeHandler> =
        Bridge::new(1, DummyAccessControl, admin);
    bridge.end_keygen(admin, addr(0x11)).unwrap();
    match bridge.admin_pause_transfers(intruder).unwrap_err() {
        BridgeError::HandlerExecutionFailed(m) => assert_eq!(m, "Only pauser can pause"),
        other => panic!("unexpected error: {:?}", other),
    }
    bridge.admin_pause_transfers(admin).unwrap();
    match bridge.admin_unpause_transfers(intruder).unwrap_err() {
        BridgeError::HandlerExecutionFailed(m) => assert_eq!(m, "Only pauser can unpause"),
        other => panic!("unexpected error: {:?}", other),
    }
    bridge.admin_unpause_transfers(admin).unwrap();
}

#[test]
fn denied_admin_operations_do_not_mutate() {
    let admin = addr(0x01);
    let mut bridge: Bridge<DenyAllAccessControl, EchoHandler, DummyFeeHandler> =
        Bridge::new(1, DenyAllAccessControl, admin);
    let err = bridge.admin_set_deposit_nonce(admin, 2, 10).unwrap_err();
    match err {
        BridgeError::AccessNotAllowed { operation, .. } => {
            assert_eq!(operation, AdminOp::SetDepositNonce)
        }
        other => panic!("unexpected error: {:?}", other),
    }
    assert_eq!(bridge.get_deposit_count(2), 0);
    let err = bridge.end_keygen(admin, addr(0x11)).unwrap_err();
    assert!(matches!(err, BridgeError::AccessNotAllowed { .. }));
    assert!(bridge.get_mpc_address().is_none());
    let err = bridge
        .admin_set_resource(admin, EchoHandler, rid(0x00), addr(0x00), Vec::new())
        .unwrap_err();
    assert!(matches!(err, BridgeError::AccessNotAllowed { .. }));
}

#[test]
fn set_deposit_nonce_only_increases() {
    let admin = addr(0x01);
    let mut bridge = echo_bridge();
    bridge.admin_set_deposit_nonce(admin, 2, 5).unwrap();
    assert_eq!(bridge.get_deposit_count(2), 5);
    let err = bridge.admin_set_deposit_nonce(admin, 2, 5).unwrap_err();
    assert!(matches!(err, BridgeError::NonceDecrementsNotAllowed));
    let err = bridge.admin_set_deposit_nonce(admin, 2, 3).unwrap_err();
    assert!(matches!(err, BridgeError::NonceDecrementsNotAllowed));
    assert_eq!(bridge.get_deposit_count(2), 5);
    let (nonce, _) = bridge
        .deposit(addr(0x0A), 2, rid(0x00), vec![1], Vec::new(), Uint256::zero())
        .unwrap();
    assert_eq!(nonce, 6);
}

#[test]
fn admin_misc_operations_succeed() {
    let admin = addr(0x01);
    let mut bridge = echo_bridge();
    bridge.admin_set_forwarder(admin, addr(0x33), true).unwrap();
    let mut helper = EchoHandler;
    bridge
        .admin_set_burnable(admin, &mut helper, addr(0x44))
        .unwrap();
    bridge
        .admin_withdraw(admin, &mut helper, vec![1, 2, 3])
        .unwrap();
    bridge.refresh_key(admin, "hash".to_string()).unwrap();
    bridge.retry(admin, "txhash".to_string()).unwrap();
    bridge
        .admin_change_fee_handler(admin, DummyFeeHandler)
        .unwrap();
    bridge
        .admin_change_access_control(admin, DummyAccessControl)
        .unwrap();
    assert_eq!(bridge.get_domain_id(), 1);
}

#[test]
fn selectors_match_the_table() {
    assert_eq!(AdminOp::PauseTransfers.selector(), [0x80, 0xf0, 0x1a, 0xc8]);
    assert_eq!(AdminOp::UnpauseTransfers.selector(), [0x70, 0xbc, 0xac, 0x5d]);
    assert_eq!(AdminOp::SetResource.selector(), [0xc8, 0x81, 0xf5, 0x40]);
    assert_eq!(AdminOp::SetBurnable.selector(), [0x5a, 0x1c, 0xb1, 0x01]);
    assert_eq!(AdminOp::SetDepositNonce.selector(), [0x7f, 0xb8, 0x75, 0xbe]);
    assert_eq!(AdminOp::SetForwarder.selector(), [0x45, 0xb8, 0x3c, 0x61]);
    assert_eq!(AdminOp::ChangeAccessControl.selector(), [0x9d, 0xde, 0xbc, 0xa4]);
    assert_eq!(AdminOp::ChangeFeeHandler.selector(), [0x4b, 0x05, 0x44, 0xc6]);
    assert_eq!(AdminOp::Withdraw.selector(), [0x0d, 0x29, 0xd2, 0x32]);
    assert_eq!(AdminOp::StartKeygen.selector(), [0x67, 0x54, 0x19, 0xb1]);
    assert_eq!(AdminOp::EndKeygen.selector(), [0x63, 0x7f, 0x7a, 0x1e]);
    assert_eq!(AdminOp::RefreshKey.selector(), [0x76, 0x88, 0x72, 0x82]);
    assert_eq!(AdminOp::Retry.selector(), [0x8c, 0xc9, 0x87, 0xf8]);
}

#[test]
fn pausable_unit() {
    let pauser = addr(0x01);
    let mut gate = Pausable::new(pauser, true);
    assert!(gate.is_paused());
    assert!(gate.pause(addr(0x02)).is_err());
    gate.unpause(pauser).unwrap();
    assert!(!gate.is_paused());
    gate.pause(pauser).unwrap();
    assert!(gate.is_paused());
    gate.set_pauser(addr(0x03));
    assert!(gate.unpause(addr(0x03)).is_ok());
}

#[test]
fn error_messages() {
    assert_eq!(BridgeError::BridgePaused.message(), "Bridge is paused");
    assert_eq!(
        BridgeError::ResourceIDNotMappedToHandler.message(),
        "Resource ID not mapped to handler"
    );
    assert_eq!(
        BridgeError::HandlerExecutionFailed("boom".to_string()).message(),
        "boom"
    );
    assert_eq!(BridgeError::CryptoError("bad sig".to_string()).message(), "bad sig");
    assert_eq!(
        BridgeError::ChainConnectionError("down".to_string()).message(),
        "down"
    );
}

#[test]
fn fresh_bitmap_reads_false() {
    let bridge = echo_bridge();
    assert!(!bridge.is_proposal_executed(2, 1).unwrap());
    assert!(!bridge.is_proposal_executed(0, 0).unwrap());
    assert!(!bridge.is_proposal_executed(255, u64::MAX).unwrap());
}

#[test]
fn chain_config_handler_names_unique() {
    let config = bridge_core::types::ChainConfig {
        domain_id: 2,
        name: "Chain2".to_string(),
        rpc_url: "http://localhost:8546".to_string(),
        bridge_address: addr(0x00),
        chain_id: 2,
        confirmations: 1,
        gas_limit: bridge_core::types::Uint256::zero(),
        max_gas_price: bridge_core::types::Uint256::zero(),
        handlers: vec![
            ("erc20".to_string(), addr(0x01)),
            ("generic".to_string(), addr(0x02)),
        ],
    };
    assert!(config.handlers_unique());
    let mut bad = config;
    bad.handlers.push(("erc20".to_string(), addr(0x03)));
    assert!(!bad.handlers_unique());
}
