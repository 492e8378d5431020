use block_submitter::store::{StatusStore, StoreRow};
use block_submitter::types::{
    BlockStatus, ChainMethod, ContractCall, EthAddress, FailureKind, FieldElement, SubmitBlockArgs,
    SubmitError, SubmitOutcome, TxHash,
};
use block_submitter::verifying::{SenderConfig, VerifyingSender};

const CONTRACT: &[u8] = b"0x1000000000000000000000000000000000000001";
const ACCOUNT: &[u8] = b"0x2000000000000000000000000000000000000002";

fn config(confirmations: u64) -> SenderConfig {
    SenderConfig {
        contract_address: CONTRACT.to_vec(),
        account: Some(ACCOUNT.to_vec()),
        confirmations,
        legacy_tx_encoding: false,
    }
}

fn seeded_store(block_id: u64, status: BlockStatus, hash: &[u8]) -> StatusStore {
    let mut store = StatusStore::new();
    store.insert_row(StoreRow { block_id, status, l1_tx_hash: hash.to_vec() });
    store
}

fn args_for(block_id: u64) -> SubmitBlockArgs {
    SubmitBlockArgs {
        block_id,
        public_inputs: vec![FieldElement { limbs: [1, 0, 0, 0] }, FieldElement {
            limbs: [2, 0, 0, 0],
        }],
        serialized_proof: vec![9, 9, 9],
        public_data: vec![7, 7],
    }
}

fn hash_of(first: &[u8]) -> TxHash {
    let mut bytes = first.to_vec();
    bytes.resize(32, 0);
    TxHash { bytes }
}

#[test]
fn from_config_resolves_the_explicit_account() {
    let sender =
        VerifyingSender::from_config_with_pool(&config(2), &vec![], StatusStore::new()).unwrap();
    assert_eq!(sender.account.bytes[0], 0x20);
    assert_eq!(sender.account.bytes[19], 0x02);
    assert_eq!(sender.contract.bytes[0], 0x10);
    assert_eq!(sender.confirmations, 2);
}

#[test]
fn from_config_falls_back_to_the_first_node_account() {
    let mut cfg = config(1);
    cfg.account = None;
    let first = EthAddress { bytes: vec![0x33; 20] };
    let second = EthAddress { bytes: vec![0x44; 20] };
    let sender =
        VerifyingSender::from_config_with_pool(&cfg, &vec![first, second], StatusStore::new())
            .unwrap();
    assert_eq!(sender.account.bytes, vec![0x33; 20]);
}

#[test]
fn from_config_rejects_a_malformed_contract_address() {
    let mut cfg = config(1);
    cfg.contract_address = b"0xnot-an-address".to_vec();
    let err = VerifyingSender::from_config_with_pool(&cfg, &vec![], StatusStore::new())
        .err()
        .unwrap();
    assert_eq!(err, block_submitter::types::SetupError::BadContractAddress);
}

#[test]
fn from_config_rejects_a_malformed_account_address() {
    let mut cfg = config(1);
    cfg.account = Some(b"0x123".to_vec());
    let err = VerifyingSender::from_config_with_pool(&cfg, &vec![], StatusStore::new())
        .err()
        .unwrap();
    assert_eq!(err, block_submitter::types::SetupError::BadAccountAddress);
}

#[test]
fn from_config_fails_without_any_account() {
    let mut cfg = config(1);
    cfg.account = None;
    let err = VerifyingSender::from_config_with_pool(&cfg, &vec![], StatusStore::new())
        .err()
        .unwrap();
    assert_eq!(err, block_submitter::types::SetupError::NoAccounts);
}

#[test]
fn submit_call_carries_signer_payload_and_confirmation_depth() {
    let sender =
        VerifyingSender::from_config_with_pool(&config(2), &vec![], StatusStore::new()).unwrap();
    let call = sender.submit_block_call(&args_for(42));
    assert_eq!(call.method, ChainMethod::SubmitBlock);
    assert_eq!(call.block_id, Some(42));
    assert_eq!(call.public_inputs.len(), 2);
    assert_eq!(call.serialized_proof, vec![9, 9, 9]);
    assert_eq!(call.public_data.as_ref().unwrap(), &vec![7, 7]);
    assert_eq!(call.from.as_ref().unwrap().bytes, sender.account.bytes);
    assert_eq!(call.confirmations, Some(2));
}

#[test]
fn legacy_submit_call_omits_public_data() {
    let sender =
        VerifyingSender::from_config_with_pool(&config(2), &vec![], StatusStore::new()).unwrap();
    let call = sender.submit_block_legacy_call(&args_for(42));
    assert_eq!(call.method, ChainMethod::SubmitBlockLegacy);
    assert!(call.public_data.is_none());
    assert_eq!(call.confirmations, Some(2));
}

#[test]
fn verified_block_scenario() {
    // Block 42, confirmation depth 2; the gateway confirms with a receipt
    // whose hash starts 0xabc...
    let store = seeded_store(42, BlockStatus::Committed, b"");
    let mut sender = VerifyingSender::from_config_with_pool(&config(2), &vec![], store).unwrap();
    let outcome = SubmitOutcome::Confirmed(hash_of(&[0xab, 0xc1]));
    let result = sender.submit_block(&args_for(42), &outcome);
    assert!(result.is_ok());
    let row = sender.store.get_row(42).unwrap();
    assert_eq!(row.status, BlockStatus::Verified);
    let mut expected = b"0xabc1".to_vec();
    expected.extend_from_slice(&[b'0'; 60]);
    assert_eq!(row.l1_tx_hash, expected);
}

#[test]
fn network_failure_scenario_leaves_the_row_unchanged() {
    let store = seeded_store(42, BlockStatus::Committed, b"0xbefore");
    let mut sender = VerifyingSender::from_config_with_pool(&config(2), &vec![], store).unwrap();
    let outcome = SubmitOutcome::Failed(FailureKind::Network);
    let result = sender.submit_block(&args_for(42), &outcome);
    // Exactly one error is handed back for the runtime to log.
    assert_eq!(result, Err(SubmitError::Gateway(FailureKind::Network)));
    let row = sender.store.get_row(42).unwrap();
    assert_eq!(row.status, BlockStatus::Committed);
    assert_eq!(row.l1_tx_hash, b"0xbefore".to_vec());
}

#[test]
fn confirmation_without_receipt_records_empty_hash_text() {
    let store = seeded_store(8, BlockStatus::Committed, b"0xold");
    let mut sender = VerifyingSender::from_config_with_pool(&config(1), &vec![], store).unwrap();
    let result = sender.submit_block(&args_for(8), &SubmitOutcome::ConfirmedNoReceipt);
    assert!(result.is_ok());
    let row = sender.store.get_row(8).unwrap();
    assert_eq!(row.status, BlockStatus::Verified);
    assert_eq!(row.l1_tx_hash, b"".to_vec());
}

#[test]
fn success_for_an_unknown_block_writes_no_row() {
    let store = seeded_store(1, BlockStatus::Committed, b"");
    let mut sender = VerifyingSender::from_config_with_pool(&config(1), &vec![], store).unwrap();
    let result = sender.submit_block(&args_for(99), &SubmitOutcome::Confirmed(hash_of(&[0x01])));
    assert!(result.is_ok());
    assert!(sender.store.get_row(99).is_none());
    assert_eq!(sender.store.get_row(1).unwrap().status, BlockStatus::Committed);
}

#[test]
fn verified_status_is_never_reverted() {
    let store = seeded_store(3, BlockStatus::Verified, b"0x11");
    let mut sender = VerifyingSender::from_config_with_pool(&config(1), &vec![], store).unwrap();
    let _ = sender.submit_block(&args_for(3), &SubmitOutcome::Failed(FailureKind::Reverted));
    assert_eq!(sender.store.get_row(3).unwrap().status, BlockStatus::Verified);
    let _ = sender.submit_block(&args_for(3), &SubmitOutcome::Confirmed(hash_of(&[0x22])));
    assert_eq!(sender.store.get_row(3).unwrap().status, BlockStatus::Verified);
}

#[test]
fn read_only_calls_never_alter_the_store() {
    let store = seeded_store(5, BlockStatus::Committed, b"0xaa");
    let sender = VerifyingSender::from_config_with_pool(&config(1), &vec![], store).unwrap();
    let check = sender.verify_submitting(&args_for(5));
    assert_eq!(check.method, ChainMethod::VerifySubmitting);
    assert_eq!(check.block_id, Some(5));
    assert!(check.from.is_none());
    assert!(check.confirmations.is_none());
    let check = sender.verify_block(&args_for(5));
    assert_eq!(check.method, ChainMethod::VerifyBlock);
    assert!(check.block_id.is_none());
    // Whatever the chain would answer, the store is untouched.
    let row = sender.store.get_row(5).unwrap();
    assert_eq!(row.status, BlockStatus::Committed);
    assert_eq!(row.l1_tx_hash, b"0xaa".to_vec());
}

#[test]
fn batches_are_drained_in_arrival_order() {
    let mut store = StatusStore::new();
    for id in 1..=3 {
        store.insert_row(StoreRow {
            block_id: id,
            status: BlockStatus::Committed,
            l1_tx_hash: vec![],
        });
    }
    let mut sender = VerifyingSender::from_config_with_pool(&config(1), &vec![], store).unwrap();
    let calls = vec![
        ContractCall::SubmitBlock(args_for(1)),
        ContractCall::SubmitBlock(args_for(2)),
        ContractCall::SubmitBlock(args_for(3)),
    ];
    let outcomes = vec![
        SubmitOutcome::Confirmed(hash_of(&[0x01])),
        SubmitOutcome::Failed(FailureKind::Network),
        SubmitOutcome::Confirmed(hash_of(&[0x03])),
    ];
    let attempts = sender.run(&calls, &outcomes);
    // Strict FIFO: attempt i begins and completes before attempt i + 1.
    assert_eq!(attempts, vec![1, 2, 3]);
    assert_eq!(sender.store.get_row(1).unwrap().status, BlockStatus::Verified);
    // The failed request is dropped, not retried; its row is untouched.
    assert_eq!(sender.store.get_row(2).unwrap().status, BlockStatus::Committed);
    assert_eq!(sender.store.get_row(3).unwrap().status, BlockStatus::Verified);
}
