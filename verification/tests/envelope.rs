use hedera::{
    draw_node_ids, NodeMessage, ClientContext, ContractExecuteTransaction, EntityId, Error, EthereumTransaction,
    FileAppendTransaction, Hbar, KeyKind, LedgerId, Operator, PrivateKey, PublicKey, SignerEntry,
    SigningCapability, Timestamp, TokenUnpauseTransaction, TransactionId, Duration,
};

struct Echo(u8);

impl SigningCapability for Echo {
    fn sign_message(&self, message: &[u8]) -> Vec<u8> {
        let mut out = vec![self.0];
        out.extend_from_slice(message);
        out
    }
}

fn key(tag: u8) -> PublicKey {
    PublicKey::new(KeyKind::Ed25519, vec![tag; 32])
}

fn test_tx_id() -> TransactionId {
    TransactionId::with_valid_start(EntityId::new(0, 0, 5006), Timestamp::new(1554158542, 0))
}

fn test_nodes() -> Vec<EntityId> {
    vec![EntityId::new(0, 0, 5005), EntityId::new(0, 0, 5006)]
}

#[test]
fn new_envelope_is_empty_and_mutable() {
    let tx = EthereumTransaction::new();
    assert!(!tx.is_frozen());
    assert!(tx.get_node_account_ids().is_none());
    assert_eq!(tx.get_transaction_valid_duration(), None);
    assert_eq!(tx.get_max_transaction_fee(), None);
    assert_eq!(tx.get_transaction_memo(), "");
    assert_eq!(tx.get_transaction_id(), None);
    assert_eq!(tx.get_signers().len(), 0);
    assert_eq!(tx.get_ethereum_data(), &[] as &[u8]);
    let d = EthereumTransaction::default();
    assert!(!d.is_frozen());
}

#[test]
fn setters_store_what_getters_return() {
    let mut tx = EthereumTransaction::new();
    tx.node_account_ids(test_nodes()).unwrap();
    tx.transaction_id(test_tx_id()).unwrap();
    tx.transaction_memo("hello").unwrap();
    tx.transaction_valid_duration(Duration::seconds(30)).unwrap();
    tx.max_transaction_fee(Hbar::new(1)).unwrap();
    tx.ethereum_data(vec![0xde, 0xad, 0xbe, 0xef]).unwrap();
    tx.call_data_file_id(EntityId::new(4, 5, 6)).unwrap();
    tx.max_gas_allowance_hbar(Hbar::new(3)).unwrap();
    assert_eq!(tx.get_node_account_ids(), Some(&test_nodes()[..]));
    assert_eq!(tx.get_transaction_id(), Some(test_tx_id()));
    assert_eq!(tx.get_transaction_memo(), "hello");
    assert_eq!(tx.get_transaction_valid_duration(), Some(Duration::seconds(30)));
    assert_eq!(tx.get_max_transaction_fee(), Some(Hbar::from_tinybars(100_000_000)));
    assert_eq!(tx.get_ethereum_data(), &[0xde, 0xad, 0xbe, 0xef]);
    assert_eq!(tx.get_call_data_file_id(), Some(EntityId::new(4, 5, 6)));
    assert_eq!(tx.get_max_gas_allowance_hbar(), Hbar::from_tinybars(300_000_000));
}

#[test]
fn freeze_without_nodes_or_client_fails_and_leaves_mutable() {
    let mut tx = TokenUnpauseTransaction::new();
    assert_eq!(tx.freeze().err(), Some(Error::MissingNodeList));
    assert!(!tx.is_frozen());
    assert!(tx.token_id(EntityId::new(0, 0, 7)).is_ok());
}

#[test]
fn freeze_is_idempotent() {
    let mut tx = TokenUnpauseTransaction::new();
    tx.node_account_ids(test_nodes()).unwrap();
    tx.freeze().unwrap();
    assert!(tx.is_frozen());
    let fee = tx.get_max_transaction_fee();
    assert_eq!(fee, Some(Hbar::from_tinybars(200_000_000)));

    let mut ctx = ClientContext::new(vec![EntityId::new(0, 0, 3)]);
    ctx.max_transaction_fee = Some(Hbar::new(9));
    ctx.operator = Some(Operator::new(
        EntityId::new(0, 0, 2),
        SignerEntry::new(key(1), Box::new(Echo(1))),
    ));
    tx.freeze_with(Some(ctx)).unwrap();
    assert!(tx.is_frozen());
    assert_eq!(tx.get_max_transaction_fee(), fee);
    assert_eq!(tx.get_node_account_ids(), Some(&test_nodes()[..]));
    assert_eq!(tx.get_operator(), None);
    assert_eq!(tx.get_signers().len(), 0);
}

#[test]
fn freeze_resolves_from_the_client() {
    let mut tx = TokenUnpauseTransaction::new();
    let mut ctx = ClientContext::new(vec![EntityId::new(0, 0, 3), EntityId::new(0, 0, 4)]);
    ctx.max_transaction_fee = Some(Hbar::new(9));
    ctx.operator = Some(Operator::new(
        EntityId::new(0, 0, 2),
        SignerEntry::new(key(1), Box::new(Echo(1))),
    ));
    tx.freeze_with(Some(ctx)).unwrap();
    assert!(tx.is_frozen());
    assert_eq!(
        tx.get_node_account_ids(),
        Some(&[EntityId::new(0, 0, 3), EntityId::new(0, 0, 4)][..])
    );
    assert_eq!(tx.get_max_transaction_fee(), Some(Hbar::new(9)));
    assert_eq!(tx.get_operator(), Some(EntityId::new(0, 0, 2)));
    assert_eq!(tx.get_operator_key(), Some(&key(1)));
    // freezing captures the operator and leaves the signers as they are
    assert_eq!(tx.get_signers().len(), 0);
}

#[test]
fn freeze_changes_node_list_fee_operator_and_latch_only() {
    let mut tx = EthereumTransaction::new();
    tx.transaction_id(test_tx_id()).unwrap();
    tx.transaction_memo("memo").unwrap();
    tx.transaction_valid_duration(Duration::seconds(30)).unwrap();
    tx.ethereum_data(vec![1, 2, 3]).unwrap();
    tx.sign_with(key(5), Box::new(Echo(5)));
    let mut ctx = ClientContext::new(test_nodes());
    ctx.operator = Some(Operator::new(
        EntityId::new(0, 0, 2),
        SignerEntry::new(key(1), Box::new(Echo(1))),
    ));
    tx.freeze_with(Some(ctx)).unwrap();
    assert!(tx.is_frozen());
    assert_eq!(tx.get_transaction_id(), Some(test_tx_id()));
    assert_eq!(tx.get_transaction_memo(), "memo");
    assert_eq!(tx.get_transaction_valid_duration(), Some(Duration::seconds(30)));
    assert_eq!(tx.get_ethereum_data(), &[1, 2, 3]);
    assert_eq!(tx.get_signers().len(), 1);
    assert_eq!(tx.get_signers()[0].public_key, key(5));
    assert_eq!(tx.get_node_account_ids(), Some(&test_nodes()[..]));
    assert_eq!(tx.get_max_transaction_fee(), Some(Hbar::new(2)));
    assert_eq!(tx.get_operator(), Some(EntityId::new(0, 0, 2)));
}

#[test]
fn every_mutator_fails_after_freeze() {
    let frozen = Err(Error::FrozenContractViolation);

    let mut tx = EthereumTransaction::new();
    tx.node_account_ids(test_nodes()).unwrap();
    tx.transaction_memo("before").unwrap();
    tx.freeze().unwrap();
    assert_eq!(tx.node_account_ids(vec![]).map(|_| ()), frozen);
    assert_eq!(tx.transaction_valid_duration(Duration::seconds(1)).map(|_| ()), frozen);
    assert_eq!(tx.max_transaction_fee(Hbar::new(1)).map(|_| ()), frozen);
    assert_eq!(tx.transaction_memo("after").map(|_| ()), frozen);
    assert_eq!(tx.transaction_id(test_tx_id()).map(|_| ()), frozen);
    assert_eq!(tx.ethereum_data(vec![1]).map(|_| ()), frozen);
    assert_eq!(tx.call_data_file_id(EntityId::new(1, 2, 3)).map(|_| ()), frozen);
    assert_eq!(tx.max_gas_allowance_hbar(Hbar::new(1)).map(|_| ()), frozen);
    assert_eq!(tx.require_not_frozen(), Err(Error::FrozenContractViolation));
    assert_eq!(tx.get_transaction_memo(), "before");
    assert_eq!(tx.get_node_account_ids(), Some(&test_nodes()[..]));
    assert_eq!(tx.get_ethereum_data(), &[] as &[u8]);

    let mut tx = ContractExecuteTransaction::new();
    tx.node_account_ids(test_nodes()).unwrap();
    tx.freeze().unwrap();
    assert_eq!(tx.contract_id(EntityId::new(0, 0, 9)).map(|_| ()), frozen);
    assert_eq!(tx.gas_limit(5).map(|_| ()), frozen);
    assert_eq!(tx.value(5).map(|_| ()), frozen);
    assert_eq!(tx.data(vec![1]).map(|_| ()), frozen);
    assert_eq!(tx.payload().gas_limit, 0);

    let mut tx = TokenUnpauseTransaction::new();
    tx.node_account_ids(test_nodes()).unwrap();
    tx.freeze().unwrap();
    assert_eq!(tx.token_id(EntityId::new(0, 0, 9)).map(|_| ()), frozen);
    assert_eq!(tx.get_token_id(), None);

    let mut tx = FileAppendTransaction::new();
    tx.node_account_ids(test_nodes()).unwrap();
    tx.freeze().unwrap();
    assert_eq!(tx.file_id(EntityId::new(0, 0, 9)).map(|_| ()), frozen);
    assert_eq!(tx.contents(vec![1]).map(|_| ()), frozen);
    assert_eq!(tx.chunk_size(1).map(|_| ()), frozen);
    assert_eq!(tx.get_chunk_size(), 4096);
}

#[test]
fn same_key_twice_is_one_signer() {
    let mut tx = TokenUnpauseTransaction::new();
    tx.sign(PrivateKey::new(key(1), Box::new(Echo(1))));
    assert_eq!(tx.get_signers().len(), 1);
    tx.sign(PrivateKey::new(key(1), Box::new(Echo(9))));
    assert_eq!(tx.get_signers().len(), 1);
    tx.sign_with(key(1), Box::new(Echo(7)));
    assert_eq!(tx.get_signers().len(), 1);
    // the first capability stays
    assert_eq!(tx.get_signers()[0].capability.sign_message(&[5]), vec![1, 5]);
}

#[test]
fn two_keys_are_two_signers_in_insertion_order() {
    let mut tx = TokenUnpauseTransaction::new();
    tx.sign_with(key(2), Box::new(Echo(2))).sign_with(key(1), Box::new(Echo(1)));
    let signers = tx.get_signers();
    assert_eq!(signers.len(), 2);
    assert_eq!(signers[0].public_key, key(2));
    assert_eq!(signers[1].public_key, key(1));
    // same bytes under another scheme are another identity
    tx.sign_with(PublicKey::new(KeyKind::EcdsaSecp256k1, vec![1; 32]), Box::new(Echo(3)));
    assert_eq!(tx.get_signers().len(), 3);
}

#[test]
fn signing_works_on_a_frozen_envelope() {
    let mut tx = TokenUnpauseTransaction::new();
    tx.node_account_ids(test_nodes()).unwrap();
    tx.freeze().unwrap().sign(PrivateKey::new(key(1), Box::new(Echo(1))));
    assert!(tx.is_frozen());
    assert_eq!(tx.get_signers().len(), 1);
}

#[test]
fn operator_signs_first_and_only_once() {
    let mut tx = TokenUnpauseTransaction::new();
    tx.sign_with(key(3), Box::new(Echo(3)));
    tx.sign_with(key(1), Box::new(Echo(1)));
    tx.sign_with(key(4), Box::new(Echo(4)));
    let mut ctx = ClientContext::new(test_nodes());
    ctx.operator = Some(Operator::new(
        EntityId::new(0, 0, 2),
        SignerEntry::new(key(1), Box::new(Echo(8))),
    ));
    tx.freeze_with(Some(ctx)).unwrap();
    assert_eq!(tx.get_signers().len(), 3);
    assert_eq!(tx.get_operator(), Some(EntityId::new(0, 0, 2)));

    let message = NodeMessage { node_account_id: EntityId::new(0, 0, 5005), body_bytes: vec![7, 7] };
    let signed = tx.materialize(&[message]);
    let pairs = &signed[0].sig_pairs;
    assert_eq!(pairs.len(), 3);
    // the operator's own capability signs for its key, before the others
    assert_eq!(pairs[0].public_key, key(1));
    assert_eq!(pairs[0].signature, vec![8, 7, 7]);
    assert_eq!(pairs[1].public_key, key(3));
    assert_eq!(pairs[1].signature, vec![3, 7, 7]);
    assert_eq!(pairs[2].public_key, key(4));
    assert_eq!(pairs[2].signature, vec![4, 7, 7]);
}

#[test]
fn operator_signs_an_envelope_without_signers() {
    let mut tx = TokenUnpauseTransaction::new();
    let mut ctx = ClientContext::new(test_nodes());
    ctx.operator = Some(Operator::new(
        EntityId::new(0, 0, 2),
        SignerEntry::new(key(1), Box::new(Echo(8))),
    ));
    tx.freeze_with(Some(ctx)).unwrap();
    let message = NodeMessage { node_account_id: EntityId::new(0, 0, 5005), body_bytes: vec![9] };
    let signed = tx.materialize(&[message]);
    assert_eq!(signed[0].sig_pairs.len(), 1);
    assert_eq!(signed[0].sig_pairs[0].public_key, key(1));
    assert_eq!(signed[0].sig_pairs[0].signature, vec![8, 9]);
}

#[test]
fn freeze_validates_checksums_when_asked() {
    let mainnet = LedgerId::mainnet();
    let testnet = LedgerId::testnet();
    let token = EntityId::new(0, 0, 123).to_checksummed(&mainnet);

    // wrong network: freeze fails, envelope stays mutable
    let mut tx = TokenUnpauseTransaction::new();
    tx.token_id(token).unwrap();
    let mut ctx = ClientContext::new(test_nodes());
    ctx.auto_validate_checksums = true;
    ctx.ledger_id = Some(testnet.clone());
    let err = tx.freeze_with(Some(ctx)).err();
    assert_eq!(
        err,
        Some(Error::ChecksumMismatch {
            id: token,
            expected: EntityId::new(0, 0, 123).generate_checksum(&testnet),
        })
    );
    assert!(!tx.is_frozen());
    assert!(tx.get_node_account_ids().is_none());
    assert_eq!(tx.get_max_transaction_fee(), None);
    assert!(tx.transaction_memo("still mutable").is_ok());

    // right network: freeze succeeds
    let mut ctx = ClientContext::new(test_nodes());
    ctx.auto_validate_checksums = true;
    ctx.ledger_id = Some(mainnet);
    assert!(tx.freeze_with(Some(ctx)).is_ok());
    assert!(tx.is_frozen());

    // validation not asked for: the checksum is not looked at
    let mut tx = TokenUnpauseTransaction::new();
    tx.token_id(token).unwrap();
    let mut ctx = ClientContext::new(test_nodes());
    ctx.ledger_id = Some(testnet);
    assert!(tx.freeze_with(Some(ctx)).is_ok());

    // validation asked for without a network: nothing is validated, the freeze succeeds
    let mut tx = TokenUnpauseTransaction::new();
    tx.token_id(token).unwrap();
    let mut ctx = ClientContext::new(test_nodes());
    ctx.auto_validate_checksums = true;
    assert!(tx.freeze_with(Some(ctx)).is_ok());
    assert!(tx.is_frozen());
    assert_eq!(tx.get_node_account_ids(), Some(&test_nodes()[..]));
    assert_eq!(tx.get_max_transaction_fee(), Some(Hbar::new(2)));
}

#[test]
fn a_third_of_the_nodes_is_drawn_round_the_list() {
    let nodes: Vec<EntityId> = (3..10).map(|n| EntityId::new(0, 0, n)).collect();
    assert_eq!(draw_node_ids(&[], 5), vec![]);
    assert_eq!(draw_node_ids(&nodes[..1], 5), vec![nodes[0]]);
    assert_eq!(draw_node_ids(&nodes[..3], 0), vec![nodes[0]]);
    assert_eq!(draw_node_ids(&nodes[..3], 5), vec![nodes[2]]);
    assert_eq!(draw_node_ids(&nodes[..4], 2), vec![nodes[2], nodes[3]]);
    assert_eq!(draw_node_ids(&nodes[..4], 7), vec![nodes[3], nodes[0]]);
    assert_eq!(draw_node_ids(&nodes, 0), vec![nodes[0], nodes[1], nodes[2]]);
    assert_eq!(draw_node_ids(&nodes, 6), vec![nodes[6], nodes[0], nodes[1]]);
    assert_eq!(draw_node_ids(&nodes, u64::MAX), vec![nodes[1], nodes[2], nodes[3]]);
}
