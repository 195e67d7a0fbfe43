use hedera::any_transaction::group_requests;
use hedera::{
    AnyQueryData, FileAppendTransaction, FileAppendTransactionData, AnyTransaction, AnyTransactionData, ChunkInfo, ContractExecuteTransaction, Duration, EntityId, Error,
    EthereumTransaction, EthereumTransactionData, Hbar, KeyKind, NodeMessage, PrivateKey, PublicKey,
    ScheduleInfoQuery, ServiceMethod, SigningCapability, Timestamp, TokenUnpauseTransaction,
    TransactionExecute, TransactionId, WireBodyData, WireQueryData, WireSchedulableData,
    WireTransactionBody, Chunk, ClientContext, Operator, SignerEntry,
};

struct Prefix(u8);

impl SigningCapability for Prefix {
    fn sign_message(&self, message: &[u8]) -> Vec<u8> {
        let mut out = vec![self.0];
        out.extend_from_slice(message);
        out
    }
}

fn test_tx_id() -> TransactionId {
    TransactionId::with_valid_start(EntityId::new(0, 0, 5006), Timestamp::new(1554158542, 0))
}

fn test_nodes() -> Vec<EntityId> {
    vec![EntityId::new(0, 0, 5005), EntityId::new(0, 0, 5006)]
}

fn unused_private_key() -> PrivateKey {
    PrivateKey::new(PublicKey::new(KeyKind::Ed25519, vec![0xe0; 32]), Box::new(Prefix(1)))
}

fn make_transaction() -> EthereumTransaction {
    let mut tx = EthereumTransaction::new();
    tx.node_account_ids(test_nodes())
        .unwrap()
        .transaction_id(test_tx_id())
        .unwrap()
        .ethereum_data(vec![0xde, 0xad, 0xbe, 0xef])
        .unwrap()
        .call_data_file_id(EntityId::new(4, 5, 6))
        .unwrap()
        .max_gas_allowance_hbar(Hbar::new(3))
        .unwrap()
        .max_transaction_fee(Hbar::new(1))
        .unwrap()
        .freeze()
        .unwrap()
        .sign(unused_private_key());
    tx
}

fn first_body(bodies: Vec<Vec<WireTransactionBody>>) -> WireTransactionBody {
    bodies.into_iter().next().unwrap().into_iter().next().unwrap()
}

#[test]
fn serialize() {
    let tx = make_transaction();
    let body = first_body(tx.to_wire_bodies().unwrap());
    assert_eq!(
        body,
        WireTransactionBody {
            transaction_id: TransactionId {
                account_id: EntityId { shard: 0, realm: 0, num: 5006, checksum: None },
                valid_start: Timestamp { seconds: 1554158542, nanos: 0 },
                scheduled: false,
                nonce: 0,
            },
            node_account_id: EntityId { shard: 0, realm: 0, num: 5005, checksum: None },
            transaction_fee: 100000000,
            transaction_valid_duration: 120,
            memo: String::new(),
            data: WireBodyData::EthereumTransaction {
                ethereum_data: vec![222, 173, 190, 239],
                call_data: Some(EntityId { shard: 4, realm: 5, num: 6, checksum: None }),
                max_gas_allowance: 300000000,
            },
        }
    );
}

#[test]
fn to_from_bytes() {
    let tx = make_transaction();
    let bodies = tx.to_wire_bodies().unwrap();
    assert_eq!(bodies.len(), 1);
    let tx2 = AnyTransaction::from_wire_bodies(bodies[0].clone()).unwrap();
    let tx = first_body(bodies);
    let tx2 = first_body(tx2.to_wire_bodies().unwrap());
    assert_eq!(tx, tx2);
}

#[test]
fn envelope_read_back_has_the_fields_that_went_out() {
    let tx = make_transaction();
    let bodies = tx.to_wire_bodies().unwrap();
    assert_eq!(bodies[0].len(), 2);
    assert_eq!(bodies[0][1].node_account_id, EntityId::new(0, 0, 5006));
    let back = AnyTransaction::from_wire_bodies(bodies[0].clone()).unwrap();
    assert!(back.is_frozen());
    assert_eq!(back.get_node_account_ids(), Some(&test_nodes()[..]));
    assert_eq!(back.get_transaction_id(), Some(test_tx_id()));
    assert_eq!(back.get_transaction_memo(), "");
    assert_eq!(back.get_max_transaction_fee(), Some(Hbar::new(1)));
    assert_eq!(back.get_transaction_valid_duration(), Some(Duration::seconds(120)));
    assert_eq!(back.get_signers().len(), 0);
    assert_eq!(
        back.payload(),
        &AnyTransactionData::Ethereum(EthereumTransactionData {
            ethereum_data: vec![0xde, 0xad, 0xbe, 0xef],
            call_data_file_id: Some(EntityId::new(4, 5, 6)),
            max_gas_allowance_hbar: Hbar::new(3),
        })
    );
    assert_eq!(back.payload().service_method(), ServiceMethod::CallEthereum);
}

#[test]
fn reading_back_rejects_what_is_not_one_request() {
    assert_eq!(AnyTransaction::from_wire_bodies(vec![]).err(), Some(Error::SerializationError));
    let tx = make_transaction();
    let bodies = tx.to_wire_bodies().unwrap().remove(0);
    for change in 0..5 {
        let mut changed = bodies.clone();
        match change {
            0 => changed[1].memo = "x".to_string(),
            1 => changed[1].transaction_fee += 1,
            2 => changed[1].transaction_valid_duration += 1,
            3 => changed[1].transaction_id.nonce = 1,
            _ => changed[1].data = WireBodyData::TokenUnpause { token: None },
        }
        assert_eq!(
            AnyTransaction::from_wire_bodies(changed).err(),
            Some(Error::SerializationError),
            "change {change}"
        );
    }
    let mut same_node_twice = bodies.clone();
    same_node_twice[1].node_account_id = same_node_twice[0].node_account_id;
    assert!(AnyTransaction::from_wire_bodies(same_node_twice).is_ok());
}

#[test]
fn rendering_requires_an_identity() {
    let mut tx = TokenUnpauseTransaction::new();
    tx.node_account_ids(test_nodes()).unwrap();
    tx.freeze().unwrap();
    assert_eq!(tx.resolve_transaction_id(), Err(Error::MissingPayer));
    assert_eq!(tx.to_wire_bodies().err(), Some(Error::MissingPayer));

    let mut tx = TokenUnpauseTransaction::new();
    let mut ctx = ClientContext::new(test_nodes());
    ctx.operator = Some(Operator::new(
        EntityId::new(0, 0, 2),
        SignerEntry::new(PublicKey::new(KeyKind::Ed25519, vec![1; 32]), Box::new(Prefix(1))),
    ));
    tx.freeze_with(Some(ctx)).unwrap();
    let id = tx.resolve_transaction_id().unwrap();
    assert_eq!(id.account_id, EntityId::new(0, 0, 2));
    assert!(!id.scheduled);
    assert_eq!(id.nonce, 0);
    assert!(id.valid_start.nanos >= 0 && id.valid_start.nanos < 1_000_000_000);
    assert!(id.valid_start.seconds > 1_600_000_000);
    let bodies = tx.to_wire_bodies().unwrap();
    assert_eq!(bodies[0][0].transaction_id.account_id, EntityId::new(0, 0, 2));
    assert_eq!(bodies[0][0].transaction_id, bodies[0][1].transaction_id);
    assert_eq!(bodies[0][0].transaction_fee, 200_000_000);
}

#[test]
fn body_takes_fee_duration_and_memo_from_the_envelope() {
    let mut tx = ContractExecuteTransaction::new();
    tx.contract_id(EntityId::new(0, 0, 88)).unwrap();
    tx.gas_limit(u64::MAX).unwrap();
    tx.value(7).unwrap();
    tx.data(vec![1, 2, 3]).unwrap();
    tx.transaction_memo("memo").unwrap();
    tx.transaction_valid_duration(Duration::new(30, 999)).unwrap();
    let chunk = Chunk { info: ChunkInfo::single(test_tx_id()), data: vec![] };
    let body = tx.make_body(EntityId::new(0, 0, 3), &chunk).unwrap();
    assert_eq!(body.transaction_fee, 200_000_000);
    assert_eq!(body.transaction_valid_duration, 30);
    assert_eq!(body.memo, "memo");
    assert_eq!(
        body.data,
        WireBodyData::ContractCall {
            contract_id: Some(EntityId::new(0, 0, 88)),
            gas: -1,
            amount: 7,
            function_parameters: vec![1, 2, 3],
        }
    );
    assert_eq!(tx.make_bodies(&chunk).err(), Some(Error::MissingNodeList));
    tx.max_transaction_fee(Hbar::from_tinybars(-1)).unwrap();
    let body = tx.make_body(EntityId::new(0, 0, 3), &chunk).unwrap();
    assert_eq!(body.transaction_fee, u64::MAX);
    let back = AnyTransaction::from_wire_bodies(vec![body]).unwrap();
    assert_eq!(back.get_max_transaction_fee(), Some(Hbar::from_tinybars(-1)));
    match back.payload() {
        AnyTransactionData::ContractExecute(data) => assert_eq!(data.gas_limit, u64::MAX),
        other => panic!("{other:?}"),
    }
}

#[test]
fn materialize_signs_each_node_message_with_every_signer() {
    let mut tx = TokenUnpauseTransaction::new();
    tx.sign_with(PublicKey::new(KeyKind::Ed25519, vec![1; 32]), Box::new(Prefix(1)));
    tx.sign_with(PublicKey::new(KeyKind::EcdsaSecp256k1, vec![2; 33]), Box::new(Prefix(2)));
    let messages = vec![
        NodeMessage { node_account_id: EntityId::new(0, 0, 3), body_bytes: vec![10, 11] },
        NodeMessage { node_account_id: EntityId::new(0, 0, 4), body_bytes: vec![20] },
    ];
    let signed = tx.materialize(&messages);
    assert_eq!(signed.len(), 2);
    assert_eq!(signed[0].node_account_id, EntityId::new(0, 0, 3));
    assert_eq!(signed[0].body_bytes, vec![10, 11]);
    assert_eq!(signed[0].sig_pairs.len(), 2);
    assert_eq!(signed[0].sig_pairs[0].public_key, PublicKey::new(KeyKind::Ed25519, vec![1; 32]));
    assert_eq!(signed[0].sig_pairs[0].signature, vec![1, 10, 11]);
    assert_eq!(signed[0].sig_pairs[1].public_key, PublicKey::new(KeyKind::EcdsaSecp256k1, vec![2; 33]));
    assert_eq!(signed[0].sig_pairs[1].signature, vec![2, 10, 11]);
    assert_eq!(signed[1].node_account_id, EntityId::new(0, 0, 4));
    assert_eq!(signed[1].body_bytes, vec![20]);
    assert_eq!(signed[1].sig_pairs[0].signature, vec![1, 20]);
    assert_eq!(signed[1].sig_pairs[1].signature, vec![2, 20]);
    assert_eq!(tx.get_signers().len(), 2);
    assert!(tx.materialize(&[]).is_empty());
}

#[test]
fn payload_capabilities_by_kind() {
    let mut tx = TokenUnpauseTransaction::new();
    tx.token_id(EntityId::new(0, 0, 42)).unwrap();
    let data = *tx.payload();
    assert_eq!(data.entity_ids(), vec![EntityId::new(0, 0, 42)]);
    assert_eq!(data.service_method(), ServiceMethod::UnpauseToken);
    assert_eq!(data.default_max_transaction_fee(), Hbar::new(2));
    assert!(data.chunking().is_none());
    assert_eq!(
        data.to_schedulable_transaction_data(),
        Some(WireSchedulableData::TokenUnpause { token: Some(EntityId::new(0, 0, 42)) })
    );
    let any = AnyTransactionData::from(data);
    assert_eq!(any, AnyTransactionData::TokenUnpause(data));
    assert_eq!(any.entity_ids(), vec![EntityId::new(0, 0, 42)]);

    let tx = EthereumTransaction::new();
    assert_eq!(tx.payload().entity_ids(), vec![]);
    assert_eq!(tx.payload().to_schedulable_transaction_data(), None);
    assert_eq!(tx.payload().service_method(), ServiceMethod::CallEthereum);

    let tx = ContractExecuteTransaction::new();
    assert_eq!(tx.payload().service_method(), ServiceMethod::ContractCallMethod);
}

#[test]
fn schedule_info_query_names_its_schedule() {
    let mut query = ScheduleInfoQuery::new();
    assert_eq!(query.data().schedule_id, None);
    assert_eq!(query.data().to_query_data(), WireQueryData::ScheduleGetInfo { schedule_id: None });
    query.schedule_id(EntityId::new(0, 0, 1001));
    assert_eq!(query.data().schedule_id, Some(EntityId::new(0, 0, 1001)));
    assert_eq!(
        query.data().to_query_data(),
        WireQueryData::ScheduleGetInfo { schedule_id: Some(EntityId::new(0, 0, 1001)) }
    );
    assert_eq!(query.data().service_method(), ServiceMethod::GetScheduleInfo);
    let any = AnyQueryData::from(*query.data());
    assert_eq!(any, AnyQueryData::ScheduleInfo(*query.data()));
    assert_eq!(any.to_query_data(), query.data().to_query_data());
    assert_eq!(any.service_method(), ServiceMethod::GetScheduleInfo);
    assert_eq!(query.data().entity_ids(), vec![EntityId::new(0, 0, 1001)]);
}

fn chunked_transaction(len: usize, chunk_size: usize) -> FileAppendTransaction {
    let mut tx = FileAppendTransaction::new();
    tx.node_account_ids(test_nodes()).unwrap();
    tx.transaction_id(test_tx_id()).unwrap();
    tx.transaction_memo("append").unwrap();
    tx.file_id(EntityId::new(0, 0, 77)).unwrap();
    tx.contents((0..len).map(|i| (i % 253) as u8).collect()).unwrap();
    tx.chunk_size(chunk_size).unwrap();
    tx.freeze().unwrap();
    tx
}

#[test]
fn operation_of_several_chunks_reads_back_whole() {
    let tx = chunked_transaction(6000, 4096);
    let requests = tx.to_wire_bodies().unwrap();
    assert_eq!(requests.len(), 2);
    assert_eq!(requests[0].len(), 2);
    assert_eq!(requests[1][0].transaction_id.nonce, 1);
    let back = AnyTransaction::from_wire_requests(requests.clone()).unwrap();
    assert!(back.is_frozen());
    assert_eq!(back.get_node_account_ids(), Some(&test_nodes()[..]));
    assert_eq!(back.get_transaction_id(), Some(test_tx_id()));
    assert_eq!(back.get_transaction_memo(), "append");
    assert_eq!(back.get_max_transaction_fee(), Some(Hbar::new(5)));
    assert_eq!(back.get_transaction_valid_duration(), Some(Duration::seconds(120)));
    assert_eq!(back.get_signers().len(), 0);
    assert_eq!(
        back.payload(),
        &AnyTransactionData::FileAppend(FileAppendTransactionData {
            file_id: Some(EntityId::new(0, 0, 77)),
            contents: tx.get_contents().to_vec(),
            chunk_size: 4096,
        })
    );
    // and what it renders is what was read
    assert_eq!(back.to_wire_bodies().unwrap(), requests);

    // the flat list that goes over the wire divides into the same requests
    let flat: Vec<WireTransactionBody> = requests.iter().flatten().cloned().collect();
    assert_eq!(flat.len(), 4);
    assert_eq!(group_requests(flat), requests);
    assert_eq!(group_requests(vec![]), Vec::<Vec<WireTransactionBody>>::new());

    // three chunks, the last one short
    let tx = chunked_transaction(2500, 1000);
    let requests = tx.to_wire_bodies().unwrap();
    assert_eq!(requests.len(), 3);
    let back = AnyTransaction::from_wire_requests(requests.clone()).unwrap();
    assert_eq!(back.to_wire_bodies().unwrap(), requests);
}

#[test]
fn operation_of_one_chunk_reads_back_as_its_request() {
    let tx = make_transaction();
    let requests = tx.to_wire_bodies().unwrap();
    let one = AnyTransaction::from_wire_bodies(requests[0].clone()).unwrap();
    let all = AnyTransaction::from_wire_requests(requests).unwrap();
    assert_eq!(all.payload(), one.payload());
    assert_eq!(all.get_transaction_id(), one.get_transaction_id());
    assert_eq!(all.get_node_account_ids(), one.get_node_account_ids());
}

#[test]
fn reading_back_rejects_what_is_not_one_operation() {
    assert_eq!(AnyTransaction::from_wire_requests(vec![]).err(), Some(Error::SerializationError));
    assert_eq!(AnyTransaction::from_wire_requests(vec![vec![]]).err(), Some(Error::SerializationError));
    let requests = chunked_transaction(6000, 4096).to_wire_bodies().unwrap();
    for change in 0..8 {
        let mut changed = requests.clone();
        match change {
            0 => changed[1][0].memo = "x".to_string(),
            1 => changed[1].iter_mut().for_each(|b| b.memo = "x".to_string()),
            2 => changed[1].iter_mut().for_each(|b| b.transaction_fee += 1),
            3 => changed[1].iter_mut().for_each(|b| b.transaction_valid_duration += 1),
            4 => changed[1].iter_mut().for_each(|b| b.transaction_id.nonce = 2),
            5 => changed[1].iter_mut().for_each(|b| {
                b.data = WireBodyData::FileAppend { file_id: Some(EntityId::new(0, 0, 78)), contents: vec![1] }
            }),
            6 => changed[1].iter_mut().for_each(|b| b.data = WireBodyData::TokenUnpause { token: None }),
            _ => {
                changed[1].pop();
            }
        }
        assert_eq!(
            AnyTransaction::from_wire_requests(changed).err(),
            Some(Error::SerializationError),
            "change {change}"
        );
    }
    // a kind that fits one request cannot come in two
    let single = make_transaction().to_wire_bodies().unwrap();
    let mut twice = single.clone();
    twice.push(single[0].clone());
    assert_eq!(AnyTransaction::from_wire_requests(twice).err(), Some(Error::SerializationError));
}
