use hedera::chunk::plan_chunks;
use hedera::{
    Chunk, ChunkInfo, EntityId, Error, EthereumTransaction, FileAppendTransaction, Timestamp,
    TokenUnpauseTransaction, TransactionExecute, TransactionId, WireBodyData,
};

fn base() -> TransactionId {
    TransactionId::with_valid_start(EntityId::new(0, 0, 5006), Timestamp::new(1554158542, 0))
}

fn payload(len: usize) -> Vec<u8> {
    (0..len).map(|i| (i % 251) as u8).collect()
}

fn concat(plan: &[Chunk]) -> Vec<u8> {
    plan.iter().flat_map(|c| c.data.iter().copied()).collect()
}

#[test]
fn six_thousand_bytes_in_slices_of_4096_are_two_chunks() {
    let field = payload(6000);
    let plan = plan_chunks(&field, 4096, base());
    assert_eq!(plan.len(), 2);
    assert_eq!(plan[0].info, ChunkInfo { index: 0, total: 2, base_id: base() });
    assert_eq!(plan[1].info, ChunkInfo { index: 1, total: 2, base_id: base() });
    assert_eq!(plan[0].data, &field[..4096]);
    assert_eq!(plan[1].data, &field[4096..]);
    assert_eq!(plan[1].data.len(), 1904);
    assert_eq!(concat(&plan), field);
}

#[test]
fn chunk_count_is_length_over_size_rounded_up() {
    for (len, size, count) in [
        (0usize, 4096usize, 0usize),
        (1, 4096, 1),
        (4095, 4096, 1),
        (4096, 4096, 1),
        (4097, 4096, 2),
        (8192, 4096, 2),
        (8193, 4096, 3),
        (10, 1, 10),
        (10, 3, 4),
        (10, 10, 1),
        (10, 11, 1),
        (7, usize::MAX, 1),
    ] {
        let field = payload(len);
        let plan = plan_chunks(&field, size, base());
        assert_eq!(plan.len(), count, "len {len} size {size}");
        for (i, chunk) in plan.iter().enumerate() {
            assert_eq!(chunk.info.index as usize, i);
            assert_eq!(chunk.info.total as usize, count);
            assert_eq!(chunk.info.base_id, base());
            if i + 1 < count {
                assert_eq!(chunk.data.len(), size);
            }
        }
        assert_eq!(concat(&plan), field);
    }
}

#[test]
fn chunk_identity_advances_the_nonce() {
    let mut id = base();
    id.nonce = 5;
    assert_eq!(ChunkInfo::single(id).transaction_id(), id);
    let third = ChunkInfo { index: 2, total: 4, base_id: id };
    let mut expected = id;
    expected.nonce = 7;
    assert_eq!(third.transaction_id(), expected);
    id.nonce = u32::MAX;
    let wrapped = ChunkInfo { index: 2, total: 4, base_id: id };
    assert_eq!(wrapped.transaction_id().nonce, 1);
    assert!(ChunkInfo::single(id).is_single());
    assert!(!third.is_single());
    assert!(!ChunkInfo { index: 0, total: 2, base_id: id }.is_single());
    assert!(!ChunkInfo { index: 1, total: 1, base_id: id }.is_single());
}

#[test]
fn envelope_plans_by_payload_kind() {
    let mut tx = FileAppendTransaction::new();
    tx.contents(payload(6000)).unwrap();
    let plan = tx.plan(base()).unwrap();
    assert_eq!(plan.len(), 2);
    assert_eq!(concat(&plan), payload(6000));

    tx.chunk_size(1000).unwrap();
    let plan = tx.plan(base()).unwrap();
    assert_eq!(plan.len(), 6);
    assert_eq!(plan[5].info, ChunkInfo { index: 5, total: 6, base_id: base() });
    assert_eq!(concat(&plan), payload(6000));

    tx.chunk_size(0).unwrap();
    assert_eq!(tx.plan(base()), Err(Error::UnsupportedChunking));

    let mut tx = EthereumTransaction::new();
    tx.ethereum_data(payload(6000)).unwrap();
    let plan = tx.plan(base()).unwrap();
    assert_eq!(plan, vec![Chunk { info: ChunkInfo::single(base()), data: vec![] }]);
}

#[test]
fn single_request_kinds_refuse_other_chunks() {
    let tx = TokenUnpauseTransaction::new();
    let second = Chunk { info: ChunkInfo { index: 1, total: 2, base_id: base() }, data: vec![] };
    let first_of_two = Chunk { info: ChunkInfo { index: 0, total: 2, base_id: base() }, data: vec![] };
    let only = Chunk { info: ChunkInfo::single(base()), data: vec![] };
    assert_eq!(tx.payload().to_transaction_data(&second), Err(Error::UnsupportedChunking));
    assert_eq!(tx.payload().to_transaction_data(&first_of_two), Err(Error::UnsupportedChunking));
    assert_eq!(
        tx.payload().to_transaction_data(&only),
        Ok(WireBodyData::TokenUnpause { token: None })
    );
    assert_eq!(
        tx.make_body(EntityId::new(0, 0, 3), &second).err(),
        Some(Error::UnsupportedChunking)
    );

    let mut tx = FileAppendTransaction::new();
    tx.file_id(EntityId::new(0, 0, 9)).unwrap();
    tx.contents(payload(10)).unwrap();
    let chunk = Chunk { info: ChunkInfo { index: 1, total: 2, base_id: base() }, data: vec![7, 8] };
    assert_eq!(
        tx.payload().to_transaction_data(&chunk),
        Ok(WireBodyData::FileAppend { file_id: Some(EntityId::new(0, 0, 9)), contents: vec![7, 8] })
    );
}
