use block_core::resolver::{
    bind_block_where_sql_params, bound_param, pg_query, u64_to_dec_string, web3_block_number_to_sql,
    web3_block_where_sql, BatchRecord, BindValue, BlockId, BlockNumber, ChainSnapshot,
    MiniblockRecord,
};
use block_core::types::H256;

#[test]
fn test_web3_block_number_to_sql_earliest() {
    let sql = web3_block_number_to_sql(BlockNumber::Earliest);
    assert_eq!(sql, 0.to_string());
}

#[test]
fn test_web3_block_number_to_sql_pending() {
    let sql = web3_block_number_to_sql(BlockNumber::Pending);
    assert_eq!(
        sql,
        "(SELECT (MAX(number) + 1) as number FROM miniblocks)".to_string()
    );
}

#[test]
fn test_web3_block_number_to_sql_latest() {
    let sql = web3_block_number_to_sql(BlockNumber::Latest);
    assert_eq!(
        sql,
        "(SELECT MAX(number) as number FROM miniblocks)".to_string()
    );
}

#[test]
fn test_web3_block_number_to_sql_committed() {
    let sql = web3_block_number_to_sql(BlockNumber::Committed);
    assert_eq!(
        sql,
        "(SELECT MAX(number) as number FROM miniblocks)".to_string()
    );
}

#[test]
fn test_web3_block_number_to_sql_finalized() {
    let sql = web3_block_number_to_sql(BlockNumber::Finalized);
    assert_eq!(
        sql,
        "
                (SELECT COALESCE(
                    (
                        SELECT MAX(number) FROM miniblocks
                        WHERE l1_batch_number = (
                            SELECT MAX(number) FROM l1_batches
                            JOIN eth_txs ON
                                l1_batches.eth_execute_tx_id = eth_txs.id
                            WHERE
                                eth_txs.confirmed_eth_tx_history_id IS NOT NULL
                        )
                    ),
                    0
                ) as number)
            "
        .to_string()
    );
}

#[test]
fn test_web3_block_number_to_sql_exact_number() {
    assert_eq!(web3_block_number_to_sql(BlockNumber::Number(0)), "0");
    assert_eq!(
        web3_block_number_to_sql(BlockNumber::Number(1234567890)),
        "1234567890"
    );
    assert_eq!(
        web3_block_number_to_sql(BlockNumber::Number(u64::MAX)),
        u64::MAX.to_string()
    );
}

#[test]
fn test_u64_to_dec_string() {
    assert_eq!(u64_to_dec_string(0), "0");
    assert_eq!(u64_to_dec_string(7), "7");
    assert_eq!(u64_to_dec_string(10), "10");
    assert_eq!(u64_to_dec_string(305441741), "305441741");
}

#[test]
fn test_web3_block_where_sql_hash() {
    let id = BlockId::Hash(H256 { bytes: vec![0u8; 32] });
    assert_eq!(web3_block_where_sql(&id, 1), "miniblocks.hash = $1");
}

#[test]
fn test_web3_block_where_sql_exact_number() {
    let id = BlockId::Number(BlockNumber::Number(42));
    assert_eq!(web3_block_where_sql(&id, 2), "miniblocks.number = $2");
}

#[test]
fn test_web3_block_where_sql_symbolic() {
    let id = BlockId::Number(BlockNumber::Latest);
    assert_eq!(
        web3_block_where_sql(&id, 1),
        "miniblocks.number = (SELECT MAX(number) as number FROM miniblocks)"
    );
    let id = BlockId::Number(BlockNumber::Earliest);
    assert_eq!(web3_block_where_sql(&id, 1), "miniblocks.number = 0");
}

#[test]
fn test_bound_param_kinds() {
    let hash_bytes: Vec<u8> = (0u8..32).collect();
    let id = BlockId::Hash(H256 {
        bytes: hash_bytes.clone(),
    });
    match bound_param(&id) {
        Some(BindValue::Bytes(b)) => assert_eq!(b, hash_bytes),
        other => panic!("expected bound hash bytes, got {:?}", other),
    }
    let id = BlockId::Number(BlockNumber::Number(7));
    assert_eq!(bound_param(&id), Some(BindValue::Number(7)));
    let id = BlockId::Number(BlockNumber::Pending);
    assert_eq!(bound_param(&id), None);
}

#[test]
fn test_bind_block_where_sql_params_runs() {
    let id = BlockId::Hash(H256 { bytes: vec![1u8; 32] });
    let query = pg_query("SELECT number FROM miniblocks WHERE miniblocks.hash = $1");
    let _bound = bind_block_where_sql_params(&id, query);
    let id = BlockId::Number(BlockNumber::Number(3));
    let query = pg_query("SELECT number FROM miniblocks WHERE miniblocks.number = $1");
    let _bound = bind_block_where_sql_params(&id, query);
    let id = BlockId::Number(BlockNumber::Latest);
    let query = pg_query("SELECT number FROM miniblocks");
    let _bound = bind_block_where_sql_params(&id, query);
}

fn snapshot(confirmed: &[bool], assignments: &[Option<u32>], pending: u32) -> ChainSnapshot {
    let miniblocks = assignments
        .iter()
        .enumerate()
        .map(|(i, a)| MiniblockRecord {
            number: i as u32,
            l1_batch: *a,
        })
        .collect();
    let batches = confirmed
        .iter()
        .enumerate()
        .map(|(i, c)| BatchRecord {
            number: (i + 1) as u32,
            execute_confirmed: *c,
        })
        .collect();
    ChainSnapshot {
        miniblocks,
        batches,
        pending_batch: pending,
    }
}

#[test]
fn test_resolve_earliest_always_zero() {
    let s = snapshot(&[true, false], &[Some(1), Some(1), Some(2)], 3);
    assert_eq!(s.resolve(BlockNumber::Earliest), 0);
    let tall = snapshot(&[], &[None; 50], 1);
    assert_eq!(tall.resolve(BlockNumber::Earliest), 0);
}

#[test]
fn test_resolve_pending_is_latest_plus_one() {
    let s = snapshot(&[true, false], &[Some(1), Some(1), Some(2)], 3);
    assert_eq!(
        s.resolve(BlockNumber::Pending),
        s.resolve(BlockNumber::Latest) + 1
    );
    let tall = snapshot(&[], &[None; 50], 1);
    assert_eq!(
        tall.resolve(BlockNumber::Pending),
        tall.resolve(BlockNumber::Latest) + 1
    );
}

#[test]
fn test_resolve_latest_and_committed_agree() {
    let s = snapshot(&[true], &[Some(1), None], 2);
    assert_eq!(s.resolve(BlockNumber::Latest), 1);
    assert_eq!(s.resolve(BlockNumber::Committed), 1);
}

#[test]
fn test_resolve_finalized_two_batches() {
    // Batch 1's execute transaction is confirmed, batch 2's is not: the
    // finalized reference is the highest miniblock belonging to batch 1.
    let s = snapshot(&[true, false], &[Some(1), Some(1), Some(2)], 3);
    assert_eq!(s.resolve(BlockNumber::Finalized), 1);
    assert!(s.resolve(BlockNumber::Finalized) <= s.resolve(BlockNumber::Latest));
}

#[test]
fn test_resolve_finalized_no_confirmation_is_zero() {
    let s = snapshot(&[false, false], &[Some(1), Some(1), Some(2)], 3);
    assert_eq!(s.resolve(BlockNumber::Finalized), 0);
    let s = snapshot(&[], &[Some(1), None], 1);
    assert_eq!(s.resolve(BlockNumber::Finalized), 0);
}

#[test]
fn test_resolve_finalized_never_exceeds_latest() {
    let s = snapshot(&[true, true], &[Some(1), Some(2), Some(2), None], 3);
    let finalized = s.resolve(BlockNumber::Finalized);
    let latest = s.resolve(BlockNumber::Latest);
    assert_eq!(finalized, 2);
    assert_eq!(latest, 3);
    assert!(finalized <= latest);
}

#[test]
fn test_resolve_exact_number_is_identity() {
    let s = snapshot(&[true], &[Some(1)], 2);
    assert_eq!(s.resolve(BlockNumber::Number(12345)), 12345);
}

#[test]
fn test_where_sql_placeholder_matches_binding() {
    // References that bind one positional parameter render a placeholder;
    // symbolic tags inline their sub-select and render none.
    let hash_id = BlockId::Hash(H256 { bytes: vec![0u8; 32] });
    assert!(web3_block_where_sql(&hash_id, 1).contains('$'));
    let num_id = BlockId::Number(BlockNumber::Number(5));
    assert!(web3_block_where_sql(&num_id, 1).contains('$'));
    for tag in [
        BlockNumber::Earliest,
        BlockNumber::Pending,
        BlockNumber::Latest,
        BlockNumber::Committed,
        BlockNumber::Finalized,
    ] {
        assert!(!web3_block_where_sql(&BlockId::Number(tag), 1).contains('$'));
    }
}
