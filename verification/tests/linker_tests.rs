use block_core::linker::{link, ResolvedL1BatchForMiniblock};
use block_core::resolver::{BatchRecord, ChainSnapshot, MiniblockRecord};
use block_core::types::L1BatchNumber;

#[test]
fn expected_batch_is_pending_while_unassigned() {
    // Miniblock #100 with no explicit batch assignment, current pending
    // batch 7: the expected batch is 7.
    let resolved = ResolvedL1BatchForMiniblock {
        miniblock_l1_batch: None,
        pending_l1_batch: L1BatchNumber(7),
    };
    assert_eq!(resolved.expected_l1_batch(), L1BatchNumber(7));
}

#[test]
fn expected_batch_is_stable_after_sealing() {
    // After sealing assigns miniblock #100 to batch 7 explicitly, the
    // expected batch is still 7, whatever batch is pending by then.
    let sealed = ResolvedL1BatchForMiniblock {
        miniblock_l1_batch: Some(L1BatchNumber(7)),
        pending_l1_batch: L1BatchNumber(8),
    };
    assert_eq!(sealed.expected_l1_batch(), L1BatchNumber(7));
    let later = ResolvedL1BatchForMiniblock {
        miniblock_l1_batch: Some(L1BatchNumber(7)),
        pending_l1_batch: L1BatchNumber(12),
    };
    assert_eq!(later.expected_l1_batch(), L1BatchNumber(7));
}

#[test]
fn link_reads_assignment_or_pending() {
    let snapshot = ChainSnapshot {
        miniblocks: vec![
            MiniblockRecord {
                number: 0,
                l1_batch: Some(6),
            },
            MiniblockRecord {
                number: 1,
                l1_batch: None,
            },
        ],
        batches: vec![BatchRecord {
            number: 6,
            execute_confirmed: false,
        }],
        pending_batch: 7,
    };
    let sealed = link(&snapshot, 0);
    assert_eq!(sealed.miniblock_l1_batch, Some(L1BatchNumber(6)));
    assert_eq!(sealed.expected_l1_batch(), L1BatchNumber(6));

    let open = link(&snapshot, 1);
    assert_eq!(open.miniblock_l1_batch, None);
    assert_eq!(open.expected_l1_batch(), L1BatchNumber(7));

    let unknown = link(&snapshot, 9);
    assert_eq!(unknown.miniblock_l1_batch, None);
    assert_eq!(unknown.expected_l1_batch(), L1BatchNumber(7));
}
