use block_core::details::{
    block_page_item_from_storage, l1_batch_page_item_from_storage, StorageBlockDetails,
    StorageBlockPageItem, StorageL1BatchDetails, StorageL1BatchPageItem,
};
use block_core::assembler::StorageL1BatchConvertError;
use block_core::types::{Address, BlockStatus, H256, L1BatchNumber, MiniblockNumber};
use block_core::types::parse_h256_hex;

fn tx_hash_hex(fill: char) -> Vec<u8> {
    let mut s = String::from("0x");
    for _ in 0..64 {
        s.push(fill);
    }
    s.into_bytes()
}

#[test]
fn block_page_item_status_follows_last_verified() {
    let storage = StorageBlockPageItem {
        number: 8,
        l1_tx_count: 1,
        l2_tx_count: 2,
        hash: Some(vec![0x33; 32]),
        timestamp: 1_000,
    };
    let sealed = block_page_item_from_storage(storage.clone(), MiniblockNumber(7));
    assert_eq!(sealed.status, BlockStatus::Sealed);
    assert_eq!(sealed.number, MiniblockNumber(8));
    assert_eq!(sealed.l1_tx_count, 1);
    assert_eq!(sealed.l2_tx_count, 2);
    assert_eq!(sealed.hash, Some(H256 { bytes: vec![0x33; 32] }));
    assert_eq!(sealed.timestamp, 1_000);

    let verified = block_page_item_from_storage(storage, MiniblockNumber(8));
    assert_eq!(verified.status, BlockStatus::Verified);
}

#[test]
fn l1_batch_page_item_status_follows_last_verified() {
    let storage = StorageL1BatchPageItem {
        number: 3,
        l1_tx_count: 4,
        l2_tx_count: 5,
        hash: None,
        timestamp: 2_000,
    };
    let sealed = l1_batch_page_item_from_storage(storage.clone(), L1BatchNumber(2));
    assert_eq!(sealed.status, BlockStatus::Sealed);
    assert_eq!(sealed.number, L1BatchNumber(3));
    assert_eq!(sealed.root_hash, None);

    let verified = l1_batch_page_item_from_storage(storage, L1BatchNumber(3));
    assert_eq!(verified.status, BlockStatus::Verified);
}

fn block_details_row() -> StorageBlockDetails {
    StorageBlockDetails {
        number: 12,
        l1_batch_number: 3,
        timestamp: 5_000,
        l1_tx_count: 6,
        l2_tx_count: 7,
        root_hash: Some(vec![0x55; 32]),
        commit_tx_hash: Some(tx_hash_hex('a')),
        committed_at: Some(1_600_000_100),
        prove_tx_hash: Some(tx_hash_hex('b')),
        proven_at: Some(1_600_000_200),
        execute_tx_hash: Some(tx_hash_hex('c')),
        executed_at: Some(1_600_000_300),
        l1_gas_price: 44,
        l2_fair_gas_price: 55,
        bootloader_code_hash: Some(vec![0x08; 32]),
        default_aa_code_hash: Some(vec![0x09; 32]),
        fee_account_address: Some(vec![0x77; 20]),
    }
}

#[test]
fn block_details_decodes_every_column() {
    let details = block_details_row()
        .into_block_details(Address { bytes: vec![0u8; 20] })
        .expect("well-formed row");
    assert_eq!(details.number, MiniblockNumber(12));
    assert_eq!(details.l1_batch_number, L1BatchNumber(3));
    assert_eq!(details.timestamp, 5_000);
    assert_eq!(details.l1_tx_count, 6);
    assert_eq!(details.l2_tx_count, 7);
    assert_eq!(details.status, BlockStatus::Verified);
    assert_eq!(details.root_hash, Some(H256 { bytes: vec![0x55; 32] }));
    assert_eq!(details.commit_tx_hash, Some(H256 { bytes: vec![0xaa; 32] }));
    assert_eq!(details.committed_at, Some(1_600_000_100));
    assert_eq!(details.prove_tx_hash, Some(H256 { bytes: vec![0xbb; 32] }));
    assert_eq!(details.proven_at, Some(1_600_000_200));
    assert_eq!(details.execute_tx_hash, Some(H256 { bytes: vec![0xcc; 32] }));
    assert_eq!(details.executed_at, Some(1_600_000_300));
    assert_eq!(details.l1_gas_price, 44);
    assert_eq!(details.l2_fair_gas_price, 55);
    assert_eq!(details.operator_address, Address { bytes: vec![0x77; 20] });
}

#[test]
fn block_details_status_sealed_without_execute_tx() {
    let mut row = block_details_row();
    row.execute_tx_hash = None;
    row.executed_at = None;
    let details = row
        .into_block_details(Address { bytes: vec![0u8; 20] })
        .unwrap();
    assert_eq!(details.status, BlockStatus::Sealed);
    assert_eq!(details.execute_tx_hash, None);

    // the genesis block counts as verified even without an execute tx
    let mut row = block_details_row();
    row.number = 0;
    row.execute_tx_hash = None;
    let details = row
        .into_block_details(Address { bytes: vec![0u8; 20] })
        .unwrap();
    assert_eq!(details.status, BlockStatus::Verified);
}

#[test]
fn block_details_falls_back_to_current_operator() {
    let mut row = block_details_row();
    row.fee_account_address = None;
    let fallback = Address { bytes: vec![0x99; 20] };
    let details = row.into_block_details(fallback.clone()).unwrap();
    assert_eq!(details.operator_address, fallback);
}

#[test]
fn block_details_rejects_malformed_tx_hash() {
    let mut row = block_details_row();
    row.commit_tx_hash = Some(b"0xnot-hex".to_vec());
    assert_eq!(
        row.into_block_details(Address { bytes: vec![0u8; 20] })
            .unwrap_err(),
        StorageL1BatchConvertError::MalformedRecord
    );
}

fn l1_batch_details_row() -> StorageL1BatchDetails {
    StorageL1BatchDetails {
        number: 4,
        timestamp: 6_000,
        l1_tx_count: 1,
        l2_tx_count: 2,
        root_hash: Some(vec![0x66; 32]),
        commit_tx_hash: Some(tx_hash_hex('d')),
        committed_at: Some(1_600_001_000),
        prove_tx_hash: None,
        proven_at: None,
        execute_tx_hash: None,
        executed_at: None,
        l1_gas_price: 14,
        l2_fair_gas_price: 15,
        bootloader_code_hash: Some(vec![0x08; 32]),
        default_aa_code_hash: Some(vec![0x09; 32]),
    }
}

#[test]
fn l1_batch_details_decodes_every_column() {
    let details = l1_batch_details_row()
        .into_l1_batch_details()
        .expect("well-formed row");
    assert_eq!(details.number, L1BatchNumber(4));
    assert_eq!(details.timestamp, 6_000);
    assert_eq!(details.status, BlockStatus::Sealed);
    assert_eq!(details.root_hash, Some(H256 { bytes: vec![0x66; 32] }));
    assert_eq!(details.commit_tx_hash, Some(H256 { bytes: vec![0xdd; 32] }));
    assert_eq!(details.prove_tx_hash, None);
    assert_eq!(details.execute_tx_hash, None);
    assert_eq!(details.l1_gas_price, 14);
    assert_eq!(details.l2_fair_gas_price, 15);
}

#[test]
fn l1_batch_details_rejects_malformed_tx_hash() {
    let mut row = l1_batch_details_row();
    row.commit_tx_hash = Some(b"0x1234".to_vec()); // too short
    assert_eq!(
        row.into_l1_batch_details().unwrap_err(),
        StorageL1BatchConvertError::MalformedRecord
    );
}

#[test]
fn hex_hash_parsing_accepts_prefixed_and_bare() {
    let bare: Vec<u8> = tx_hash_hex('e')[2..].to_vec();
    let parsed = parse_h256_hex(&bare).expect("64 bare digits");
    assert_eq!(parsed.bytes, vec![0xee; 32]);
    let prefixed = tx_hash_hex('e');
    let parsed = parse_h256_hex(&prefixed).expect("0x plus 64 digits");
    assert_eq!(parsed.bytes, vec![0xee; 32]);
    // mixed case digits
    let mixed = b"0xAbCdEf0000000000000000000000000000000000000000000000000000000000".to_vec();
    let parsed = parse_h256_hex(&mixed).expect("mixed case digits");
    assert_eq!(parsed.bytes[0], 0xab);
    assert_eq!(parsed.bytes[1], 0xcd);
    assert_eq!(parsed.bytes[2], 0xef);
}

#[test]
fn hex_hash_parsing_rejects_bad_shapes() {
    assert!(parse_h256_hex(&b"0x12".to_vec()).is_none());
    assert!(parse_h256_hex(&vec![b'g'; 64]).is_none());
    assert!(parse_h256_hex(&vec![b'a'; 63]).is_none());
    assert!(parse_h256_hex(&vec![b'a'; 65]).is_none());
}
