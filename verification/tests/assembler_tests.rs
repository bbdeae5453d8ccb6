use bigdecimal::BigDecimal;
use block_core::assembler::{StorageL1Batch, StorageL1BatchConvertError, StorageMiniblockHeader};

fn full_batch_record() -> StorageL1Batch {
    StorageL1Batch {
        number: 5,
        timestamp: 1_600_000_000,
        is_finished: true,
        l1_tx_count: 2,
        l2_tx_count: 11,
        fee_account_address: vec![0x11; 20],
        bloom: vec![0u8; 256],
        l2_to_l1_logs: vec![sample_raw_log()],
        priority_ops_onchain_data: vec![vec![1, 2, 3]],
        created_at: 1_600_000_000,
        updated_at: 1_600_000_001,
        parent_hash: Some(vec![0x01; 32]),
        hash: Some(vec![0x02; 32]),
        merkle_root_hash: Some(vec![0x03; 32]),
        commitment: Some(vec![0x04; 32]),
        meta_parameters_hash: Some(vec![0x05; 32]),
        pass_through_data_hash: Some(vec![0x06; 32]),
        aux_data_hash: Some(vec![0x07; 32]),
        rollup_last_leaf_index: Some(23),
        zkporter_is_available: Some(false),
        bootloader_code_hash: Some(vec![0x08; 32]),
        default_aa_code_hash: Some(vec![0x09; 32]),
        l2_to_l1_messages: vec![vec![0xAA, 0xBB]],
        l2_l1_compressed_messages: Some(vec![0x0A]),
        l2_l1_merkle_root: Some(vec![0x0B; 32]),
        compressed_initial_writes: Some(vec![0x0C]),
        compressed_repeated_writes: Some(vec![0x0D]),
        compressed_write_logs: Some(vec![0x0E]),
        compressed_contracts: Some(vec![0x0F]),
        eth_prove_tx_id: Some(1),
        eth_commit_tx_id: Some(2),
        eth_execute_tx_id: Some(3),
        predicted_commit_gas_cost: 100,
        predicted_prove_gas_cost: 200,
        predicted_execute_gas_cost: 300,
        initial_bootloader_heap_content: serde_json::from_str("[[0, \"0x2a\"], [1, \"0xff\"]]")
            .unwrap(),
        used_contract_hashes: serde_json::from_str("[\"0x1234\"]").unwrap(),
        base_fee_per_gas: BigDecimal::from(250u64),
        l1_gas_price: 40,
        l2_fair_gas_price: 50,
        gas_per_pubdata_byte_in_block: None,
        gas_per_pubdata_limit: 800,
        skip_proof: false,
    }
}

fn sample_raw_log() -> Vec<u8> {
    let mut raw = Vec::new();
    raw.push(3u8); // shard id
    raw.push(1u8); // is_service
    raw.extend_from_slice(&[0x01, 0x02]); // tx number 258
    raw.extend_from_slice(&[0x21; 20]); // sender
    raw.extend_from_slice(&[0x22; 32]); // key
    raw.extend_from_slice(&[0x23; 32]); // value
    raw
}

#[test]
fn assemble_succeeds_on_complete_record_round_trip() {
    let record = full_batch_record();
    let metadata = record.assemble().expect("complete record must assemble");
    assert_eq!(metadata.root_hash.bytes, vec![0x02; 32]);
    assert_eq!(metadata.rollup_last_leaf_index, 23);
    assert_eq!(metadata.merkle_root_hash.bytes, vec![0x03; 32]);
    assert_eq!(metadata.initial_writes_compressed, vec![0x0C]);
    assert_eq!(metadata.repeated_writes_compressed, vec![0x0D]);
    assert_eq!(metadata.l2_l1_messages_compressed, vec![0x0A]);
    assert_eq!(metadata.l2_l1_merkle_root.bytes, vec![0x0B; 32]);
    assert_eq!(metadata.aux_data_hash.bytes, vec![0x07; 32]);
    assert_eq!(metadata.meta_parameters_hash.bytes, vec![0x05; 32]);
    assert_eq!(metadata.pass_through_data_hash.bytes, vec![0x06; 32]);
    assert_eq!(metadata.commitment.bytes, vec![0x04; 32]);
    assert!(!metadata.block_meta_params.zkporter_is_available);
    assert_eq!(metadata.block_meta_params.bootloader_code_hash.bytes, vec![0x08; 32]);
    assert_eq!(metadata.block_meta_params.default_aa_code_hash.bytes, vec![0x09; 32]);
}

#[test]
fn assemble_fails_incomplete_on_any_missing_field() {
    let mut record = full_batch_record();
    record.hash = None;
    assert_eq!(
        record.assemble().unwrap_err(),
        StorageL1BatchConvertError::Incomplete
    );

    let mut record = full_batch_record();
    record.zkporter_is_available = None;
    assert_eq!(
        record.assemble().unwrap_err(),
        StorageL1BatchConvertError::Incomplete
    );

    let mut record = full_batch_record();
    record.compressed_repeated_writes = None;
    assert_eq!(
        record.assemble().unwrap_err(),
        StorageL1BatchConvertError::Incomplete
    );

    let mut record = full_batch_record();
    record.default_aa_code_hash = None;
    assert_eq!(
        record.assemble().unwrap_err(),
        StorageL1BatchConvertError::Incomplete
    );
}

#[test]
fn assemble_hash_scenario() {
    // hash missing, all other thirteen commitment fields set: Incomplete.
    let mut record = full_batch_record();
    record.hash = None;
    assert_eq!(
        record.assemble().unwrap_err(),
        StorageL1BatchConvertError::Incomplete
    );
    // setting hash to a 32-byte value and changing nothing else: success,
    // and the returned root hash equals the supplied bytes.
    let supplied: Vec<u8> = (0u8..32).collect();
    let mut record = full_batch_record();
    record.hash = Some(supplied.clone());
    let metadata = record.assemble().expect("record is now complete");
    assert_eq!(metadata.root_hash.bytes, supplied);
}

#[test]
fn assemble_header_decodes_every_column() {
    let header = full_batch_record()
        .assemble_header()
        .expect("well-formed row must convert");
    assert_eq!(header.number.0, 5);
    assert!(header.is_finished);
    assert_eq!(header.timestamp, 1_600_000_000);
    assert_eq!(header.fee_account_address.bytes, vec![0x11; 20]);
    assert_eq!(header.priority_ops_onchain_data.len(), 1);
    assert_eq!(header.priority_ops_onchain_data[0].data, vec![1, 2, 3]);
    assert_eq!(header.l1_tx_count, 2);
    assert_eq!(header.l2_tx_count, 11);
    assert_eq!(header.l2_to_l1_messages, vec![vec![0xAA, 0xBB]]);
    assert_eq!(header.bloom.bytes, vec![0u8; 256]);
    assert_eq!(header.base_fee_per_gas, 250);
    assert_eq!(header.l1_gas_price, 40);
    assert_eq!(header.l2_fair_gas_price, 50);
    assert_eq!(header.base_system_contracts_hashes.bootloader.bytes, vec![0x08; 32]);
    assert_eq!(header.base_system_contracts_hashes.default_aa.bytes, vec![0x09; 32]);

    // decoded log record
    assert_eq!(header.l2_to_l1_logs.len(), 1);
    let log = &header.l2_to_l1_logs[0];
    assert_eq!(log.shard_id, 3);
    assert!(log.is_service);
    assert_eq!(log.tx_number_in_block, 258);
    assert_eq!(log.sender.bytes, vec![0x21; 20]);
    assert_eq!(log.key.bytes, vec![0x22; 32]);
    assert_eq!(log.value.bytes, vec![0x23; 32]);

    // bootloader heap pairs decoded from the stored JSON
    assert_eq!(header.initial_bootloader_contents.len(), 2);
    assert_eq!(header.initial_bootloader_contents[0].0, 0);
    let mut expected = vec![0u8; 32];
    expected[31] = 0x2a;
    assert_eq!(header.initial_bootloader_contents[0].1.bytes, expected);
    assert_eq!(header.initial_bootloader_contents[1].0, 1);
    let mut expected = vec![0u8; 32];
    expected[31] = 0xff;
    assert_eq!(header.initial_bootloader_contents[1].1.bytes, expected);

    // contract hashes decoded from the stored JSON
    assert_eq!(header.used_contract_hashes.len(), 1);
    let mut expected = vec![0u8; 32];
    expected[30] = 0x12;
    expected[31] = 0x34;
    assert_eq!(header.used_contract_hashes[0].bytes, expected);
}

#[test]
fn assemble_header_rejects_malformed_log() {
    let mut record = full_batch_record();
    record.l2_to_l1_logs = vec![vec![0u8; 87]]; // one byte short
    assert_eq!(
        record.assemble_header().unwrap_err(),
        StorageL1BatchConvertError::MalformedRecord
    );
}

#[test]
fn assemble_header_rejects_malformed_json() {
    let mut record = full_batch_record();
    record.initial_bootloader_heap_content = serde_json::from_str("{\"no\": \"pairs\"}").unwrap();
    assert_eq!(
        record.assemble_header().unwrap_err(),
        StorageL1BatchConvertError::MalformedRecord
    );

    let mut record = full_batch_record();
    record.used_contract_hashes = serde_json::from_str("[\"no hex prefix\"]").unwrap();
    assert_eq!(
        record.assemble_header().unwrap_err(),
        StorageL1BatchConvertError::MalformedRecord
    );
}

#[test]
fn assemble_header_rejects_unrepresentable_base_fee() {
    let mut record = full_batch_record();
    record.base_fee_per_gas = BigDecimal::from(-1i64);
    assert_eq!(
        record.assemble_header().unwrap_err(),
        StorageL1BatchConvertError::MalformedRecord
    );
}

fn miniblock_row() -> StorageMiniblockHeader {
    StorageMiniblockHeader {
        number: 100,
        timestamp: 1_600_000_777,
        hash: vec![0x42; 32],
        l1_tx_count: 1,
        l2_tx_count: 9,
        base_fee_per_gas: BigDecimal::from(100u64),
        l1_gas_price: 7,
        l2_fair_gas_price: 8,
        bootloader_code_hash: Some(vec![0x08; 32]),
        default_aa_code_hash: Some(vec![0x09; 32]),
    }
}

#[test]
fn miniblock_header_round_trip() {
    let header = miniblock_row().into_header().expect("well-formed row");
    assert_eq!(header.number.0, 100);
    assert_eq!(header.timestamp, 1_600_000_777);
    assert_eq!(header.hash.bytes, vec![0x42; 32]);
    assert_eq!(header.l1_tx_count, 1);
    assert_eq!(header.l2_tx_count, 9);
    assert_eq!(header.base_fee_per_gas, 100);
    assert_eq!(header.l1_gas_price, 7);
    assert_eq!(header.l2_fair_gas_price, 8);
    assert_eq!(header.base_system_contracts_hashes.bootloader.bytes, vec![0x08; 32]);
    assert_eq!(header.base_system_contracts_hashes.default_aa.bytes, vec![0x09; 32]);
}

#[test]
fn miniblock_header_rejects_unrepresentable_base_fee() {
    let mut row = miniblock_row();
    row.base_fee_per_gas = BigDecimal::from(-5i64);
    assert_eq!(
        row.into_header().unwrap_err(),
        StorageL1BatchConvertError::MalformedRecord
    );
}
