//! Batch completeness assembly: converting a raw stored batch record into a
//! fully verified header or commitment metadata value.

use vstd::prelude::*;

use crate::hexutil::copy_range;
use crate::types::{
    Address, BaseSystemContractsHashes, H2048, H256, L1BatchHeader, L1BatchMetaParameters,
    L1BatchMetadata, L1BatchNumber, L2ToL1Log, MiniblockHeader, MiniblockNumber,
    PriorityOpOnchainData, U256, u256_hex_ok, u256_hex_bytes, parse_u256_hex, L2_TO_L1_LOG_SIZE,
};

verus! {

/// Why a raw batch record could not be converted.
#[derive(Debug, Clone, Copy, PartialEq, Eq, Structural)]
pub enum StorageL1BatchConvertError {
    /// A derived commitment field is still missing; the caller may retry
    /// once the sealing pipeline has populated it.
    Incomplete,
    /// A stored field failed to decode into its domain shape; fatal for
    /// this record.
    MalformedRecord,
}

/// Declares serde_json's JSON value type so raw rows can carry it.
#[verifier::external_type_specification]
#[verifier::external_body]
pub struct ExValue(serde_json::Value);

/// Declares bigdecimal's arbitrary-precision decimal type so raw rows can
/// carry the stored base fee.
#[verifier::external_type_specification]
#[verifier::external_body]
pub struct ExBigDecimal(bigdecimal::BigDecimal);

/// The offset/hex-string pairs a JSON value deserializes to when it has
/// that shape; a function of the value alone.
pub uninterp spec fn heap_pairs_of(v: serde_json::Value) -> Option<Vec<(u64, Vec<u8>)>>;

/// The hex-string list a JSON value deserializes to when it has that shape;
/// a function of the value alone.
pub uninterp spec fn hex_list_of(v: serde_json::Value) -> Option<Vec<Vec<u8>>>;

/// The 64-bit integer a stored decimal converts to when it is
/// representable; a function of the decimal alone.
pub uninterp spec fn u64_of_decimal(d: bigdecimal::BigDecimal) -> Option<u64>;

/// Relies on serde_json::from_value to read a JSON array of
/// [offset, hex-string] pairs; None on any shape mismatch.
#[verifier::external_body]
fn json_to_offset_hex_pairs(v: &serde_json::Value) -> (r: Option<Vec<(u64, Vec<u8>)>>)
    ensures
        r == heap_pairs_of(*v),
{
    serde_json::from_value::<Vec<(u64, String)>>(v.clone()).ok().map(
        |pairs| pairs.into_iter().map(|(off, hex)| (off, hex.into_bytes())).collect(),
    )
}

/// Relies on serde_json::from_value to read a JSON array of hex strings;
/// None on any shape mismatch.
#[verifier::external_body]
fn json_to_hex_list(v: &serde_json::Value) -> (r: Option<Vec<Vec<u8>>>)
    ensures
        r == hex_list_of(*v),
{
    serde_json::from_value::<Vec<String>>(v.clone()).ok().map(
        |items| items.into_iter().map(String::into_bytes).collect(),
    )
}

/// Relies on bigdecimal::ToPrimitive::to_u64: Some exactly when the stored
/// decimal's integer part (truncated toward zero) fits in u64.
#[verifier::external_body]
fn big_decimal_to_u64(d: &bigdecimal::BigDecimal) -> (r: Option<u64>)
    ensures
        r == u64_of_decimal(*d),
{
    bigdecimal::ToPrimitive::to_u64(d)
}

/// A raw L1 batch record as the persistence collaborator supplies it: header
/// fields are mandatory, the fourteen derived commitment fields are each
/// independently nullable.
pub struct StorageL1Batch {
    pub number: i64,
    pub timestamp: i64,
    pub is_finished: bool,
    pub l1_tx_count: i32,
    pub l2_tx_count: i32,
    pub fee_account_address: Vec<u8>,
    pub bloom: Vec<u8>,
    pub l2_to_l1_logs: Vec<Vec<u8>>,
    pub priority_ops_onchain_data: Vec<Vec<u8>>,
    pub created_at: i64,
    pub updated_at: i64,
    pub parent_hash: Option<Vec<u8>>,
    pub hash: Option<Vec<u8>>,
    pub merkle_root_hash: Option<Vec<u8>>,
    pub commitment: Option<Vec<u8>>,
    pub meta_parameters_hash: Option<Vec<u8>>,
    pub pass_through_data_hash: Option<Vec<u8>>,
    pub aux_data_hash: Option<Vec<u8>>,
    pub rollup_last_leaf_index: Option<i64>,
    pub zkporter_is_available: Option<bool>,
    pub bootloader_code_hash: Option<Vec<u8>>,
    pub default_aa_code_hash: Option<Vec<u8>>,
    pub l2_to_l1_messages: Vec<Vec<u8>>,
    pub l2_l1_compressed_messages: Option<Vec<u8>>,
    pub l2_l1_merkle_root: Option<Vec<u8>>,
    pub compressed_initial_writes: Option<Vec<u8>>,
    pub compressed_repeated_writes: Option<Vec<u8>>,
    pub compressed_write_logs: Option<Vec<u8>>,
    pub compressed_contracts: Option<Vec<u8>>,
    pub eth_prove_tx_id: Option<i32>,
    pub eth_commit_tx_id: Option<i32>,
    pub eth_execute_tx_id: Option<i32>,
    pub predicted_commit_gas_cost: i64,
    pub predicted_prove_gas_cost: i64,
    pub predicted_execute_gas_cost: i64,
    pub initial_bootloader_heap_content: serde_json::Value,
    pub used_contract_hashes: serde_json::Value,
    pub base_fee_per_gas: bigdecimal::BigDecimal,
    pub l1_gas_price: i64,
    pub l2_fair_gas_price: i64,
    pub gas_per_pubdata_byte_in_block: Option<i32>,
    pub gas_per_pubdata_limit: i64,
    pub skip_proof: bool,
}

impl StorageL1Batch {
    /// All fourteen derived commitment fields are populated.
    pub open spec fn commitment_fields_complete(&self) -> bool {
        &&& self.hash is Some
        &&& self.rollup_last_leaf_index is Some
        &&& self.merkle_root_hash is Some
        &&& self.compressed_initial_writes is Some
        &&& self.compressed_repeated_writes is Some
        &&& self.l2_l1_compressed_messages is Some
        &&& self.l2_l1_merkle_root is Some
        &&& self.aux_data_hash is Some
        &&& self.meta_parameters_hash is Some
        &&& self.pass_through_data_hash is Some
        &&& self.commitment is Some
        &&& self.zkporter_is_available is Some
        &&& self.bootloader_code_hash is Some
        &&& self.default_aa_code_hash is Some
    }

    /// Every populated commitment field has its domain shape: hash fields
    /// are 32 bytes wide and the leaf-index watermark is non-negative.
    pub open spec fn commitment_fields_wf(&self) -> bool {
        &&& self.hash is Some ==> self.hash.unwrap()@.len() == 32
        &&& self.merkle_root_hash is Some ==> self.merkle_root_hash.unwrap()@.len() == 32
        &&& self.l2_l1_merkle_root is Some ==> self.l2_l1_merkle_root.unwrap()@.len() == 32
        &&& self.aux_data_hash is Some ==> self.aux_data_hash.unwrap()@.len() == 32
        &&& self.meta_parameters_hash is Some ==> self.meta_parameters_hash.unwrap()@.len() == 32
        &&& self.pass_through_data_hash is Some ==> self.pass_through_data_hash.unwrap()@.len()
            == 32
        &&& self.commitment is Some ==> self.commitment.unwrap()@.len() == 32
        &&& self.bootloader_code_hash is Some ==> self.bootloader_code_hash.unwrap()@.len() == 32
        &&& self.default_aa_code_hash is Some ==> self.default_aa_code_hash.unwrap()@.len() == 32
        &&& self.rollup_last_leaf_index is Some ==> self.rollup_last_leaf_index.unwrap() >= 0
    }

    /// The metadata value carries exactly the record's commitment fields.
    pub open spec fn metadata_matches(&self, m: L1BatchMetadata) -> bool {
        &&& m.root_hash.bytes@ == self.hash.unwrap()@
        &&& m.rollup_last_leaf_index == self.rollup_last_leaf_index.unwrap() as u64
        &&& m.merkle_root_hash.bytes@ == self.merkle_root_hash.unwrap()@
        &&& m.initial_writes_compressed@ == self.compressed_initial_writes.unwrap()@
        &&& m.repeated_writes_compressed@ == self.compressed_repeated_writes.unwrap()@
        &&& m.l2_l1_messages_compressed@ == self.l2_l1_compressed_messages.unwrap()@
        &&& m.l2_l1_merkle_root.bytes@ == self.l2_l1_merkle_root.unwrap()@
        &&& m.aux_data_hash.bytes@ == self.aux_data_hash.unwrap()@
        &&& m.meta_parameters_hash.bytes@ == self.meta_parameters_hash.unwrap()@
        &&& m.pass_through_data_hash.bytes@ == self.pass_through_data_hash.unwrap()@
        &&& m.commitment.bytes@ == self.commitment.unwrap()@
        &&& m.block_meta_params.zkporter_is_available == self.zkporter_is_available.unwrap()
        &&& m.block_meta_params.bootloader_code_hash.bytes@ == self.bootloader_code_hash.unwrap()@
        &&& m.block_meta_params.default_aa_code_hash.bytes@ == self.default_aa_code_hash.unwrap()@
    }

    /// Converts the record's derived commitment fields into complete batch
    /// metadata. Fails with `Incomplete` exactly when any of the fourteen
    /// fields is still missing; on success every output field equals the
    /// corresponding input field.
    pub fn assemble(self) -> (r: Result<L1BatchMetadata, StorageL1BatchConvertError>)
        requires
            self.commitment_fields_wf(),
        ensures
            r is Ok <==> self.commitment_fields_complete(),
            !self.commitment_fields_complete() ==> r == Err::<
                L1BatchMetadata,
                StorageL1BatchConvertError,
            >(StorageL1BatchConvertError::Incomplete),
            r is Ok ==> self.metadata_matches(r.unwrap()) && r.unwrap().wf(),
    {
        let hash = match self.hash {
            Some(v) => v,
            None => {
                return Err(StorageL1BatchConvertError::Incomplete);
            },
        };
        let rollup_last_leaf_index = match self.rollup_last_leaf_index {
            Some(v) => v,
            None => {
                return Err(StorageL1BatchConvertError::Incomplete);
            },
        };
        let merkle_root_hash = match self.merkle_root_hash {
            Some(v) => v,
            None => {
                return Err(StorageL1BatchConvertError::Incomplete);
            },
        };
        let compressed_initial_writes = match self.compressed_initial_writes {
            Some(v) => v,
            None => {
                return Err(StorageL1BatchConvertError::Incomplete);
            },
        };
        let compressed_repeated_writes = match self.compressed_repeated_writes {
            Some(v) => v,
            None => {
                return Err(StorageL1BatchConvertError::Incomplete);
            },
        };
        let l2_l1_compressed_messages = match self.l2_l1_compressed_messages {
            Some(v) => v,
            None => {
                return Err(StorageL1BatchConvertError::Incomplete);
            },
        };
        let l2_l1_merkle_root = match self.l2_l1_merkle_root {
            Some(v) => v,
            None => {
                return Err(StorageL1BatchConvertError::Incomplete);
            },
        };
        let aux_data_hash = match self.aux_data_hash {
            Some(v) => v,
            None => {
                return Err(StorageL1BatchConvertError::Incomplete);
            },
        };
        let meta_parameters_hash = match self.meta_parameters_hash {
            Some(v) => v,
            None => {
                return Err(StorageL1BatchConvertError::Incomplete);
            },
        };
        let pass_through_data_hash = match self.pass_through_data_hash {
            Some(v) => v,
            None => {
                return Err(StorageL1BatchConvertError::Incomplete);
            },
        };
        let commitment = match self.commitment {
            Some(v) => v,
            None => {
                return Err(StorageL1BatchConvertError::Incomplete);
            },
        };
        let zkporter_is_available = match self.zkporter_is_available {
            Some(v) => v,
            None => {
                return Err(StorageL1BatchConvertError::Incomplete);
            },
        };
        let bootloader_code_hash = match self.bootloader_code_hash {
            Some(v) => v,
            None => {
                return Err(StorageL1BatchConvertError::Incomplete);
            },
        };
        let default_aa_code_hash = match self.default_aa_code_hash {
            Some(v) => v,
            None => {
                return Err(StorageL1BatchConvertError::Incomplete);
            },
        };
        Ok(
            L1BatchMetadata {
                root_hash: H256 { bytes: hash },
                rollup_last_leaf_index: rollup_last_leaf_index as u64,
                merkle_root_hash: H256 { bytes: merkle_root_hash },
                initial_writes_compressed: compressed_initial_writes,
                repeated_writes_compressed: compressed_repeated_writes,
                l2_l1_messages_compressed: l2_l1_compressed_messages,
                l2_l1_merkle_root: H256 { bytes: l2_l1_merkle_root },
                aux_data_hash: H256 { bytes: aux_data_hash },
                meta_parameters_hash: H256 { bytes: meta_parameters_hash },
                pass_through_data_hash: H256 { bytes: pass_through_data_hash },
                commitment: H256 { bytes: commitment },
                block_meta_params: L1BatchMetaParameters {
                    zkporter_is_available,
                    bootloader_code_hash: H256 { bytes: bootloader_code_hash },
                    default_aa_code_hash: H256 { bytes: default_aa_code_hash },
                },
            },
        )
    }
}

/// Every bootloader-heap pair carries a well-formed 256-bit hex quantity.
pub open spec fn heap_pairs_ok(pairs: Seq<(u64, Vec<u8>)>) -> bool {
    forall|i: int| 0 <= i < pairs.len() ==> u256_hex_ok((#[trigger] pairs[i]).1@)
}

/// Every entry is a well-formed 256-bit hex quantity.
pub open spec fn hex_list_ok(items: Seq<Vec<u8>>) -> bool {
    forall|i: int| 0 <= i < items.len() ==> u256_hex_ok((#[trigger] items[i])@)
}

impl StorageL1Batch {
    /// The mandatory header fields have their domain shapes: sequence number
    /// and transaction counts in range, byte fields at their fixed widths,
    /// system-contract hashes present.
    pub open spec fn header_row_wf(&self) -> bool {
        &&& 0 <= self.number <= u32::MAX as i64
        &&& self.timestamp >= 0
        &&& 0 <= self.l1_tx_count <= u16::MAX as i32
        &&& 0 <= self.l2_tx_count <= u16::MAX as i32
        &&& self.fee_account_address@.len() == 20
        &&& self.bloom@.len() == 256
        &&& self.bootloader_code_hash is Some && self.bootloader_code_hash.unwrap()@.len() == 32
        &&& self.default_aa_code_hash is Some && self.default_aa_code_hash.unwrap()@.len() == 32
        &&& self.l1_gas_price >= 0
        &&& self.l2_fair_gas_price >= 0
    }

    /// Every raw L2-to-L1 log record has the serialized log width.
    pub open spec fn logs_decodable(&self) -> bool {
        forall|i: int|
            0 <= i < self.l2_to_l1_logs@.len() ==> (#[trigger] self.l2_to_l1_logs@[i])@.len()
                == L2_TO_L1_LOG_SIZE
    }

    /// The header fields decoded from the record's own columns (everything
    /// except the JSON-borne heap contents, contract hashes and base fee).
    pub open spec fn plain_header_matches(&self, h: L1BatchHeader) -> bool {
        &&& h.number.0 == self.number as u32
        &&& h.is_finished == self.is_finished
        &&& h.timestamp == self.timestamp as u64
        &&& h.fee_account_address.bytes@ == self.fee_account_address@
        &&& h.priority_ops_onchain_data@.len() == self.priority_ops_onchain_data@.len()
        &&& forall|i: int|
            0 <= i < self.priority_ops_onchain_data@.len() ==> (#[trigger] h.priority_ops_onchain_data@[i]).data@
                == self.priority_ops_onchain_data@[i]@
        &&& h.l1_tx_count == self.l1_tx_count as u16
        &&& h.l2_tx_count == self.l2_tx_count as u16
        &&& h.l2_to_l1_logs@.len() == self.l2_to_l1_logs@.len()
        &&& forall|i: int|
            0 <= i < self.l2_to_l1_logs@.len() ==> (#[trigger] h.l2_to_l1_logs@[i]).decodes(
                self.l2_to_l1_logs@[i]@,
            )
        &&& h.l2_to_l1_messages == self.l2_to_l1_messages
        &&& h.bloom.bytes@ == self.bloom@
        &&& h.base_system_contracts_hashes.bootloader.bytes@ == self.bootloader_code_hash.unwrap()@
        &&& h.base_system_contracts_hashes.default_aa.bytes@ == self.default_aa_code_hash.unwrap()@
        &&& h.l1_gas_price == self.l1_gas_price as u64
        &&& h.l2_fair_gas_price == self.l2_fair_gas_price as u64
    }

    /// The header fields decoded from the already-extracted JSON values and
    /// base fee.
    pub open spec fn derived_header_matches(
        &self,
        pairs: Seq<(u64, Vec<u8>)>,
        hashes: Seq<Vec<u8>>,
        base_fee: u64,
        h: L1BatchHeader,
    ) -> bool {
        &&& h.initial_bootloader_contents@.len() == pairs.len()
        &&& forall|i: int|
            0 <= i < pairs.len() ==> (#[trigger] h.initial_bootloader_contents@[i]).0
                == pairs[i].0 && h.initial_bootloader_contents@[i].1.bytes@ == u256_hex_bytes(
                pairs[i].1@,
            )
        &&& h.used_contract_hashes@.len() == hashes.len()
        &&& forall|i: int|
            0 <= i < hashes.len() ==> (#[trigger] h.used_contract_hashes@[i]).bytes@
                == u256_hex_bytes(hashes[i]@)
        &&& h.base_fee_per_gas == base_fee
    }

    /// Assembles the batch header from the record's own columns plus the
    /// already-extracted bootloader heap pairs, contract-hash list and base
    /// fee. Total on well-shaped rows; any malformed element is fatal.
    pub fn assemble_header_given(
        self,
        heap_pairs: Option<Vec<(u64, Vec<u8>)>>,
        contract_hashes: Option<Vec<Vec<u8>>>,
        base_fee: Option<u64>,
    ) -> (r: Result<L1BatchHeader, StorageL1BatchConvertError>)
        requires
            self.header_row_wf(),
        ensures
            r is Ok <==> (self.logs_decodable() && heap_pairs is Some && heap_pairs_ok(
                heap_pairs.unwrap()@,
            ) && contract_hashes is Some && hex_list_ok(contract_hashes.unwrap()@)
                && base_fee is Some),
            r is Err ==> r == Err::<L1BatchHeader, StorageL1BatchConvertError>(
                StorageL1BatchConvertError::MalformedRecord,
            ),
            r is Ok ==> self.plain_header_matches(r.unwrap()) && self.derived_header_matches(
                heap_pairs.unwrap()@,
                contract_hashes.unwrap()@,
                base_fee.unwrap(),
                r.unwrap(),
            ) && r.unwrap().wf(),
    {
        let base_fee_per_gas = match base_fee {
            Some(v) => v,
            None => {
                return Err(StorageL1BatchConvertError::MalformedRecord);
            },
        };
        let pairs = match heap_pairs {
            Some(v) => v,
            None => {
                return Err(StorageL1BatchConvertError::MalformedRecord);
            },
        };
        let hashes = match contract_hashes {
            Some(v) => v,
            None => {
                return Err(StorageL1BatchConvertError::MalformedRecord);
            },
        };

        let mut logs: Vec<L2ToL1Log> = Vec::new();
        let mut i: usize = 0;
        while i < self.l2_to_l1_logs.len()
            invariant
                i <= self.l2_to_l1_logs@.len(),
                logs@.len() == i,
                forall|j: int|
                    0 <= j < i ==> (#[trigger] self.l2_to_l1_logs@[j])@.len()
                        == L2_TO_L1_LOG_SIZE && logs@[j].decodes(self.l2_to_l1_logs@[j]@)
                        && logs@[j].wf(),
            decreases self.l2_to_l1_logs@.len() - i,
        {
            match L2ToL1Log::from_slice(&self.l2_to_l1_logs[i]) {
                Some(log) => logs.push(log),
                None => {
                    proof {
                        assert((self.l2_to_l1_logs@[i as int])@.len() != L2_TO_L1_LOG_SIZE);
                        assert(!self.logs_decodable());
                    }
                    return Err(StorageL1BatchConvertError::MalformedRecord);
                },
            }
            i = i + 1;
        }

        let mut contents: Vec<(u64, U256)> = Vec::new();
        let mut i: usize = 0;
        while i < pairs.len()
            invariant
                heap_pairs is Some && pairs == heap_pairs.unwrap(),
                i <= pairs@.len(),
                contents@.len() == i,
                forall|j: int|
                    0 <= j < i ==> u256_hex_ok((#[trigger] pairs@[j]).1@) && contents@[j].0
                        == pairs@[j].0 && contents@[j].1.bytes@ == u256_hex_bytes(pairs@[j].1@)
                        && contents@[j].1.wf(),
            decreases pairs@.len() - i,
        {
            let off = pairs[i].0;
            match parse_u256_hex(&pairs[i].1) {
                Some(value) => contents.push((off, value)),
                None => {
                    proof {
                        assert(!u256_hex_ok((pairs@[i as int]).1@));
                        assert(!heap_pairs_ok(pairs@));
                    }
                    return Err(StorageL1BatchConvertError::MalformedRecord);
                },
            }
            i = i + 1;
        }

        let mut used: Vec<U256> = Vec::new();
        let mut i: usize = 0;
        while i < hashes.len()
            invariant
                contract_hashes is Some && hashes == contract_hashes.unwrap(),
                i <= hashes@.len(),
                used@.len() == i,
                forall|j: int|
                    0 <= j < i ==> u256_hex_ok((#[trigger] hashes@[j])@) && used@[j].bytes@
                        == u256_hex_bytes(hashes@[j]@) && used@[j].wf(),
            decreases hashes@.len() - i,
        {
            match parse_u256_hex(&hashes[i]) {
                Some(value) => used.push(value),
                None => {
                    proof {
                        assert(!u256_hex_ok((hashes@[i as int])@));
                        assert(!hex_list_ok(hashes@));
                    }
                    return Err(StorageL1BatchConvertError::MalformedRecord);
                },
            }
            i = i + 1;
        }

        let mut ops: Vec<PriorityOpOnchainData> = Vec::new();
        let mut i: usize = 0;
        while i < self.priority_ops_onchain_data.len()
            invariant
                i <= self.priority_ops_onchain_data@.len(),
                ops@.len() == i,
                forall|j: int|
                    0 <= j < i ==> (#[trigger] ops@[j]).data@
                        == self.priority_ops_onchain_data@[j]@,
            decreases self.priority_ops_onchain_data@.len() - i,
        {
            let elem = &self.priority_ops_onchain_data[i];
            let data = copy_range(elem, 0, elem.len());
            proof {
                assert(elem@.subrange(0, elem@.len() as int) =~= elem@);
            }
            ops.push(PriorityOpOnchainData { data });
            i = i + 1;
        }

        let bootloader = match self.bootloader_code_hash {
            Some(v) => v,
            None => {
                return Err(StorageL1BatchConvertError::MalformedRecord);
            },
        };
        let default_aa = match self.default_aa_code_hash {
            Some(v) => v,
            None => {
                return Err(StorageL1BatchConvertError::MalformedRecord);
            },
        };
        proof {
            assert forall|k: int| 0 <= k < logs@.len() implies (#[trigger] logs@[k]).wf() by {
                assert((self.l2_to_l1_logs@[k])@.len() == L2_TO_L1_LOG_SIZE);
            }
            assert forall|k: int| 0 <= k < contents@.len() implies (
            #[trigger] contents@[k]).1.wf() by {
                assert(u256_hex_ok((pairs@[k]).1@));
            }
            assert forall|k: int| 0 <= k < used@.len() implies (#[trigger] used@[k]).wf() by {
                assert(u256_hex_ok((hashes@[k])@));
            }
        }
        Ok(
            L1BatchHeader {
                number: L1BatchNumber(self.number as u32),
                is_finished: self.is_finished,
                timestamp: self.timestamp as u64,
                fee_account_address: Address { bytes: self.fee_account_address },
                priority_ops_onchain_data: ops,
                l1_tx_count: self.l1_tx_count as u16,
                l2_tx_count: self.l2_tx_count as u16,
                l2_to_l1_logs: logs,
                l2_to_l1_messages: self.l2_to_l1_messages,
                bloom: H2048 { bytes: self.bloom },
                initial_bootloader_contents: contents,
                used_contract_hashes: used,
                base_fee_per_gas: base_fee_per_gas,
                base_system_contracts_hashes: BaseSystemContractsHashes {
                    bootloader: H256 { bytes: bootloader },
                    default_aa: H256 { bytes: default_aa },
                },
                l1_gas_price: self.l1_gas_price as u64,
                l2_fair_gas_price: self.l2_fair_gas_price as u64,
            },
        )
    }

    /// Assembles the batch header straight from the raw record, extracting
    /// the bootloader heap contents and contract hashes from their stored
    /// JSON values and the base fee from its stored decimal. Succeeds
    /// exactly when the log records have their width, the two JSON values
    /// deserialize to well-formed hex, and the base fee is representable.
    pub fn assemble_header(self) -> (r: Result<L1BatchHeader, StorageL1BatchConvertError>)
        requires
            self.header_row_wf(),
        ensures
            r is Ok <==> (self.logs_decodable() && heap_pairs_of(
                self.initial_bootloader_heap_content,
            ) is Some && heap_pairs_ok(
                heap_pairs_of(self.initial_bootloader_heap_content).unwrap()@,
            ) && hex_list_of(self.used_contract_hashes) is Some && hex_list_ok(
                hex_list_of(self.used_contract_hashes).unwrap()@,
            ) && u64_of_decimal(self.base_fee_per_gas) is Some),
            r is Err ==> r == Err::<L1BatchHeader, StorageL1BatchConvertError>(
                StorageL1BatchConvertError::MalformedRecord,
            ),
            r is Ok ==> self.plain_header_matches(r.unwrap()) && self.derived_header_matches(
                heap_pairs_of(self.initial_bootloader_heap_content).unwrap()@,
                hex_list_of(self.used_contract_hashes).unwrap()@,
                u64_of_decimal(self.base_fee_per_gas).unwrap(),
                r.unwrap(),
            ) && r.unwrap().wf(),
    {
        let heap_pairs = json_to_offset_hex_pairs(&self.initial_bootloader_heap_content);
        let contract_hashes = json_to_hex_list(&self.used_contract_hashes);
        let base_fee = big_decimal_to_u64(&self.base_fee_per_gas);
        self.assemble_header_given(heap_pairs, contract_hashes, base_fee)
    }
}

/// A raw miniblock header row. The system-contract hash pair is mandatory:
/// a row lacking it is a model error, not a valid incomplete state.
pub struct StorageMiniblockHeader {
    pub number: i64,
    pub timestamp: i64,
    pub hash: Vec<u8>,
    pub l1_tx_count: i32,
    pub l2_tx_count: i32,
    pub base_fee_per_gas: bigdecimal::BigDecimal,
    pub l1_gas_price: i64,
    pub l2_fair_gas_price: i64,
    pub bootloader_code_hash: Option<Vec<u8>>,
    pub default_aa_code_hash: Option<Vec<u8>>,
}

impl StorageMiniblockHeader {
    /// The row's fields have their domain shapes.
    pub open spec fn row_wf(&self) -> bool {
        &&& 0 <= self.number <= u32::MAX as i64
        &&& self.timestamp >= 0
        &&& self.hash@.len() == 32
        &&& 0 <= self.l1_tx_count <= u16::MAX as i32
        &&& 0 <= self.l2_tx_count <= u16::MAX as i32
        &&& self.bootloader_code_hash is Some && self.bootloader_code_hash.unwrap()@.len() == 32
        &&& self.default_aa_code_hash is Some && self.default_aa_code_hash.unwrap()@.len() == 32
        &&& self.l1_gas_price >= 0
        &&& self.l2_fair_gas_price >= 0
    }

    /// The header fields decoded from the row's own columns (everything
    /// except the base fee).
    pub open spec fn plain_header_matches(&self, h: MiniblockHeader) -> bool {
        &&& h.number.0 == self.number as u32
        &&& h.timestamp == self.timestamp as u64
        &&& h.hash.bytes@ == self.hash@
        &&& h.l1_tx_count == self.l1_tx_count as u16
        &&& h.l2_tx_count == self.l2_tx_count as u16
        &&& h.l1_gas_price == self.l1_gas_price as u64
        &&& h.l2_fair_gas_price == self.l2_fair_gas_price as u64
        &&& h.base_system_contracts_hashes.bootloader.bytes@ == self.bootloader_code_hash.unwrap()@
        &&& h.base_system_contracts_hashes.default_aa.bytes@ == self.default_aa_code_hash.unwrap()@
    }

    /// Converts the row given the already-extracted base fee. Succeeds
    /// exactly when the base fee was representable.
    pub fn into_header_given(self, base_fee: Option<u64>) -> (r: Result<
        MiniblockHeader,
        StorageL1BatchConvertError,
    >)
        requires
            self.row_wf(),
        ensures
            r is Ok <==> base_fee is Some,
            r is Err ==> r == Err::<MiniblockHeader, StorageL1BatchConvertError>(
                StorageL1BatchConvertError::MalformedRecord,
            ),
            r is Ok ==> self.plain_header_matches(r.unwrap()) && r.unwrap().base_fee_per_gas
                == base_fee.unwrap() && r.unwrap().wf(),
    {
        let base_fee_per_gas = match base_fee {
            Some(v) => v,
            None => {
                return Err(StorageL1BatchConvertError::MalformedRecord);
            },
        };
        let bootloader = match self.bootloader_code_hash {
            Some(v) => v,
            None => {
                return Err(StorageL1BatchConvertError::MalformedRecord);
            },
        };
        let default_aa = match self.default_aa_code_hash {
            Some(v) => v,
            None => {
                return Err(StorageL1BatchConvertError::MalformedRecord);
            },
        };
        Ok(
            MiniblockHeader {
                number: MiniblockNumber(self.number as u32),
                timestamp: self.timestamp as u64,
                hash: H256 { bytes: self.hash },
                l1_tx_count: self.l1_tx_count as u16,
                l2_tx_count: self.l2_tx_count as u16,
                base_fee_per_gas,
                l1_gas_price: self.l1_gas_price as u64,
                l2_fair_gas_price: self.l2_fair_gas_price as u64,
                base_system_contracts_hashes: BaseSystemContractsHashes {
                    bootloader: H256 { bytes: bootloader },
                    default_aa: H256 { bytes: default_aa },
                },
            },
        )
    }

    /// Converts the row straight from storage, extracting the base fee from
    /// its stored decimal. Succeeds exactly when the base fee is
    /// representable.
    pub fn into_header(self) -> (r: Result<MiniblockHeader, StorageL1BatchConvertError>)
        requires
            self.row_wf(),
        ensures
            r is Ok <==> u64_of_decimal(self.base_fee_per_gas) is Some,
            r is Err ==> r == Err::<MiniblockHeader, StorageL1BatchConvertError>(
                StorageL1BatchConvertError::MalformedRecord,
            ),
            r is Ok ==> self.plain_header_matches(r.unwrap()) && r.unwrap().base_fee_per_gas
                == u64_of_decimal(self.base_fee_per_gas).unwrap() && r.unwrap().wf(),
    {
        let base_fee = big_decimal_to_u64(&self.base_fee_per_gas);
        self.into_header_given(base_fee)
    }
}

} // verus!
