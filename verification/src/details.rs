//! Listing and detail views derived from raw stored rows, with their
//! base-layer verification status.

use vstd::prelude::*;

use crate::assembler::StorageL1BatchConvertError;
use crate::types::{
    Address, BaseSystemContractsHashes, BlockDetails, BlockPageItem, BlockStatus, H256,
    L1BatchDetails, L1BatchNumber, L1BatchPageItem, MiniblockNumber, h256_hex_bytes, h256_hex_ok,
    parse_h256_hex,
};

verus! {

/// A raw row of a paginated miniblock listing.
#[derive(Debug, Clone, PartialEq, Eq)]
pub struct StorageBlockPageItem {
    pub number: i64,
    pub l1_tx_count: i32,
    pub l2_tx_count: i32,
    pub hash: Option<Vec<u8>>,
    pub timestamp: i64,
}

/// A raw row of a paginated L1 batch listing. At the moment it has the same
/// fields as `StorageBlockPageItem`, but there is no guarantee it will not
/// change in the future.
#[derive(Debug, Clone, PartialEq, Eq)]
pub struct StorageL1BatchPageItem {
    pub number: i64,
    pub l1_tx_count: i32,
    pub l2_tx_count: i32,
    pub hash: Option<Vec<u8>>,
    pub timestamp: i64,
}

/// An optional raw 32-byte hash column carried over unchanged.
pub open spec fn opt_raw_hash_matches(src: Option<Vec<u8>>, out: Option<H256>) -> bool {
    match src {
        Some(s) => out matches Some(h) && h.bytes@ == s@,
        None => out is None,
    }
}

/// An optional hex-encoded transaction hash column, decoded.
pub open spec fn opt_tx_hash_matches(src: Option<Vec<u8>>, out: Option<H256>) -> bool {
    match src {
        Some(s) => out matches Some(h) && h.bytes@ == h256_hex_bytes(s@),
        None => out is None,
    }
}

/// The optional hex hash column, when present, is well formed.
pub open spec fn opt_tx_hash_ok(src: Option<Vec<u8>>) -> bool {
    src matches Some(s) ==> h256_hex_ok(s@)
}

/// Decodes an optional hex-encoded transaction hash; a present but
/// malformed hash is fatal for the record.
fn parse_opt_tx_hash(h: &Option<Vec<u8>>) -> (r: Result<
    Option<H256>,
    StorageL1BatchConvertError,
>)
    ensures
        r is Ok <==> opt_tx_hash_ok(*h),
        r is Err ==> r == Err::<Option<H256>, StorageL1BatchConvertError>(
            StorageL1BatchConvertError::MalformedRecord,
        ),
        r is Ok ==> opt_tx_hash_matches(*h, r.unwrap()),
{
    match h {
        None => Ok(None),
        Some(s) => match parse_h256_hex(s) {
            Some(hash) => Ok(Some(hash)),
            None => Err(StorageL1BatchConvertError::MalformedRecord),
        },
    }
}

/// Converts a raw listing row to a miniblock page item. Rows above the last
/// verified miniblock are merely sealed; the rest are verified.
pub fn block_page_item_from_storage(storage: StorageBlockPageItem, last_verified: MiniblockNumber) -> (r:
    BlockPageItem)
    requires
        0 <= storage.number <= u32::MAX as i64,
        storage.l1_tx_count >= 0,
        storage.l2_tx_count >= 0,
        storage.timestamp >= 0,
        storage.hash matches Some(s) ==> s@.len() == 32,
    ensures
        r.number.0 == storage.number as u32,
        r.l1_tx_count == storage.l1_tx_count as usize,
        r.l2_tx_count == storage.l2_tx_count as usize,
        opt_raw_hash_matches(storage.hash, r.hash),
        r.status == (if storage.number > last_verified.0 as i64 {
            BlockStatus::Sealed
        } else {
            BlockStatus::Verified
        }),
        r.timestamp == storage.timestamp as u64,
{
    let status = if storage.number > last_verified.0 as i64 {
        BlockStatus::Sealed
    } else {
        BlockStatus::Verified
    };
    let hash = match storage.hash {
        Some(s) => Some(H256 { bytes: s }),
        None => None,
    };
    BlockPageItem {
        number: MiniblockNumber(storage.number as u32),
        l1_tx_count: storage.l1_tx_count as usize,
        l2_tx_count: storage.l2_tx_count as usize,
        hash,
        status,
        timestamp: storage.timestamp as u64,
    }
}

/// Converts a raw listing row to an L1 batch page item. Rows above the last
/// verified batch are merely sealed; the rest are verified.
pub fn l1_batch_page_item_from_storage(
    storage: StorageL1BatchPageItem,
    last_verified: L1BatchNumber,
) -> (r: L1BatchPageItem)
    requires
        0 <= storage.number <= u32::MAX as i64,
        storage.l1_tx_count >= 0,
        storage.l2_tx_count >= 0,
        storage.timestamp >= 0,
        storage.hash matches Some(s) ==> s@.len() == 32,
    ensures
        r.number.0 == storage.number as u32,
        r.l1_tx_count == storage.l1_tx_count as usize,
        r.l2_tx_count == storage.l2_tx_count as usize,
        opt_raw_hash_matches(storage.hash, r.root_hash),
        r.status == (if storage.number > last_verified.0 as i64 {
            BlockStatus::Sealed
        } else {
            BlockStatus::Verified
        }),
        r.timestamp == storage.timestamp as u64,
{
    let status = if storage.number > last_verified.0 as i64 {
        BlockStatus::Sealed
    } else {
        BlockStatus::Verified
    };
    let root_hash = match storage.hash {
        Some(s) => Some(H256 { bytes: s }),
        None => None,
    };
    L1BatchPageItem {
        number: L1BatchNumber(storage.number as u32),
        l1_tx_count: storage.l1_tx_count as usize,
        l2_tx_count: storage.l2_tx_count as usize,
        root_hash,
        status,
        timestamp: storage.timestamp as u64,
    }
}

/// A raw miniblock detail row.
#[derive(Debug, Clone, PartialEq, Eq)]
pub struct StorageBlockDetails {
    pub number: i64,
    pub l1_batch_number: i64,
    pub timestamp: i64,
    pub l1_tx_count: i32,
    pub l2_tx_count: i32,
    pub root_hash: Option<Vec<u8>>,
    pub commit_tx_hash: Option<Vec<u8>>,
    pub committed_at: Option<i64>,
    pub prove_tx_hash: Option<Vec<u8>>,
    pub proven_at: Option<i64>,
    pub execute_tx_hash: Option<Vec<u8>>,
    pub executed_at: Option<i64>,
    /// L1 gas price assumed in the corresponding batch.
    pub l1_gas_price: i64,
    /// L2 gas price assumed in the corresponding batch.
    pub l2_fair_gas_price: i64,
    pub bootloader_code_hash: Option<Vec<u8>>,
    pub default_aa_code_hash: Option<Vec<u8>>,
    /// May be absent while the block is not yet sealed.
    pub fee_account_address: Option<Vec<u8>>,
}

impl StorageBlockDetails {
    /// The row's fields have their domain shapes.
    pub open spec fn row_wf(&self) -> bool {
        &&& 0 <= self.number <= u32::MAX as i64
        &&& 0 <= self.l1_batch_number <= u32::MAX as i64
        &&& self.timestamp >= 0
        &&& 0 <= self.l1_tx_count
        &&& 0 <= self.l2_tx_count
        &&& self.root_hash matches Some(s) ==> s@.len() == 32
        &&& self.l1_gas_price >= 0
        &&& self.l2_fair_gas_price >= 0
        &&& self.bootloader_code_hash is Some && self.bootloader_code_hash.unwrap()@.len() == 32
        &&& self.default_aa_code_hash is Some && self.default_aa_code_hash.unwrap()@.len() == 32
        &&& self.fee_account_address matches Some(a) ==> a@.len() == 20
    }

    /// Every present hex-encoded transaction hash is well formed.
    pub open spec fn tx_hashes_ok(&self) -> bool {
        opt_tx_hash_ok(self.commit_tx_hash) && opt_tx_hash_ok(self.prove_tx_hash) && opt_tx_hash_ok(
            self.execute_tx_hash,
        )
    }

    /// The detail view carries exactly the row's fields; the operator
    /// address falls back to the configured current one while the block's
    /// own fee account is absent.
    pub open spec fn details_match(&self, current_operator_address: Address, d: BlockDetails) -> bool {
        &&& d.number.0 == self.number as u32
        &&& d.l1_batch_number.0 == self.l1_batch_number as u32
        &&& d.timestamp == self.timestamp as u64
        &&& d.l1_tx_count == self.l1_tx_count as usize
        &&& d.l2_tx_count == self.l2_tx_count as usize
        &&& d.status == (if self.number == 0 || self.execute_tx_hash is Some {
            BlockStatus::Verified
        } else {
            BlockStatus::Sealed
        })
        &&& opt_raw_hash_matches(self.root_hash, d.root_hash)
        &&& opt_tx_hash_matches(self.commit_tx_hash, d.commit_tx_hash)
        &&& d.committed_at == self.committed_at
        &&& opt_tx_hash_matches(self.prove_tx_hash, d.prove_tx_hash)
        &&& d.proven_at == self.proven_at
        &&& opt_tx_hash_matches(self.execute_tx_hash, d.execute_tx_hash)
        &&& d.executed_at == self.executed_at
        &&& d.l1_gas_price == self.l1_gas_price as u64
        &&& d.l2_fair_gas_price == self.l2_fair_gas_price as u64
        &&& d.base_system_contracts_hashes.bootloader.bytes@ == self.bootloader_code_hash.unwrap()@
        &&& d.base_system_contracts_hashes.default_aa.bytes@ == self.default_aa_code_hash.unwrap()@
        &&& (match self.fee_account_address {
            Some(a) => d.operator_address.bytes@ == a@,
            None => d.operator_address.bytes@ == current_operator_address.bytes@,
        })
    }

    /// Converts the row to a detail view. A block is verified once its
    /// batch's execute transaction is on record (the genesis block always
    /// is); a present but malformed transaction hash is fatal.
    pub fn into_block_details(self, current_operator_address: Address) -> (r: Result<
        BlockDetails,
        StorageL1BatchConvertError,
    >)
        requires
            self.row_wf(),
        ensures
            r is Ok <==> self.tx_hashes_ok(),
            r is Err ==> r == Err::<BlockDetails, StorageL1BatchConvertError>(
                StorageL1BatchConvertError::MalformedRecord,
            ),
            r is Ok ==> self.details_match(current_operator_address, r.unwrap()),
    {
        let status = if self.number == 0 || self.execute_tx_hash.is_some() {
            BlockStatus::Verified
        } else {
            BlockStatus::Sealed
        };
        let commit_tx_hash = match parse_opt_tx_hash(&self.commit_tx_hash) {
            Ok(v) => v,
            Err(e) => {
                return Err(e);
            },
        };
        let prove_tx_hash = match parse_opt_tx_hash(&self.prove_tx_hash) {
            Ok(v) => v,
            Err(e) => {
                return Err(e);
            },
        };
        let execute_tx_hash = match parse_opt_tx_hash(&self.execute_tx_hash) {
            Ok(v) => v,
            Err(e) => {
                return Err(e);
            },
        };
        let root_hash = match self.root_hash {
            Some(s) => Some(H256 { bytes: s }),
            None => None,
        };
        let bootloader = match self.bootloader_code_hash {
            Some(v) => v,
            None => {
                return Err(StorageL1BatchConvertError::MalformedRecord);
            },
        };
        let default_aa = match self.default_aa_code_hash {
            Some(v) => v,
            None => {
                return Err(StorageL1BatchConvertError::MalformedRecord);
            },
        };
        let operator_address = match self.fee_account_address {
            Some(a) => Address { bytes: a },
            None => current_operator_address,
        };
        Ok(
            BlockDetails {
                number: MiniblockNumber(self.number as u32),
                l1_batch_number: L1BatchNumber(self.l1_batch_number as u32),
                timestamp: self.timestamp as u64,
                l1_tx_count: self.l1_tx_count as usize,
                l2_tx_count: self.l2_tx_count as usize,
                status,
                root_hash,
                commit_tx_hash,
                committed_at: self.committed_at,
                prove_tx_hash,
                proven_at: self.proven_at,
                execute_tx_hash,
                executed_at: self.executed_at,
                l1_gas_price: self.l1_gas_price as u64,
                l2_fair_gas_price: self.l2_fair_gas_price as u64,
                base_system_contracts_hashes: BaseSystemContractsHashes {
                    bootloader: H256 { bytes: bootloader },
                    default_aa: H256 { bytes: default_aa },
                },
                operator_address,
            },
        )
    }
}

/// A raw L1 batch detail row.
#[derive(Debug, Clone, PartialEq, Eq)]
pub struct StorageL1BatchDetails {
    pub number: i64,
    pub timestamp: i64,
    pub l1_tx_count: i32,
    pub l2_tx_count: i32,
    pub root_hash: Option<Vec<u8>>,
    pub commit_tx_hash: Option<Vec<u8>>,
    pub committed_at: Option<i64>,
    pub prove_tx_hash: Option<Vec<u8>>,
    pub proven_at: Option<i64>,
    pub execute_tx_hash: Option<Vec<u8>>,
    pub executed_at: Option<i64>,
    pub l1_gas_price: i64,
    pub l2_fair_gas_price: i64,
    pub bootloader_code_hash: Option<Vec<u8>>,
    pub default_aa_code_hash: Option<Vec<u8>>,
}

impl StorageL1BatchDetails {
    /// The row's fields have their domain shapes.
    pub open spec fn row_wf(&self) -> bool {
        &&& 0 <= self.number <= u32::MAX as i64
        &&& self.timestamp >= 0
        &&& 0 <= self.l1_tx_count
        &&& 0 <= self.l2_tx_count
        &&& self.root_hash matches Some(s) ==> s@.len() == 32
        &&& self.l1_gas_price >= 0
        &&& self.l2_fair_gas_price >= 0
        &&& self.bootloader_code_hash is Some && self.bootloader_code_hash.unwrap()@.len() == 32
        &&& self.default_aa_code_hash is Some && self.default_aa_code_hash.unwrap()@.len() == 32
    }

    /// Every present hex-encoded transaction hash is well formed.
    pub open spec fn tx_hashes_ok(&self) -> bool {
        opt_tx_hash_ok(self.commit_tx_hash) && opt_tx_hash_ok(self.prove_tx_hash) && opt_tx_hash_ok(
            self.execute_tx_hash,
        )
    }

    /// The detail view carries exactly the row's fields.
    pub open spec fn details_match(&self, d: L1BatchDetails) -> bool {
        &&& d.number.0 == self.number as u32
        &&& d.timestamp == self.timestamp as u64
        &&& d.l1_tx_count == self.l1_tx_count as usize
        &&& d.l2_tx_count == self.l2_tx_count as usize
        &&& d.status == (if self.number == 0 || self.execute_tx_hash is Some {
            BlockStatus::Verified
        } else {
            BlockStatus::Sealed
        })
        &&& opt_raw_hash_matches(self.root_hash, d.root_hash)
        &&& opt_tx_hash_matches(self.commit_tx_hash, d.commit_tx_hash)
        &&& d.committed_at == self.committed_at
        &&& opt_tx_hash_matches(self.prove_tx_hash, d.prove_tx_hash)
        &&& d.proven_at == self.proven_at
        &&& opt_tx_hash_matches(self.execute_tx_hash, d.execute_tx_hash)
        &&& d.executed_at == self.executed_at
        &&& d.l1_gas_price == self.l1_gas_price as u64
        &&& d.l2_fair_gas_price == self.l2_fair_gas_price as u64
        &&& d.base_system_contracts_hashes.bootloader.bytes@ == self.bootloader_code_hash.unwrap()@
        &&& d.base_system_contracts_hashes.default_aa.bytes@ == self.default_aa_code_hash.unwrap()@
    }

    /// Converts the row to a detail view. A batch is verified once its
    /// execute transaction is on record (the genesis batch always is); a
    /// present but malformed transaction hash is fatal.
    pub fn into_l1_batch_details(self) -> (r: Result<L1BatchDetails, StorageL1BatchConvertError>)
        requires
            self.row_wf(),
        ensures
            r is Ok <==> self.tx_hashes_ok(),
            r is Err ==> r == Err::<L1BatchDetails, StorageL1BatchConvertError>(
                StorageL1BatchConvertError::MalformedRecord,
            ),
            r is Ok ==> self.details_match(r.unwrap()),
    {
        let status = if self.number == 0 || self.execute_tx_hash.is_some() {
            BlockStatus::Verified
        } else {
            BlockStatus::Sealed
        };
        let commit_tx_hash = match parse_opt_tx_hash(&self.commit_tx_hash) {
            Ok(v) => v,
            Err(e) => {
                return Err(e);
            },
        };
        let prove_tx_hash = match parse_opt_tx_hash(&self.prove_tx_hash) {
            Ok(v) => v,
            Err(e) => {
                return Err(e);
            },
        };
        let execute_tx_hash = match parse_opt_tx_hash(&self.execute_tx_hash) {
            Ok(v) => v,
            Err(e) => {
                return Err(e);
            },
        };
        let root_hash = match self.root_hash {
            Some(s) => Some(H256 { bytes: s }),
            None => None,
        };
        let bootloader = match self.bootloader_code_hash {
            Some(v) => v,
            None => {
                return Err(StorageL1BatchConvertError::MalformedRecord);
            },
        };
        let default_aa = match self.default_aa_code_hash {
            Some(v) => v,
            None => {
                return Err(StorageL1BatchConvertError::MalformedRecord);
            },
        };
        Ok(
            L1BatchDetails {
                number: L1BatchNumber(self.number as u32),
                timestamp: self.timestamp as u64,
                l1_tx_count: self.l1_tx_count as usize,
                l2_tx_count: self.l2_tx_count as usize,
                status,
                root_hash,
                commit_tx_hash,
                committed_at: self.committed_at,
                prove_tx_hash,
                proven_at: self.proven_at,
                execute_tx_hash,
                executed_at: self.executed_at,
                l1_gas_price: self.l1_gas_price as u64,
                l2_fair_gas_price: self.l2_fair_gas_price as u64,
                base_system_contracts_hashes: BaseSystemContractsHashes {
                    bootloader: H256 { bytes: bootloader },
                    default_aa: H256 { bytes: default_aa },
                },
            },
        )
    }
}

} // verus!
