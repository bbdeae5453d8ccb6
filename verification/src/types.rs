//! Commitment value types: immutable snapshots of sealed miniblock and
//! L1 batch data, and the fixed-width byte values they carry.

use vstd::prelude::*;

use crate::hexutil::{all_hex, decode_hex_from, hex_decoded};

verus! {

/// A 256-bit hash, stored as 32 big-endian bytes.
#[derive(Debug, Clone, PartialEq, Eq)]
pub struct H256 {
    pub bytes: Vec<u8>,
}

impl H256 {
    pub open spec fn wf(&self) -> bool {
        self.bytes@.len() == 32
    }
}

/// A 160-bit account address, stored as 20 bytes.
#[derive(Debug, Clone, PartialEq, Eq)]
pub struct Address {
    pub bytes: Vec<u8>,
}

impl Address {
    pub open spec fn wf(&self) -> bool {
        self.bytes@.len() == 20
    }
}

/// A 2048-bit bloom filter over log entries, stored as 256 bytes.
#[derive(Debug, Clone, PartialEq, Eq)]
pub struct H2048 {
    pub bytes: Vec<u8>,
}

impl H2048 {
    pub open spec fn wf(&self) -> bool {
        self.bytes@.len() == 256
    }
}

/// A 256-bit unsigned integer, stored as 32 big-endian bytes.
#[derive(Debug, Clone, PartialEq, Eq)]
pub struct U256 {
    pub bytes: Vec<u8>,
}

impl U256 {
    pub open spec fn wf(&self) -> bool {
        self.bytes@.len() == 32
    }
}

/// Sequence number of a miniblock, the finest unit of execution.
#[derive(Debug, Clone, Copy, PartialEq, Eq, Structural)]
pub struct MiniblockNumber(pub u32);

/// Sequence number of an L1 batch, the unit committed to the base layer.
#[derive(Debug, Clone, Copy, PartialEq, Eq, Structural)]
pub struct L1BatchNumber(pub u32);

/// Hashes of the bootloader and default account-abstraction system
/// contracts in force for a block. Mandatory at construction.
#[derive(Debug, Clone, PartialEq, Eq)]
pub struct BaseSystemContractsHashes {
    pub bootloader: H256,
    pub default_aa: H256,
}

impl BaseSystemContractsHashes {
    pub open spec fn wf(&self) -> bool {
        self.bootloader.wf() && self.default_aa.wf()
    }
}

/// Raw on-chain data record of one priority operation.
#[derive(Debug, Clone, PartialEq, Eq)]
pub struct PriorityOpOnchainData {
    pub data: Vec<u8>,
}

/// The serialized width of one L2-to-L1 log record.
pub const L2_TO_L1_LOG_SIZE: usize = 88;

/// One L2-to-L1 log entry.
#[derive(Debug, Clone, PartialEq, Eq)]
pub struct L2ToL1Log {
    pub shard_id: u8,
    pub is_service: bool,
    pub tx_number_in_block: u16,
    pub sender: Address,
    pub key: H256,
    pub value: H256,
}

impl L2ToL1Log {
    pub open spec fn wf(&self) -> bool {
        self.sender.wf() && self.key.wf() && self.value.wf()
    }

    /// The fields a raw record of the right width decodes to.
    pub open spec fn decodes(self, s: Seq<u8>) -> bool {
        &&& self.shard_id == s[0]
        &&& self.is_service == (s[1] != 0)
        &&& self.tx_number_in_block == s[2] * 256 + s[3]
        &&& self.sender.bytes@ == s.subrange(4, 24)
        &&& self.key.bytes@ == s.subrange(24, 56)
        &&& self.value.bytes@ == s.subrange(56, 88)
    }

    /// Decodes one raw log record; a record of the wrong byte width is a
    /// malformed element.
    pub fn from_slice(data: &Vec<u8>) -> (r: Option<L2ToL1Log>)
        ensures
            r is Some <==> data@.len() == L2_TO_L1_LOG_SIZE,
            r is Some ==> r.unwrap().decodes(data@) && r.unwrap().wf(),
    {
        if data.len() != L2_TO_L1_LOG_SIZE {
            return None;
        }
        let sender = Address { bytes: crate::hexutil::copy_range(data, 4, 24) };
        let key = H256 { bytes: crate::hexutil::copy_range(data, 24, 56) };
        let value = H256 { bytes: crate::hexutil::copy_range(data, 56, 88) };
        Some(
            L2ToL1Log {
                shard_id: data[0],
                is_service: data[1] != 0,
                tx_number_in_block: (data[2] as u16) * 256 + (data[3] as u16),
                sender,
                key,
                value,
            },
        )
    }
}

/// Header of a sealed miniblock.
#[derive(Debug, Clone, PartialEq, Eq)]
pub struct MiniblockHeader {
    pub number: MiniblockNumber,
    pub timestamp: u64,
    pub hash: H256,
    pub l1_tx_count: u16,
    pub l2_tx_count: u16,
    pub base_fee_per_gas: u64,
    pub l1_gas_price: u64,
    pub l2_fair_gas_price: u64,
    pub base_system_contracts_hashes: BaseSystemContractsHashes,
}

/// Header of an L1 batch: identity and everything appended while the batch
/// was open. Immutable once the batch seals.
#[derive(Debug, Clone, PartialEq, Eq)]
pub struct L1BatchHeader {
    pub number: L1BatchNumber,
    pub is_finished: bool,
    pub timestamp: u64,
    pub fee_account_address: Address,
    pub priority_ops_onchain_data: Vec<PriorityOpOnchainData>,
    pub l1_tx_count: u16,
    pub l2_tx_count: u16,
    pub l2_to_l1_logs: Vec<L2ToL1Log>,
    pub l2_to_l1_messages: Vec<Vec<u8>>,
    pub bloom: H2048,
    pub initial_bootloader_contents: Vec<(u64, U256)>,
    pub used_contract_hashes: Vec<U256>,
    pub base_fee_per_gas: u64,
    pub base_system_contracts_hashes: BaseSystemContractsHashes,
    pub l1_gas_price: u64,
    pub l2_fair_gas_price: u64,
}

/// Batch meta-parameters carried inside the commitment metadata.
#[derive(Debug, Clone, PartialEq, Eq)]
pub struct L1BatchMetaParameters {
    pub zkporter_is_available: bool,
    pub bootloader_code_hash: H256,
    pub default_aa_code_hash: H256,
}

/// Fully assembled commitment metadata of an L1 batch. All fields are
/// jointly required: no partial metadata value exists.
#[derive(Debug, Clone, PartialEq, Eq)]
pub struct L1BatchMetadata {
    pub root_hash: H256,
    pub rollup_last_leaf_index: u64,
    pub merkle_root_hash: H256,
    pub initial_writes_compressed: Vec<u8>,
    pub repeated_writes_compressed: Vec<u8>,
    pub l2_l1_messages_compressed: Vec<u8>,
    pub l2_l1_merkle_root: H256,
    pub aux_data_hash: H256,
    pub meta_parameters_hash: H256,
    pub pass_through_data_hash: H256,
    pub commitment: H256,
    pub block_meta_params: L1BatchMetaParameters,
}

impl L1BatchMetadata {
    /// Every hash field has its fixed width.
    pub open spec fn wf(&self) -> bool {
        &&& self.root_hash.wf()
        &&& self.merkle_root_hash.wf()
        &&& self.l2_l1_merkle_root.wf()
        &&& self.aux_data_hash.wf()
        &&& self.meta_parameters_hash.wf()
        &&& self.pass_through_data_hash.wf()
        &&& self.commitment.wf()
        &&& self.block_meta_params.bootloader_code_hash.wf()
        &&& self.block_meta_params.default_aa_code_hash.wf()
    }
}

impl L1BatchHeader {
    /// Every fixed-width field has its width and every decoded element is
    /// well formed.
    pub open spec fn wf(&self) -> bool {
        &&& self.fee_account_address.wf()
        &&& self.bloom.wf()
        &&& self.base_system_contracts_hashes.wf()
        &&& forall|i: int|
            0 <= i < self.l2_to_l1_logs@.len() ==> (#[trigger] self.l2_to_l1_logs@[i]).wf()
        &&& forall|i: int|
            0 <= i < self.initial_bootloader_contents@.len() ==> (
            #[trigger] self.initial_bootloader_contents@[i]).1.wf()
        &&& forall|i: int|
            0 <= i < self.used_contract_hashes@.len() ==> (
            #[trigger] self.used_contract_hashes@[i]).wf()
    }
}

impl MiniblockHeader {
    /// Every fixed-width field has its width.
    pub open spec fn wf(&self) -> bool {
        self.hash.wf() && self.base_system_contracts_hashes.wf()
    }
}

/// Whether a block or batch has base-layer verification on record.
#[derive(Debug, Clone, Copy, PartialEq, Eq, Structural)]
pub enum BlockStatus {
    Sealed,
    Verified,
}

/// One row of a paginated miniblock listing.
#[derive(Debug, Clone, PartialEq, Eq)]
pub struct BlockPageItem {
    pub number: MiniblockNumber,
    pub l1_tx_count: usize,
    pub l2_tx_count: usize,
    pub hash: Option<H256>,
    pub status: BlockStatus,
    pub timestamp: u64,
}

/// One row of a paginated L1 batch listing.
#[derive(Debug, Clone, PartialEq, Eq)]
pub struct L1BatchPageItem {
    pub number: L1BatchNumber,
    pub l1_tx_count: usize,
    pub l2_tx_count: usize,
    pub root_hash: Option<H256>,
    pub status: BlockStatus,
    pub timestamp: u64,
}

/// Full detail view of one miniblock.
#[derive(Debug, Clone, PartialEq, Eq)]
pub struct BlockDetails {
    pub number: MiniblockNumber,
    pub l1_batch_number: L1BatchNumber,
    pub timestamp: u64,
    pub l1_tx_count: usize,
    pub l2_tx_count: usize,
    pub status: BlockStatus,
    pub root_hash: Option<H256>,
    pub commit_tx_hash: Option<H256>,
    pub committed_at: Option<i64>,
    pub prove_tx_hash: Option<H256>,
    pub proven_at: Option<i64>,
    pub execute_tx_hash: Option<H256>,
    pub executed_at: Option<i64>,
    pub l1_gas_price: u64,
    pub l2_fair_gas_price: u64,
    pub base_system_contracts_hashes: BaseSystemContractsHashes,
    pub operator_address: Address,
}

/// Full detail view of one L1 batch.
#[derive(Debug, Clone, PartialEq, Eq)]
pub struct L1BatchDetails {
    pub number: L1BatchNumber,
    pub timestamp: u64,
    pub l1_tx_count: usize,
    pub l2_tx_count: usize,
    pub status: BlockStatus,
    pub root_hash: Option<H256>,
    pub commit_tx_hash: Option<H256>,
    pub committed_at: Option<i64>,
    pub prove_tx_hash: Option<H256>,
    pub proven_at: Option<i64>,
    pub execute_tx_hash: Option<H256>,
    pub executed_at: Option<i64>,
    pub l1_gas_price: u64,
    pub l2_fair_gas_price: u64,
    pub base_system_contracts_hashes: BaseSystemContractsHashes,
}

/// Strips an optional `0x` prefix from an ASCII hex string.
pub open spec fn hex_strip_prefix(s: Seq<u8>) -> Seq<u8> {
    if s.len() >= 2 && s[0] == 48 && s[1] == 120 {
        s.skip(2)
    } else {
        s
    }
}

/// The string is a well-formed 32-byte hash: exactly 64 hex digits after an
/// optional `0x` prefix.
pub open spec fn h256_hex_ok(s: Seq<u8>) -> bool {
    hex_strip_prefix(s).len() == 64 && all_hex(hex_strip_prefix(s))
}

/// The 32 bytes a well-formed hash string denotes.
pub open spec fn h256_hex_bytes(s: Seq<u8>) -> Seq<u8> {
    hex_decoded(hex_strip_prefix(s))
}

/// Parses a 32-byte hash from an ASCII hex string with optional `0x` prefix.
pub fn parse_h256_hex(s: &Vec<u8>) -> (r: Option<H256>)
    ensures
        r is Some <==> h256_hex_ok(s@),
        r is Some ==> r.unwrap().bytes@ == h256_hex_bytes(s@) && r.unwrap().wf(),
{
    let start: usize = if s.len() >= 2 && s[0] == 48 && s[1] == 120 {
        2
    } else {
        0
    };
    proof {
        assert(hex_strip_prefix(s@) =~= s@.skip(start as int));
    }
    if s.len() - start != 64 {
        return None;
    }
    match decode_hex_from(s, start) {
        Some(bytes) => Some(H256 { bytes }),
        None => None,
    }
}

/// Left-pads a hex digit string to 64 digits with ASCII zeros.
pub open spec fn pad64(d: Seq<u8>) -> Seq<u8> {
    Seq::new((64 - d.len()) as nat, |i: int| 48u8) + d
}

/// The string is a well-formed 256-bit quantity: a mandatory `0x` prefix
/// followed by 1 to 64 hex digits.
pub open spec fn u256_hex_ok(s: Seq<u8>) -> bool {
    3 <= s.len() <= 66 && s[0] == 48 && s[1] == 120 && all_hex(s.skip(2))
}

/// The 32 big-endian bytes a well-formed quantity string denotes.
pub open spec fn u256_hex_bytes(s: Seq<u8>) -> Seq<u8> {
    hex_decoded(pad64(s.skip(2)))
}

/// Parses a 256-bit quantity from a `0x`-prefixed ASCII hex string.
pub fn parse_u256_hex(s: &Vec<u8>) -> (r: Option<U256>)
    ensures
        r is Some <==> u256_hex_ok(s@),
        r is Some ==> r.unwrap().bytes@ == u256_hex_bytes(s@) && r.unwrap().wf(),
{
    if !(s.len() >= 3 && s.len() <= 66 && s[0] == 48 && s[1] == 120) {
        return None;
    }
    let dlen = s.len() - 2;
    let mut padded: Vec<u8> = Vec::new();
    let mut i: usize = 0;
    while i < 64 - dlen
        invariant
            dlen <= 64,
            i <= 64 - dlen,
            padded@ =~= Seq::new(i as nat, |k: int| 48u8),
        decreases 64 - dlen - i,
    {
        padded.push(48);
        proof {
            assert(padded@ =~= Seq::new((i + 1) as nat, |k: int| 48u8));
        }
        i = i + 1;
    }
    let mut j: usize = 2;
    while j < s.len()
        invariant
            2 <= j <= s@.len(),
            s@.len() == dlen + 2,
            dlen <= 64,
            padded@ =~= Seq::new((64 - dlen) as nat, |k: int| 48u8) + s@.subrange(2, j as int),
        decreases s@.len() - j,
    {
        padded.push(s[j]);
        proof {
            assert(padded@ =~= Seq::new((64 - dlen) as nat, |k: int| 48u8) + s@.subrange(
                2,
                j + 1 as int,
            ));
        }
        j = j + 1;
    }
    proof {
        assert(s@.subrange(2, s@.len() as int) =~= s@.skip(2));
        assert(padded@ =~= pad64(s@.skip(2)));
        assert(all_hex(s@.skip(2)) ==> all_hex(padded@)) by {
            if all_hex(s@.skip(2)) {
                assert forall|k: int| 0 <= k < padded@.len() implies crate::hexutil::is_hex_digit(
                    #[trigger] padded@[k],
                ) by {
                    if k < 64 - dlen {
                        assert(padded@[k] == 48u8);
                    } else {
                        assert(padded@[k] == s@.skip(2)[k - (64 - dlen)]);
                    }
                }
            }
        }
        assert(all_hex(padded@) ==> all_hex(s@.skip(2))) by {
            if all_hex(padded@) {
                assert forall|k: int| 0 <= k < s@.skip(2).len()
                    implies crate::hexutil::is_hex_digit(#[trigger] s@.skip(2)[k]) by {
                    assert(s@.skip(2)[k] == padded@[k + (64 - dlen)]);
                }
            }
        }
    }
    match decode_hex_from(&padded, 0) {
        Some(bytes) => {
            proof {
                assert(padded@.skip(0) =~= padded@);
            }
            Some(U256 { bytes })
        },
        None => {
            proof {
                assert(padded@.skip(0) =~= padded@);
            }
            None
        },
    }
}

} // verus!
