//! Miniblock-to-batch linking: which L1 batch a miniblock belongs to now,
//! or will belong to once the open batch seals.

use vstd::prelude::*;

use crate::resolver::ChainSnapshot;
use crate::types::L1BatchNumber;

verus! {

/// Information about the L1 batch a certain miniblock belongs to.
#[derive(Debug, Clone, Copy, PartialEq, Eq)]
pub struct ResolvedL1BatchForMiniblock {
    /// The batch the miniblock is explicitly assigned to; absent while its
    /// batch is still open.
    pub miniblock_l1_batch: Option<L1BatchNumber>,
    /// The currently open (unsealed) batch.
    pub pending_l1_batch: L1BatchNumber,
}

/// The single authoritative rule for the batch a miniblock will end up in:
/// its explicit assignment if sealed, otherwise the open batch.
pub open spec fn spec_expected_l1_batch(r: ResolvedL1BatchForMiniblock) -> L1BatchNumber {
    match r.miniblock_l1_batch {
        Some(b) => b,
        None => r.pending_l1_batch,
    }
}

impl ResolvedL1BatchForMiniblock {
    /// Returns the L1 batch number that the miniblock has now or will have
    /// in the future (provided that the node operates correctly).
    pub fn expected_l1_batch(&self) -> (r: L1BatchNumber)
        ensures
            r == spec_expected_l1_batch(*self),
    {
        match self.miniblock_l1_batch {
            Some(b) => b,
            None => self.pending_l1_batch,
        }
    }
}

/// Looks up which batch the given miniblock is explicitly assigned to; if it
/// is not yet assigned, the snapshot's open batch stands as the pending
/// candidate. Read-only; no side effects.
pub fn link(s: &ChainSnapshot, miniblock: u32) -> (r: ResolvedL1BatchForMiniblock)
    ensures
        r.pending_l1_batch == L1BatchNumber(s.pending_batch),
        (miniblock as int) < s.miniblocks@.len() ==> r.miniblock_l1_batch
            == (match s.miniblocks@[miniblock as int].l1_batch {
            Some(b) => Some(L1BatchNumber(b)),
            None => None::<L1BatchNumber>,
        }),
        (miniblock as int) >= s.miniblocks@.len() ==> r.miniblock_l1_batch is None,
{
    let explicit: Option<L1BatchNumber> = if (miniblock as usize) < s.miniblocks.len() {
        match s.miniblocks[miniblock as usize].l1_batch {
            Some(b) => Some(L1BatchNumber(b)),
            None => None,
        }
    } else {
        None
    };
    ResolvedL1BatchForMiniblock {
        miniblock_l1_batch: explicit,
        pending_l1_batch: L1BatchNumber(s.pending_batch),
    }
}

/// A miniblock not yet assigned to a sealed batch is expected in the
/// currently pending batch.
pub proof fn lemma_expected_is_pending_when_unassigned(r: ResolvedL1BatchForMiniblock)
    requires
        r.miniblock_l1_batch is None,
    ensures
        spec_expected_l1_batch(r) == r.pending_l1_batch,
{
}

/// Once sealing explicitly assigns the miniblock to the batch that was
/// pending, the expected batch is that explicit number and stays stable no
/// matter how the pending batch moves on.
pub proof fn lemma_expected_stable_after_seal(
    before: ResolvedL1BatchForMiniblock,
    after: ResolvedL1BatchForMiniblock,
)
    requires
        before.miniblock_l1_batch is None,
        after.miniblock_l1_batch == Some(before.pending_l1_batch),
    ensures
        spec_expected_l1_batch(after) == spec_expected_l1_batch(before),
        spec_expected_l1_batch(after) == before.pending_l1_batch,
{
}

} // verus!
