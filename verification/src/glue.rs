//! Multivm glue layer: version-keyed dispatch of block execution and
//! normalization of per-version results, revert reasons and contexts into
//! one stable representation.

use vstd::prelude::*;

verus! {

/// Protocol versions of the VM, an ordered, append-only enumeration. A
/// historical batch is always replayed with the version in force when it was
/// produced.
#[derive(Debug, Clone, Copy, PartialEq, Eq, Structural)]
pub enum VmVersion {
    M5WithoutRefunds,
    M5WithRefunds,
    M6Initial,
    M6BugWithCompressionFixed,
    Vm1_3_2,
}

/// Position of a version in the append-only enumeration.
pub open spec fn version_order(v: VmVersion) -> int {
    match v {
        VmVersion::M5WithoutRefunds => 0,
        VmVersion::M5WithRefunds => 1,
        VmVersion::M6Initial => 2,
        VmVersion::M6BugWithCompressionFixed => 3,
        VmVersion::Vm1_3_2 => 4,
    }
}

/// Account-abstraction validation exists as a distinct failure class only
/// from the M6 generation on.
pub open spec fn spec_supports_validation(v: VmVersion) -> bool {
    version_order(v) >= 2
}

/// Gas each published pubdata byte may cost under this version's rules.
pub open spec fn spec_gas_per_pubdata_limit(v: VmVersion) -> u64 {
    if version_order(v) < 2 {
        17
    } else {
        786432
    }
}

/// Version-independent classification of a transaction-level revert, so
/// callers never parse per-version reason shapes.
#[derive(Debug, Clone, PartialEq, Eq)]
pub enum TxRevertReason {
    OutOfGas,
    ExplicitRevert(Vec<u8>),
    ValidationFailed,
    UnknownVersionSpecific(Vec<u8>),
}

/// The normalized reason for a raw per-version revert report, given as the
/// version's reason tag and its payload.
pub open spec fn spec_normalize_revert(v: VmVersion, tag: u8, payload: Vec<u8>) -> TxRevertReason {
    if tag == 0 {
        TxRevertReason::OutOfGas
    } else if tag == 1 {
        TxRevertReason::ExplicitRevert(payload)
    } else if tag == 2 && spec_supports_validation(v) {
        TxRevertReason::ValidationFailed
    } else {
        TxRevertReason::UnknownVersionSpecific(payload)
    }
}

/// Normalizes a raw revert report of the given VM version into the
/// version-independent taxonomy.
pub fn normalize_revert(v: VmVersion, tag: u8, payload: Vec<u8>) -> (r: TxRevertReason)
    ensures
        r == spec_normalize_revert(v, tag, payload),
{
    if tag == 0 {
        TxRevertReason::OutOfGas
    } else if tag == 1 {
        TxRevertReason::ExplicitRevert(payload)
    } else if tag == 2 && version_supports_validation(v) {
        TxRevertReason::ValidationFailed
    } else {
        TxRevertReason::UnknownVersionSpecific(payload)
    }
}

/// Whether this version reports validation failures as their own class.
pub fn version_supports_validation(v: VmVersion) -> (r: bool)
    ensures
        r == spec_supports_validation(v),
{
    match v {
        VmVersion::M5WithoutRefunds => false,
        VmVersion::M5WithRefunds => false,
        _ => true,
    }
}

/// The job a block execution is tagged with; it controls which normalized
/// result fields are populated.
#[derive(Debug, Clone, Copy, PartialEq, Eq, Structural)]
pub enum BootloaderJobType {
    BlockExecution,
    OneTxExecution,
    EstimateFee,
}

/// Raw context a block is executed in.
#[derive(Debug, Clone, Copy, PartialEq, Eq, Structural)]
pub struct BlockExecutionContext {
    pub block_number: u32,
    pub timestamp: u64,
    pub l1_gas_price: u64,
    pub fair_l2_gas_price: u64,
    pub vm_version: VmVersion,
}

/// Context derived once per block from the raw context plus the version's
/// own constants; cached for the lifetime of one block's execution.
#[derive(Debug, Clone, Copy, PartialEq, Eq, Structural)]
pub struct DerivedBlockContext {
    pub context: BlockExecutionContext,
    pub gas_per_pubdata_limit: u64,
}

/// Derives the per-block execution context. Pure.
pub fn derive_block_context(ctx: BlockExecutionContext) -> (r: DerivedBlockContext)
    ensures
        r.context == ctx,
        r.gas_per_pubdata_limit == spec_gas_per_pubdata_limit(ctx.vm_version),
{
    let gas_per_pubdata_limit = match ctx.vm_version {
        VmVersion::M5WithoutRefunds | VmVersion::M5WithRefunds => 17,
        _ => 786432,
    };
    DerivedBlockContext { context: ctx, gas_per_pubdata_limit }
}

/// Normalized result of a block execution, independent of the VM version
/// that produced it. Fields not owed to the execution's job type are absent.
#[derive(Debug, Clone, PartialEq, Eq)]
pub struct VmExecutionResult {
    pub gas_used: u64,
    pub return_data: Option<Vec<u8>>,
    pub logs: Option<Vec<Vec<u8>>>,
    pub state_diffs: Option<Vec<Vec<u8>>>,
}

/// What a raw result is narrowed to for a job type: full block executions
/// keep everything, single-transaction jobs drop state diffs, fee estimates
/// keep only the gas figure and are never fed into persistent state.
pub open spec fn spec_normalize_result(job: BootloaderJobType, raw: VmExecutionResult) -> VmExecutionResult {
    match job {
        BootloaderJobType::BlockExecution => raw,
        BootloaderJobType::OneTxExecution => VmExecutionResult {
            gas_used: raw.gas_used,
            return_data: raw.return_data,
            logs: raw.logs,
            state_diffs: None,
        },
        BootloaderJobType::EstimateFee => VmExecutionResult {
            gas_used: raw.gas_used,
            return_data: None,
            logs: None,
            state_diffs: None,
        },
    }
}

/// Narrows a raw execution result to the fields its job type owes.
pub fn normalize_result(job: BootloaderJobType, raw: VmExecutionResult) -> (r: VmExecutionResult)
    ensures
        r == spec_normalize_result(job, raw),
{
    match job {
        BootloaderJobType::BlockExecution => raw,
        BootloaderJobType::OneTxExecution => VmExecutionResult {
            gas_used: raw.gas_used,
            return_data: raw.return_data,
            logs: raw.logs,
            state_diffs: None,
        },
        BootloaderJobType::EstimateFee => VmExecutionResult {
            gas_used: raw.gas_used,
            return_data: None,
            logs: None,
            state_diffs: None,
        },
    }
}

/// Failure of the glue layer itself.
#[derive(Debug, Clone, Copy, PartialEq, Eq, Structural)]
pub enum GlueError {
    /// Dispatch was requested for a protocol version with no registered VM
    /// adapter; the operation halts rather than approximating with a nearby
    /// version.
    UnsupportedVersion,
}

/// The adapter registry, keyed by protocol version.
#[derive(Debug, Clone, PartialEq, Eq)]
pub struct VmRegistry {
    pub registered: Vec<VmVersion>,
}

impl VmRegistry {
    /// An empty registry: no version dispatches yet.
    pub fn new() -> (r: VmRegistry)
        ensures
            r.registered@ == Seq::<VmVersion>::empty(),
    {
        VmRegistry { registered: Vec::new() }
    }

    /// Registers an adapter for one more version.
    pub fn register(&mut self, v: VmVersion)
        ensures
            final (self).registered@ == old(self).registered@.push(v),
    {
        self.registered.push(v);
    }

    /// Whether an adapter is registered for the version.
    pub fn supports(&self, v: VmVersion) -> (r: bool)
        ensures
            r == self.registered@.contains(v),
    {
        let mut i: usize = 0;
        while i < self.registered.len()
            invariant
                i <= self.registered@.len(),
                forall|j: int| 0 <= j < i ==> self.registered@[j] != v,
            decreases self.registered@.len() - i,
        {
            if self.registered[i] == v {
                return true;
            }
            i = i + 1;
        }
        false
    }
}

/// State of one block's execution through the glue layer.
#[derive(Debug, Clone, PartialEq, Eq)]
pub enum ExecutionState {
    /// No context supplied yet.
    NotStarted,
    /// Executing under a derived context, tagged with its job type.
    Executing(DerivedBlockContext, BootloaderJobType),
    /// All transactions processed; carries the normalized result.
    Completed(VmExecutionResult),
    /// A transaction-level revert, expected and routine; the surrounding
    /// block goes on.
    Reverted(TxRevertReason),
    /// An unrecoverable VM-internal fault; the block must not be sealed and
    /// is reported, not retried.
    Halted(Vec<u8>),
}

/// What the version-appropriate VM reported back for a block.
#[derive(Debug, Clone, PartialEq, Eq)]
pub enum VmOutcome {
    Completed(VmExecutionResult),
    RevertedRaw(u8, Vec<u8>),
    HaltedRaw(Vec<u8>),
}

/// One block's execution, dispatched to the version-appropriate VM and
/// normalized on the way back.
#[derive(Debug, Clone, PartialEq, Eq)]
pub struct BlockExecution {
    pub state: ExecutionState,
}

impl BlockExecution {
    /// A fresh, not yet started block execution.
    pub fn new() -> (r: BlockExecution)
        ensures
            r.state is NotStarted,
    {
        BlockExecution { state: ExecutionState::NotStarted }
    }

    /// Supplies the execution context, dispatching to the version the
    /// context names. For a version without a registered adapter this fails
    /// with `UnsupportedVersion` and produces no partial execution state.
    pub fn start(
        &mut self,
        registry: &VmRegistry,
        ctx: BlockExecutionContext,
        job: BootloaderJobType,
    ) -> (r: Result<(), GlueError>)
        requires
            old(self).state is NotStarted,
        ensures
            !registry.registered@.contains(ctx.vm_version) ==> r == Err::<(), GlueError>(
                GlueError::UnsupportedVersion,
            ) && final (self).state is NotStarted,
            registry.registered@.contains(ctx.vm_version) ==> r is Ok && final (self).state
                == ExecutionState::Executing(
                DerivedBlockContext {
                    context: ctx,
                    gas_per_pubdata_limit: spec_gas_per_pubdata_limit(ctx.vm_version),
                },
                job,
            ),
    {
        if !registry.supports(ctx.vm_version) {
            return Err(GlueError::UnsupportedVersion);
        }
        self.state = ExecutionState::Executing(derive_block_context(ctx), job);
        Ok(())
    }

    /// Records what the dispatched VM reported, normalizing the result or
    /// revert reason into the version-independent types.
    pub fn finish(&mut self, outcome: VmOutcome)
        requires
            old(self).state matches ExecutionState::Executing(_, _),
        ensures
            old(self).state matches ExecutionState::Executing(d, job) ==> {
                &&& (outcome matches VmOutcome::Completed(res) ==> final (self).state
                    == ExecutionState::Completed(spec_normalize_result(job, res)))
                &&& (outcome matches VmOutcome::RevertedRaw(tag, payload) ==> final (self).state
                    == ExecutionState::Reverted(
                    spec_normalize_revert(d.context.vm_version, tag, payload),
                ))
                &&& (outcome matches VmOutcome::HaltedRaw(reason) ==> final (self).state
                    == ExecutionState::Halted(reason))
            },
    {
        let (dctx, job) = match &self.state {
            ExecutionState::Executing(d, j) => (*d, *j),
            _ => {
                return ;
            },
        };
        self.state = match outcome {
            VmOutcome::Completed(res) => ExecutionState::Completed(normalize_result(job, res)),
            VmOutcome::RevertedRaw(tag, payload) => ExecutionState::Reverted(
                normalize_revert(dctx.context.vm_version, tag, payload),
            ),
            VmOutcome::HaltedRaw(reason) => ExecutionState::Halted(reason),
        };
    }
}

} // verus!
