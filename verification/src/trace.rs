//! Per-fixture execution traces in the shape of EIP-3155, and the switches
//! that decide their detail.

use vstd::prelude::*;
use crate::fixture::{
    join_path, path_in, trace_file, trace_file_name, StatelessInput, WGError, WriteOutcome,
};
use crate::precompiles::{is_precompile, standard_precompile};
use crate::primitives::{Address, B256, U256};

verus! {

/// Execution trace of one block.
#[derive(Debug, Clone, PartialEq, Eq)]
pub struct ExecutionTrace {
    /// The name of the fixture this trace belongs to.
    pub fixture_name: String,
    /// Block number that was traced.
    pub block_number: u64,
    /// Transaction traces within the block.
    pub transactions: Vec<TransactionTrace>,
}

/// Trace for a single transaction.
#[derive(Debug, Clone, PartialEq, Eq)]
pub struct TransactionTrace {
    /// Transaction hash.
    pub hash: Option<B256>,
    /// Transaction index in the block.
    pub index: usize,
    /// Whether the transaction succeeded.
    pub success: bool,
    /// Gas used by the transaction.
    pub gas_used: u64,
    /// Structured execution logs.
    pub struct_logs: Vec<StructLog>,
    /// Precompile calls made during execution.
    pub precompile_calls: Vec<PrecompileCall>,
}

/// A single step in the execution trace.
#[derive(Debug, Clone, PartialEq, Eq)]
pub struct StructLog {
    /// Program counter.
    pub pc: u64,
    /// Opcode name.
    pub op: String,
    /// Gas remaining before this operation.
    pub gas: u64,
    /// Gas cost of this operation.
    pub gas_cost: u64,
    /// Call depth.
    pub depth: u64,
    /// Stack state (optional, can be large).
    pub stack: Option<Vec<U256>>,
    /// Memory state (optional, can be very large).
    pub memory: Option<Vec<String>>,
    /// Storage changes (optional), each slot at most once.
    pub storage: Option<Vec<(U256, U256)>>,
    /// Return data (optional).
    pub return_data: Option<Vec<u8>>,
    /// Error message if the step failed.
    pub error: Option<String>,
}

/// Record of a precompile call.
#[derive(Debug, Clone, PartialEq, Eq)]
pub struct PrecompileCall {
    /// Precompile contract address.
    pub address: Address,
    /// Input data to the precompile.
    pub input: Vec<u8>,
    /// Output data from the precompile.
    pub output: Option<Vec<u8>>,
    /// Gas used by the precompile.
    pub gas_used: u64,
    /// Whether the precompile call succeeded.
    pub success: bool,
}

/// Which optional parts of a step record a trace carries.
#[derive(Debug, Clone, Copy, PartialEq, Eq)]
pub struct TraceConfig {
    /// Include stack in trace output.
    pub include_stack: bool,
    /// Include memory in trace output (can be very large).
    pub include_memory: bool,
    /// Include storage changes in trace output.
    pub include_storage: bool,
}

impl Default for TraceConfig {
    /// The configuration that records opcodes and gas only.
    fn default() -> (config: Self)
        ensures
            !config.include_stack,
            !config.include_memory,
            !config.include_storage,
    {
        Self { include_stack: false, include_memory: false, include_storage: false }
    }
}

impl TraceConfig {
    /// A configuration that records opcodes and gas only.
    pub fn minimal() -> (config: Self)
        ensures
            !config.include_stack,
            !config.include_memory,
            !config.include_storage,
    {
        Self { include_stack: false, include_memory: false, include_storage: false }
    }

    /// A configuration that records every optional detail.
    pub fn full() -> (config: Self)
        ensures
            config.include_stack,
            config.include_memory,
            config.include_storage,
    {
        Self { include_stack: true, include_memory: true, include_storage: true }
    }
}

/// No two of the pairs have the same slot.
pub open spec fn distinct_slots(pairs: Seq<(U256, U256)>) -> bool {
    forall|i: int, j: int|
        0 <= i < j < pairs.len() ==> (#[trigger] pairs[i]).0 != (#[trigger] pairs[j]).0
}

impl StructLog {
    /// The storage changes, where the step has some, hold each slot at most
    /// once.
    pub open spec fn wf(self) -> bool {
        self.storage matches Some(slots) ==> distinct_slots(slots@)
    }
}

/// Every one of the steps is well formed.
pub open spec fn steps_wf(steps: Seq<StructLog>) -> bool {
    forall|i: int| 0 <= i < steps.len() ==> (#[trigger] steps[i]).wf()
}

impl TransactionTrace {
    /// Every step is well formed.
    pub open spec fn wf(self) -> bool {
        steps_wf(self.struct_logs@)
    }
}

impl ExecutionTrace {
    /// The trace of every transaction is well formed.
    pub open spec fn wf(self) -> bool {
        forall|i: int| 0 <= i < self.transactions@.len() ==> (#[trigger] self.transactions@[i]).wf()
    }
}

/// Every step of every record is well formed.
pub open spec fn traced_wf(traced: Seq<TracedTransaction>) -> bool {
    forall|i: int| 0 <= i < traced.len() ==> steps_wf((#[trigger] traced[i]).steps@)
}

/// What tracing the execution of one transaction gave.
#[derive(Debug, Clone, PartialEq, Eq)]
pub struct TracedTransaction {
    /// Whether the transaction succeeded.
    pub success: bool,
    /// Gas used by the transaction.
    pub gas_used: u64,
    /// The steps of the execution, in their order, each with all that was
    /// seen of it.
    pub steps: Vec<StructLog>,
    /// The calls that the transaction made, in their order, to whatever
    /// address.
    pub calls: Vec<PrecompileCall>,
}

/// What a trace says where it does not fit its block.
pub const TRACE_MISMATCH: &'static str = "the trace does not hold one record for each transaction of the block";

/// The step `step` as a trace under `config` shows it: without its stack,
/// its memory or its storage where `config` leaves them out.
pub open spec fn shown(step: StructLog, config: TraceConfig) -> StructLog {
    StructLog {
        stack: if config.include_stack {
            step.stack
        } else {
            None
        },
        memory: if config.include_memory {
            step.memory
        } else {
            None
        },
        storage: if config.include_storage {
            step.storage
        } else {
            None
        },
        ..step
    }
}

/// The steps `steps` as a trace under `config` shows them.
pub open spec fn shown_steps(steps: Seq<StructLog>, config: TraceConfig) -> Seq<StructLog> {
    Seq::new(steps.len(), |i: int| shown(steps[i], config))
}

/// The calls among `calls` that went to a standard precompile, in their
/// order.
pub open spec fn precompile_calls_of(calls: Seq<PrecompileCall>) -> Seq<PrecompileCall>
    decreases calls.len(),
{
    if calls.len() == 0 {
        Seq::empty()
    } else if standard_precompile(calls.last().address) {
        precompile_calls_of(calls.drop_last()).push(calls.last())
    } else {
        precompile_calls_of(calls.drop_last())
    }
}

/// `tx` is the trace of the transaction at position `index` with hash
/// `hash`, of which tracing gave `traced`, under `config`: its outcome and
/// gas, its steps as `config` shows them, and its calls to precompiles.
pub open spec fn is_trace_of_transaction(
    tx: TransactionTrace,
    index: int,
    hash: B256,
    traced: TracedTransaction,
    config: TraceConfig,
) -> bool {
    &&& tx.hash == Some(hash)
    &&& tx.index == index
    &&& tx.success == traced.success
    &&& tx.gas_used == traced.gas_used
    &&& tx.struct_logs@ == shown_steps(traced.steps@, config)
    &&& tx.precompile_calls@ == precompile_calls_of(traced.calls@)
}

/// `trace` is the trace of a block under `config`: the trace of each
/// transaction, in block order, under the fixture's name and the block's
/// number.
pub open spec fn is_block_trace(
    trace: ExecutionTrace,
    fixture_name: Seq<char>,
    block_number: u64,
    hashes: Seq<B256>,
    traced: Seq<TracedTransaction>,
    config: TraceConfig,
) -> bool {
    &&& trace.fixture_name@ == fixture_name
    &&& trace.block_number == block_number
    &&& trace.transactions@.len() == hashes.len()
    &&& traced.len() == hashes.len()
    &&& forall|i: int|
        0 <= i < hashes.len() ==> is_trace_of_transaction(
            #[trigger] trace.transactions@[i],
            i,
            hashes[i],
            traced[i],
            config,
        )
}

/// The steps of a transaction as a trace under `config` shows them.
fn show_steps(steps: Vec<StructLog>, config: &TraceConfig) -> (logs: Vec<StructLog>)
    ensures
        logs@ == shown_steps(steps@, *config),
{
    let ghost all = steps@;
    let mut logs: Vec<StructLog> = Vec::new();
    for step in it: steps
        invariant
            it.seq() == all,
            logs@.len() == it.index(),
            forall|i: int| 0 <= i < it.index() ==> (#[trigger] logs@[i]) == shown(all[i], *config),
    {
        let StructLog { pc, op, gas, gas_cost, depth, stack, memory, storage, return_data, error } =
            step;
        logs.push(
            StructLog {
                pc,
                op,
                gas,
                gas_cost,
                depth,
                stack: if config.include_stack {
                    stack
                } else {
                    None
                },
                memory: if config.include_memory {
                    memory
                } else {
                    None
                },
                storage: if config.include_storage {
                    storage
                } else {
                    None
                },
                return_data,
                error,
            },
        );
    }
    assert(logs@ =~= shown_steps(all, *config));
    logs
}

/// The calls among `calls` that went to a standard precompile.
fn keep_precompile_calls(calls: Vec<PrecompileCall>) -> (kept: Vec<PrecompileCall>)
    ensures
        kept@ == precompile_calls_of(calls@),
{
    let ghost all = calls@;
    let mut kept: Vec<PrecompileCall> = Vec::new();
    for call in it: calls
        invariant
            it.seq() == all,
            kept@ == precompile_calls_of(all.take(it.index() as int)),
    {
        let ghost k = it.index() as int;
        assert(all.take(k + 1).drop_last() =~= all.take(k));
        if is_precompile(&call.address) {
            kept.push(call);
        }
    }
    assert(all.take(all.len() as int) =~= all);
    kept
}

/// Generates the execution trace of the block in `input` under the name
/// `fixture_name`. `traced` is what tracing the execution of the block
/// gave, a record for each transaction in block order. The trace shows of
/// each step what `config` asks for, and of the calls those to standard
/// precompiles. It fails iff `traced` does not hold one record for each
/// transaction of the block.
pub fn generate_trace<P>(
    input: &StatelessInput<P>,
    fixture_name: &str,
    config: &TraceConfig,
    traced: Vec<TracedTransaction>,
) -> (r: Result<ExecutionTrace, WGError>)
    ensures
        r is Ok <==> traced@.len() == input.transaction_hashes@.len(),
        r matches Ok(trace) ==> is_block_trace(
            trace,
            fixture_name@,
            input.block_number,
            input.transaction_hashes@,
            traced@,
            *config,
        ),
        r matches Err(e) ==> e matches WGError::Other(text) && text@ == TRACE_MISMATCH@,
        r matches Ok(trace) ==> (traced_wf(traced@) ==> trace.wf()),
{
    if traced.len() != input.transaction_hashes.len() {
        return Err(WGError::Other(String::from_str(TRACE_MISMATCH)));
    }
    let ghost all = traced@;
    let mut transactions: Vec<TransactionTrace> = Vec::new();
    for record in it: traced
        invariant
            it.seq() == all,
            all.len() == input.transaction_hashes@.len(),
            transactions@.len() == it.index(),
            forall|i: int|
                0 <= i < it.index() ==> is_trace_of_transaction(
                    #[trigger] transactions@[i],
                    i,
                    input.transaction_hashes@[i],
                    all[i],
                    *config,
                ),
    {
        let ghost k = it.index() as int;
        assert(k < all.len());
        let index = transactions.len();
        let TracedTransaction { success, gas_used, steps, calls } = record;
        transactions.push(
            TransactionTrace {
                hash: Some(input.transaction_hashes[index]),
                index,
                success,
                gas_used,
                struct_logs: show_steps(steps, config),
                precompile_calls: keep_precompile_calls(calls),
            },
        );
    }
    Ok(
        ExecutionTrace {
            fixture_name: String::from_str(fixture_name),
            block_number: input.block_number,
            transactions,
        },
    )
}

impl ExecutionTrace {
    /// The file that holds this trace in the directory `dir`:
    /// `<dir>/<fixture_name>.trace.json`.
    pub fn path_in_dir(&self, dir: &str) -> (path: String)
        ensures
            path@ == path_in(dir@, trace_file(self.fixture_name@)),
    {
        let file = trace_file_name(self.fixture_name.as_str());
        join_path(dir, file.as_str())
    }

    /// Judges the attempt to write this trace into `dir`, which the driver
    /// made at `path_in_dir(dir)` and reports in `outcome`.
    pub fn write_to_path(&self, dir: &str, outcome: WriteOutcome) -> (r: Result<(), WGError>)
        ensures
            match outcome {
                WriteOutcome::Written => r is Ok,
                WriteOutcome::SerializationFailed(e) => r == Err::<(), WGError>(WGError::Other(e)),
                WriteOutcome::WriteFailed(e) => r matches Err(WGError::FixtureWriteError { path, source })
                    && path@ == path_in(dir@, trace_file(self.fixture_name@)) && source == e,
            },
    {
        match outcome {
            WriteOutcome::Written => Ok(()),
            WriteOutcome::SerializationFailed(e) => Err(WGError::Other(e)),
            WriteOutcome::WriteFailed(e) => Err(
                WGError::FixtureWriteError { path: self.path_in_dir(dir), source: e },
            ),
        }
    }
}

} // verus!
