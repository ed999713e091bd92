//! The run schedule: which units of work a run computes and which it finds
//! already done, what a unit's record holds, and what ends a batch.
//!
//! One unit is one test case against one backend. Its life is a small state
//! machine, [`UnitState`]: the driver looks at [`UnitState::request`], does
//! what it asks (looks for the artifact, runs the guest, writes the record)
//! and reports what came of it to [`UnitState::step`]. An abort inside the
//! guest is a result like any other and ends up in the record; a failure
//! around it (an input that cannot be prepared, a record that cannot be
//! written) is fatal and ends the batch.

use vstd::prelude::*;
use vstd::slice::slice_subrange;
use vstd::string::*;
use vstd::utf8::encode_utf8;
use crate::fixture::{fixture_file, fixture_file_name, join_path, path_in};
use crate::hexparse::{hex_number, parse_hex_number, TestCaseError};
use crate::metrics::{
    CrashInfo, Duration, ExecutionMetrics, MetricsError, ProfileRun, ProvingMetrics, HARDWARE_FILE,
};
use crate::primitives::Address;
use crate::state::{address_from_str, prefixed_address, SerializableAccount, SerializableState};
use crate::testcase::{
    accounts_wf, create_tx_env, tx_env_of, Account, Environment, TestCase, TxEnv,
};
use crate::text::{distinct_keys, joined};

verus! {

/// Action specifies whether we should prove or execute.
#[derive(Debug, Clone, Copy, PartialEq, Eq)]
pub enum Action {
    /// Generate a proof for the zkVM execution.
    Prove,
    /// Only execute the zkVM without proving.
    Execute,
    /// Prove and execute the zkVM.
    Full,
}

/// Holds the configuration for running profiles.
#[derive(Debug, Clone)]
pub struct RunConfig {
    /// Output folder where profile results will be stored.
    pub output_folder: String,
    /// Action to perform: proving, executing, or both.
    pub action: Action,
    /// Force rerun profiles even if output files already exist.
    pub force_rerun: bool,
}

/// One unit of work: a named input for the guest, with the gas that its
/// record is to state.
#[derive(Debug, Clone, PartialEq, Eq)]
pub struct WorkUnit {
    /// Name of the unit; its artifact is named after it.
    pub name: String,
    /// Gas used by what the unit executes, as far as it is known.
    pub gas_used: u64,
}

/// What the guest reports of a run that it completed.
#[derive(Debug, Clone, PartialEq, Eq)]
pub struct ExecutionOutput {
    /// Whether the transaction was executed.
    pub success: bool,
    /// Gas used by the transaction.
    pub gas_used: u64,
    /// Output data of the transaction.
    pub output: Option<Vec<u8>>,
    /// Error text of the transaction.
    pub error: Option<String>,
    /// Cycles that the guest counted.
    pub cycles_used: Option<u64>,
}

/// What an abort inside the guest left behind.
#[derive(Debug, Clone, PartialEq, Eq)]
pub enum PanicPayload {
    /// A message held as a string slice.
    Text(String),
    /// A message held as an owned string.
    Owned(String),
    /// Anything else.
    Opaque,
}

/// What a backend gave for an execution that the guest completed.
#[derive(Debug, Clone, PartialEq, Eq)]
pub struct Executed {
    /// What the guest reports.
    pub output: ExecutionOutput,
    /// Cycles of each named region, each name at most once.
    pub region_cycles: Vec<(String, u64)>,
}

/// What a backend gave for a proof that it made and verified.
#[derive(Debug, Clone, PartialEq, Eq)]
pub struct Proved {
    /// What the guest reports.
    pub output: ExecutionOutput,
    /// Size of the proof in bytes.
    pub proof_size: usize,
}

/// How one call of the guest ended; `T` is what a backend gives for a call
/// that the guest completed.
#[derive(Debug, Clone, PartialEq, Eq)]
pub enum GuestRun<T> {
    /// The guest ran to its end and reported.
    Completed(T),
    /// The backend returned an error; holds its text.
    Failed(String),
    /// The guest aborted.
    Panicked(PanicPayload),
}

/// The state of one unit of work. `Skipped`, `Succeeded`, `Crashed` and
/// `FatalError` are final; `Proving`, `Executing` and `Storing` are the
/// stages of a unit that is running.
#[derive(Debug, Clone, PartialEq, Eq)]
pub enum UnitState {
    /// Nothing is known yet.
    Pending,
    /// The artifact was there already: nothing was computed or written.
    Skipped,
    /// The proof is to be made.
    Proving,
    /// The guest is to be executed; holds the proof's metrics where a proof
    /// was made before.
    Executing { proving: Option<ProvingMetrics> },
    /// The record is to be written.
    Storing(ProfileRun),
    /// The record is written and holds no crash.
    Succeeded,
    /// The record is written and holds a crash.
    Crashed,
    /// A failure around the guest; holds its text. It ends the batch.
    FatalError(String),
}

/// What the driver reports of the step it did for a unit.
#[derive(Debug, PartialEq, Eq)]
pub enum UnitEvent {
    /// Whether the unit's artifact exists.
    Probed(bool),
    /// The proof's metrics, or the failure that kept the guest from running.
    Proved(Result<ProvingMetrics, String>),
    /// The execution's metrics, or the failure that kept the guest from
    /// running.
    Executed(Result<ExecutionMetrics, String>),
    /// Whether the record was written, or why not.
    Stored(Result<(), String>),
}

/// What a unit asks of the driver.
#[derive(Debug, PartialEq, Eq)]
pub enum Request<'a> {
    /// Look whether the artifact at this path exists; report `Probed`.
    Probe { path: String },
    /// Run the guest and make and verify a proof; report `Proved`.
    Prove,
    /// Run the guest without a proof; report `Executed`.
    Execute,
    /// Write the record, as a list of one, to this path; report `Stored`.
    Store { path: String, record: &'a ProfileRun },
    /// Nothing: the unit is in a final state.
    Nothing,
}

/// The block that the guest executes in.
#[derive(Debug, Clone, Copy, PartialEq, Eq)]
pub struct BlockEnvironment {
    /// Beneficiary of the block.
    pub beneficiary: Address,
    /// Gas limit of the block.
    pub gas_limit: u64,
    /// Number of the block.
    pub number: u64,
    /// Timestamp of the block.
    pub timestamp: u64,
    /// Difficulty of the block.
    pub difficulty: u64,
}

/// Which text of a block stands for nothing.
#[derive(Debug, Clone, Copy, PartialEq, Eq)]
pub enum BlockEnvError {
    /// The beneficiary.
    InvalidCoinbase,
    /// The gas limit.
    InvalidGasLimit,
    /// The number.
    InvalidNumber,
    /// The timestamp.
    InvalidTimestamp,
    /// The difficulty.
    InvalidDifficulty,
}

/// A `BlockEnvironment` with its beneficiary as a sequence of bytes.
pub struct BlockEnvView {
    pub beneficiary: Seq<u8>,
    pub gas_limit: u64,
    pub number: u64,
    pub timestamp: u64,
    pub difficulty: u64,
}

impl View for BlockEnvironment {
    type V = BlockEnvView;

    open spec fn view(&self) -> BlockEnvView {
        BlockEnvView {
            beneficiary: self.beneficiary@,
            gas_limit: self.gas_limit,
            number: self.number,
            timestamp: self.timestamp,
            difficulty: self.difficulty,
        }
    }
}

/// What the guest is handed for one test case.
#[derive(Debug, Clone, PartialEq, Eq)]
pub struct GuestInput {
    /// The transaction.
    pub tx_env: TxEnv,
    /// The block.
    pub block_env: BlockEnvironment,
    /// The accounts before the transaction.
    pub state: SerializableState,
}

/// Why no input for the guest follows from a test case.
#[derive(Debug, Clone, PartialEq, Eq)]
pub enum PrepareError {
    /// A text of the transaction stands for nothing.
    Transaction(TestCaseError),
    /// A text of the block stands for nothing.
    Block(BlockEnvError),
}

/// Why a run ended before its batch was through.
#[derive(Debug, Clone, PartialEq, Eq)]
pub enum RunError {
    /// The hardware information could not be stored.
    Hardware(MetricsError),
    /// A unit met a failure around the guest; holds its text.
    Unit(String),
}

/// The gas that a record states while none is measured.
pub const DEFAULT_GAS_USED: u64 = 21000;

/// What a panic message reads where the payload holds none.
pub const UNKNOWN_PANIC: &'static str = "Unknown panic occurred";

/// What precedes the backend's error text in the reason of a crashed execution.
pub const EXECUTION_ERROR_PREFIX: &'static str = "Execution error: ";

/// What precedes the backend's error text in the reason of a crashed proof.
pub const PROVING_ERROR_PREFIX: &'static str = "Proving error: ";

/// The path of the artifact of the unit called `name` below `folder`:
/// `<folder>/<name>.json`.
pub open spec fn artifact_path(folder: Seq<char>, name: Seq<char>) -> Seq<char> {
    path_in(folder, fixture_file(name))
}

/// A unit is skipped iff its artifact exists and reruns are not forced.
pub open spec fn cache_hit(force_rerun: bool, artifact_exists: bool) -> bool {
    !force_rerun && artifact_exists
}

/// The record of the unit `unit`: what was measured of it, under its name
/// and with its gas.
pub open spec fn record_of(
    unit: WorkUnit,
    execution: Option<ExecutionMetrics>,
    proving: Option<ProvingMetrics>,
) -> ProfileRun {
    ProfileRun { name: unit.name, gas_used: unit.gas_used, execution, proving }
}

/// The state that follows `state` when the driver reports `event`, for the
/// unit `unit` of a run under `action` and `force_rerun`. A report that the
/// state did not ask for changes nothing.
pub open spec fn next_state(
    state: UnitState,
    event: UnitEvent,
    action: Action,
    force_rerun: bool,
    unit: WorkUnit,
) -> UnitState {
    match (state, event) {
        (UnitState::Pending, UnitEvent::Probed(exists)) => if cache_hit(force_rerun, exists) {
            UnitState::Skipped
        } else if action is Execute {
            UnitState::Executing { proving: None }
        } else {
            UnitState::Proving
        },
        (UnitState::Proving, UnitEvent::Proved(Ok(metrics))) => if action is Full {
            UnitState::Executing { proving: Some(metrics) }
        } else {
            UnitState::Storing(record_of(unit, None, Some(metrics)))
        },
        (UnitState::Proving, UnitEvent::Proved(Err(e))) => UnitState::FatalError(e),
        (UnitState::Executing { proving }, UnitEvent::Executed(Ok(metrics))) => UnitState::Storing(
            record_of(unit, Some(metrics), proving),
        ),
        (UnitState::Executing { proving }, UnitEvent::Executed(Err(e))) => UnitState::FatalError(e),
        (UnitState::Storing(record), UnitEvent::Stored(Ok(_))) => if record.crashed() {
            UnitState::Crashed
        } else {
            UnitState::Succeeded
        },
        (UnitState::Storing(record), UnitEvent::Stored(Err(e))) => UnitState::FatalError(e),
        (state, _) => state,
    }
}

impl UnitState {
    /// The unit has come to its end.
    pub open spec fn spec_is_final(&self) -> bool {
        self is Skipped || self is Succeeded || self is Crashed || self is FatalError
    }

    /// Whether the unit has come to its end.
    #[verifier::when_used_as_spec(spec_is_final)]
    pub fn is_final(&self) -> (b: bool)
        ensures
            b == self.spec_is_final(),
    {
        match self {
            UnitState::Skipped => true,
            UnitState::Succeeded => true,
            UnitState::Crashed => true,
            UnitState::FatalError(_) => true,
            _ => false,
        }
    }

    /// The state of a unit of which nothing is known yet.
    pub fn new() -> (state: Self)
        ensures
            state == UnitState::Pending,
    {
        UnitState::Pending
    }

    /// What the driver has to do for the unit called `name` in this state.
    pub fn request<'a>(&'a self, run_config: &RunConfig, name: &str) -> (request: Request<'a>)
        ensures
            match *self {
                UnitState::Pending => request matches Request::Probe { path } && path@
                    == artifact_path(run_config.output_folder@, name@),
                UnitState::Proving => request is Prove,
                UnitState::Executing { .. } => request is Execute,
                UnitState::Storing(stored) => request matches Request::Store { path, record }
                    && path@ == artifact_path(run_config.output_folder@, name@) && *record
                    == stored,
                _ => request is Nothing,
            },
    {
        match self {
            UnitState::Pending => Request::Probe { path: run_config.out_path(name) },
            UnitState::Proving => Request::Prove,
            UnitState::Executing { .. } => Request::Execute,
            UnitState::Storing(stored) => Request::Store {
                path: run_config.out_path(name),
                record: stored,
            },
            _ => Request::Nothing,
        }
    }

    /// The state that follows when the driver reports `event`.
    pub fn step(self, event: UnitEvent, run_config: &RunConfig, unit: &WorkUnit) -> (next: Self)
        ensures
            next == next_state(self, event, run_config.action, run_config.force_rerun, *unit),
    {
        match (self, event) {
            (UnitState::Pending, UnitEvent::Probed(exists)) => {
                if !run_config.force_rerun && exists {
                    UnitState::Skipped
                } else {
                    match run_config.action {
                        Action::Execute => UnitState::Executing { proving: None },
                        _ => UnitState::Proving,
                    }
                }
            },
            (UnitState::Proving, UnitEvent::Proved(Ok(metrics))) => {
                match run_config.action {
                    Action::Full => UnitState::Executing { proving: Some(metrics) },
                    _ => UnitState::Storing(process_test_case(unit, None, Some(metrics))),
                }
            },
            (UnitState::Proving, UnitEvent::Proved(Err(e))) => UnitState::FatalError(e),
            (UnitState::Executing { proving }, UnitEvent::Executed(Ok(metrics))) => {
                UnitState::Storing(process_test_case(unit, Some(metrics), proving))
            },
            (UnitState::Executing { proving }, UnitEvent::Executed(Err(e))) => {
                UnitState::FatalError(e)
            },
            (UnitState::Storing(record), UnitEvent::Stored(Ok(_))) => {
                if record.crashed() {
                    UnitState::Crashed
                } else {
                    UnitState::Succeeded
                }
            },
            (UnitState::Storing(record), UnitEvent::Stored(Err(e))) => UnitState::FatalError(e),
            (state, _) => state,
        }
    }
}

impl RunConfig {
    /// The path of the artifact of the unit called `name`:
    /// `<output_folder>/<name>.json`.
    pub fn out_path(&self, name: &str) -> (path: String)
        ensures
            path@ == artifact_path(self.output_folder@, name@),
    {
        let file = fixture_file_name(name);
        join_path(self.output_folder.as_str(), file.as_str())
    }

    /// The path of the hardware information of the run:
    /// `<output_folder>/hardware.json`.
    pub fn hardware_path(&self) -> (path: String)
        ensures
            path@ == path_in(self.output_folder@, HARDWARE_FILE@),
    {
        join_path(self.output_folder.as_str(), HARDWARE_FILE)
    }
}

/// The panic message that the payload of an abort holds, or
/// `UNKNOWN_PANIC` where it holds none.
pub fn get_panic_msg(panic_info: PanicPayload) -> (msg: String)
    ensures
        match panic_info {
            PanicPayload::Text(s) => msg == s,
            PanicPayload::Owned(s) => msg == s,
            PanicPayload::Opaque => msg@ == UNKNOWN_PANIC@,
        },
{
    match panic_info {
        PanicPayload::Text(s) => s,
        PanicPayload::Owned(s) => s,
        PanicPayload::Opaque => String::from_str(UNKNOWN_PANIC),
    }
}

/// The reason that a crash record states for the guest's end `run`; `None`
/// where the guest completed. `prefix` precedes a backend's error text.
pub open spec fn crash_reason<T>(run: GuestRun<T>, prefix: Seq<char>) -> Option<Seq<char>> {
    match run {
        GuestRun::Completed(_) => None,
        GuestRun::Failed(e) => Some(prefix + e@),
        GuestRun::Panicked(PanicPayload::Text(s)) => Some(s@),
        GuestRun::Panicked(PanicPayload::Owned(s)) => Some(s@),
        GuestRun::Panicked(PanicPayload::Opaque) => Some(UNKNOWN_PANIC@),
    }
}

/// The cycles that a completed guest counted, or 0 where it counted none.
pub open spec fn cycles_of(output: ExecutionOutput) -> u64 {
    match output.cycles_used {
        Some(cycles) => cycles,
        None => 0,
    }
}

/// `metrics` is what an execution that ended in `run` after
/// `execution_duration` is recorded as.
pub open spec fn is_execution_record(
    metrics: ExecutionMetrics,
    run: GuestRun<Executed>,
    execution_duration: Duration,
) -> bool {
    match run {
        GuestRun::Completed(executed) => {
            &&& metrics matches ExecutionMetrics::Success {
                total_num_cycles,
                region_cycles,
                execution_duration: duration,
                output,
                error,
            }
            &&& total_num_cycles == cycles_of(executed.output)
            &&& region_cycles == executed.region_cycles
            &&& duration == execution_duration
            &&& output == executed.output.output
            &&& error == executed.output.error
        },
        _ => metrics matches ExecutionMetrics::Crashed(info) && Some(info.reason@) == crash_reason(
            run,
            EXECUTION_ERROR_PREFIX@,
        ),
    }
}

/// `metrics` is what a proof whose guest ended in `run` after
/// `proving_duration` is recorded as.
pub open spec fn is_proving_record(
    metrics: ProvingMetrics,
    run: GuestRun<Proved>,
    proving_duration: Duration,
) -> bool {
    match run {
        GuestRun::Completed(proved) => {
            &&& metrics matches ProvingMetrics::Success {
                proof_size,
                proving_time_ms,
                cycles_used,
                output,
                error,
            }
            &&& proof_size == proved.proof_size
            &&& proving_time_ms == proving_duration.millis()
            &&& cycles_used == cycles_of(proved.output)
            &&& output == proved.output.output
            &&& error == proved.output.error
        },
        _ => metrics matches ProvingMetrics::Crashed(info) && Some(info.reason@) == crash_reason(
            run,
            PROVING_ERROR_PREFIX@,
        ),
    }
}

/// The reason of the crash that ended `run`.
fn reason_of<T>(run: GuestRun<T>, prefix: &str) -> (info: CrashInfo)
    requires
        !(run is Completed),
    ensures
        Some(info.reason@) == crash_reason(run, prefix@),
{
    match run {
        GuestRun::Failed(e) => CrashInfo { reason: joined(prefix, e.as_str()) },
        GuestRun::Panicked(panic_info) => CrashInfo { reason: get_panic_msg(panic_info) },
        GuestRun::Completed(_) => CrashInfo { reason: String::new() },
    }
}

/// The metrics of an execution whose guest ended in `run` after
/// `execution_duration`. A guest that completed gives `Success` with what
/// the backend counted; one that failed or aborted gives `Crashed`, never
/// an error of the call.
pub fn execute_test_case(run: GuestRun<Executed>, execution_duration: Duration) -> (metrics:
    ExecutionMetrics)
    ensures
        is_execution_record(metrics, run, execution_duration),
        (run matches GuestRun::Completed(executed) ==> distinct_keys(executed.region_cycles@))
            ==> metrics.wf(),
{
    match run {
        GuestRun::Completed(executed) => ExecutionMetrics::Success {
            total_num_cycles: match executed.output.cycles_used {
                Some(cycles) => cycles,
                None => 0,
            },
            region_cycles: executed.region_cycles,
            execution_duration,
            output: executed.output.output,
            error: executed.output.error,
        },
        crashed => ExecutionMetrics::Crashed(reason_of(crashed, EXECUTION_ERROR_PREFIX)),
    }
}

/// The metrics of a proof whose guest ended in `run` after
/// `proving_duration`. A guest that completed gives `Success` with the size
/// of the proof; one that failed or aborted gives `Crashed`, never an error
/// of the call.
pub fn prove_test_case(run: GuestRun<Proved>, proving_duration: Duration) -> (metrics:
    ProvingMetrics)
    ensures
        is_proving_record(metrics, run, proving_duration),
{
    match run {
        GuestRun::Completed(proved) => ProvingMetrics::Success {
            proof_size: proved.proof_size,
            proving_time_ms: proving_duration.as_millis(),
            cycles_used: match proved.output.cycles_used {
                Some(cycles) => cycles,
                None => 0,
            },
            output: proved.output.output,
            error: proved.output.error,
        },
        crashed => ProvingMetrics::Crashed(reason_of(crashed, PROVING_ERROR_PREFIX)),
    }
}

/// The record of the unit `unit` from what was measured of it.
pub fn process_test_case(
    unit: &WorkUnit,
    execution: Option<ExecutionMetrics>,
    proving: Option<ProvingMetrics>,
) -> (record: ProfileRun)
    ensures
        record == record_of(*unit, execution, proving),
{
    ProfileRun { name: unit.name.clone(), gas_used: unit.gas_used, execution, proving }
}

impl WorkUnit {
    /// The unit called `name` whose gas is not known: its record states
    /// `DEFAULT_GAS_USED`.
    pub fn new(name: String) -> (unit: Self)
        ensures
            unit == (WorkUnit { name, gas_used: DEFAULT_GAS_USED }),
    {
        WorkUnit { name, gas_used: DEFAULT_GAS_USED }
    }
}

/// `s` without any leading `0x`, however often it is repeated.
pub open spec fn strip_all_0x(s: Seq<u8>) -> Seq<u8>
    decreases s.len(),
{
    if s.len() >= 2 && s[0] == 0x30 && s[1] == 0x78 {
        strip_all_0x(s.skip(2))
    } else {
        s
    }
}

/// The number that a text of a block stands for: a number in base 16 that
/// a `u64` holds, behind any number of `0x`.
pub open spec fn block_number_text(text: Seq<char>) -> Option<u64> {
    match hex_number(strip_all_0x(encode_utf8(text))) {
        Some(n) => if n <= u64::MAX {
            Some(n as u64)
        } else {
            None
        },
        None => None,
    }
}

/// The block that the texts of `env` stand for, or the first text that
/// stands for nothing, in the order beneficiary, gas limit, number,
/// timestamp, difficulty.
pub open spec fn block_env_of(env: Environment) -> Result<BlockEnvView, BlockEnvError> {
    let beneficiary = prefixed_address(encode_utf8(env.current_coinbase@));
    let gas_limit = block_number_text(env.current_gas_limit@);
    let number = block_number_text(env.current_number@);
    let timestamp = block_number_text(env.current_timestamp@);
    let difficulty = block_number_text(env.current_difficulty@);
    if beneficiary is None {
        Err(BlockEnvError::InvalidCoinbase)
    } else if gas_limit is None {
        Err(BlockEnvError::InvalidGasLimit)
    } else if number is None {
        Err(BlockEnvError::InvalidNumber)
    } else if timestamp is None {
        Err(BlockEnvError::InvalidTimestamp)
    } else if difficulty is None {
        Err(BlockEnvError::InvalidDifficulty)
    } else {
        Ok(
            BlockEnvView {
                beneficiary: beneficiary->0,
                gas_limit: gas_limit->0,
                number: number->0,
                timestamp: timestamp->0,
                difficulty: difficulty->0,
            },
        )
    }
}

/// The number that the text `text` of a block stands for.
fn parse_block_number(text: &str) -> (r: Option<u64>)
    ensures
        r == block_number_text(text@),
{
    let bytes = text.as_bytes();
    let n = bytes.len();
    let mut start: usize = 0;
    assert(bytes@.skip(0) =~= bytes@);
    while n - start >= 2 && bytes[start] == 0x30 && bytes[start + 1] == 0x78
        invariant
            start <= n,
            n == bytes@.len(),
            strip_all_0x(bytes@) == strip_all_0x(bytes@.skip(start as int)),
        decreases n - start,
    {
        assert(bytes@.skip(start as int).skip(2) =~= bytes@.skip(start + 2));
        start += 2;
    }
    let rest = slice_subrange(bytes, start, n);
    assert(rest@ =~= bytes@.skip(start as int));
    match parse_hex_number(rest, u64::MAX as u128) {
        Some(value) => Some(value as u64),
        None => None,
    }
}

/// The block that the guest executes in, from the texts of `env`.
pub fn block_environment(env: &Environment) -> (r: Result<BlockEnvironment, BlockEnvError>)
    ensures
        match block_env_of(*env) {
            Ok(block) => r matches Ok(b) && b@ == block,
            Err(e) => r == Err::<BlockEnvironment, BlockEnvError>(e),
        },
{
    let beneficiary = match address_from_str(env.current_coinbase.as_str()) {
        Some(a) => a,
        None => {
            return Err(BlockEnvError::InvalidCoinbase);
        },
    };
    let gas_limit = match parse_block_number(env.current_gas_limit.as_str()) {
        Some(x) => x,
        None => {
            return Err(BlockEnvError::InvalidGasLimit);
        },
    };
    let number = match parse_block_number(env.current_number.as_str()) {
        Some(x) => x,
        None => {
            return Err(BlockEnvError::InvalidNumber);
        },
    };
    let timestamp = match parse_block_number(env.current_timestamp.as_str()) {
        Some(x) => x,
        None => {
            return Err(BlockEnvError::InvalidTimestamp);
        },
    };
    let difficulty = match parse_block_number(env.current_difficulty.as_str()) {
        Some(x) => x,
        None => {
            return Err(BlockEnvError::InvalidDifficulty);
        },
    };
    Ok(BlockEnvironment { beneficiary, gas_limit, number, timestamp, difficulty })
}

/// `state` holds the accounts `pre`, text for text, in their order.
pub open spec fn is_state_of(state: SerializableState, pre: Seq<(String, Account)>) -> bool {
    &&& state.accounts@.len() == pre.len()
    &&& forall|i: int|
        0 <= i < pre.len() ==> {
            let entry = #[trigger] state.accounts@[i];
            &&& entry.0 == pre[i].0
            &&& entry.1.nonce == pre[i].1.nonce
            &&& entry.1.balance == pre[i].1.balance
            &&& entry.1.code == pre[i].1.code
            &&& entry.1.storage@ == pre[i].1.storage@
        }
}

/// A copy of the storage `storage`.
fn copy_storage(storage: &Vec<(String, String)>) -> (copy: Vec<(String, String)>)
    ensures
        copy@ == storage@,
{
    let mut copy: Vec<(String, String)> = Vec::new();
    let mut i: usize = 0;
    while i < storage.len()
        invariant
            i <= storage@.len(),
            copy@ == storage@.take(i as int),
        decreases storage@.len() - i,
    {
        let slot = &storage[i];
        copy.push((slot.0.clone(), slot.1.clone()));
        assert(copy@ =~= storage@.take(i + 1));
        i += 1;
    }
    assert(storage@.take(storage@.len() as int) =~= storage@);
    copy
}

/// The state that the guest starts from: the accounts `pre`, text for text.
pub fn serializable_state(pre: &Vec<(String, Account)>) -> (state: SerializableState)
    ensures
        is_state_of(state, pre@),
        accounts_wf(pre@) ==> state.wf(),
{
    let mut accounts: Vec<(String, SerializableAccount)> = Vec::new();
    let mut i: usize = 0;
    while i < pre.len()
        invariant
            i <= pre@.len(),
            accounts@.len() == i,
            forall|j: int|
                0 <= j < i ==> {
                    let entry = #[trigger] accounts@[j];
                    &&& entry.0 == pre@[j].0
                    &&& entry.1.nonce == pre@[j].1.nonce
                    &&& entry.1.balance == pre@[j].1.balance
                    &&& entry.1.code == pre@[j].1.code
                    &&& entry.1.storage@ == pre@[j].1.storage@
                },
        decreases pre@.len() - i,
    {
        let account = &pre[i].1;
        accounts.push(
            (
                pre[i].0.clone(),
                SerializableAccount {
                    nonce: account.nonce.clone(),
                    balance: account.balance.clone(),
                    code: account.code.clone(),
                    storage: copy_storage(&account.storage),
                },
            ),
        );
        i += 1;
    }
    SerializableState { accounts }
}

/// What the guest is handed for `test_case`: its transaction, its block and
/// its accounts. A text of the transaction that stands for nothing comes
/// before one of the block.
pub fn prepare_guest_input(test_case: &TestCase) -> (r: Result<GuestInput, PrepareError>)
    ensures
        match tx_env_of(*test_case) {
            Err(failure) => r matches Err(PrepareError::Transaction(e)) && e@ == failure,
            Ok(tx) => match block_env_of(test_case.env) {
                Err(e) => r == Err::<GuestInput, PrepareError>(PrepareError::Block(e)),
                Ok(block) => {
                    &&& r matches Ok(input)
                    &&& input.tx_env@ == tx
                    &&& input.block_env@ == block
                    &&& is_state_of(input.state, test_case.pre@)
                    &&& test_case.wf() ==> input.state.wf()
                },
            },
        },
{
    let tx_env = match create_tx_env(test_case) {
        Ok(tx_env) => tx_env,
        Err(e) => {
            return Err(PrepareError::Transaction(e));
        },
    };
    let state = serializable_state(&test_case.pre);
    let block_env = match block_environment(&test_case.env) {
        Ok(block_env) => block_env,
        Err(e) => {
            return Err(PrepareError::Block(e));
        },
    };
    Ok(GuestInput { tx_env, block_env, state })
}

/// `i` is the position of the first unit that ended in a fatal error.
pub open spec fn first_fatal(units: Seq<UnitState>, i: int) -> bool {
    &&& 0 <= i < units.len()
    &&& units[i] is FatalError
    &&& forall|j: int| 0 <= j < i ==> !((#[trigger] units[j]) is FatalError)
}

/// How a run ended. `hardware_stored` says whether the hardware
/// information was stored, which comes before any unit; `units` holds the
/// state that each unit taken up was left in. A run fails on hardware
/// information that was not stored, else on the first unit that ended in a
/// fatal error. Units that crashed do not fail it.
pub fn run_profile(hardware_stored: Result<(), MetricsError>, units: &Vec<UnitState>) -> (r: Result<
    (),
    RunError,
>)
    ensures
        match hardware_stored {
            Err(e) => r == Err::<(), RunError>(RunError::Hardware(e)),
            Ok(_) => {
                &&& r is Ok <==> forall|i: int|
                    0 <= i < units@.len() ==> !((#[trigger] units@[i]) is FatalError)
                &&& r matches Err(e) ==> exists|i: int|
                    #[trigger] first_fatal(units@, i) && e == RunError::Unit(
                        units@[i]->FatalError_0,
                    )
            },
        },
{
    match hardware_stored {
        Err(e) => {
            return Err(RunError::Hardware(e));
        },
        Ok(_) => {},
    }
    let mut i: usize = 0;
    while i < units.len()
        invariant
            i <= units@.len(),
            hardware_stored is Ok,
            forall|j: int| 0 <= j < i ==> !((#[trigger] units@[j]) is FatalError),
        decreases units@.len() - i,
    {
        match &units[i] {
            UnitState::FatalError(e) => {
                assert(first_fatal(units@, i as int));
                return Err(RunError::Unit(e.clone()));
            },
            _ => {},
        }
        i += 1;
    }
    Ok(())
}

/// The unit to take up once the unit at `index`, of `total`, is in the state
/// `unit`: the same one while it is not at its end; then the next one,
/// unless there is none or the unit ended in a fatal error. A crash does not
/// end the batch.
pub fn next_unit(unit: &UnitState, index: usize, total: usize) -> (next: Option<usize>)
    requires
        index < total,
    ensures
        next == if !unit.is_final() {
            Some(index)
        } else if unit is FatalError || index + 1 == total {
            None
        } else {
            Some((index + 1) as usize)
        },
{
    if !unit.is_final() {
        return Some(index);
    }
    match unit {
        UnitState::FatalError(_) => None,
        _ => if index + 1 == total {
            None
        } else {
            Some(index + 1)
        },
    }
}

/// What the world outside answers to the requests of one unit. An answer
/// that is never asked for plays no part.
pub struct Answers {
    /// The answer to `Request::Prove`.
    pub proved: Result<ProvingMetrics, String>,
    /// The answer to `Request::Execute`.
    pub executed: Result<ExecutionMetrics, String>,
    /// The answer to `Request::Store`.
    pub stored: Result<(), String>,
}

/// The artifacts on disk: the record that each path holds.
pub type Artifacts = Map<Seq<char>, ProfileRun>;

/// One unit driven from `Pending` to its end: every request is answered
/// from `artifacts` and `answers`, and a record that was stored is on disk
/// afterwards. Gives the final state and the artifacts then on disk.
pub open spec fn drive_unit(
    run_config: RunConfig,
    unit: WorkUnit,
    artifacts: Artifacts,
    answers: Answers,
) -> (UnitState, Artifacts) {
    let action = run_config.action;
    let force = run_config.force_rerun;
    let path = artifact_path(run_config.output_folder@, unit.name@);
    let probed = next_state(
        UnitState::Pending,
        UnitEvent::Probed(artifacts.dom().contains(path)),
        action,
        force,
        unit,
    );
    let proved = if probed is Proving {
        next_state(probed, UnitEvent::Proved(answers.proved), action, force, unit)
    } else {
        probed
    };
    let executed = if proved is Executing {
        next_state(proved, UnitEvent::Executed(answers.executed), action, force, unit)
    } else {
        proved
    };
    match executed {
        UnitState::Storing(record) => (
            next_state(executed, UnitEvent::Stored(answers.stored), action, force, unit),
            if answers.stored is Ok {
                artifacts.insert(path, record)
            } else {
                artifacts
            },
        ),
        _ => (executed, artifacts),
    }
}

/// The batch has come to a unit that ended in a fatal error.
pub open spec fn halted(states: Seq<UnitState>) -> bool {
    states.len() > 0 && states.last() is FatalError
}

/// The first `k` units of a batch driven in order, each as `drive_unit`
/// does, up to the first that ends in a fatal error. Gives the final state
/// of each unit that was taken up and the artifacts then on disk.
pub open spec fn drive_batch(
    run_config: RunConfig,
    units: Seq<WorkUnit>,
    artifacts: Artifacts,
    answers: spec_fn(int) -> Answers,
    k: int,
) -> (Seq<UnitState>, Artifacts)
    decreases k,
{
    if k <= 0 {
        (Seq::empty(), artifacts)
    } else {
        let (states, on_disk) = drive_batch(run_config, units, artifacts, answers, k - 1);
        if halted(states) {
            (states, on_disk)
        } else {
            let (state, then_on_disk) = drive_unit(run_config, units[k - 1], on_disk, answers(k - 1));
            (states.push(state), then_on_disk)
        }
    }
}

/// A unit that is driven comes to an end, and it leaves on disk what was
/// there, and its own record where it stored one.
pub proof fn lemma_drive_unit(
    run_config: RunConfig,
    unit: WorkUnit,
    artifacts: Artifacts,
    answers: Answers,
)
    ensures
        ({
            let (state, on_disk) = drive_unit(run_config, unit, artifacts, answers);
            let path = artifact_path(run_config.output_folder@, unit.name@);
            &&& state.is_final()
            &&& artifacts.dom().subset_of(on_disk.dom())
            &&& state is Skipped ==> on_disk == artifacts
            &&& state is Skipped <==> cache_hit(run_config.force_rerun, artifacts.dom().contains(path))
            &&& state is Succeeded || state is Crashed ==> on_disk.dom().contains(path)
            &&& state is Crashed ==> on_disk[path].crashed()
            &&& state is Succeeded ==> !on_disk[path].crashed()
        }),
{
}

/// Only a fatal error ends a batch: every unit before the first fatal error
/// is taken up and comes to its end, be it skipped, succeeded or crashed.
pub proof fn lemma_only_fatal_ends_batch(
    run_config: RunConfig,
    units: Seq<WorkUnit>,
    artifacts: Artifacts,
    answers: spec_fn(int) -> Answers,
    k: int,
)
    requires
        0 <= k <= units.len(),
    ensures
        ({
            let states = drive_batch(run_config, units, artifacts, answers, k).0;
            &&& states.len() <= k
            &&& states.len() < k ==> halted(states)
            &&& forall|i: int| 0 <= i < states.len() ==> (#[trigger] states[i]).is_final()
            &&& forall|i: int| 0 <= i < states.len() - 1 ==> !((#[trigger] states[i]) is FatalError)
        }),
    decreases k,
{
    if k > 0 {
        lemma_only_fatal_ends_batch(run_config, units, artifacts, answers, k - 1);
        let (states, on_disk) = drive_batch(run_config, units, artifacts, answers, k - 1);
        if !halted(states) {
            lemma_drive_unit(run_config, units[k - 1], on_disk, answers(k - 1));
        }
    }
}

/// An abort inside the guest is isolated: the unit's record is stored with
/// the crash in it, the unit ends in `Crashed`, and the batch goes on to the
/// next unit.
pub proof fn lemma_crash_is_isolated(
    run_config: RunConfig,
    units: Seq<WorkUnit>,
    artifacts: Artifacts,
    answers: spec_fn(int) -> Answers,
    k: int,
)
    requires
        0 <= k < units.len(),
        !halted(drive_batch(run_config, units, artifacts, answers, k).0),
        !cache_hit(
            run_config.force_rerun,
            drive_batch(run_config, units, artifacts, answers, k).1.dom().contains(
                artifact_path(run_config.output_folder@, units[k].name@),
            ),
        ),
        answers(k).stored is Ok,
        !(run_config.action is Execute) ==> answers(k).proved is Ok,
        !(run_config.action is Prove) ==> answers(k).executed is Ok,
        (!(run_config.action is Execute) && answers(k).proved matches Ok(
            ProvingMetrics::Crashed(_),
        )) || (!(run_config.action is Prove) && answers(k).executed matches Ok(
            ExecutionMetrics::Crashed(_),
        )),
    ensures
        ({
            let (states, on_disk) = drive_batch(run_config, units, artifacts, answers, k + 1);
            let path = artifact_path(run_config.output_folder@, units[k].name@);
            &&& states.len() == k + 1
            &&& states[k] is Crashed
            &&& !halted(states)
            &&& on_disk.dom().contains(path)
            &&& on_disk[path].crashed()
        }),
{
    lemma_only_fatal_ends_batch(run_config, units, artifacts, answers, k);
}

/// A batch that met no fatal error has the artifact of each of its units on
/// disk.
proof fn lemma_finished_batch_is_on_disk(
    run_config: RunConfig,
    units: Seq<WorkUnit>,
    artifacts: Artifacts,
    answers: spec_fn(int) -> Answers,
    k: int,
)
    requires
        0 <= k <= units.len(),
        !halted(drive_batch(run_config, units, artifacts, answers, k).0),
    ensures
        ({
            let (states, on_disk) = drive_batch(run_config, units, artifacts, answers, k);
            &&& states.len() == k
            &&& artifacts.dom().subset_of(on_disk.dom())
            &&& forall|i: int|
                0 <= i < k ==> on_disk.dom().contains(
                    #[trigger] artifact_path(run_config.output_folder@, units[i].name@),
                )
        }),
    decreases k,
{
    if k > 0 {
        lemma_only_fatal_ends_batch(run_config, units, artifacts, answers, k);
        lemma_only_fatal_ends_batch(run_config, units, artifacts, answers, k - 1);
        let (before, on_disk) = drive_batch(run_config, units, artifacts, answers, k - 1);
        assert(!halted(before));
        lemma_finished_batch_is_on_disk(run_config, units, artifacts, answers, k - 1);
        lemma_drive_unit(run_config, units[k - 1], on_disk, answers(k - 1));
    }
}

/// A batch whose artifacts are all on disk, run without forcing reruns,
/// skips every unit and leaves the disk as it is, whatever the world would
/// answer.
proof fn lemma_batch_on_disk_is_skipped(
    run_config: RunConfig,
    units: Seq<WorkUnit>,
    artifacts: Artifacts,
    answers: spec_fn(int) -> Answers,
    k: int,
)
    requires
        0 <= k <= units.len(),
        !run_config.force_rerun,
        forall|i: int|
            0 <= i < k ==> artifacts.dom().contains(
                #[trigger] artifact_path(run_config.output_folder@, units[i].name@),
            ),
    ensures
        ({
            let (states, on_disk) = drive_batch(run_config, units, artifacts, answers, k);
            &&& states.len() == k
            &&& forall|i: int| 0 <= i < k ==> (#[trigger] states[i]) is Skipped
            &&& on_disk == artifacts
        }),
    decreases k,
{
    if k > 0 {
        lemma_batch_on_disk_is_skipped(run_config, units, artifacts, answers, k - 1);
        assert(artifacts.dom().contains(artifact_path(run_config.output_folder@, units[k - 1].name@)));
        lemma_drive_unit(run_config, units[k - 1], artifacts, answers(k - 1));
    }
}

/// Caching is idempotent. Of two runs of the same batch under the same
/// configuration, without forced reruns, the second one skips every unit
/// if the first one met no fatal error: it computes nothing and leaves
/// every artifact as the first run left it, whatever the world would
/// answer the second time.
pub proof fn lemma_second_run_skips_all(
    run_config: RunConfig,
    units: Seq<WorkUnit>,
    artifacts: Artifacts,
    first: spec_fn(int) -> Answers,
    second: spec_fn(int) -> Answers,
)
    requires
        !run_config.force_rerun,
        !halted(drive_batch(run_config, units, artifacts, first, units.len() as int).0),
    ensures
        ({
            let n = units.len() as int;
            let after_first = drive_batch(run_config, units, artifacts, first, n).1;
            let (states, after_second) = drive_batch(run_config, units, after_first, second, n);
            &&& states.len() == n
            &&& forall|i: int| 0 <= i < n ==> (#[trigger] states[i]) is Skipped
            &&& after_second == after_first
        }),
{
    let n = units.len() as int;
    lemma_finished_batch_is_on_disk(run_config, units, artifacts, first, n);
    let after_first = drive_batch(run_config, units, artifacts, first, n).1;
    lemma_batch_on_disk_is_skipped(run_config, units, after_first, second, n);
}

} // verus!
