//! What the command line of the benchmarker selects, and what follows from
//! the selection.

use vstd::prelude::*;
use crate::runner::{Action, RunConfig};
use crate::text::{joined, same_text};

verus! {

/// Subcommands for different guest programs.
#[derive(Debug, Clone, PartialEq, Eq)]
pub enum GuestProgramCommand {
    /// Ethereum Stateless Executor.
    StatelessExecutor {
        /// Input folder for benchmark fixtures.
        input_folder: String,
        /// Input file for a single benchmark fixture.
        input_file: Option<String>,
        /// Execution client to benchmark.
        execution_client: ExecutionClient,
    },
    /// Ethereum Stateless Validator.
    StatelessValidator {
        /// Input folder for benchmark fixtures.
        input_folder: String,
        /// Input file for a single benchmark fixture.
        input_file: Option<String>,
        /// Execution client to benchmark.
        execution_client: ExecutionClient,
    },
    /// Empty program.
    EmptyProgram,
    /// Block encoding length.
    BlockEncodingLength {
        /// Input folder for benchmark fixtures.
        input_folder: String,
        /// Number of times to loop the benchmark.
        loop_count: u16,
        /// Encoding format.
        format: BlockEncodingFormat,
    },
}

/// Encoding formats for block encoding length program.
#[derive(Debug, Clone, Copy, PartialEq, Eq)]
pub enum BlockEncodingFormat {
    /// RLP encoding.
    Rlp,
    /// SSZ encoding.
    Ssz,
}

/// Execution clients for the stateless programs.
#[derive(Debug, Clone, Copy, PartialEq, Eq)]
pub enum ExecutionClient {
    /// Reth execution client.
    Reth,
    /// Ethrex execution client.
    Ethrex,
}

/// Prover resource types.
#[derive(Debug, Clone, Copy, PartialEq, Eq)]
pub enum Resource {
    /// CPU resource.
    Cpu,
    /// GPU resource.
    Gpu,
    /// Multi-GPU cluster.
    Cluster,
}

/// Benchmark actions.
#[derive(Debug, Clone, Copy, PartialEq, Eq)]
pub enum BenchmarkAction {
    /// Only do zkVM execution.
    Execute,
    /// Create a zkVM proof.
    Prove,
}

/// How to reach a proving cluster.
#[derive(Debug, Clone, PartialEq, Eq)]
pub struct ClusterProverConfig {
    /// Address of the cluster.
    pub endpoint: String,
    /// Credential for the cluster.
    pub api_key: Option<String>,
    /// Number of GPUs to prove with.
    pub num_gpus: Option<u32>,
    /// Address of the artifact store.
    pub redis_url: Option<String>,
}

/// The resource that a backend proves with.
#[derive(Debug, Clone, PartialEq, Eq)]
pub enum ProverResourceType {
    /// The local CPU.
    Cpu,
    /// The local GPU.
    Gpu,
    /// A remote cluster.
    Cluster(ClusterProverConfig),
}

/// Where the fixtures of a run come from.
#[derive(Debug, Clone, PartialEq, Eq)]
pub enum InputSource {
    /// Every fixture in a folder.
    Folder(String),
    /// The fixture in one file.
    File(String),
}

/// What the command line got wrong.
#[derive(Debug, Clone, PartialEq, Eq)]
pub enum CliError {
    /// No guest program has this name.
    UnknownGuestProgram(String),
    /// Both an input folder and an input file were named.
    ConflictingInputs,
    /// No action has this name.
    InvalidAction(String),
}

/// Command line interface for the zkVM benchmarker.
#[derive(Debug, Clone, PartialEq, Eq)]
pub struct Cli {
    /// Resource type for proving.
    pub resource: Resource,
    /// Action to perform.
    pub action: BenchmarkAction,
    /// zkVM instances to benchmark, by name.
    pub zkvms: Vec<String>,
    /// Rerun the benchmarks even if the output folder already contains results.
    pub force_rerun: bool,
    /// Guest program to benchmark.
    pub guest_program: GuestProgramCommand,
    /// Output folder for benchmark results.
    pub output_folder: String,
    /// Output folder for dumping input files used in benchmarks.
    pub dump_inputs: Option<String>,
    /// Cluster endpoint URL.
    pub cluster_endpoint: Option<String>,
    /// Cluster artifact store URL.
    pub cluster_redis_url: Option<String>,
    /// Number of GPUs to use for cluster proving.
    pub cluster_num_gpus: Option<u32>,
}

/// One target of a run: a backend, the resource it proves with, and the
/// guest program it runs.
#[derive(Debug, Clone, PartialEq, Eq)]
pub struct BenchmarkTarget {
    /// Name of the backend.
    pub zkvm: String,
    /// The resource that the backend proves with.
    pub resource: ProverResourceType,
    /// Path of the guest program below the guests' directory.
    pub guest_path: String,
    /// Whether the guest is built with source patches applied.
    pub apply_patches: bool,
}

/// The folder that fixtures are read from where the command line names
/// neither a folder nor a file.
pub const DEFAULT_INPUT_FOLDER: &'static str = "zkevm-fixtures-input";

/// The directory name of an execution client.
pub open spec fn client_dir(client: ExecutionClient) -> Seq<char> {
    match client {
        ExecutionClient::Reth => "reth"@,
        ExecutionClient::Ethrex => "ethrex"@,
    }
}

/// The path of a guest program below the guests' directory: the stateless
/// programs lie in a directory of their own for each execution client, the
/// other programs in one directory each. `None` for a name that is no guest
/// program.
pub open spec fn guest_path(client: ExecutionClient, guest_program: Seq<char>) -> Option<Seq<char>> {
    if guest_program == "stateless-validator"@ {
        Some("stateless-validator/"@ + client_dir(client))
    } else if guest_program == "stateless-executor"@ {
        Some("stateless-executor/"@ + client_dir(client))
    } else if guest_program == "empty-program"@ {
        Some("empty-program"@)
    } else if guest_program == "block-encoding-length"@ {
        Some("block-encoding-length"@)
    } else {
        None
    }
}

impl ExecutionClient {
    /// Directory name of the client.
    pub fn dir_name(&self) -> (name: &'static str)
        ensures
            name@ == client_dir(*self),
    {
        match self {
            ExecutionClient::Reth => "reth",
            ExecutionClient::Ethrex => "ethrex",
        }
    }

    /// Get the guest relative path for the execution client.
    pub fn guest_rel_path(&self, guest_program: &str) -> (r: Result<String, CliError>)
        ensures
            match guest_path(*self, guest_program@) {
                Some(path) => r matches Ok(p) && p@ == path,
                None => r matches Err(CliError::UnknownGuestProgram(name)) && name@
                    == guest_program@,
            },
    {
        if same_text(guest_program, "stateless-validator") {
            Ok(joined("stateless-validator/", self.dir_name()))
        } else if same_text(guest_program, "stateless-executor") {
            Ok(joined("stateless-executor/", self.dir_name()))
        } else if same_text(guest_program, "empty-program") {
            Ok(String::from_str("empty-program"))
        } else if same_text(guest_program, "block-encoding-length") {
            Ok(String::from_str("block-encoding-length"))
        } else {
            Err(CliError::UnknownGuestProgram(String::from_str(guest_program)))
        }
    }

    /// Whether the guest of this client is built with source patches applied.
    pub fn apply_patches(&self) -> (apply: bool)
        ensures
            apply == (*self is Reth),
    {
        match self {
            ExecutionClient::Reth => true,
            ExecutionClient::Ethrex => false,
        }
    }
}

/// `resource` is the resource that the command line `cli` selects. A
/// cluster without an endpoint gets the empty endpoint; it never gets a
/// credential.
pub open spec fn is_resource_of(resource: ProverResourceType, cli: Cli) -> bool {
    match cli.resource {
        Resource::Cpu => resource == ProverResourceType::Cpu,
        Resource::Gpu => resource == ProverResourceType::Gpu,
        Resource::Cluster => {
            &&& resource matches ProverResourceType::Cluster(config)
            &&& match cli.cluster_endpoint {
                Some(endpoint) => config.endpoint == endpoint,
                None => config.endpoint@.len() == 0,
            }
            &&& config.api_key is None
            &&& config.num_gpus == cli.cluster_num_gpus
            &&& config.redis_url == cli.cluster_redis_url
        },
    }
}

/// The name of the guest program that `command` selects.
pub open spec fn program_of(command: GuestProgramCommand) -> Seq<char> {
    match command {
        GuestProgramCommand::StatelessExecutor { .. } => "stateless-executor"@,
        GuestProgramCommand::StatelessValidator { .. } => "stateless-validator"@,
        GuestProgramCommand::EmptyProgram => "empty-program"@,
        GuestProgramCommand::BlockEncodingLength { .. } => "block-encoding-length"@,
    }
}

/// The path of the guest program that `command` selects, below the guests'
/// directory.
pub open spec fn guest_dir_of(command: GuestProgramCommand) -> Seq<char> {
    match command {
        GuestProgramCommand::StatelessExecutor { execution_client, .. } => "stateless-executor/"@
            + client_dir(execution_client),
        GuestProgramCommand::StatelessValidator { execution_client, .. } => "stateless-validator/"@
            + client_dir(execution_client),
        GuestProgramCommand::EmptyProgram => "empty-program"@,
        GuestProgramCommand::BlockEncodingLength { .. } => "block-encoding-length"@,
    }
}

/// Whether the guest program that `command` selects is built with source
/// patches applied: always, but for the stateless programs of a client
/// other than Reth.
pub open spec fn patched(command: GuestProgramCommand) -> bool {
    match command {
        GuestProgramCommand::StatelessExecutor { execution_client, .. } => execution_client is Reth,
        GuestProgramCommand::StatelessValidator { execution_client, .. } => execution_client is Reth,
        _ => true,
    }
}

/// `target` is the target that the command line `cli` selects for the
/// backend called `zkvm`.
pub open spec fn is_target_of(target: BenchmarkTarget, cli: Cli, zkvm: String) -> bool {
    &&& target.zkvm == zkvm
    &&& is_resource_of(target.resource, cli)
    &&& target.guest_path@ == guest_dir_of(cli.guest_program)
    &&& target.apply_patches == patched(cli.guest_program)
}

/// The path that `guest_rel_path` gives for the program of a command is the
/// path of the program that the command selects, whatever the client that
/// is asked for a program without clients.
pub proof fn lemma_guest_dir_is_guest_path(command: GuestProgramCommand, client: ExecutionClient)
    requires
        command matches GuestProgramCommand::StatelessExecutor { execution_client, .. }
            ==> execution_client == client,
        command matches GuestProgramCommand::StatelessValidator { execution_client, .. }
            ==> execution_client == client,
    ensures
        guest_path(client, program_of(command)) == Some(guest_dir_of(command)),
{
    reveal_strlit("stateless-validator");
    reveal_strlit("stateless-executor");
    reveal_strlit("empty-program");
    reveal_strlit("block-encoding-length");
    assert("stateless-executor"@[10] != "stateless-validator"@[10]);
}

impl ProverResourceType {
    /// Whether the units of a batch may be taken up side by side on this
    /// resource: only on the CPU. A GPU and a cluster take one unit at a
    /// time.
    pub fn parallel_dispatch(&self) -> (parallel: bool)
        ensures
            parallel == (*self is Cpu),
    {
        match self {
            ProverResourceType::Cpu => true,
            _ => false,
        }
    }
}

impl GuestProgramCommand {
    /// The name of the guest program.
    pub fn program_name(&self) -> (name: &'static str)
        ensures
            name@ == program_of(*self),
    {
        match self {
            GuestProgramCommand::StatelessExecutor { .. } => "stateless-executor",
            GuestProgramCommand::StatelessValidator { .. } => "stateless-validator",
            GuestProgramCommand::EmptyProgram => "empty-program",
            GuestProgramCommand::BlockEncodingLength { .. } => "block-encoding-length",
        }
    }

    /// The path of the guest program below the guests' directory.
    pub fn guest_dir(&self) -> (path: String)
        ensures
            path@ == guest_dir_of(*self),
    {
        match self {
            GuestProgramCommand::StatelessExecutor { execution_client, .. } => joined(
                "stateless-executor/",
                execution_client.dir_name(),
            ),
            GuestProgramCommand::StatelessValidator { execution_client, .. } => joined(
                "stateless-validator/",
                execution_client.dir_name(),
            ),
            GuestProgramCommand::EmptyProgram => String::from_str("empty-program"),
            GuestProgramCommand::BlockEncodingLength { .. } => String::from_str(
                "block-encoding-length",
            ),
        }
    }

    /// Whether the guest program is built with source patches applied.
    pub fn apply_patches(&self) -> (apply: bool)
        ensures
            apply == patched(*self),
    {
        match self {
            GuestProgramCommand::StatelessExecutor { execution_client, .. } => {
                execution_client.apply_patches()
            },
            GuestProgramCommand::StatelessValidator { execution_client, .. } => {
                execution_client.apply_patches()
            },
            _ => true,
        }
    }
}

impl Cli {
    /// The targets of the run: one for each backend that the command line
    /// names, in their order, all with the resource and the guest program
    /// that it selects.
    pub fn targets(&self) -> (targets: Vec<BenchmarkTarget>)
        ensures
            targets@.len() == self.zkvms@.len(),
            forall|i: int|
                0 <= i < targets@.len() ==> is_target_of(
                    #[trigger] targets@[i],
                    *self,
                    self.zkvms@[i],
                ),
    {
        let mut targets: Vec<BenchmarkTarget> = Vec::new();
        let mut i: usize = 0;
        while i < self.zkvms.len()
            invariant
                i <= self.zkvms@.len(),
                targets@.len() == i,
                forall|k: int|
                    0 <= k < i ==> is_target_of(#[trigger] targets@[k], *self, self.zkvms@[k]),
            decreases self.zkvms@.len() - i,
        {
            targets.push(
                BenchmarkTarget {
                    zkvm: self.zkvms[i].clone(),
                    resource: self.prover_resource_type(),
                    guest_path: self.guest_program.guest_dir(),
                    apply_patches: self.guest_program.apply_patches(),
                },
            );
            i += 1;
        }
        targets
    }

    /// Convert CLI resource options to ProverResourceType. A cluster without
    /// an endpoint gets the empty endpoint; it never gets a credential.
    pub fn prover_resource_type(&self) -> (resource: ProverResourceType)
        ensures
            is_resource_of(resource, *self),
    {
        match self.resource {
            Resource::Cpu => ProverResourceType::Cpu,
            Resource::Gpu => ProverResourceType::Gpu,
            Resource::Cluster => ProverResourceType::Cluster(
                ClusterProverConfig {
                    endpoint: match &self.cluster_endpoint {
                        Some(endpoint) => endpoint.clone(),
                        None => String::new(),
                    },
                    api_key: None,
                    num_gpus: self.cluster_num_gpus,
                    redis_url: match &self.cluster_redis_url {
                        Some(url) => Some(url.clone()),
                        None => None,
                    },
                },
            ),
        }
    }
}

impl BenchmarkAction {
    /// The action of a run that this benchmark action stands for.
    pub open spec fn spec_action(self) -> Action {
        match self {
            BenchmarkAction::Execute => Action::Execute,
            BenchmarkAction::Prove => Action::Prove,
        }
    }
}

impl From<BenchmarkAction> for Action {
    fn from(action: BenchmarkAction) -> (r: Action) {
        match action {
            BenchmarkAction::Execute => Action::Execute,
            BenchmarkAction::Prove => Action::Prove,
        }
    }
}

impl vstd::std_specs::convert::FromSpecImpl<BenchmarkAction> for Action {
    open spec fn obeys_from_spec() -> bool {
        true
    }

    open spec fn from_spec(action: BenchmarkAction) -> Action {
        action.spec_action()
    }
}

/// Validates input arguments and creates the appropriate InputSource: the
/// folder or the file that was named, the default folder where neither was,
/// and an error where both were.
pub fn validate_and_create_input_source(
    input_folder: Option<&String>,
    input_file: Option<&String>,
) -> (r: Result<InputSource, CliError>)
    ensures
        match (input_folder, input_file) {
            (Some(folder), None) => r == Ok::<InputSource, CliError>(InputSource::Folder(*folder)),
            (None, Some(file)) => r == Ok::<InputSource, CliError>(InputSource::File(*file)),
            (Some(_), Some(_)) => r == Err::<InputSource, CliError>(CliError::ConflictingInputs),
            (None, None) => r matches Ok(InputSource::Folder(folder)) && folder@
                == DEFAULT_INPUT_FOLDER@,
        },
{
    match (input_folder, input_file) {
        (Some(folder), None) => Ok(InputSource::Folder(folder.clone())),
        (None, Some(file)) => Ok(InputSource::File(file.clone())),
        (Some(_), Some(_)) => Err(CliError::ConflictingInputs),
        (None, None) => Ok(InputSource::Folder(String::from_str(DEFAULT_INPUT_FOLDER))),
    }
}

/// Validates input arguments and creates the appropriate InputSource for
/// the validator, by the rules of `validate_and_create_input_source`.
pub fn validate_and_create_validator_input_source(
    input_folder: Option<&String>,
    input_file: Option<&String>,
) -> (r: Result<InputSource, CliError>)
    ensures
        match (input_folder, input_file) {
            (Some(folder), None) => r == Ok::<InputSource, CliError>(InputSource::Folder(*folder)),
            (None, Some(file)) => r == Ok::<InputSource, CliError>(InputSource::File(*file)),
            (Some(_), Some(_)) => r == Err::<InputSource, CliError>(CliError::ConflictingInputs),
            (None, None) => r matches Ok(InputSource::Folder(folder)) && folder@
                == DEFAULT_INPUT_FOLDER@,
        },
{
    validate_and_create_input_source(input_folder, input_file)
}

/// The action that the word `action` names: `execute`, `prove` or `full`.
pub open spec fn action_named(action: Seq<char>) -> Option<Action> {
    if action == "execute"@ {
        Some(Action::Execute)
    } else if action == "prove"@ {
        Some(Action::Prove)
    } else if action == "full"@ {
        Some(Action::Full)
    } else {
        None
    }
}

/// The configuration of a run from what the command line of the profile
/// runner names. The action is one of `execute`, `prove` and `full`.
pub fn build_run_config(output_folder: String, force_rerun: bool, action: &str) -> (r: Result<
    RunConfig,
    CliError,
>)
    ensures
        match action_named(action@) {
            Some(named) => r matches Ok(config) && config.output_folder == output_folder
                && config.action == named && config.force_rerun == force_rerun,
            None => r matches Err(CliError::InvalidAction(word)) && word@ == action@,
        },
{
    let action = if same_text(action, "execute") {
        Action::Execute
    } else if same_text(action, "prove") {
        Action::Prove
    } else if same_text(action, "full") {
        Action::Full
    } else {
        return Err(CliError::InvalidAction(String::from_str(action)));
    };
    Ok(RunConfig { output_folder, action, force_rerun })
}

} // verus!
