//! Fixtures, the unit handed to a proving backend, and what can go wrong
//! while they are made.

use vstd::prelude::*;
use crate::primitives::B256;
use crate::text::joined;

verus! {

/// What block execution needs and nothing else: the part that the library
/// reads, and the backend's own payload carried along untouched.
#[derive(Debug, Clone, PartialEq, Eq)]
pub struct StatelessInput<P> {
    /// Number of the block.
    pub block_number: u64,
    /// Hash of the block's parent.
    pub parent_hash: B256,
    /// Gas that the block used.
    pub gas_used: u64,
    /// Hash of each transaction of the block, in block order.
    pub transaction_hashes: Vec<B256>,
    /// Block, witness and chain configuration as the backend wants them.
    pub payload: P,
}

/// A named, self-contained input for one backend run, with the outcome that
/// the reference execution expects of it.
#[derive(Debug, Clone, PartialEq, Eq)]
pub struct StatelessValidationFixture<P> {
    /// Name of the fixture, unique within a run.
    pub name: String,
    /// Input of the run.
    pub stateless_input: StatelessInput<P>,
    /// Whether the block is expected to execute without an exception.
    pub success: bool,
}

/// Errors of fixture generation. All of them end the call that met them.
#[derive(Debug, Clone, PartialEq, Eq)]
pub enum WGError {
    /// The suite directory that was named does not exist.
    EestPathNotFound(String),
    /// The suite path that was named is not a directory.
    EestPathNotDirectory(String),
    /// The operating system refused an operation on a path or a process.
    Io(String),
    /// The script that fetches the suite exited with a failure; holds what
    /// it wrote to its error stream.
    DownloadScriptFailed(String),
    /// The suite directory holds no blockchain tests.
    TestSuitePathNotFound(String),
    /// A suite file could not be read or parsed.
    TestCaseLoadError { path: String, source: String },
    /// The reference execution of the case called `name` raised an error.
    TestCaseExecutionError { name: String, source: String },
    /// The reference execution of a case produced no block.
    NoTargetBlock(String),
    /// A fixture could not be serialised.
    FixtureSerializationError { name: String, source: String },
    /// A fixture file could not be written.
    FixtureWriteError { path: String, source: String },
    /// Any other failure.
    Other(String),
}

/// What the driver saw when it serialised a value and wrote it to a file.
#[derive(Debug, Clone, PartialEq, Eq)]
pub enum WriteOutcome {
    /// The file was written.
    Written,
    /// The value could not be serialised; nothing was written.
    SerializationFailed(String),
    /// The file could not be written.
    WriteFailed(String),
}

/// Name of the file that holds the fixture called `name`.
pub open spec fn fixture_file(name: Seq<char>) -> Seq<char> {
    name + ".json"@
}

/// Name of the file that holds the trace of the fixture called `name`.
pub open spec fn trace_file(name: Seq<char>) -> Seq<char> {
    name + ".trace.json"@
}

/// The path of the entry `file` in the directory `dir`.
pub open spec fn path_in(dir: Seq<char>, file: Seq<char>) -> Seq<char> {
    dir + "/"@ + file
}

/// Name of the file that holds the fixture called `name`: `<name>.json`.
pub fn fixture_file_name(name: &str) -> (file: String)
    ensures
        file@ == fixture_file(name@),
{
    joined(name, ".json")
}

/// Name of the file that holds the trace of the fixture called `name`:
/// `<name>.trace.json`.
pub fn trace_file_name(name: &str) -> (file: String)
    ensures
        file@ == trace_file(name@),
{
    joined(name, ".trace.json")
}

/// The path of the entry `file` in the directory `dir`: `<dir>/<file>`.
pub fn join_path(dir: &str, file: &str) -> (path: String)
    ensures
        path@ == path_in(dir@, file@),
{
    let with_separator = joined(dir, "/");
    joined(with_separator.as_str(), file)
}

} // verus!
