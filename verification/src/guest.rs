//! The stateless executor as a guest program: what goes into it and what
//! comes out of it.

use vstd::prelude::*;
use crate::fixture::{StatelessInput, StatelessValidationFixture};
use crate::primitives::B256;
use crate::runner::ExecutionOutput;
use crate::text::joined;

verus! {

/// An uncompressed public key.
pub type UncompressedPublicKey = [u8; 65];

/// The public inputs are the hash of the block, the hash of its parent, and
/// whether the block was executed with success.
pub type RethStatelessExecutorOutput = (B256, B256, bool);

/// Input for the stateless executor guest program.
#[derive(Debug, Clone, PartialEq, Eq)]
pub struct RethStatelessExecutorInput<P> {
    /// The stateless input for the stateless execution function.
    pub stateless_input: StatelessInput<P>,
    /// The recovered signers for the transactions in the block.
    pub public_keys: Vec<UncompressedPublicKey>,
}

/// The stateless executor guest.
#[derive(Debug, Clone, Copy, PartialEq, Eq)]
pub struct RethStatelessExecutorGuest;

/// What the benchmark keeps of a block beside its input.
#[derive(Debug, Clone, Copy, PartialEq, Eq)]
pub struct BlockMetadata {
    /// Gas that the block used.
    pub block_used_gas: u64,
}

/// The unit that a backend runs the guest on: the input, and the output
/// that the guest is expected to give.
#[derive(Debug, PartialEq, Eq)]
pub struct GuestFixture<P> {
    /// Name of the fixture.
    pub name: String,
    /// Input of the guest.
    pub input: RethStatelessExecutorInput<P>,
    /// What the benchmark keeps of the block.
    pub metadata: BlockMetadata,
    /// The output expected of the guest.
    pub output: RethStatelessExecutorOutput,
}

/// A fixture with what was computed of its block outside: the hash of the
/// block, and the signers of its transactions or why they could not be
/// recovered.
#[derive(Debug, PartialEq, Eq)]
pub struct PreparedFixture<P> {
    /// The fixture.
    pub fixture: StatelessValidationFixture<P>,
    /// Hash of the fixture's block.
    pub block_hash: B256,
    /// Signers of the transactions of the block, in block order.
    pub signers: Result<Vec<UncompressedPublicKey>, String>,
}

/// The ends of a scope whose cycles a backend counts.
#[derive(Debug, Clone, Copy, PartialEq, Eq)]
pub enum ScopeMarker {
    /// The scope begins.
    Start,
    /// The scope ends.
    End,
}

/// What a transaction gave that the EVM executed.
#[derive(Debug, Clone, PartialEq, Eq)]
pub struct Transacted {
    /// Gas that the transaction used.
    pub gas_used: u64,
    /// Output data of the transaction.
    pub output: Option<Vec<u8>>,
}

/// What a cycle report reads before the name of a scope that begins.
pub const SCOPE_START_PREFIX: &'static str = "cycle-tracker-report-start: ";

/// What a cycle report reads before the name of a scope that ends.
pub const SCOPE_END_PREFIX: &'static str = "cycle-tracker-report-end: ";

/// The line that tells the backend's cycle tracker that the scope called
/// `message` begins or ends.
pub fn cycle_scope(scope: ScopeMarker, message: &str) -> (line: String)
    ensures
        line@ == match scope {
            ScopeMarker::Start => SCOPE_START_PREFIX@,
            ScopeMarker::End => SCOPE_END_PREFIX@,
        } + message@,
{
    match scope {
        ScopeMarker::Start => joined(SCOPE_START_PREFIX, message),
        ScopeMarker::End => joined(SCOPE_END_PREFIX, message),
    }
}

/// What the guest reports of a transaction: its gas and output where the
/// EVM executed it, the error's text where it did not, and the cycles
/// counted either way.
pub fn guest_report(result: Result<Transacted, String>, cycles_used: Option<u64>) -> (report:
    ExecutionOutput)
    ensures
        report == match result {
            Ok(transacted) => ExecutionOutput {
                success: true,
                gas_used: transacted.gas_used,
                output: transacted.output,
                error: None,
                cycles_used,
            },
            Err(e) => ExecutionOutput {
                success: false,
                gas_used: 0,
                output: None,
                error: Some(e),
                cycles_used,
            },
        },
{
    match result {
        Ok(transacted) => ExecutionOutput {
            success: true,
            gas_used: transacted.gas_used,
            output: transacted.output,
            error: None,
            cycles_used,
        },
        Err(e) => ExecutionOutput {
            success: false,
            gas_used: 0,
            output: None,
            error: Some(e),
            cycles_used,
        },
    }
}

impl RethStatelessExecutorGuest {
    /// The output of the guest. `executed` is what the stateless execution
    /// gave: the hash of the block it executed, or, where it failed, the
    /// hash of the block's header as it came in. A failed execution is an
    /// output, not an error.
    pub fn compute(executed: Result<B256, B256>, parent_hash: B256) -> (output:
        RethStatelessExecutorOutput)
        ensures
            output == match executed {
                Ok(block_hash) => (block_hash, parent_hash, true),
                Err(header_hash) => (header_hash, parent_hash, false),
            },
    {
        match executed {
            Ok(block_hash) => (block_hash, parent_hash, true),
            Err(header_hash) => (header_hash, parent_hash, false),
        }
    }
}

/// `guest` is the guest fixture of `prepared`: the same name and input with
/// the signers recovered, the gas of the block, and as output the block's
/// hash, its parent's hash and the success that the fixture expects.
pub open spec fn is_guest_fixture_of<P>(guest: GuestFixture<P>, prepared: PreparedFixture<P>) -> bool {
    &&& prepared.signers matches Ok(signers)
    &&& guest.name == prepared.fixture.name
    &&& guest.input.stateless_input == prepared.fixture.stateless_input
    &&& guest.input.public_keys == signers
    &&& guest.metadata.block_used_gas == prepared.fixture.stateless_input.gas_used
    &&& guest.output == (
        prepared.block_hash,
        prepared.fixture.stateless_input.parent_hash,
        prepared.fixture.success,
    )
}

/// `i` is the position of the first fixture whose signers could not be
/// recovered.
pub open spec fn first_without_signers<P>(fixtures: Seq<PreparedFixture<P>>, i: int) -> bool {
    &&& 0 <= i < fixtures.len()
    &&& fixtures[i].signers is Err
    &&& forall|j: int| 0 <= j < i ==> (#[trigger] fixtures[j]).signers is Ok
}

/// The input of the guest for full execution: the stateless input with the
/// signers of its transactions, or why they could not be recovered.
pub fn get_input_full_execution<P>(
    stateless_input: StatelessInput<P>,
    signers: Result<Vec<UncompressedPublicKey>, String>,
) -> (r: Result<RethStatelessExecutorInput<P>, String>)
    ensures
        r == match signers {
            Ok(public_keys) => Ok(RethStatelessExecutorInput { stateless_input, public_keys }),
            Err(e) => Err(e),
        },
{
    match signers {
        Ok(public_keys) => Ok(RethStatelessExecutorInput { stateless_input, public_keys }),
        Err(e) => Err(e),
    }
}

/// Prepares the inputs from pre-loaded fixtures, in their order. One
/// fixture whose signers could not be recovered fails the call; the error
/// is that of the first such fixture.
pub fn stateless_executor_inputs_from_fixtures<P>(fixtures: Vec<PreparedFixture<P>>) -> (r: Result<
    Vec<GuestFixture<P>>,
    String,
>)
    ensures
        r is Ok <==> forall|i: int|
            0 <= i < fixtures@.len() ==> (#[trigger] fixtures@[i]).signers is Ok,
        r matches Ok(guests) ==> guests@.len() == fixtures@.len() && forall|i: int|
            0 <= i < fixtures@.len() ==> is_guest_fixture_of(#[trigger] guests@[i], fixtures@[i]),
        r matches Err(e) ==> exists|i: int|
            #[trigger] first_without_signers(fixtures@, i) && fixtures@[i].signers == Err::<
                Vec<UncompressedPublicKey>,
                String,
            >(e),
{
    let ghost all = fixtures@;
    let mut guests: Vec<GuestFixture<P>> = Vec::new();
    for prepared in it: fixtures
        invariant
            it.seq() == all,
            guests@.len() == it.index(),
            forall|i: int| 0 <= i < it.index() ==> (#[trigger] all[i]).signers is Ok,
            forall|i: int| 0 <= i < it.index() ==> is_guest_fixture_of(#[trigger] guests@[i], all[i]),
    {
        let ghost k = it.index() as int;
        let PreparedFixture { fixture, block_hash, signers } = prepared;
        let StatelessValidationFixture { name, stateless_input, success } = fixture;
        let metadata = BlockMetadata { block_used_gas: stateless_input.gas_used };
        let output = (block_hash, stateless_input.parent_hash, success);
        match get_input_full_execution(stateless_input, signers) {
            Ok(input) => {
                guests.push(GuestFixture { name, input, metadata, output });
            },
            Err(e) => {
                assert(first_without_signers(all, k));
                return Err(e);
            },
        }
    }
    Ok(guests)
}

/// Prepares the inputs for the stateless executor guest program from what
/// reading the input folder gave: the fixtures found there, or why the
/// folder could not be read.
pub fn stateless_executor_inputs<P>(read: Result<Vec<PreparedFixture<P>>, String>) -> (r: Result<
    Vec<GuestFixture<P>>,
    String,
>)
    ensures
        read matches Err(e) ==> r == Err::<Vec<GuestFixture<P>>, String>(e),
        read matches Ok(fixtures) ==> {
            &&& r is Ok <==> forall|i: int|
                0 <= i < fixtures@.len() ==> (#[trigger] fixtures@[i]).signers is Ok
            &&& r matches Ok(guests) ==> guests@.len() == fixtures@.len() && forall|i: int|
                0 <= i < fixtures@.len() ==> is_guest_fixture_of(
                    #[trigger] guests@[i],
                    fixtures@[i],
                )
            &&& r matches Err(e) ==> exists|i: int|
                #[trigger] first_without_signers(fixtures@, i) && fixtures@[i].signers == Err::<
                    Vec<UncompressedPublicKey>,
                    String,
                >(e)
        },
{
    match read {
        Ok(fixtures) => stateless_executor_inputs_from_fixtures(fixtures),
        Err(e) => Err(e),
    }
}

} // verus!
