//! Fixtures from the execution-spec-test suite of blockchain tests.
//!
//! A generator is configured through [`EESTFixtureGeneratorBuilder`]. Making
//! fixtures then takes three rounds, between which the driver does the work
//! that needs the outside world and nothing else: the generator says which
//! file is loaded next and which is written next.
//! - The driver loads the suite file that [`EESTFixtureGenerator::next_load`]
//!   names, until it names none, and hands what loading gave to
//!   [`EESTFixtureGenerator::select_cases`].
//! - It runs the reference execution of each selected case, has
//!   [`pair_runs`] pair the cases with their runs, and hands the pairs to
//!   [`EESTFixtureGenerator::generate`] or
//!   [`EESTFixtureGenerator::generate_with_traces`].
//! - It writes the fixture that [`EESTFixtureGenerator::next_write`] names
//!   and the trace that [`EESTFixtureGenerator::trace_target`] names, until
//!   no fixture is named, and hands the reports to
//!   [`EESTFixtureGenerator::generate_to_path`].
//!
//! A failure in the first two rounds ends the call before anything is
//! written.

use vstd::prelude::*;
use crate::filter::{passes, retained, texts};
use crate::fixture::{
    fixture_file, fixture_file_name, join_path, path_in, trace_file, StatelessInput,
    StatelessValidationFixture, WGError, WriteOutcome,
};
use crate::text::{last_segment, last_segment_of};
use crate::trace::{
    generate_trace, is_block_trace, ExecutionTrace, TraceConfig, TracedTransaction, TRACE_MISMATCH,
};

verus! {

/// Where a fetched suite is unpacked.
pub const TEMP_EEST_FIXTURES_PATH: &'static str = "./zkevm-fixtures";

/// The script that fetches and unpacks a suite.
pub const DOWNLOAD_SCRIPT: &'static str = "./scripts/download-and-extract-fixtures.sh";

/// Where the blockchain tests lie below the suite directory.
pub const SUITE_SUBPATH: &'static str = "fixtures/blockchain_tests";

/// The ending of the names of suite files.
pub const SUITE_FILE_ENDING: &'static str = ".json";

/// What the driver found out about a path that is to be the suite directory.
#[derive(Debug, PartialEq, Eq)]
pub struct PathProbe {
    /// Whether anything exists at the path.
    pub exists: bool,
    /// Whether it is a directory.
    pub is_dir: bool,
    /// The canonical form of the path, or why it could not be had.
    pub canonical: Result<String, String>,
}

/// What the driver saw of the script that fetches the suite.
#[derive(Debug, Clone, PartialEq, Eq)]
pub enum FetchOutcome {
    /// The script ran and exited with success.
    Succeeded,
    /// The script ran and exited with a failure; holds its error stream.
    Failed { stderr: String },
    /// The script could not be run.
    NotRun { error: String },
}

/// Configuration of a generator: every option is optional but, in the end,
/// the source of the suite.
#[derive(Debug, Clone)]
pub struct EESTFixtureGeneratorBuilder {
    /// A local suite directory, in canonical form.
    pub input_folder: Option<String>,
    /// The version tag of the suite to fetch.
    pub tag: Option<String>,
    /// Substrings that a case name must contain, all of them.
    pub includes: Option<Vec<String>>,
    /// Substrings that a case name must not contain, none of them.
    pub excludes: Option<Vec<String>>,
    /// Directory for execution traces.
    pub trace_output: Option<String>,
}

/// A generator of fixtures over one suite directory.
#[derive(Debug, Clone)]
pub struct EESTFixtureGenerator {
    /// The suite directory.
    pub eest_fixtures: String,
    /// Substrings that a case name must contain, all of them.
    pub filter_include: Vec<String>,
    /// Substrings that a case name must not contain, none of them.
    pub filter_exclude: Vec<String>,
    /// Whether the generator owns the suite directory and removes it at the
    /// end of its life.
    pub delete_eest_fixtures: bool,
    /// Directory for execution traces; `None` switches tracing off.
    pub trace_output: Option<String>,
}

/// A configuration that names no local suite: the suite has to be fetched
/// before the generator can be made.
#[derive(Debug, Clone)]
pub struct PendingFetch {
    /// The version tag to hand to the script, if any.
    pub tag: Option<String>,
    /// Substrings that a case name must contain, all of them.
    pub filter_include: Vec<String>,
    /// Substrings that a case name must not contain, none of them.
    pub filter_exclude: Vec<String>,
    /// Directory for execution traces.
    pub trace_output: Option<String>,
}

/// What `build` asks of the driver.
#[derive(Debug, Clone)]
pub enum BuildStep {
    /// The generator stands on a local suite directory.
    Ready(EESTFixtureGenerator),
    /// Run `DOWNLOAD_SCRIPT`, with the tag as its argument if there is one,
    /// and hand the outcome to `PendingFetch::complete`.
    Fetch(PendingFetch),
}

/// The list in `v`, or the empty list.
pub open spec fn list_or_empty(v: Option<Vec<String>>) -> Seq<String> {
    match v {
        Some(list) => list@,
        None => Seq::empty(),
    }
}

/// `step` is what `build` makes of the configuration `b`.
pub open spec fn built_from(b: EESTFixtureGeneratorBuilder, step: BuildStep) -> bool {
    match b.input_folder {
        Some(folder) => {
            &&& step matches BuildStep::Ready(g)
            &&& g.eest_fixtures == folder
            &&& g.filter_include@ == list_or_empty(b.includes)
            &&& g.filter_exclude@ == list_or_empty(b.excludes)
            &&& !g.delete_eest_fixtures
            &&& g.trace_output == b.trace_output
        },
        None => {
            &&& step matches BuildStep::Fetch(p)
            &&& p.tag == b.tag
            &&& p.filter_include@ == list_or_empty(b.includes)
            &&& p.filter_exclude@ == list_or_empty(b.excludes)
            &&& p.trace_output == b.trace_output
        },
    }
}

/// `r` is what `complete` makes of the pending configuration `p` once the
/// fetch ended in `outcome`.
pub open spec fn completed_from(
    p: PendingFetch,
    outcome: FetchOutcome,
    r: Result<EESTFixtureGenerator, WGError>,
) -> bool {
    match outcome {
        FetchOutcome::Succeeded => {
            &&& r matches Ok(g)
            &&& g.eest_fixtures@ == TEMP_EEST_FIXTURES_PATH@
            &&& g.filter_include == p.filter_include
            &&& g.filter_exclude == p.filter_exclude
            &&& g.delete_eest_fixtures
            &&& g.trace_output == p.trace_output
        },
        FetchOutcome::Failed { stderr } => r == Err::<EESTFixtureGenerator, WGError>(
            WGError::DownloadScriptFailed(stderr),
        ),
        FetchOutcome::NotRun { error } => r == Err::<EESTFixtureGenerator, WGError>(
            WGError::Io(error),
        ),
    }
}

/// The directory that the generator `g` removes at the end of its life,
/// given whether its suite directory still exists.
pub open spec fn removal(g: EESTFixtureGenerator, dir_exists: bool) -> Option<Seq<char>> {
    if g.delete_eest_fixtures && dir_exists {
        Some(g.eest_fixtures@)
    } else {
        None
    }
}

impl Default for EESTFixtureGeneratorBuilder {
    fn default() -> (b: Self)
        ensures
            b.input_folder is None,
            b.tag is None,
            b.includes is None,
            b.excludes is None,
            b.trace_output is None,
    {
        Self { input_folder: None, tag: None, includes: None, excludes: None, trace_output: None }
    }
}

impl EESTFixtureGeneratorBuilder {
    /// Configures which version tag of the suite to fetch.
    pub fn with_tag(self, tag: String) -> (b: Self)
        ensures
            b == (Self { tag: Some(tag), ..self }),
    {
        Self { tag: Some(tag), ..self }
    }

    /// Names a local suite directory, which is then neither fetched nor
    /// removed. `probe` is what the driver found at `path`. The path must
    /// exist and be a directory; the configuration keeps its canonical form.
    pub fn with_input_folder(self, path: String, probe: PathProbe) -> (r: Result<Self, WGError>)
        ensures
            !probe.exists ==> r == Err::<Self, WGError>(WGError::EestPathNotFound(path)),
            probe.exists && !probe.is_dir ==> r == Err::<Self, WGError>(
                WGError::EestPathNotDirectory(path),
            ),
            probe.exists && probe.is_dir ==> match probe.canonical {
                Ok(canonical) => r == Ok::<Self, WGError>(
                    Self { input_folder: Some(canonical), ..self },
                ),
                Err(e) => r == Err::<Self, WGError>(WGError::Io(e)),
            },
    {
        if !probe.exists {
            return Err(WGError::EestPathNotFound(path));
        }
        if !probe.is_dir {
            return Err(WGError::EestPathNotDirectory(path));
        }
        match probe.canonical {
            Ok(canonical) => Ok(Self { input_folder: Some(canonical), ..self }),
            Err(e) => Err(WGError::Io(e)),
        }
    }

    /// Keeps only the cases whose names contain every one of `includes`.
    pub fn with_includes(self, includes: Vec<String>) -> (b: Self)
        ensures
            b == (Self { includes: Some(includes), ..self }),
    {
        Self { includes: Some(includes), ..self }
    }

    /// Drops the cases whose names contain any one of `excludes`.
    pub fn with_excludes(self, excludes: Vec<String>) -> (b: Self)
        ensures
            b == (Self { excludes: Some(excludes), ..self }),
    {
        Self { excludes: Some(excludes), ..self }
    }

    /// Sets the directory for execution traces. With a directory set, each
    /// fixture gets a companion trace file there.
    pub fn with_trace_output(self, path: Option<String>) -> (b: Self)
        ensures
            b == (Self { trace_output: path, ..self }),
    {
        Self { trace_output: path, ..self }
    }

    /// Makes the generator where a local suite directory was named, and
    /// otherwise says that the suite has to be fetched first.
    pub fn build(self) -> (step: BuildStep)
        ensures
            built_from(self, step),
    {
        let filter_include = match self.includes {
            Some(list) => list,
            None => Vec::new(),
        };
        let filter_exclude = match self.excludes {
            Some(list) => list,
            None => Vec::new(),
        };
        match self.input_folder {
            Some(folder) => BuildStep::Ready(
                EESTFixtureGenerator {
                    eest_fixtures: folder,
                    filter_include,
                    filter_exclude,
                    delete_eest_fixtures: false,
                    trace_output: self.trace_output,
                },
            ),
            None => BuildStep::Fetch(
                PendingFetch {
                    tag: self.tag,
                    filter_include,
                    filter_exclude,
                    trace_output: self.trace_output,
                },
            ),
        }
    }
}

impl PendingFetch {
    /// Makes the generator over the fetched suite, which it owns, or reports
    /// why the suite could not be fetched.
    pub fn complete(self, outcome: FetchOutcome) -> (r: Result<EESTFixtureGenerator, WGError>)
        ensures
            completed_from(self, outcome, r),
    {
        match outcome {
            FetchOutcome::Succeeded => Ok(
                EESTFixtureGenerator {
                    eest_fixtures: String::from_str(TEMP_EEST_FIXTURES_PATH),
                    filter_include: self.filter_include,
                    filter_exclude: self.filter_exclude,
                    delete_eest_fixtures: true,
                    trace_output: self.trace_output,
                },
            ),
            FetchOutcome::Failed { stderr } => Err(WGError::DownloadScriptFailed(stderr)),
            FetchOutcome::NotRun { error } => Err(WGError::Io(error)),
        }
    }
}

/// A suite file as the driver found it.
#[derive(Debug, PartialEq, Eq)]
pub struct SuiteFile {
    /// Path of the file.
    pub path: String,
    /// The names of the cases in the file, in file order, or why the file
    /// could not be read or parsed.
    pub loaded: Result<Vec<String>, String>,
}

/// A case that the filter retained.
#[derive(Debug, Clone, PartialEq, Eq)]
pub struct SelectedCase {
    /// Position of the file among the suite files.
    pub file: usize,
    /// Position of the case in its file.
    pub case: usize,
    /// The leaf of the case's name: what follows its last `/`.
    pub name: String,
}

/// What the reference execution made of one case.
#[derive(Debug, PartialEq, Eq)]
pub struct CaseRun<P> {
    /// The input of each block that was executed, in order, or the error
    /// that the execution raised.
    pub executed: Result<Vec<StatelessInput<P>>, String>,
    /// For each block that the case declares, in order, whether it carries
    /// an expected-exception marker.
    pub expects_exception: Vec<bool>,
    /// What tracing the execution of the last block gave, a record for each
    /// of its transactions in block order. It is read only where a trace is
    /// asked for.
    pub traced: Vec<TracedTransaction>,
}

/// What the driver saw when it wrote a fixture and, where there was one to
/// write, its trace.
#[derive(Debug, Clone, PartialEq, Eq)]
pub struct WriteReport {
    /// What became of the fixture file.
    pub fixture: WriteOutcome,
    /// What became of the trace file; `None` where none was to be written.
    pub trace: Option<WriteOutcome>,
}

/// File, position and leaf name of each selected case.
pub open spec fn case_keys(cases: Seq<SelectedCase>) -> Seq<(int, int, Seq<char>)> {
    Seq::new(cases.len(), |k: int| (cases[k].file as int, cases[k].case as int, cases[k].name@))
}

/// The cases of one file that the filter retains, in file order. A case is
/// judged by the leaf of its name.
pub open spec fn selected_from(
    names: Seq<String>,
    file: int,
    includes: Seq<Seq<char>>,
    excludes: Seq<Seq<char>>,
) -> Seq<(int, int, Seq<char>)>
    decreases names.len(),
{
    if names.len() == 0 {
        Seq::empty()
    } else {
        let before = selected_from(names.drop_last(), file, includes, excludes);
        let leaf = last_segment(names.last()@, '/');
        if retained(leaf, includes, excludes) {
            before.push((file, names.len() - 1, leaf))
        } else {
            before
        }
    }
}

/// The cases of the loaded files that the filter retains, file by file.
pub open spec fn selected(
    files: Seq<SuiteFile>,
    includes: Seq<Seq<char>>,
    excludes: Seq<Seq<char>>,
) -> Seq<(int, int, Seq<char>)>
    decreases files.len(),
{
    if files.len() == 0 {
        Seq::empty()
    } else {
        selected(files.drop_last(), includes, excludes) + match files.last().loaded {
            Ok(names) => selected_from(names@, files.len() - 1, includes, excludes),
            Err(_) => Seq::empty(),
        }
    }
}

/// The first round succeeds: the suite was found and every file loaded.
pub open spec fn selection_succeeds(suite_found: bool, files: Seq<SuiteFile>) -> bool {
    suite_found && forall|i: int| 0 <= i < files.len() ==> (#[trigger] files[i]).loaded is Ok
}

/// `i` is the position of the first file that failed to load.
pub open spec fn first_load_failure(files: Seq<SuiteFile>, i: int) -> bool {
    &&& 0 <= i < files.len()
    &&& files[i].loaded is Err
    &&& forall|j: int| 0 <= j < i ==> (#[trigger] files[j]).loaded is Ok
}

/// The run produced no fixture: the execution raised an error or executed
/// no block.
pub open spec fn run_failed<P>(run: CaseRun<P>) -> bool {
    match run.executed {
        Ok(blocks) => blocks@.len() == 0,
        Err(_) => true,
    }
}

/// A run that executed a block belongs to a case that declares one.
pub open spec fn run_well_formed<P>(run: CaseRun<P>) -> bool {
    !run_failed(run) ==> run.expects_exception@.len() > 0
}

/// The run gives no trace: it executed a block, and what tracing gave does
/// not hold one record for each transaction of the last block executed.
pub open spec fn trace_missing<P>(run: CaseRun<P>) -> bool {
    &&& run.executed matches Ok(blocks)
    &&& blocks@.len() > 0
    &&& run.traced@.len() != blocks@.last().transaction_hashes@.len()
}

/// The run gives nothing: it produced no fixture, or a trace is asked for
/// and it gives none.
pub open spec fn gives_nothing<P>(run: CaseRun<P>, trace_enabled: bool) -> bool {
    run_failed(run) || (trace_enabled && trace_missing(run))
}

/// `e` is the error of the run `run`, which gave nothing, of the case
/// called `name`.
pub open spec fn is_error_of<P>(e: WGError, name: Seq<char>, run: CaseRun<P>) -> bool {
    match run.executed {
        Ok(blocks) => if blocks@.len() == 0 {
            e matches WGError::NoTargetBlock(n) && n@ == name
        } else {
            e matches WGError::Other(text) && text@ == TRACE_MISMATCH@
        },
        Err(source) => e matches WGError::TestCaseExecutionError { name: n, source: s } && n@
            == name && s == source,
    }
}

/// `fixture` is the fixture of the run `run` of the case called `name`: it
/// holds the input of the last block executed, and expects success iff the
/// last block declared carries no expected-exception marker.
pub open spec fn is_fixture_of<P>(
    fixture: StatelessValidationFixture<P>,
    name: Seq<char>,
    run: CaseRun<P>,
) -> bool {
    &&& run.executed matches Ok(blocks)
    &&& blocks@.len() > 0
    &&& fixture.name@ == name
    &&& fixture.stateless_input == blocks@.last()
    &&& fixture.success == !run.expects_exception@.last()
}

/// The configuration that the trace of a fixture is made under: steps
/// without stack, memory and storage.
pub open spec fn fixture_trace_config() -> TraceConfig {
    TraceConfig { include_stack: false, include_memory: false, include_storage: false }
}

/// `trace` is what accompanies `fixture`, the fixture of the run `run`:
/// the trace of its block from what tracing gave where tracing is on,
/// nothing where it is off.
pub open spec fn is_trace_of<P>(
    trace: Option<ExecutionTrace>,
    fixture: StatelessValidationFixture<P>,
    run: CaseRun<P>,
    trace_enabled: bool,
) -> bool {
    if trace_enabled {
        trace matches Some(t) && is_block_trace(
            t,
            fixture.name@,
            fixture.stateless_input.block_number,
            fixture.stateless_input.transaction_hashes@,
            run.traced@,
            fixture_trace_config(),
        )
    } else {
        trace is None
    }
}

/// The second round succeeds: every run gives what is asked of it.
pub open spec fn generation_succeeds<P>(
    cases: Seq<(String, CaseRun<P>)>,
    trace_enabled: bool,
) -> bool {
    forall|i: int| 0 <= i < cases.len() ==> !gives_nothing((#[trigger] cases[i]).1, trace_enabled)
}

/// `i` is the position of the first run that gave nothing.
pub open spec fn first_failed_run<P>(
    cases: Seq<(String, CaseRun<P>)>,
    trace_enabled: bool,
    i: int,
) -> bool {
    &&& 0 <= i < cases.len()
    &&& gives_nothing(cases[i].1, trace_enabled)
    &&& forall|j: int| 0 <= j < i ==> !gives_nothing((#[trigger] cases[j]).1, trace_enabled)
}

/// The fixture file was not written.
pub open spec fn write_failed(report: WriteReport) -> bool {
    !(report.fixture is Written)
}

/// `e` is the error of the failed write `report` of the fixture called
/// `name` into the directory `dir`.
pub open spec fn is_write_error_of(
    e: WGError,
    dir: Seq<char>,
    name: Seq<char>,
    report: WriteReport,
) -> bool {
    match report.fixture {
        WriteOutcome::Written => false,
        WriteOutcome::SerializationFailed(source) => e matches WGError::FixtureSerializationError {
            name: n,
            source: s,
        } && n@ == name && s == source,
        WriteOutcome::WriteFailed(source) => e matches WGError::FixtureWriteError { path, source: s }
            && path@ == path_in(dir, fixture_file(name)) && s == source,
    }
}

/// `i` is the position of the first fixture whose file was not written,
/// among the fixtures that have a report.
pub open spec fn first_failed_write(count: int, reports: Seq<WriteReport>, i: int) -> bool {
    &&& 0 <= i < count
    &&& i < reports.len()
    &&& write_failed(reports[i])
    &&& forall|j: int| 0 <= j < i ==> !write_failed(#[trigger] reports[j])
}

/// `pairs` holds each selected case's name with the run of that case, in
/// the order of the selection.
pub open spec fn is_pairing_of<P>(
    pairs: Seq<(String, CaseRun<P>)>,
    selected: Seq<SelectedCase>,
    runs: Seq<CaseRun<P>>,
) -> bool {
    &&& pairs.len() == selected.len()
    &&& pairs.len() == runs.len()
    &&& forall|i: int|
        0 <= i < pairs.len() ==> (#[trigger] pairs[i]).0 == selected[i].name && pairs[i].1
            == runs[i]
}

/// Between the first and the second round: pairs each selected case with
/// its run. `runs` holds the run of each selected case, in the order of the
/// selection; where it holds more runs or fewer than there are cases,
/// nothing is paired.
pub fn pair_runs<P>(selected: &Vec<SelectedCase>, runs: Vec<CaseRun<P>>) -> (r: Option<
    Vec<(String, CaseRun<P>)>,
>)
    ensures
        r is Some <==> selected@.len() == runs@.len(),
        r matches Some(pairs) ==> is_pairing_of(pairs@, selected@, runs@),
{
    if selected.len() != runs.len() {
        return None;
    }
    let ghost all = runs@;
    let mut pairs: Vec<(String, CaseRun<P>)> = Vec::new();
    for run in it: runs
        invariant
            it.seq() == all,
            all.len() == selected@.len(),
            pairs@.len() == it.index(),
            forall|i: int|
                0 <= i < it.index() ==> (#[trigger] pairs@[i]).0 == selected@[i].name && pairs@[i].1
                    == all[i],
    {
        let ghost k = it.index() as int;
        assert(k < all.len());
        pairs.push((selected[pairs.len()].name.clone(), run));
    }
    Some(pairs)
}

/// The fixture to write next, of `count`, after the writes that `reports`
/// tells of: the one behind the last report, unless a fixture could not be
/// written or every fixture has its report.
pub open spec fn next_to_write(count: int, reports: Seq<WriteReport>) -> Option<int> {
    if reports.len() >= count || exists|i: int| #[trigger] first_failed_write(count, reports, i) {
        None
    } else {
        Some(reports.len() as int)
    }
}

/// The file to load next, of `found`, after the loads that `files` tells
/// of: the one behind the last, unless a file failed to load or every file
/// is loaded.
pub open spec fn next_to_load(found: int, files: Seq<SuiteFile>) -> Option<int> {
    if files.len() >= found || exists|i: int| #[trigger] first_load_failure(files, i) {
        None
    } else {
        Some(files.len() as int)
    }
}

/// What a directory holds: the fixture in each file that holds one.
pub type FixtureFiles<P> = Map<Seq<char>, StatelessValidationFixture<P>>;

/// The writing of the fixtures `results` into `dir`, at most `k` of them:
/// each fixture that is next to write is written, `answers` says how that
/// ends, and the file of a fixture that was written holds it afterwards.
/// Gives the reports and what the directory then holds.
pub open spec fn drive_writes<P>(
    dir: Seq<char>,
    results: Seq<(StatelessValidationFixture<P>, Option<ExecutionTrace>)>,
    answers: spec_fn(int) -> WriteReport,
    on_disk: FixtureFiles<P>,
    k: int,
) -> (Seq<WriteReport>, FixtureFiles<P>)
    decreases k,
{
    if k <= 0 {
        (Seq::empty(), on_disk)
    } else {
        let (reports, then_on_disk) = drive_writes(dir, results, answers, on_disk, k - 1);
        match next_to_write(results.len() as int, reports) {
            None => (reports, then_on_disk),
            Some(i) => (
                reports.push(answers(i)),
                if answers(i).fixture is Written {
                    then_on_disk.insert(path_in(dir, fixture_file(results[i].0.name@)), results[i].0)
                } else {
                    then_on_disk
                },
            ),
        }
    }
}

/// What the three rounds give before anything is written: the error of the
/// selection where that failed, else what the generation gave.
pub open spec fn rounds<P>(
    selection: Result<Vec<SelectedCase>, WGError>,
    generated: Result<Vec<(StatelessValidationFixture<P>, Option<ExecutionTrace>)>, WGError>,
) -> Result<Vec<(StatelessValidationFixture<P>, Option<ExecutionTrace>)>, WGError> {
    match selection {
        Ok(_) => generated,
        Err(e) => Err(e),
    }
}

/// What the directory `dir` holds after the fixtures were generated into
/// it: what it held, and the fixtures that were written, where the first
/// two rounds gave fixtures to write.
pub open spec fn directory_after<P>(
    dir: Seq<char>,
    selection: Result<Vec<SelectedCase>, WGError>,
    generated: Result<Vec<(StatelessValidationFixture<P>, Option<ExecutionTrace>)>, WGError>,
    answers: spec_fn(int) -> WriteReport,
    on_disk: FixtureFiles<P>,
) -> FixtureFiles<P> {
    match rounds(selection, generated) {
        Ok(results) => drive_writes(dir, results@, answers, on_disk, results@.len() as int).1,
        Err(_) => on_disk,
    }
}

/// Loading and execution end before the first write: where a suite file
/// fails to load, or a run gives nothing, the call fails and the directory
/// holds exactly what it held, whatever any write would have given.
pub proof fn lemma_failure_leaves_the_directory<P>(
    dir: Seq<char>,
    suite_found: bool,
    files: Seq<SuiteFile>,
    selection: Result<Vec<SelectedCase>, WGError>,
    cases: Seq<(String, CaseRun<P>)>,
    trace_enabled: bool,
    generated: Result<Vec<(StatelessValidationFixture<P>, Option<ExecutionTrace>)>, WGError>,
    answers: spec_fn(int) -> WriteReport,
    on_disk: FixtureFiles<P>,
)
    requires
        selection is Ok <==> selection_succeeds(suite_found, files),
        generated is Ok <==> generation_succeeds(cases, trace_enabled),
        !selection_succeeds(suite_found, files) || !generation_succeeds(cases, trace_enabled),
    ensures
        rounds(selection, generated) is Err,
        directory_after(dir, selection, generated, answers, on_disk) == on_disk,
{
}

/// A write changes at most the file of the fixture that is written: what
/// the directory held under any other path, it holds afterwards.
pub proof fn lemma_writes_touch_only_fixture_files<P>(
    dir: Seq<char>,
    results: Seq<(StatelessValidationFixture<P>, Option<ExecutionTrace>)>,
    answers: spec_fn(int) -> WriteReport,
    on_disk: FixtureFiles<P>,
    k: int,
    path: Seq<char>,
)
    requires
        forall|i: int|
            0 <= i < results.len() ==> path != path_in(
                dir,
                fixture_file((#[trigger] results[i]).0.name@),
            ),
    ensures
        ({
            let (reports, after) = drive_writes(dir, results, answers, on_disk, k);
            &&& reports.len() <= results.len()
            &&& after.dom().contains(path) == on_disk.dom().contains(path)
            &&& on_disk.dom().contains(path) ==> after[path] == on_disk[path]
        }),
    decreases k,
{
    if k > 0 {
        lemma_writes_touch_only_fixture_files(dir, results, answers, on_disk, k - 1, path);
        let (reports, then_on_disk) = drive_writes(dir, results, answers, on_disk, k - 1);
        match next_to_write(results.len() as int, reports) {
            None => {},
            Some(i) => {
                assert(0 <= i < results.len());
                assert(path != path_in(dir, fixture_file(results[i].0.name@)));
            },
        }
    }
}

/// Generates the fixture of one case from its run.
pub fn gen_fixture<P>(name: &str, case: CaseRun<P>) -> (r: Result<
    StatelessValidationFixture<P>,
    WGError,
>)
    requires
        run_well_formed(case),
    ensures
        r is Err <==> run_failed(case),
        r matches Err(e) ==> is_error_of(e, name@, case),
        r matches Ok(fixture) ==> is_fixture_of(fixture, name@, case),
{
    match gen_fixture_with_optional_trace(name, case, false) {
        Ok((fixture, _trace)) => Ok(fixture),
        Err(e) => Err(e),
    }
}

/// Generates the fixture of one case from its run and, where asked, the
/// trace of the fixture's block. Of the blocks executed only the last one
/// becomes the fixture. A trace that is asked for and does not fit the
/// block fails the call.
pub fn gen_fixture_with_optional_trace<P>(name: &str, case: CaseRun<P>, trace_enabled: bool) -> (r:
    Result<(StatelessValidationFixture<P>, Option<ExecutionTrace>), WGError>)
    requires
        run_well_formed(case),
    ensures
        r is Err <==> gives_nothing(case, trace_enabled),
        r matches Err(e) ==> is_error_of(e, name@, case),
        r matches Ok((fixture, trace)) ==> is_fixture_of(fixture, name@, case) && is_trace_of(
            trace,
            fixture,
            case,
            trace_enabled,
        ),
{
    let CaseRun { executed, expects_exception, traced } = case;
    let mut blocks = match executed {
        Ok(blocks) => blocks,
        Err(source) => {
            return Err(WGError::TestCaseExecutionError { name: String::from_str(name), source });
        },
    };
    let stateless_input = match blocks.pop() {
        Some(last) => last,
        None => {
            return Err(WGError::NoTargetBlock(String::from_str(name)));
        },
    };
    let success = !expects_exception[expects_exception.len() - 1];
    let trace = if trace_enabled {
        let trace_config = TraceConfig::minimal();
        match generate_trace(&stateless_input, name, &trace_config, traced) {
            Ok(trace) => Some(trace),
            Err(e) => {
                return Err(e);
            },
        }
    } else {
        None
    };
    let fixture = StatelessValidationFixture { name: String::from_str(name), stateless_input, success };
    Ok((fixture, trace))
}

impl EESTFixtureGenerator {
    /// The directory that holds the blockchain tests of the suite.
    pub fn suite_path(&self) -> (path: String)
        ensures
            path@ == path_in(self.eest_fixtures@, SUITE_SUBPATH@),
    {
        join_path(self.eest_fixtures.as_str(), SUITE_SUBPATH)
    }

    /// Whether fixtures get a companion trace.
    pub fn trace_enabled(&self) -> (enabled: bool)
        ensures
            enabled == self.trace_output is Some,
    {
        self.trace_output.is_some()
    }

    /// First round: selects the cases to execute. `suite_found` says whether
    /// `suite_path()` exists; `files` holds the suite files found below it
    /// and what loading each of them gave. One file that failed to load
    /// fails the selection, whatever the other files hold; the error names
    /// the first such file.
    pub fn select_cases(&self, suite_found: bool, files: &Vec<SuiteFile>) -> (r: Result<
        Vec<SelectedCase>,
        WGError,
    >)
        ensures
            r is Ok <==> selection_succeeds(suite_found, files@),
            r matches Ok(cases) ==> case_keys(cases@) == selected(
                files@,
                texts(self.filter_include@),
                texts(self.filter_exclude@),
            ),
            r matches Err(e) ==> if suite_found {
                exists|i: int|
                    #[trigger] first_load_failure(files@, i) && e == (WGError::TestCaseLoadError {
                        path: files@[i].path,
                        source: files@[i].loaded->Err_0,
                    })
            } else {
                e matches WGError::TestSuitePathNotFound(p) && p@ == path_in(
                    self.eest_fixtures@,
                    SUITE_SUBPATH@,
                )
            },
    {
        if !suite_found {
            return Err(WGError::TestSuitePathNotFound(self.suite_path()));
        }
        let ghost includes = texts(self.filter_include@);
        let ghost excludes = texts(self.filter_exclude@);
        let mut cases: Vec<SelectedCase> = Vec::new();
        let mut f: usize = 0;
        while f < files.len()
            invariant
                suite_found,
                f <= files@.len(),
                includes == texts(self.filter_include@),
                excludes == texts(self.filter_exclude@),
                forall|j: int| 0 <= j < f ==> (#[trigger] files@[j]).loaded is Ok,
                case_keys(cases@) == selected(files@.take(f as int), includes, excludes),
            decreases files@.len() - f,
        {
            let file = &files[f];
            assert(files@.take(f + 1).drop_last() =~= files@.take(f as int));
            match &file.loaded {
                Err(source) => {
                    assert(first_load_failure(files@, f as int));
                    return Err(
                        WGError::TestCaseLoadError {
                            path: file.path.clone(),
                            source: source.clone(),
                        },
                    );
                },
                Ok(names) => {
                    let ghost before = cases@;
                    let mut c: usize = 0;
                    while c < names.len()
                        invariant
                            c <= names@.len(),
                            includes == texts(self.filter_include@),
                            excludes == texts(self.filter_exclude@),
                            case_keys(cases@) == case_keys(before) + selected_from(
                                names@.take(c as int),
                                f as int,
                                includes,
                                excludes,
                            ),
                        decreases names@.len() - c,
                    {
                        assert(names@.take(c + 1).drop_last() =~= names@.take(c as int));
                        let leaf = last_segment_of(names[c].as_str(), '/');
                        if passes(leaf.as_str(), &self.filter_include, &self.filter_exclude) {
                            let ghost prev = cases@;
                            cases.push(SelectedCase { file: f, case: c, name: leaf });
                            assert(case_keys(cases@) =~= case_keys(prev).push(
                                (f as int, c as int, leaf@),
                            ));
                        }
                        c += 1;
                    }
                    assert(names@.take(names@.len() as int) =~= names@);
                },
            }
            f += 1;
        }
        assert(files@.take(files@.len() as int) =~= files@);
        Ok(cases)
    }

    /// Second round: generates the fixture of every case from its run, in
    /// the order given. One run that failed fails the call, whatever the
    /// other runs gave; the error is that of the first such run.
    pub fn generate<P>(&self, cases: Vec<(String, CaseRun<P>)>) -> (r: Result<
        Vec<StatelessValidationFixture<P>>,
        WGError,
    >)
        requires
            forall|i: int| 0 <= i < cases@.len() ==> run_well_formed((#[trigger] cases@[i]).1),
        ensures
            r is Ok <==> generation_succeeds(cases@, false),
            r matches Ok(fixtures) ==> fixtures@.len() == cases@.len() && forall|i: int|
                0 <= i < cases@.len() ==> is_fixture_of(
                    #[trigger] fixtures@[i],
                    cases@[i].0@,
                    cases@[i].1,
                ),
            r matches Err(e) ==> exists|i: int|
                #[trigger] first_failed_run(cases@, false, i) && is_error_of(
                    e,
                    cases@[i].0@,
                    cases@[i].1,
                ),
    {
        let ghost all = cases@;
        let mut fixtures: Vec<StatelessValidationFixture<P>> = Vec::new();
        for entry in it: cases
            invariant
                it.seq() == all,
                forall|i: int| 0 <= i < all.len() ==> run_well_formed((#[trigger] all[i]).1),
                fixtures@.len() == it.index(),
                forall|i: int| 0 <= i < it.index() ==> !run_failed((#[trigger] all[i]).1),
                forall|i: int|
                    0 <= i < it.index() ==> is_fixture_of(#[trigger] fixtures@[i], all[i].0@, all[i].1),
        {
            let ghost k = it.index() as int;
            let (name, run) = entry;
            assert(run_well_formed(all[k].1));
            match gen_fixture(name.as_str(), run) {
                Ok(fixture) => {
                    fixtures.push(fixture);
                },
                Err(e) => {
                    assert(first_failed_run(all, false, k));
                    return Err(e);
                },
            }
        }
        Ok(fixtures)
    }

    /// Second round where files are to be written: as `generate`, and with
    /// each fixture the trace of its block where the generator has a
    /// directory for traces. There a run whose trace does not fit its block
    /// fails the call like a run that failed.
    pub fn generate_with_traces<P>(&self, cases: Vec<(String, CaseRun<P>)>) -> (r: Result<
        Vec<(StatelessValidationFixture<P>, Option<ExecutionTrace>)>,
        WGError,
    >)
        requires
            forall|i: int| 0 <= i < cases@.len() ==> run_well_formed((#[trigger] cases@[i]).1),
        ensures
            r is Ok <==> generation_succeeds(cases@, self.trace_output is Some),
            r matches Ok(results) ==> results@.len() == cases@.len() && forall|i: int|
                0 <= i < cases@.len() ==> is_fixture_of(
                    (#[trigger] results@[i]).0,
                    cases@[i].0@,
                    cases@[i].1,
                ) && is_trace_of(
                    results@[i].1,
                    results@[i].0,
                    cases@[i].1,
                    self.trace_output is Some,
                ),
            r matches Err(e) ==> exists|i: int|
                #[trigger] first_failed_run(cases@, self.trace_output is Some, i) && is_error_of(
                    e,
                    cases@[i].0@,
                    cases@[i].1,
                ),
    {
        let trace_enabled = self.trace_enabled();
        let ghost all = cases@;
        let mut results: Vec<(StatelessValidationFixture<P>, Option<ExecutionTrace>)> = Vec::new();
        for entry in it: cases
            invariant
                it.seq() == all,
                trace_enabled == self.trace_output is Some,
                forall|i: int| 0 <= i < all.len() ==> run_well_formed((#[trigger] all[i]).1),
                results@.len() == it.index(),
                forall|i: int|
                    0 <= i < it.index() ==> !gives_nothing((#[trigger] all[i]).1, trace_enabled),
                forall|i: int|
                    0 <= i < it.index() ==> is_fixture_of(
                        (#[trigger] results@[i]).0,
                        all[i].0@,
                        all[i].1,
                    ) && is_trace_of(results@[i].1, results@[i].0, all[i].1, trace_enabled),
        {
            let ghost k = it.index() as int;
            let (name, run) = entry;
            assert(run_well_formed(all[k].1));
            match gen_fixture_with_optional_trace(name.as_str(), run, trace_enabled) {
                Ok(result) => {
                    results.push(result);
                },
                Err(e) => {
                    assert(first_failed_run(all, trace_enabled, k));
                    return Err(e);
                },
            }
        }
        Ok(results)
    }

    /// The suite file to load next, of the `found` files below the suite
    /// path, after the loads that `files` tells of: the one behind the last,
    /// unless a file failed to load or every file is loaded.
    pub fn next_load(&self, found: usize, files: &Vec<SuiteFile>) -> (next: Option<usize>)
        ensures
            match next {
                Some(i) => next_to_load(found as int, files@) == Some(i as int),
                None => next_to_load(found as int, files@) is None,
            },
    {
        let n = files.len();
        let mut i: usize = 0;
        while i < n
            invariant
                i <= n,
                n == files@.len(),
                forall|j: int| 0 <= j < i ==> (#[trigger] files@[j]).loaded is Ok,
            decreases n - i,
        {
            match &files[i].loaded {
                Ok(_) => {},
                Err(_) => {
                    assert(first_load_failure(files@, i as int));
                    return None;
                },
            }
            i += 1;
        }
        if n < found {
            Some(n)
        } else {
            None
        }
    }

    /// The fixture to write next, of `count`, after the writes that
    /// `reports` tells of: the one behind the last report, unless a fixture
    /// could not be written or every fixture has its report.
    pub fn next_write(&self, count: usize, reports: &Vec<WriteReport>) -> (next: Option<usize>)
        ensures
            match next {
                Some(i) => next_to_write(count as int, reports@) == Some(i as int),
                None => next_to_write(count as int, reports@) is None,
            },
    {
        let n = reports.len();
        let checked = if n < count {
            n
        } else {
            count
        };
        let mut i: usize = 0;
        while i < checked
            invariant
                i <= checked,
                checked <= n,
                checked <= count,
                n == reports@.len(),
                forall|j: int| 0 <= j < i ==> !write_failed(#[trigger] reports@[j]),
            decreases checked - i,
        {
            match &reports[i].fixture {
                WriteOutcome::Written => {},
                _ => {
                    assert(first_failed_write(count as int, reports@, i as int));
                    return None;
                },
            }
            i += 1;
        }
        if n < count {
            Some(n)
        } else {
            None
        }
    }

    /// The file to write the trace `trace` of a fixture to, once the write
    /// of the fixture ended in `fixture_written`: its file in the directory
    /// for traces, where there is a trace and such a directory and the
    /// fixture was written; else none.
    pub fn trace_target(&self, fixture_written: &WriteOutcome, trace: &Option<ExecutionTrace>) -> (target:
        Option<String>)
        ensures
            target is Some <==> *fixture_written is Written && trace is Some && self.trace_output
                is Some,
            target matches Some(path) ==> path@ == path_in(
                self.trace_output->0@,
                trace_file(trace->0.fixture_name@),
            ),
    {
        match (fixture_written, trace, &self.trace_output) {
            (WriteOutcome::Written, Some(trace), Some(trace_dir)) => Some(
                trace.path_in_dir(trace_dir.as_str()),
            ),
            _ => None,
        }
    }

    /// Third round: judges the writing of the fixtures into `dir`. The
    /// driver writes fixture `i` to `<dir>/<name>.json` and, where there is
    /// a trace and a trace directory, the trace to its file there, and
    /// reports both in `reports[i]`. A fixture that could not be written
    /// fails the call and ends the writing: later fixtures need no report.
    /// A trace that could not be written changes nothing. Returns the count
    /// of fixtures written.
    pub fn generate_to_path<P>(
        &self,
        dir: &str,
        results: &Vec<(StatelessValidationFixture<P>, Option<ExecutionTrace>)>,
        reports: &Vec<WriteReport>,
    ) -> (r: Result<usize, WGError>)
        ensures
            r is Err <==> exists|i: int|
                #[trigger] first_failed_write(results@.len() as int, reports@, i),
            r matches Err(e) ==> exists|i: int|
                #[trigger] first_failed_write(results@.len() as int, reports@, i)
                    && is_write_error_of(
                    e,
                    dir@,
                    results@[i].0.name@,
                    reports@[i],
                ),
            r matches Ok(count) ==> count == if reports@.len() < results@.len() {
                reports@.len()
            } else {
                results@.len()
            },
    {
        let count = if reports.len() < results.len() {
            reports.len()
        } else {
            results.len()
        };
        let mut i: usize = 0;
        while i < count
            invariant
                i <= count,
                count <= results@.len(),
                count <= reports@.len(),
                forall|j: int| 0 <= j < i ==> !write_failed(#[trigger] reports@[j]),
            decreases count - i,
        {
            let fixture = &results[i].0;
            match &reports[i].fixture {
                WriteOutcome::Written => {},
                WriteOutcome::SerializationFailed(source) => {
                    assert(first_failed_write(results@.len() as int, reports@, i as int));
                    return Err(
                        WGError::FixtureSerializationError {
                            name: fixture.name.clone(),
                            source: source.clone(),
                        },
                    );
                },
                WriteOutcome::WriteFailed(source) => {
                    assert(first_failed_write(results@.len() as int, reports@, i as int));
                    return Err(
                        WGError::FixtureWriteError {
                            path: self.fixture_path(dir, fixture.name.as_str()),
                            source: source.clone(),
                        },
                    );
                },
            }
            i += 1;
        }
        Ok(count)
    }

    /// The file that holds the fixture called `name` in the directory `dir`:
    /// `<dir>/<name>.json`.
    pub fn fixture_path(&self, dir: &str, name: &str) -> (path: String)
        ensures
            path@ == path_in(dir@, fixture_file(name@)),
    {
        let file = fixture_file_name(name);
        join_path(dir, file.as_str())
    }

    /// End of the generator's life: the directory to remove, if any.
    /// `dir_exists` says whether the suite directory still exists. A
    /// directory that the caller named is never removed.
    pub fn teardown(&self, dir_exists: bool) -> (target: Option<String>)
        ensures
            target is Some <==> removal(*self, dir_exists) is Some,
            target matches Some(dir) ==> removal(*self, dir_exists) == Some(dir@),
    {
        if self.delete_eest_fixtures && dir_exists {
            Some(self.eest_fixtures.clone())
        } else {
            None
        }
    }
}

/// A case of a file is selected iff the filter retains the leaf of its name.
pub proof fn lemma_selected_from(
    names: Seq<String>,
    file: int,
    includes: Seq<Seq<char>>,
    excludes: Seq<Seq<char>>,
    key: (int, int, Seq<char>),
)
    ensures
        selected_from(names, file, includes, excludes).contains(key) <==> {
            &&& key.0 == file
            &&& 0 <= key.1 < names.len()
            &&& key.2 == last_segment(names[key.1]@, '/')
            &&& retained(key.2, includes, excludes)
        },
    decreases names.len(),
{
    if names.len() > 0 {
        let rest = names.drop_last();
        let before = selected_from(rest, file, includes, excludes);
        let leaf = last_segment(names.last()@, '/');
        lemma_selected_from(rest, file, includes, excludes, key);
        if key.1 < rest.len() && 0 <= key.1 {
            assert(rest[key.1] == names[key.1]);
        }
        if retained(leaf, includes, excludes) {
            let last = (file, names.len() - 1, leaf);
            let all = before.push(last);
            assert(all[before.len() as int] == last);
            if before.contains(key) {
                let i = choose|i: int| 0 <= i < before.len() && before[i] == key;
                assert(all[i] == key);
            }
            if all.contains(key) {
                let i = choose|i: int| 0 <= i < all.len() && all[i] == key;
                if i < before.len() {
                    assert(before[i] == key);
                }
            }
        }
    }
}

/// Selection fails as soon as one file failed to load, however many files
/// loaded well: no hand-over of files with a failure among them selects
/// anything.
pub proof fn lemma_one_failed_load_fails_all(files: Seq<SuiteFile>, bad: int)
    requires
        0 <= bad < files.len(),
        files[bad].loaded is Err,
    ensures
        exists|i: int| #[trigger] first_load_failure(files, i) && i <= bad,
    decreases bad,
{
    if exists|j: int| 0 <= j < bad && (#[trigger] files[j]).loaded is Err {
        let j = choose|j: int| 0 <= j < bad && (#[trigger] files[j]).loaded is Err;
        lemma_one_failed_load_fails_all(files, j);
    } else {
        assert(first_load_failure(files, bad));
    }
}

/// A generator over a suite directory that the caller named leaves that
/// directory alone at the end of its life, whether or not it still exists.
pub proof fn lemma_named_suite_is_kept(
    b: EESTFixtureGeneratorBuilder,
    step: BuildStep,
    dir_exists: bool,
)
    requires
        b.input_folder is Some,
        built_from(b, step),
    ensures
        step is Ready,
        removal(step->Ready_0, dir_exists) is None,
{
}

/// A generator over a fetched suite removes the directory it was unpacked
/// into at the end of its life, if that directory still exists.
pub proof fn lemma_fetched_suite_is_removed(
    b: EESTFixtureGeneratorBuilder,
    step: BuildStep,
    g: EESTFixtureGenerator,
)
    requires
        b.input_folder is None,
        built_from(b, step),
        step is Fetch ==> completed_from(step->Fetch_0, FetchOutcome::Succeeded, Ok(g)),
    ensures
        step is Fetch,
        removal(g, true) == Some(TEMP_EEST_FIXTURES_PATH@),
        removal(g, false) is None,
{
}

} // verus!
