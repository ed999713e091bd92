//! Test cases from a directory of JSON files.
//!
//! The driver walks the directory, reads and parses the files, and hands
//! over what it found. One file that cannot be read or parsed fails the
//! generation, whatever the other files hold.

use vstd::prelude::*;
use crate::fixture::{fixture_file, fixture_file_name, WriteOutcome};
use crate::hexparse::TestCaseError;
use crate::testcase::{NamedTestCase, TestCase};
use crate::text::{joined, ends_with, ends_with_seq, same_text};

verus! {

/// Generators of test cases, from JSON files or other sources.
pub trait TestCaseGenerator {
    /// Generates test cases.
    fn generate(&self) -> Result<Vec<NamedTestCase>, GeneratorError>;

    /// Generates test cases and writes them to the directory `path`.
    /// Returns the number of test cases written.
    fn generate_to_path(&self, path: &str) -> Result<usize, GeneratorError>;
}

/// Generator for test cases from JSON files.
#[derive(Debug, Clone, PartialEq, Eq)]
pub struct JsonTestCaseGenerator {
    /// Directory path containing JSON test files.
    pub directory_path: String,
}

/// Why no test cases were generated.
#[derive(Debug, Clone, PartialEq, Eq)]
pub enum GeneratorError {
    /// The directory does not exist; holds its path.
    DirectoryMissing(String),
    /// The path is no directory; holds it.
    NotADirectory(String),
    /// A file could not be read or parsed; holds its path and the reason.
    FileFailed { path: String, error: TestCaseError },
    /// The directory could not be walked, or a file could not be written.
    TestCase(TestCaseError),
}

/// A JSON file as the driver found it.
#[derive(Debug, PartialEq, Eq)]
pub struct JsonFile {
    /// Path of the file.
    pub path: String,
    /// The test cases of the file, or why it gave none: what
    /// `process_json_file` made of it.
    pub loaded: Result<Vec<NamedTestCase>, TestCaseError>,
}

/// What the driver found at the generator's directory.
#[derive(Debug, Clone, Copy, PartialEq, Eq)]
pub struct DirProbe {
    /// Whether anything exists at the path.
    pub exists: bool,
    /// Whether it is a directory.
    pub is_dir: bool,
}

/// Why a file gave no test cases.
#[derive(Debug, Clone, PartialEq, Eq)]
pub enum FileFailure {
    /// The file could not be read; holds the reason.
    Unreadable(String),
    /// The file holds no map of test cases; holds the parser's words.
    Malformed(String),
}

/// The ending of the names of the files that hold test cases.
pub const JSON_ENDING: &'static str = ".json";

/// What an error about an unreadable file says before the file's path.
pub const READ_FAILURE_PREFIX: &'static str = "Failed to read file ";

/// A file name has the extension `json`: it ends in `.json` and has a
/// character before that.
pub open spec fn has_json_extension(file_name: Seq<char>) -> bool {
    ends_with_seq(file_name, JSON_ENDING@) && file_name.len() > JSON_ENDING@.len()
}

/// The test cases of the files, file by file.
pub open spec fn gathered(files: Seq<JsonFile>) -> Seq<NamedTestCase>
    decreases files.len(),
{
    if files.len() == 0 {
        Seq::empty()
    } else {
        gathered(files.drop_last()) + match files.last().loaded {
            Ok(cases) => cases@,
            Err(_) => Seq::empty(),
        }
    }
}

/// `i` is the position of the first file that gave no test cases.
pub open spec fn first_failed_file(files: Seq<JsonFile>, i: int) -> bool {
    &&& 0 <= i < files.len()
    &&& files[i].loaded is Err
    &&& forall|j: int| 0 <= j < i ==> (#[trigger] files[j]).loaded is Ok
}

/// The test cases among `cases` that go into the file `file`, in their
/// order.
pub open spec fn members(cases: Seq<NamedTestCase>, file: Seq<char>) -> Seq<NamedTestCase>
    decreases cases.len(),
{
    if cases.len() == 0 {
        Seq::empty()
    } else if fixture_file(cases.last().name@) == file {
        members(cases.drop_last(), file).push(cases.last())
    } else {
        members(cases.drop_last(), file)
    }
}

/// `groups` divides `cases` by file: no file twice, in each group the test
/// cases of its file, all of them and in their order, and no group empty.
pub open spec fn is_grouping_of(
    groups: Seq<(String, Vec<NamedTestCase>)>,
    cases: Seq<NamedTestCase>,
) -> bool {
    &&& forall|i: int, j: int|
        0 <= i < j < groups.len() ==> (#[trigger] groups[i]).0@ != (#[trigger] groups[j]).0@
    &&& forall|i: int|
        0 <= i < groups.len() ==> (#[trigger] groups[i]).1@ == members(cases, groups[i].0@)
            && groups[i].1@.len() > 0
    &&& forall|k: int|
        0 <= k < cases.len() ==> exists|i: int|
            0 <= i < groups.len() && (#[trigger] groups[i]).0@ == fixture_file(
                (#[trigger] cases[k]).name@,
            )
}

/// The group could not be written.
pub open spec fn group_failed(outcome: WriteOutcome) -> bool {
    !(outcome is Written)
}

/// `e` is the error of the failed write `outcome` of a group.
pub open spec fn is_group_error(e: GeneratorError, outcome: WriteOutcome) -> bool {
    match outcome {
        WriteOutcome::Written => false,
        WriteOutcome::SerializationFailed(s) => e == GeneratorError::TestCase(
            TestCaseError::Serde(s),
        ),
        WriteOutcome::WriteFailed(s) => e == GeneratorError::TestCase(TestCaseError::Io(s)),
    }
}

/// `i` is the position of the first group that could not be written, among
/// the groups that have a report.
pub open spec fn first_failed_group(count: int, reports: Seq<WriteOutcome>, i: int) -> bool {
    &&& 0 <= i < count
    &&& i < reports.len()
    &&& group_failed(reports[i])
    &&& forall|j: int| 0 <= j < i ==> !group_failed(#[trigger] reports[j])
}

/// The number of test cases in the first `k` groups.
pub open spec fn cases_in(groups: Seq<(String, Vec<NamedTestCase>)>, k: int) -> int
    decreases k,
{
    if k <= 0 {
        0
    } else {
        cases_in(groups, k - 1) + groups[k - 1].1@.len()
    }
}

/// `n`, or the largest `usize` where `n` is more than that.
pub open spec fn capped(n: int) -> int {
    if n > usize::MAX {
        usize::MAX as int
    } else {
        n
    }
}

impl JsonTestCaseGenerator {
    /// Creates a new JSON test case generator.
    pub fn new(directory_path: String) -> (generator: Self)
        ensures
            generator.directory_path == directory_path,
    {
        Self { directory_path }
    }

    /// Whether a file of this name holds test cases: whether its extension
    /// is `json`.
    pub fn is_json_file(file_name: &str) -> (b: bool)
        ensures
            b == has_json_extension(file_name@),
    {
        ends_with(file_name, JSON_ENDING) && file_name.unicode_len() > JSON_ENDING.unicode_len()
    }

    /// The test cases of one file, each under its name in the file, or why
    /// the file gave none. `read` is what reading and parsing the file at
    /// `json_file` gave.
    pub fn process_json_file(
        &self,
        json_file: &str,
        read: Result<Vec<(String, TestCase)>, FileFailure>,
    ) -> (r: Result<Vec<NamedTestCase>, TestCaseError>)
        ensures
            match read {
                Ok(entries) => r matches Ok(cases) && cases@.len() == entries@.len()
                    && forall|i: int|
                    0 <= i < entries@.len() ==> (#[trigger] cases@[i]).name == entries@[i].0
                        && cases@[i].test_case == entries@[i].1,
                Err(FileFailure::Unreadable(e)) => r matches Err(TestCaseError::Io(text)) && text@
                    == READ_FAILURE_PREFIX@ + json_file@ + ": "@ + e@,
                Err(FileFailure::Malformed(e)) => r == Err::<Vec<NamedTestCase>, TestCaseError>(
                    TestCaseError::Serde(e),
                ),
            },
    {
        match read {
            Ok(entries) => {
                let ghost all = entries@;
                let mut cases: Vec<NamedTestCase> = Vec::new();
                for entry in it: entries
                    invariant
                        it.seq() == all,
                        cases@.len() == it.index(),
                        forall|i: int|
                            0 <= i < it.index() ==> (#[trigger] cases@[i]).name == all[i].0
                                && cases@[i].test_case == all[i].1,
                {
                    let (name, test_case) = entry;
                    cases.push(NamedTestCase { name, test_case });
                }
                Ok(cases)
            },
            Err(FileFailure::Unreadable(e)) => {
                let text = joined(READ_FAILURE_PREFIX, json_file);
                let text = joined(text.as_str(), ": ");
                Err(TestCaseError::Io(joined(text.as_str(), e.as_str())))
            },
            Err(FileFailure::Malformed(e)) => Err(TestCaseError::Serde(e)),
        }
    }

    /// The test cases of the generator's directory. `dir` is what the
    /// driver found at the directory; `found` holds the JSON files below
    /// it, or why the directory could not be walked. One file that gave no
    /// test cases fails the call, whatever the other files hold; the error
    /// names the first such file and holds its reason.
    pub fn generate(&self, dir: DirProbe, found: Result<Vec<JsonFile>, TestCaseError>) -> (r: Result<
        Vec<NamedTestCase>,
        GeneratorError,
    >)
        ensures
            !dir.exists ==> r == Err::<Vec<NamedTestCase>, GeneratorError>(
                GeneratorError::DirectoryMissing(self.directory_path),
            ),
            dir.exists && !dir.is_dir ==> r == Err::<Vec<NamedTestCase>, GeneratorError>(
                GeneratorError::NotADirectory(self.directory_path),
            ),
            dir.exists && dir.is_dir ==> match found {
                Err(e) => r == Err::<Vec<NamedTestCase>, GeneratorError>(
                    GeneratorError::TestCase(e),
                ),
                Ok(files) => {
                    &&& r is Ok <==> forall|i: int|
                        0 <= i < files@.len() ==> (#[trigger] files@[i]).loaded is Ok
                    &&& r matches Ok(cases) ==> cases@ == gathered(files@)
                    &&& r matches Err(e) ==> exists|i: int|
                        #[trigger] first_failed_file(files@, i) && e == (GeneratorError::FileFailed {
                            path: files@[i].path,
                            error: files@[i].loaded->Err_0,
                        })
                },
            },
    {
        if !dir.exists {
            return Err(GeneratorError::DirectoryMissing(self.directory_path.clone()));
        }
        if !dir.is_dir {
            return Err(GeneratorError::NotADirectory(self.directory_path.clone()));
        }
        let files = match found {
            Ok(files) => files,
            Err(e) => {
                return Err(GeneratorError::TestCase(e));
            },
        };
        let ghost all = files@;
        let mut all_test_cases: Vec<NamedTestCase> = Vec::new();
        for file in it: files
            invariant
                dir.exists && dir.is_dir,
                found matches Ok(handed) && handed@ == all,
                it.seq() == all,
                forall|i: int| 0 <= i < it.index() ==> (#[trigger] all[i]).loaded is Ok,
                all_test_cases@ == gathered(all.take(it.index() as int)),
        {
            let ghost k = it.index() as int;
            assert(all.take(k + 1).drop_last() =~= all.take(k));
            let JsonFile { path, loaded } = file;
            match loaded {
                Ok(mut test_cases) => {
                    all_test_cases.append(&mut test_cases);
                },
                Err(error) => {
                    assert(first_failed_file(all, k));
                    return Err(GeneratorError::FileFailed { path, error });
                },
            }
        }
        assert(all.take(all.len() as int) =~= all);
        Ok(all_test_cases)
    }

    /// Divides the test cases by the file they go into, `<name>.json`.
    pub fn group_by_file(cases: Vec<NamedTestCase>) -> (groups: Vec<(String, Vec<NamedTestCase>)>)
        ensures
            is_grouping_of(groups@, cases@),
    {
        let ghost all = cases@;
        let mut groups: Vec<(String, Vec<NamedTestCase>)> = Vec::new();
        for case in it: cases
            invariant
                it.seq() == all,
                is_grouping_of(groups@, all.take(it.index() as int)),
        {
            let ghost k = it.index() as int;
            let ghost done = all.take(k);
            let ghost next = all.take(k + 1);
            let ghost before = groups@;
            assert(next.drop_last() =~= done);
            assert(next.last() == case);
            let file_name = fixture_file_name(case.name.as_str());
            match find_group(&groups, file_name.as_str()) {
                Some(g) => {
                    let (key, mut group) = groups.remove(g);
                    group.push(case);
                    groups.insert(g, (key, group));
                    assert forall|i: int| 0 <= i < groups@.len() implies (#[trigger] groups@[i]).1@
                        == members(next, groups@[i].0@) && groups@[i].1@.len() > 0 by {
                        assert(groups@[i].0@ == before[i].0@);
                        if i != g {
                            assert(groups@[i] == before[i]);
                        }
                    }
                    assert forall|i: int, j: int| 0 <= i < j < groups@.len() implies (
                    #[trigger] groups@[i]).0@ != (#[trigger] groups@[j]).0@ by {
                        assert(groups@[i].0@ == before[i].0@);
                        assert(groups@[j].0@ == before[j].0@);
                    }
                    assert forall|m: int| 0 <= m < next.len() implies exists|i: int|
                        0 <= i < groups@.len() && (#[trigger] groups@[i]).0@ == fixture_file(
                            (#[trigger] next[m]).name@,
                        ) by {
                        if m < k {
                            assert(next[m] == done[m]);
                            let i = choose|i: int|
                                0 <= i < before.len() && (#[trigger] before[i]).0@ == fixture_file(
                                    done[m].name@,
                                );
                            assert(groups@[i].0@ == before[i].0@);
                        } else {
                            assert(groups@[g as int].0@ == file_name@);
                        }
                    }
                },
                None => {
                    let mut group: Vec<NamedTestCase> = Vec::new();
                    group.push(case);
                    proof {
                        lemma_no_members(done, file_name@, before);
                    }
                    groups.push((file_name, group));
                    assert forall|i: int| 0 <= i < groups@.len() implies (#[trigger] groups@[i]).1@
                        == members(next, groups@[i].0@) && groups@[i].1@.len() > 0 by {
                        if i < before.len() {
                            assert(groups@[i] == before[i]);
                        } else {
                            assert(groups@[i].1@ =~= Seq::<NamedTestCase>::empty().push(case));
                        }
                    }
                    assert forall|m: int| 0 <= m < next.len() implies exists|i: int|
                        0 <= i < groups@.len() && (#[trigger] groups@[i]).0@ == fixture_file(
                            (#[trigger] next[m]).name@,
                        ) by {
                        if m < k {
                            assert(next[m] == done[m]);
                            let i = choose|i: int|
                                0 <= i < before.len() && (#[trigger] before[i]).0@ == fixture_file(
                                    done[m].name@,
                                );
                            assert(groups@[i] == before[i]);
                        } else {
                            assert(groups@[before.len() as int].0@ == file_name@);
                        }
                    }
                },
            }
        }
        assert(all.take(all.len() as int) =~= all);
        groups
    }

    /// The group to write next, of `count`, after the writes that `reports`
    /// tells of: the one behind the last report, unless a write failed or
    /// every group has its report.
    pub fn next_group(count: usize, reports: &Vec<WriteOutcome>) -> (next: Option<usize>)
        ensures
            next is None <==> reports@.len() >= count || exists|i: int|
                #[trigger] first_failed_group(count as int, reports@, i),
            next matches Some(i) ==> i == reports@.len(),
    {
        let n = reports.len();
        let checked = if n < count {
            n
        } else {
            count
        };
        let mut i: usize = 0;
        while i < checked
            invariant
                i <= checked,
                checked <= n,
                checked <= count,
                n == reports@.len(),
                forall|j: int| 0 <= j < i ==> !group_failed(#[trigger] reports@[j]),
            decreases checked - i,
        {
            match &reports[i] {
                WriteOutcome::Written => {},
                _ => {
                    assert(first_failed_group(count as int, reports@, i as int));
                    return None;
                },
            }
            i += 1;
        }
        if n < count {
            Some(n)
        } else {
            None
        }
    }

    /// Judges the writing of the groups, each to the file of its name.
    /// `reports[i]` says what became of group `i`. A group that could not
    /// be written fails the call and ends the writing. Returns the number
    /// of test cases written, or the largest `usize` if that is less.
    pub fn generate_to_path(
        &self,
        groups: &Vec<(String, Vec<NamedTestCase>)>,
        reports: &Vec<WriteOutcome>,
    ) -> (r: Result<usize, GeneratorError>)
        ensures
            r is Err <==> exists|i: int|
                #[trigger] first_failed_group(groups@.len() as int, reports@, i),
            r matches Err(e) ==> exists|i: int|
                #[trigger] first_failed_group(groups@.len() as int, reports@, i)
                    && is_group_error(e, reports@[i]),
            r matches Ok(total) ==> total == capped(
                cases_in(
                    groups@,
                    if reports@.len() < groups@.len() {
                        reports@.len() as int
                    } else {
                        groups@.len() as int
                    },
                ),
            ),
    {
        let count = if reports.len() < groups.len() {
            reports.len()
        } else {
            groups.len()
        };
        let mut total_written: usize = 0;
        let mut i: usize = 0;
        while i < count
            invariant
                i <= count,
                count <= groups@.len(),
                count <= reports@.len(),
                total_written == capped(cases_in(groups@, i as int)),
                forall|j: int| 0 <= j < i ==> !group_failed(#[trigger] reports@[j]),
            decreases count - i,
        {
            match &reports[i] {
                WriteOutcome::Written => {},
                WriteOutcome::SerializationFailed(s) => {
                    assert(first_failed_group(groups@.len() as int, reports@, i as int));
                    return Err(GeneratorError::TestCase(TestCaseError::Serde(s.clone())));
                },
                WriteOutcome::WriteFailed(s) => {
                    assert(first_failed_group(groups@.len() as int, reports@, i as int));
                    return Err(GeneratorError::TestCase(TestCaseError::Io(s.clone())));
                },
            }
            proof {
                lemma_cases_in_grows(groups@, 0, i as int);
            }
            total_written = total_written.saturating_add(groups[i].1.len());
            i += 1;
        }
        Ok(total_written)
    }
}

/// The position of the group for the file `file`, if there is one.
fn find_group(groups: &Vec<(String, Vec<NamedTestCase>)>, file: &str) -> (found: Option<usize>)
    ensures
        match found {
            Some(g) => g < groups@.len() && groups@[g as int].0@ == file@,
            None => forall|i: int| 0 <= i < groups@.len() ==> (#[trigger] groups@[i]).0@ != file@,
        },
{
    let mut g: usize = 0;
    while g < groups.len()
        invariant
            g <= groups@.len(),
            forall|i: int| 0 <= i < g ==> (#[trigger] groups@[i]).0@ != file@,
        decreases groups@.len() - g,
    {
        if same_text(groups[g].0.as_str(), file) {
            return Some(g);
        }
        g += 1;
    }
    None
}

/// A file that no group is for has no members.
proof fn lemma_no_members(
    cases: Seq<NamedTestCase>,
    file: Seq<char>,
    groups: Seq<(String, Vec<NamedTestCase>)>,
)
    requires
        is_grouping_of(groups, cases),
        forall|i: int| 0 <= i < groups.len() ==> (#[trigger] groups[i]).0@ != file,
    ensures
        members(cases, file).len() == 0,
    decreases cases.len(),
{
    if cases.len() > 0 {
        let rest = cases.drop_last();
        let k = cases.len() - 1;
        let i = choose|i: int|
            0 <= i < groups.len() && (#[trigger] groups[i]).0@ == fixture_file(
                (#[trigger] cases[k]).name@,
            );
        assert(fixture_file(cases.last().name@) != file);
        lemma_members_none(rest, file, cases);
    }
}

/// Where no test case goes into a file, the file has no members.
proof fn lemma_members_none(rest: Seq<NamedTestCase>, file: Seq<char>, cases: Seq<NamedTestCase>)
    requires
        rest.len() <= cases.len(),
        rest == cases.take(rest.len() as int),
        forall|k: int| 0 <= k < cases.len() ==> fixture_file((#[trigger] cases[k]).name@) != file,
    ensures
        members(rest, file).len() == 0,
    decreases rest.len(),
{
    if rest.len() > 0 {
        assert(rest.last() == cases[rest.len() - 1]);
        assert(rest.drop_last() =~= cases.take(rest.len() - 1));
        lemma_members_none(rest.drop_last(), file, cases);
    }
}

/// Groups further on add to the count.
proof fn lemma_cases_in_grows(groups: Seq<(String, Vec<NamedTestCase>)>, k: int, n: int)
    requires
        0 <= k <= n,
    ensures
        cases_in(groups, k) <= cases_in(groups, n),
    decreases n - k,
{
    if k < n {
        lemma_cases_in_grows(groups, k, n - 1);
    }
}

} // verus!
