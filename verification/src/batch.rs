//! The batch coordination logic: resolving one code file per submission
//! folder, naming submissions, rendering verdicts as text, and assembling the
//! ordered per-submission report.

use vstd::prelude::*;
use vstd::string::StringExecFns;

use crate::orchestrator::ExecutionError;
use crate::orchestrator::ExecutionErrorV;
use crate::orchestrator::ExecutionResult;
use crate::orchestrator::ExecutionResultV;
use crate::orchestrator::OutputReadFailure;
use crate::orchestrator::OutputReadFailureV;
use crate::orchestrator::verdict_view;
use crate::text::dec_str;
use crate::text::i32_to_dec;
use crate::text::int_str;
use crate::text::u64_to_dec;
use crate::workspace::TempWorkspace;

verus! {

/// One directory entry, as the coordinator listed it: the entry's file name
/// (its last path component) in bytes, and what the entry is.
pub struct FsEntry {
    pub name: Vec<u8>,
    pub is_file: bool,
    pub is_dir: bool,
}

/// A name carries the recognized source extension: it ends in `.py` and has
/// at least one byte of stem before it.
pub open spec fn has_py_ext(name: Seq<u8>) -> bool {
    &&& name.len() >= 4
    &&& name[name.len() - 3] == 46u8
    &&& name[name.len() - 2] == 112u8
    &&& name[name.len() - 1] == 121u8
}

/// An entry resolves as a submission's code file when it is a regular file
/// with the recognized source extension.
pub open spec fn is_code_candidate(e: FsEntry) -> bool {
    e.is_file && has_py_ext(e.name@)
}

/// Whether `name` ends in `.py` with a non-empty stem.
pub fn is_python_source(name: &Vec<u8>) -> (r: bool)
    ensures
        r == has_py_ext(name@),
{
    if name.len() < 4 {
        false
    } else {
        let l: usize = name.len();
        name[l - 3] == 46u8 && name[l - 2] == 112u8 && name[l - 1] == 121u8
    }
}

/// Resolves a submission folder's listing to its code file: the first entry
/// that is a regular file with the recognized extension, or nothing when the
/// folder holds none.
pub fn resolve_code_file(entries: &Vec<FsEntry>) -> (r: Option<usize>)
    ensures
        match r {
            Some(i) => {
                &&& i < entries@.len()
                &&& is_code_candidate(entries@[i as int])
                &&& forall|j: int| 0 <= j < i ==> !is_code_candidate(entries@[j])
            },
            None => forall|j: int| 0 <= j < entries@.len() ==> !is_code_candidate(entries@[j]),
        },
{
    let mut i: usize = 0;
    while i < entries.len()
        invariant
            i <= entries@.len(),
            forall|j: int| 0 <= j < i ==> !is_code_candidate(entries@[j]),
        decreases entries@.len() - i,
    {
        if entries[i].is_file && is_python_source(&entries[i].name) {
            return Some(i);
        }
        i = i + 1;
    }
    None
}

/// The file names of the directory entries, in listing order.
pub open spec fn subfolder_names(s: Seq<FsEntry>) -> Seq<Seq<u8>>
    decreases s.len(),
{
    if s.len() == 0 {
        Seq::empty()
    } else {
        subfolder_names(s.drop_last()) + if s.last().is_dir {
            seq![s.last().name@]
        } else {
            Seq::empty()
        }
    }
}

fn copy_bytes(src: &Vec<u8>) -> (r: Vec<u8>)
    ensures
        r@ == src@,
{
    let mut r: Vec<u8> = Vec::new();
    let mut i: usize = 0;
    while i < src.len()
        invariant
            i <= src@.len(),
            r@ == src@.subrange(0, i as int),
        decreases src@.len() - i,
    {
        r.push(src[i]);
        i = i + 1;
    }
    proof {
        assert(src@.subrange(0, src@.len() as int) =~= src@);
    }
    r
}

/// Keeps, in order, the names of the entries that are directories: the
/// immediate subfolders of a listed parent directory.
pub fn find_folders(entries: &Vec<FsEntry>) -> (r: Vec<Vec<u8>>)
    ensures
        r@.map_values(|n: Vec<u8>| n@) == subfolder_names(entries@),
{
    let mut r: Vec<Vec<u8>> = Vec::new();
    let mut i: usize = 0;
    while i < entries.len()
        invariant
            i <= entries@.len(),
            r@.map_values(|n: Vec<u8>| n@) =~= subfolder_names(entries@.subrange(0, i as int)),
        decreases entries@.len() - i,
    {
        if entries[i].is_dir {
            r.push(copy_bytes(&entries[i].name));
        }
        i = i + 1;
        proof {
            assert(entries@.subrange(0, i as int).drop_last() =~= entries@.subrange(
                0,
                i as int - 1,
            ));
        }
    }
    proof {
        assert(entries@.subrange(0, entries@.len() as int) =~= entries@);
    }
    r
}

/// A submission's display name: the folder's own name where one is known,
/// and a positional fallback otherwise.
pub fn display_name_or_default(name: Option<String>, index: usize) -> (r: String)
    requires
        index < usize::MAX,
    ensures
        match name {
            Some(n) => r@ == n@,
            None => r@ == "Folder_"@ + dec_str((index + 1) as nat),
        },
{
    match name {
        Some(n) => n,
        None => {
            let mut r = "Folder_".to_owned();
            let digits = u64_to_dec((index + 1) as u64);
            r.append(digits.as_str());
            r
        },
    }
}

/// The exit status of a finished process, in words.
pub open spec fn status_text(code: Option<i32>) -> Seq<char> {
    match code {
        Some(c) => "exit code "@ + int_str(c as int),
        None => "terminated by signal"@,
    }
}

/// The text of an output-retrieval failure.
pub open spec fn read_failure_text(r: OutputReadFailureV) -> Seq<char> {
    match r {
        OutputReadFailureV::DirectoryFound { path } => "Failed to open output file: "@ + path
            + " (path is unexpectedly a directory)"@,
        OutputReadFailureV::OpenFailed { path, cause } => "Failed to open output file: "@ + path
            + ": "@ + cause,
        OutputReadFailureV::ReadFailed { path, cause } => "Failed to read output file "@ + path
            + ": "@ + cause,
    }
}

/// The text a run's error is recorded as.
pub open spec fn error_text(e: ExecutionErrorV) -> Seq<char> {
    match e {
        ExecutionErrorV::Workspace { path, cause } => "Failed to prepare workspace file "@ + path
            + ": "@ + cause,
        ExecutionErrorV::Launch { cause } => "Failed to run container process: "@ + cause,
        ExecutionErrorV::Timeout => "Execution timed out."@,
        ExecutionErrorV::NonZeroExit { code, stderr } => {
            "Container execution failed with status: "@ + status_text(code) + "\nStderr: "@
                + stderr
        },
        ExecutionErrorV::OutputUnreadable { reason } => read_failure_text(reason),
        ExecutionErrorV::Resolution { folder } => "No Python file (.py) found in folder: "@
            + folder,
    }
}

fn status_string(code: &Option<i32>) -> (r: String)
    ensures
        r@ == status_text(*code),
{
    match code {
        Some(c) => {
            let mut r = "exit code ".to_owned();
            let digits = i32_to_dec(*c);
            r.append(digits.as_str());
            r
        },
        None => "terminated by signal".to_owned(),
    }
}

/// Renders a run's error as the text it is recorded under.
pub fn describe_error(e: &ExecutionError) -> (r: String)
    ensures
        r@ == error_text(e@),
{
    match e {
        ExecutionError::Workspace { path, cause } => {
            let mut r = "Failed to prepare workspace file ".to_owned();
            r.append(path.as_str());
            r.append(": ");
            r.append(cause.as_str());
            r
        },
        ExecutionError::Launch { cause } => {
            let mut r = "Failed to run container process: ".to_owned();
            r.append(cause.as_str());
            r
        },
        ExecutionError::Timeout => "Execution timed out.".to_owned(),
        ExecutionError::NonZeroExit { code, stderr } => {
            let mut r = "Container execution failed with status: ".to_owned();
            let status = status_string(code);
            r.append(status.as_str());
            r.append("\nStderr: ");
            r.append(stderr.as_str());
            r
        },
        ExecutionError::OutputUnreadable { reason } => match reason {
            OutputReadFailure::DirectoryFound { path } => {
                let mut r = "Failed to open output file: ".to_owned();
                r.append(path.as_str());
                r.append(" (path is unexpectedly a directory)");
                r
            },
            OutputReadFailure::OpenFailed { path, cause } => {
                let mut r = "Failed to open output file: ".to_owned();
                r.append(path.as_str());
                r.append(": ");
                r.append(cause.as_str());
                r
            },
            OutputReadFailure::ReadFailed { path, cause } => {
                let mut r = "Failed to read output file ".to_owned();
                r.append(path.as_str());
                r.append(": ");
                r.append(cause.as_str());
                r
            },
        },
        ExecutionError::Resolution { folder } => {
            let mut r = "No Python file (.py) found in folder: ".to_owned();
            r.append(folder.as_str());
            r
        },
    }
}

/// The body of a successful run's report entry: the result artifact and the
/// two console streams.
pub open spec fn success_body(res: ExecutionResultV) -> Seq<char> {
    "Execution Output:\n"@ + res.result_contents + "\n\nConsole Output (from script_runner.py):\n"@
        + res.stdout + "\n\nConsole Errors (from script_runner.py):\n"@ + res.stderr
}

/// Renders a successful run's combined result.
pub fn format_success(res: &ExecutionResult) -> (r: String)
    ensures
        r@ == success_body(res@),
{
    let mut r = "Execution Output:\n".to_owned();
    r.append(res.result_contents.as_str());
    r.append("\n\nConsole Output (from script_runner.py):\n");
    r.append(res.stdout.as_str());
    r.append("\n\nConsole Errors (from script_runner.py):\n");
    r.append(res.stderr.as_str());
    r
}

/// One submission's section of the batch report: a header naming the
/// submission, then its result or error text.
pub open spec fn section_text(name: Seq<char>, v: Result<ExecutionResultV, ExecutionErrorV>) -> Seq<
    char,
> {
    "--- Running Submission: "@ + name + " ---\n"@ + match v {
        Ok(res) => "Result for "@ + name + ":\n"@ + success_body(res) + "\n\n"@,
        Err(e) => "Error for "@ + name + ":\n"@ + error_text(e) + "\n\n"@,
    }
}

/// Renders one submission's section, labeled with its display name whether
/// the run succeeded or failed.
pub fn submission_section(name: &str, verdict: &Result<ExecutionResult, ExecutionError>) -> (r:
    String)
    ensures
        r@ == section_text(name@, verdict_view(*verdict)),
{
    let mut r = "--- Running Submission: ".to_owned();
    r.append(name);
    r.append(" ---\n");
    match verdict {
        Ok(res) => {
            r.append("Result for ");
            r.append(name);
            r.append(":\n");
            let body = format_success(res);
            r.append(body.as_str());
            r.append("\n\n");
        },
        Err(e) => {
            r.append("Error for ");
            r.append(name);
            r.append(":\n");
            let body = describe_error(e);
            r.append(body.as_str());
            r.append("\n\n");
        },
    }
    r
}

/// One submission's name and concluded verdict, ready to be recorded.
pub struct SubmissionReport {
    pub name: String,
    pub verdict: Result<ExecutionResult, ExecutionError>,
}

/// The whole batch report: one section per submission, concatenated in
/// submission order.
pub open spec fn report_text(s: Seq<SubmissionReport>) -> Seq<char>
    decreases s.len(),
{
    if s.len() == 0 {
        Seq::empty()
    } else {
        report_text(s.drop_last()) + section_text(s.last().name@, verdict_view(s.last().verdict))
    }
}

/// Batch isolation, at the report level: adding one submission to a batch
/// appends exactly that submission's section and leaves every earlier
/// section untouched, whatever its verdict — a failing submission never
/// disturbs the others' entries.
pub proof fn lemma_one_section_per_submission(entries: Seq<SubmissionReport>, e: SubmissionReport)
    ensures
        report_text(entries.push(e)) == report_text(entries) + section_text(
            e.name@,
            verdict_view(e.verdict),
        ),
{
    assert(entries.push(e).drop_last() =~= entries);
    assert(entries.push(e).last() == e);
}

/// Assembles the batch report: exactly one section per submission, in the
/// order the submissions were given, each labeled with its display name; one
/// submission's failure leaves every other section intact.
pub fn build_report(entries: &Vec<SubmissionReport>) -> (r: String)
    ensures
        r@ == report_text(entries@),
{
    let mut r = String::new();
    let mut i: usize = 0;
    while i < entries.len()
        invariant
            i <= entries@.len(),
            r@ == report_text(entries@.subrange(0, i as int)),
        decreases entries@.len() - i,
    {
        let section = submission_section(entries[i].name.as_str(), &entries[i].verdict);
        r.append(section.as_str());
        i = i + 1;
        proof {
            assert(entries@.subrange(0, i as int).drop_last() =~= entries@.subrange(
                0,
                i as int - 1,
            ));
        }
    }
    proof {
        assert(entries@.subrange(0, entries@.len() as int) =~= entries@);
    }
    r
}

/// What the coordinator must do once one submission's run has concluded,
/// whatever the verdict was: record the submission's section, and remove the
/// run's workspace root from disk. The cleanup names exactly the directory
/// the run owned, on every exit path; a removal failure is logged by the
/// coordinator and never escalated.
pub struct PostRunDirective {
    pub append_section: String,
    pub remove_workspace_root: String,
}

/// Concludes one submission: the directive pairs the section to record with
/// the unconditional cleanup of the run's workspace.
pub fn conclude_submission(
    name: &str,
    w: &TempWorkspace,
    verdict: &Result<ExecutionResult, ExecutionError>,
) -> (d: PostRunDirective)
    ensures
        d.append_section@ == section_text(name@, verdict_view(*verdict)),
        d.remove_workspace_root@ == w.root_dir@,
{
    let section = submission_section(name, verdict);
    PostRunDirective { append_section: section, remove_workspace_root: w.root_dir.clone() }
}

} // verus!
