//! Supervision of one containerized execution: the fixed resource ceilings,
//! the container argument vector, and the classification of everything that
//! can happen to the child process into one verdict.
//!
//! The coordinator that actually spawns the child, races it against the
//! deadline and touches the disk reports what happened as a [`RunTrace`];
//! [`run_verdict`] turns that trace into the run's result, and its contract
//! pins the verdict for every trace.

use vstd::prelude::*;
use vstd::string::StringExecFns;

use crate::output_prep::PathKind;
use crate::text::dec_str;
use crate::text::u64_to_dec;

verus! {

/// What a byte stream decodes to when invalid sequences are replaced rather
/// than rejected. The decoding depends on the bytes alone.
pub uninterp spec fn lossy_decoded(bytes: Seq<u8>) -> Seq<char>;

/// Relies on `String::from_utf8_lossy`: a pure function of the bytes alone
/// that replaces invalid sequences and never fails; an empty input decodes
/// to the empty string.
#[verifier::external_body]
fn lossy_decode(bytes: &Vec<u8>) -> (r: String)
    ensures
        r@ == lossy_decoded(bytes@),
        bytes@.len() == 0 ==> r@.len() == 0,
{
    String::from_utf8_lossy(bytes).into_owned()
}

/// Fixed per-run resource ceilings and deadline for one containerized
/// execution. The limits are not caller-configurable: `new` always yields
/// the reference configuration.
pub struct ExecutorManager {
    /// Wall-clock deadline for one run, in milliseconds.
    pub time_budget_ms: u64,
    /// Container memory ceiling, in MiB.
    pub memory_mib: u64,
    /// Container CPU share, in thousandths of one core.
    pub cpu_milli: u64,
}

/// A bind-mount argument: host path and in-container path, colon-separated.
pub open spec fn mount_spec(host: Seq<char>, guest: Seq<char>) -> Seq<char> {
    host + ":"@ + guest
}

/// The memory-ceiling argument for a ceiling of `mib` MiB.
pub open spec fn memory_arg_spec(mib: nat) -> Seq<char> {
    "--memory="@ + dec_str(mib) + "m"@
}

/// `f`, which must be below a thousand, rendered as exactly three decimal
/// digits.
pub open spec fn frac3_str(f: nat) -> Seq<char> {
    if f < 10 {
        "00"@ + dec_str(f)
    } else if f < 100 {
        "0"@ + dec_str(f)
    } else {
        dec_str(f)
    }
}

/// The CPU-share argument for a share of `milli` thousandths of one core.
pub open spec fn cpus_arg_spec(milli: nat) -> Seq<char> {
    "--cpus="@ + dec_str(milli / 1000) + "."@ + frac3_str(milli % 1000)
}

/// The argument vector of the container launch for one request: one child
/// process, network disabled, memory and CPU capped, the three paths bound
/// to fixed in-container locations, and the fixed in-container driver given
/// those locations as its three positional arguments.
pub open spec fn container_args_spec(
    m: ExecutorManager,
    code: Seq<char>,
    input: Seq<char>,
    output: Seq<char>,
) -> Seq<Seq<char>> {
    seq![
        "run"@,
        "--rm"@,
        "--network=none"@,
        memory_arg_spec(m.memory_mib as nat),
        cpus_arg_spec(m.cpu_milli as nat),
        "-v"@,
        mount_spec(code, "/app/user_code.py"@),
        "-v"@,
        mount_spec(input, "/app/input.txt"@),
        "-v"@,
        mount_spec(output, "/app/output.txt"@),
        "python-runner"@,
        "python"@,
        "/app/script_runner.py"@,
        "/app/user_code.py"@,
        "/app/input.txt"@,
        "/app/output.txt"@,
    ]
}

fn mount_arg(host: &str, guest: &str) -> (r: String)
    ensures
        r@ == mount_spec(host@, guest@),
{
    let mut r = host.to_owned();
    r.append(":");
    r.append(guest);
    r
}

fn memory_arg(mib: u64) -> (r: String)
    ensures
        r@ == memory_arg_spec(mib as nat),
{
    let mut r = "--memory=".to_owned();
    let digits = u64_to_dec(mib);
    r.append(digits.as_str());
    r.append("m");
    r
}

fn cpus_arg(milli: u64) -> (r: String)
    ensures
        r@ == cpus_arg_spec(milli as nat),
{
    let mut r = "--cpus=".to_owned();
    let whole = u64_to_dec(milli / 1000);
    r.append(whole.as_str());
    r.append(".");
    let f: u64 = milli % 1000;
    let frac = u64_to_dec(f);
    if f < 10 {
        r.append("00");
    } else if f < 100 {
        r.append("0");
    }
    r.append(frac.as_str());
    r
}

impl ExecutorManager {
    pub fn new() -> (m: Self)
        ensures
            m.time_budget_ms == 10000,
            m.memory_mib == 256,
            m.cpu_milli == 500,
    {
        ExecutorManager { time_budget_ms: 10000, memory_mib: 256, cpu_milli: 500 }
    }

    /// Builds the container launch arguments for one request, as a plain
    /// argument vector (never an interpolated shell string).
    pub fn container_args(&self, req: &ExecutionRequest) -> (args: Vec<String>)
        ensures
            args@.map_values(|s: String| s@) == container_args_spec(
                *self,
                req.code_path@,
                req.input_path@,
                req.output_path@,
            ),
    {
        let mut args: Vec<String> = Vec::new();
        args.push("run".to_owned());
        args.push("--rm".to_owned());
        args.push("--network=none".to_owned());
        args.push(memory_arg(self.memory_mib));
        args.push(cpus_arg(self.cpu_milli));
        args.push("-v".to_owned());
        args.push(mount_arg(req.code_path.as_str(), "/app/user_code.py"));
        args.push("-v".to_owned());
        args.push(mount_arg(req.input_path.as_str(), "/app/input.txt"));
        args.push("-v".to_owned());
        args.push(mount_arg(req.output_path.as_str(), "/app/output.txt"));
        args.push("python-runner".to_owned());
        args.push("python".to_owned());
        args.push("/app/script_runner.py".to_owned());
        args.push("/app/user_code.py".to_owned());
        args.push("/app/input.txt".to_owned());
        args.push("/app/output.txt".to_owned());
        proof {
            assert(args@.map_values(|s: String| s@) =~= container_args_spec(
                *self,
                req.code_path@,
                req.input_path@,
                req.output_path@,
            ));
        }
        args
    }
}

/// The three filesystem locations one run owns exclusively.
pub struct ExecutionRequest {
    pub code_path: String,
    pub input_path: String,
    pub output_path: String,
}

/// A successful run: the result artifact the container wrote, and its
/// captured console streams.
pub struct ExecutionResult {
    pub result_contents: String,
    pub stdout: String,
    pub stderr: String,
}

/// Mathematical image of [`ExecutionResult`].
pub struct ExecutionResultV {
    pub result_contents: Seq<char>,
    pub stdout: Seq<char>,
    pub stderr: Seq<char>,
}

impl View for ExecutionResult {
    type V = ExecutionResultV;

    open spec fn view(&self) -> ExecutionResultV {
        ExecutionResultV {
            result_contents: self.result_contents@,
            stdout: self.stdout@,
            stderr: self.stderr@,
        }
    }
}

/// Why a result could not be retrieved although the process reported
/// success.
pub enum OutputReadFailure {
    /// The output path unexpectedly resolved to a directory.
    DirectoryFound { path: String },
    /// The output file could not be opened.
    OpenFailed { path: String, cause: String },
    /// The output file opened but could not be read.
    ReadFailed { path: String, cause: String },
}

/// Mathematical image of [`OutputReadFailure`].
pub enum OutputReadFailureV {
    DirectoryFound { path: Seq<char> },
    OpenFailed { path: Seq<char>, cause: Seq<char> },
    ReadFailed { path: Seq<char>, cause: Seq<char> },
}

impl View for OutputReadFailure {
    type V = OutputReadFailureV;

    open spec fn view(&self) -> OutputReadFailureV {
        match self {
            OutputReadFailure::DirectoryFound { path } => OutputReadFailureV::DirectoryFound {
                path: path@,
            },
            OutputReadFailure::OpenFailed { path, cause } => OutputReadFailureV::OpenFailed {
                path: path@,
                cause: cause@,
            },
            OutputReadFailure::ReadFailed { path, cause } => OutputReadFailureV::ReadFailed {
                path: path@,
                cause: cause@,
            },
        }
    }
}

/// Everything that can go wrong with one run.
pub enum ExecutionError {
    /// Preparing the workspace or the output file failed.
    Workspace { path: String, cause: String },
    /// The container process could not be started or awaited.
    Launch { cause: String },
    /// The deadline elapsed and the process was forcibly terminated.
    Timeout,
    /// The process ran to completion but reported failure; its output file
    /// is not trusted and never read.
    NonZeroExit { code: Option<i32>, stderr: String },
    /// The process reported success but the result could not be retrieved.
    OutputUnreadable { reason: OutputReadFailure },
    /// No recognized source file was found in a submission folder.
    Resolution { folder: String },
}

/// Mathematical image of [`ExecutionError`].
pub enum ExecutionErrorV {
    Workspace { path: Seq<char>, cause: Seq<char> },
    Launch { cause: Seq<char> },
    Timeout,
    NonZeroExit { code: Option<i32>, stderr: Seq<char> },
    OutputUnreadable { reason: OutputReadFailureV },
    Resolution { folder: Seq<char> },
}

impl View for ExecutionError {
    type V = ExecutionErrorV;

    open spec fn view(&self) -> ExecutionErrorV {
        match self {
            ExecutionError::Workspace { path, cause } => ExecutionErrorV::Workspace {
                path: path@,
                cause: cause@,
            },
            ExecutionError::Launch { cause } => ExecutionErrorV::Launch { cause: cause@ },
            ExecutionError::Timeout => ExecutionErrorV::Timeout,
            ExecutionError::NonZeroExit { code, stderr } => ExecutionErrorV::NonZeroExit {
                code: *code,
                stderr: stderr@,
            },
            ExecutionError::OutputUnreadable { reason } => ExecutionErrorV::OutputUnreadable {
                reason: reason@,
            },
            ExecutionError::Resolution { folder } => ExecutionErrorV::Resolution {
                folder: folder@,
            },
        }
    }
}

/// What retrieving the output file yielded.
pub enum ReadOutcome {
    /// The file opened and read in full.
    Contents { bytes: Vec<u8> },
    /// Opening failed; `observed` records what the path resolved to when it
    /// was then inspected: a directory, a regular file, or (`Missing`)
    /// anything else, the inspection itself failing included.
    OpenFailed { observed: PathKind, cause: String },
    /// Opening succeeded but reading failed.
    ReadFailed { cause: String },
}

/// Mathematical image of [`ReadOutcome`].
pub enum ReadOutcomeV {
    Contents { bytes: Seq<u8> },
    OpenFailed { observed: PathKind, cause: Seq<char> },
    ReadFailed { cause: Seq<char> },
}

impl View for ReadOutcome {
    type V = ReadOutcomeV;

    open spec fn view(&self) -> ReadOutcomeV {
        match self {
            ReadOutcome::Contents { bytes } => ReadOutcomeV::Contents { bytes: bytes@ },
            ReadOutcome::OpenFailed { observed, cause } => ReadOutcomeV::OpenFailed {
                observed: *observed,
                cause: cause@,
            },
            ReadOutcome::ReadFailed { cause } => ReadOutcomeV::ReadFailed { cause: cause@ },
        }
    }
}

/// Everything that happened to one run, as the coordinator observed it.
/// Exactly one of these occurs per invocation; there is no retry.
pub enum RunTrace {
    /// Priming the output path failed (removal of a stale directory, or
    /// creation of the fresh empty file).
    PrimeFailed { path: String, cause: String },
    /// The child process could not be started.
    SpawnFailed { cause: String },
    /// Waiting on the started child failed.
    WaitFailed { cause: String },
    /// The deadline elapsed first; the child was killed. A failed kill is
    /// recorded here, never escalated: the timeout verdict stands.
    DeadlineElapsed { kill_failure: Option<String> },
    /// The child exited on its own. A coordinator that did not read the
    /// output file (it must not when `success` is false) passes empty
    /// contents; the verdict does not depend on them then.
    Exited {
        success: bool,
        code: Option<i32>,
        stdout: Vec<u8>,
        stderr: Vec<u8>,
        output_file: ReadOutcome,
    },
}

/// Mathematical image of [`RunTrace`].
pub enum RunTraceV {
    PrimeFailed { path: Seq<char>, cause: Seq<char> },
    SpawnFailed { cause: Seq<char> },
    WaitFailed { cause: Seq<char> },
    DeadlineElapsed { kill_failure: Option<Seq<char>> },
    Exited {
        success: bool,
        code: Option<i32>,
        stdout: Seq<u8>,
        stderr: Seq<u8>,
        output_file: ReadOutcomeV,
    },
}

impl View for RunTrace {
    type V = RunTraceV;

    open spec fn view(&self) -> RunTraceV {
        match self {
            RunTrace::PrimeFailed { path, cause } => RunTraceV::PrimeFailed {
                path: path@,
                cause: cause@,
            },
            RunTrace::SpawnFailed { cause } => RunTraceV::SpawnFailed { cause: cause@ },
            RunTrace::WaitFailed { cause } => RunTraceV::WaitFailed { cause: cause@ },
            RunTrace::DeadlineElapsed { kill_failure } => RunTraceV::DeadlineElapsed {
                kill_failure: match kill_failure {
                    Some(k) => Some(k@),
                    None => None,
                },
            },
            RunTrace::Exited { success, code, stdout, stderr, output_file } => RunTraceV::Exited {
                success: *success,
                code: *code,
                stdout: stdout@,
                stderr: stderr@,
                output_file: output_file@,
            },
        }
    }
}

/// The verdict a given trace must produce, over the mathematical images.
/// `output_path` is the path the run was asked to leave its result at.
pub open spec fn verdict_of(output_path: Seq<char>, t: RunTraceV) -> Result<
    ExecutionResultV,
    ExecutionErrorV,
> {
    match t {
        RunTraceV::PrimeFailed { path, cause } => Err(ExecutionErrorV::Workspace { path, cause }),
        RunTraceV::SpawnFailed { cause } => Err(ExecutionErrorV::Launch { cause }),
        RunTraceV::WaitFailed { cause } => Err(ExecutionErrorV::Launch { cause }),
        RunTraceV::DeadlineElapsed { .. } => Err(ExecutionErrorV::Timeout),
        RunTraceV::Exited { success, code, stdout, stderr, output_file } => {
            if success {
                match output_file {
                    ReadOutcomeV::Contents { bytes } => Ok(
                        ExecutionResultV {
                            result_contents: lossy_decoded(bytes),
                            stdout: lossy_decoded(stdout),
                            stderr: lossy_decoded(stderr),
                        },
                    ),
                    ReadOutcomeV::OpenFailed { observed, cause } => match observed {
                        PathKind::IsDir => Err(
                            ExecutionErrorV::OutputUnreadable {
                                reason: OutputReadFailureV::DirectoryFound { path: output_path },
                            },
                        ),
                        PathKind::IsFile => Err(
                            ExecutionErrorV::OutputUnreadable {
                                reason: OutputReadFailureV::OpenFailed { path: output_path, cause },
                            },
                        ),
                        PathKind::Missing => Err(
                            ExecutionErrorV::OutputUnreadable {
                                reason: OutputReadFailureV::ReadFailed { path: output_path, cause },
                            },
                        ),
                    },
                    ReadOutcomeV::ReadFailed { cause } => Err(
                        ExecutionErrorV::OutputUnreadable {
                            reason: OutputReadFailureV::ReadFailed { path: output_path, cause },
                        },
                    ),
                }
            } else {
                Err(ExecutionErrorV::NonZeroExit { code, stderr: lossy_decoded(stderr) })
            }
        },
    }
}

/// The image of a concrete verdict.
pub open spec fn verdict_view(r: Result<ExecutionResult, ExecutionError>) -> Result<
    ExecutionResultV,
    ExecutionErrorV,
> {
    match r {
        Ok(res) => Ok(res@),
        Err(e) => Err(e@),
    }
}

/// Turns what happened to one run into its result: the result artifact with
/// the lossily decoded console streams on a trusted (zero-exit) completion,
/// and the classified error on every other trace.
pub fn run_verdict(req: &ExecutionRequest, t: RunTrace) -> (r: Result<
    ExecutionResult,
    ExecutionError,
>)
    ensures
        verdict_view(r) == verdict_of(req.output_path@, t@),
{
    match t {
        RunTrace::PrimeFailed { path, cause } => Err(ExecutionError::Workspace { path, cause }),
        RunTrace::SpawnFailed { cause } => Err(ExecutionError::Launch { cause }),
        RunTrace::WaitFailed { cause } => Err(ExecutionError::Launch { cause }),
        RunTrace::DeadlineElapsed { kill_failure: _ } => Err(ExecutionError::Timeout),
        RunTrace::Exited { success, code, stdout, stderr, output_file } => {
            if success {
                match output_file {
                    ReadOutcome::Contents { bytes } => {
                        let result_contents = lossy_decode(&bytes);
                        let out = lossy_decode(&stdout);
                        let err = lossy_decode(&stderr);
                        Ok(ExecutionResult { result_contents, stdout: out, stderr: err })
                    },
                    ReadOutcome::OpenFailed { observed, cause } => match observed {
                        PathKind::IsDir => Err(
                            ExecutionError::OutputUnreadable {
                                reason: OutputReadFailure::DirectoryFound {
                                    path: req.output_path.clone(),
                                },
                            },
                        ),
                        PathKind::IsFile => Err(
                            ExecutionError::OutputUnreadable {
                                reason: OutputReadFailure::OpenFailed {
                                    path: req.output_path.clone(),
                                    cause,
                                },
                            },
                        ),
                        PathKind::Missing => Err(
                            ExecutionError::OutputUnreadable {
                                reason: OutputReadFailure::ReadFailed {
                                    path: req.output_path.clone(),
                                    cause,
                                },
                            },
                        ),
                    },
                    ReadOutcome::ReadFailed { cause } => Err(
                        ExecutionError::OutputUnreadable {
                            reason: OutputReadFailure::ReadFailed {
                                path: req.output_path.clone(),
                                cause,
                            },
                        },
                    ),
                }
            } else {
                let stderr_text = lossy_decode(&stderr);
                Err(ExecutionError::NonZeroExit { code, stderr: stderr_text })
            }
        },
    }
}

/// Timeout enforcement, at the verdict level: a run concludes with `Timeout`
/// exactly when the deadline elapsed first, whatever came of the forced
/// kill; a failed kill is never treated as success.
pub proof fn lemma_timeout_exactly_on_deadline(output_path: Seq<char>, t: RunTraceV)
    ensures
        verdict_of(output_path, t) == Err::<ExecutionResultV, ExecutionErrorV>(
            ExecutionErrorV::Timeout,
        ) <==> (t is DeadlineElapsed),
{
}

/// Trusted-output invariant: when the process exits non-zero, the run never
/// concludes successfully, and its verdict is the same whatever the output
/// file held — the file is not trusted and its contents cannot influence
/// the outcome.
pub proof fn lemma_failed_exit_never_success(
    output_path: Seq<char>,
    code: Option<i32>,
    stdout: Seq<u8>,
    stderr: Seq<u8>,
    file1: ReadOutcomeV,
    file2: ReadOutcomeV,
)
    ensures
        verdict_of(
            output_path,
            RunTraceV::Exited { success: false, code, stdout, stderr, output_file: file1 },
        ) == Err::<ExecutionResultV, ExecutionErrorV>(
            ExecutionErrorV::NonZeroExit { code, stderr: lossy_decoded(stderr) },
        ),
        verdict_of(
            output_path,
            RunTraceV::Exited { success: false, code, stdout, stderr, output_file: file1 },
        ) == verdict_of(
            output_path,
            RunTraceV::Exited { success: false, code, stdout, stderr, output_file: file2 },
        ),
{
}

/// Lossy decode safety: a process that exited successfully and left a
/// readable result concludes in a success verdict whatever bytes it emitted
/// on any of its three channels — invalid sequences are replaced, never
/// fatal.
pub proof fn lemma_lossy_decode_never_fails(
    output_path: Seq<char>,
    code: Option<i32>,
    stdout: Seq<u8>,
    stderr: Seq<u8>,
    bytes: Seq<u8>,
)
    ensures
        verdict_of(
            output_path,
            RunTraceV::Exited {
                success: true,
                code,
                stdout,
                stderr,
                output_file: ReadOutcomeV::Contents { bytes },
            },
        ) == Ok::<ExecutionResultV, ExecutionErrorV>(
            ExecutionResultV {
                result_contents: lossy_decoded(bytes),
                stdout: lossy_decoded(stdout),
                stderr: lossy_decoded(stderr),
            },
        ),
{
}

} // verus!
