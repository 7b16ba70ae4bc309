use gradebox::orchestrator::ExecutionError;
use gradebox::orchestrator::ExecutionRequest;
use gradebox::orchestrator::OutputReadFailure;
use gradebox::orchestrator::ReadOutcome;
use gradebox::orchestrator::RunTrace;
use gradebox::orchestrator::run_verdict;
use gradebox::output_prep::PathKind;
use gradebox::ExecutorManager;

fn request() -> ExecutionRequest {
    ExecutionRequest {
        code_path: "/tmp/ws/user_code.py".to_string(),
        input_path: "/tmp/ws/input.txt".to_string(),
        output_path: "/tmp/ws/output.txt".to_string(),
    }
}

#[test]
fn executor_manager_reference_config() {
    let m = ExecutorManager::new();
    assert_eq!(m.time_budget_ms, 10000);
    assert_eq!(m.memory_mib, 256);
    assert_eq!(m.cpu_milli, 500);
}

#[test]
fn container_args_exact_vector() {
    let m = ExecutorManager::new();
    let args = m.container_args(&request());
    let expected = vec![
        "run",
        "--rm",
        "--network=none",
        "--memory=256m",
        "--cpus=0.500",
        "-v",
        "/tmp/ws/user_code.py:/app/user_code.py",
        "-v",
        "/tmp/ws/input.txt:/app/input.txt",
        "-v",
        "/tmp/ws/output.txt:/app/output.txt",
        "python-runner",
        "python",
        "/app/script_runner.py",
        "/app/user_code.py",
        "/app/input.txt",
        "/app/output.txt",
    ];
    let got: Vec<&str> = args.iter().map(|s| s.as_str()).collect();
    assert_eq!(got, expected);
}

#[test]
fn deadline_always_concludes_in_timeout() {
    let r = run_verdict(&request(), RunTrace::DeadlineElapsed { kill_failure: None });
    assert!(matches!(r, Err(ExecutionError::Timeout)));
}

#[test]
fn failed_kill_still_concludes_in_timeout() {
    let r = run_verdict(
        &request(),
        RunTrace::DeadlineElapsed { kill_failure: Some("no such process".to_string()) },
    );
    assert!(matches!(r, Err(ExecutionError::Timeout)));
}

#[test]
fn spawn_failure_concludes_in_launch_error() {
    let r = run_verdict(&request(), RunTrace::SpawnFailed { cause: "not found".to_string() });
    match r {
        Err(ExecutionError::Launch { cause }) => assert_eq!(cause, "not found"),
        other => panic!("wrong verdict kind: {}", verdict_kind(&other)),
    }
}

#[test]
fn prime_failure_concludes_in_workspace_error() {
    let r = run_verdict(
        &request(),
        RunTrace::PrimeFailed {
            path: "/tmp/ws/output.txt".to_string(),
            cause: "permission denied".to_string(),
        },
    );
    match r {
        Err(ExecutionError::Workspace { path, cause }) => {
            assert_eq!(path, "/tmp/ws/output.txt");
            assert_eq!(cause, "permission denied");
        }
        other => panic!("wrong verdict kind: {}", verdict_kind(&other)),
    }
}

#[test]
fn nonzero_exit_is_never_success() {
    // The output file holds content, but a failing process's output is not
    // trusted: the verdict must be the classified error, never a result.
    let r = run_verdict(
        &request(),
        RunTrace::Exited {
            success: false,
            code: Some(1),
            stdout: b"ignored".to_vec(),
            stderr: b"boom".to_vec(),
            output_file: ReadOutcome::Contents { bytes: b"forged result".to_vec() },
        },
    );
    match r {
        Err(ExecutionError::NonZeroExit { code, stderr }) => {
            assert_eq!(code, Some(1));
            assert_eq!(stderr, "boom");
        }
        other => panic!("wrong verdict kind: {}", verdict_kind(&other)),
    }
}

#[test]
fn successful_exit_combines_output_and_streams() {
    let r = run_verdict(
        &request(),
        RunTrace::Exited {
            success: true,
            code: Some(0),
            stdout: b"hello".to_vec(),
            stderr: b"".to_vec(),
            output_file: ReadOutcome::Contents { bytes: b"42\n".to_vec() },
        },
    );
    match r {
        Ok(res) => {
            assert_eq!(res.result_contents, "42\n");
            assert_eq!(res.stdout, "hello");
            assert_eq!(res.stderr, "");
        }
        Err(_) => panic!("expected success"),
    }
}

#[test]
fn invalid_bytes_never_fail_the_run() {
    // Invalid UTF-8 on every channel: the run still succeeds, with the
    // replacement character standing in for each invalid byte.
    let r = run_verdict(
        &request(),
        RunTrace::Exited {
            success: true,
            code: Some(0),
            stdout: vec![0xff, 0xfe],
            stderr: vec![b'o', 0x80, b'k'],
            output_file: ReadOutcome::Contents { bytes: vec![0xc3] },
        },
    );
    match r {
        Ok(res) => {
            assert_eq!(res.stdout, "\u{FFFD}\u{FFFD}");
            assert_eq!(res.stderr, "o\u{FFFD}k");
            assert_eq!(res.result_contents, "\u{FFFD}");
        }
        Err(_) => panic!("expected success"),
    }
}

#[test]
fn output_path_turned_directory_is_its_own_error() {
    let r = run_verdict(
        &request(),
        RunTrace::Exited {
            success: true,
            code: Some(0),
            stdout: vec![],
            stderr: vec![],
            output_file: ReadOutcome::OpenFailed {
                observed: PathKind::IsDir,
                cause: "is a directory".to_string(),
            },
        },
    );
    match r {
        Err(ExecutionError::OutputUnreadable {
            reason: OutputReadFailure::DirectoryFound { path },
        }) => {
            assert_eq!(path, "/tmp/ws/output.txt");
        }
        other => panic!("wrong verdict kind: {}", verdict_kind(&other)),
    }
}

#[test]
fn unreadable_output_reports_open_and_read_failures_apart() {
    // A regular file that would not open gets the distinct open-failed error
    // with its cause.
    let open_failed = run_verdict(
        &request(),
        RunTrace::Exited {
            success: true,
            code: Some(0),
            stdout: vec![],
            stderr: vec![],
            output_file: ReadOutcome::OpenFailed {
                observed: PathKind::IsFile,
                cause: "permission denied".to_string(),
            },
        },
    );
    assert!(matches!(
        open_failed,
        Err(ExecutionError::OutputUnreadable { reason: OutputReadFailure::OpenFailed { .. } })
    ));
    // A path that resolves to neither a file nor a directory (or cannot be
    // inspected at all) gets the generic read failure.
    let vanished = run_verdict(
        &request(),
        RunTrace::Exited {
            success: true,
            code: Some(0),
            stdout: vec![],
            stderr: vec![],
            output_file: ReadOutcome::OpenFailed {
                observed: PathKind::Missing,
                cause: "no such file".to_string(),
            },
        },
    );
    assert!(matches!(
        vanished,
        Err(ExecutionError::OutputUnreadable { reason: OutputReadFailure::ReadFailed { .. } })
    ));
    let read_failed = run_verdict(
        &request(),
        RunTrace::Exited {
            success: true,
            code: Some(0),
            stdout: vec![],
            stderr: vec![],
            output_file: ReadOutcome::ReadFailed { cause: "interrupted".to_string() },
        },
    );
    assert!(matches!(
        read_failed,
        Err(ExecutionError::OutputUnreadable { reason: OutputReadFailure::ReadFailed { .. } })
    ));
}

#[test]
fn wait_failure_concludes_in_launch_error() {
    let r = run_verdict(&request(), RunTrace::WaitFailed { cause: "lost child".to_string() });
    assert!(matches!(r, Err(ExecutionError::Launch { .. })));
}

fn verdict_kind(r: &Result<gradebox::orchestrator::ExecutionResult, ExecutionError>) -> &str {
    match r {
        Ok(_) => "success",
        Err(ExecutionError::Workspace { .. }) => "workspace",
        Err(ExecutionError::Launch { .. }) => "launch",
        Err(ExecutionError::Timeout) => "timeout",
        Err(ExecutionError::NonZeroExit { .. }) => "nonzero-exit",
        Err(ExecutionError::OutputUnreadable { .. }) => "output-unreadable",
        Err(ExecutionError::Resolution { .. }) => "resolution",
    }
}
