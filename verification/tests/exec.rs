use codex_core::exec::{
    aggregate_output, append_capped, build_exec_request, finalize_exec_result, raw_exec_output, settle_wait,
    ExecCapturePolicy, ExecError, ExecExpiration, ExecExpirationOutcome, ExecParams,
    ExecWaitEvent, ExitStatusInfo, OutputReader, RawExecToolCallOutput, StreamOutput,
    DEFAULT_EXEC_COMMAND_TIMEOUT_MS, EXEC_OUTPUT_MAX_BYTES, EXEC_TIMEOUT_EXIT_CODE,
    IO_DRAIN_TIMEOUT_MS, MAX_EXEC_OUTPUT_DELTAS_PER_CALL,
};

fn stream(bytes: &[u8]) -> StreamOutput {
    StreamOutput {
        text: bytes.to_vec(),
        truncated_after_lines: None,
    }
}

fn params(command: Vec<String>) -> ExecParams {
    ExecParams {
        command,
        cwd: "/tmp".to_string(),
        expiration: ExecExpiration::DefaultTimeout,
        capture_policy: ExecCapturePolicy::ShellTool,
        env: vec![("A".to_string(), "1".to_string())],
        justification: Some("why".to_string()),
        arg0: None,
    }
}

#[test]
fn aggregate_keeps_both_streams_when_they_fit() {
    let out = aggregate_output(&stream(b"hello "), &stream(b"world"), Some(100));
    assert_eq!(out.text, b"hello world".to_vec());
    assert_eq!(out.truncated_after_lines, None);
}

#[test]
fn aggregate_without_limit_concatenates() {
    let out = aggregate_output(&stream(b"abc"), &stream(b"def"), None);
    assert_eq!(out.text, b"abcdef".to_vec());
}

#[test]
fn aggregate_cut_gives_stdout_a_third_and_stderr_the_rest() {
    // limit 9: stdout wants at most 3, stderr fills the remaining 6.
    let out = aggregate_output(&stream(b"0123456789"), &stream(b"abcdefghij"), Some(9));
    assert_eq!(out.text, b"012abcdef".to_vec());
    assert_eq!(out.text.len(), 9);
}

#[test]
fn aggregate_cut_gives_stdout_what_stderr_leaves() {
    // limit 9: stderr only has 2 bytes, so stdout takes the other 7.
    let out = aggregate_output(&stream(b"0123456789"), &stream(b"ab"), Some(9));
    assert_eq!(out.text, b"0123456ab".to_vec());
}

#[test]
fn append_capped_stops_at_limit() {
    let mut buf = b"abc".to_vec();
    append_capped(&mut buf, b"defgh", 5);
    assert_eq!(buf, b"abcde".to_vec());
    append_capped(&mut buf, b"xyz", 5);
    assert_eq!(buf, b"abcde".to_vec());
}

#[test]
fn reader_stops_streaming_after_the_delta_limit() {
    let mut reader = OutputReader::new(Some(4));
    let mut emitted = 0;
    for _ in 0..(MAX_EXEC_OUTPUT_DELTAS_PER_CALL + 5) {
        if reader.accept_chunk(b"xy", true) {
            emitted += 1;
        }
    }
    assert_eq!(emitted, MAX_EXEC_OUTPUT_DELTAS_PER_CALL);
    assert_eq!(reader.finish().text, b"xyxy".to_vec());
}

#[test]
fn reader_without_listener_never_emits() {
    let mut reader = OutputReader::new(None);
    assert!(!reader.accept_chunk(b"abc", false));
    assert!(!reader.accept_chunk(b"def", false));
    assert_eq!(reader.emitted_deltas, 0);
    assert_eq!(reader.finish().text, b"abcdef".to_vec());
}

#[test]
fn build_exec_request_rejects_empty_command() {
    let err = build_exec_request(params(Vec::new())).unwrap_err();
    assert_eq!(err, ExecError::InvalidInput("command args are empty".to_string()));
}

#[test]
fn build_exec_request_keeps_the_call() {
    let req = build_exec_request(params(vec!["ls".to_string(), "-l".to_string()])).unwrap();
    assert_eq!(req.command, vec!["ls".to_string(), "-l".to_string()]);
    assert_eq!(req.cwd, "/tmp");
    assert_eq!(req.env, vec![("A".to_string(), "1".to_string())]);
    assert_eq!(req.capture_policy, ExecCapturePolicy::ShellTool);
}

fn raw(code: Option<i32>, signal: Option<i32>, timed_out: bool) -> RawExecToolCallOutput {
    RawExecToolCallOutput {
        exit_status: ExitStatusInfo { code, signal },
        stdout: stream(b"out"),
        stderr: stream(b"err"),
        aggregated_output: stream(b"outerr"),
        timed_out,
    }
}

#[test]
fn finalize_reports_exit_code() {
    let out = finalize_exec_result(Ok(raw(Some(3), None, false)), 42).unwrap();
    assert_eq!(out.exit_code, 3);
    assert!(!out.timed_out);
    assert_eq!(out.duration_ms, 42);
    assert_eq!(out.aggregated_output.text, b"outerr".to_vec());
}

#[test]
fn finalize_treats_timeout_signal_as_timeout() {
    let out = finalize_exec_result(Ok(raw(None, Some(64), false)), 1).unwrap();
    assert!(out.timed_out);
    assert_eq!(out.exit_code, EXEC_TIMEOUT_EXIT_CODE);
}

#[test]
fn finalize_fails_on_other_signals() {
    let err = finalize_exec_result(Ok(raw(None, Some(9), false)), 1).unwrap_err();
    assert_eq!(
        err,
        ExecError::Fatal("process terminated by signal 9".to_string())
    );
}

#[test]
fn finalize_without_code_reports_minus_one() {
    let out = finalize_exec_result(Ok(raw(None, None, false)), 1).unwrap();
    assert_eq!(out.exit_code, -1);
}

#[test]
fn finalize_passes_errors_through() {
    let err = finalize_exec_result(Err(ExecError::Io("boom".to_string())), 1).unwrap_err();
    assert_eq!(err, ExecError::Io("boom".to_string()));
}

#[test]
fn timed_out_wait_reports_synthetic_status() {
    let (status, timed_out) = settle_wait(ExecWaitEvent::Expired(ExecExpirationOutcome::TimedOut));
    assert!(timed_out);
    assert_eq!(status, ExitStatusInfo { code: Some(192), signal: None });
    let out = finalize_exec_result(
        Ok(RawExecToolCallOutput {
            exit_status: status,
            stdout: stream(b""),
            stderr: stream(b""),
            aggregated_output: stream(b""),
            timed_out,
        }),
        0,
    )
    .unwrap();
    assert_eq!(out.exit_code, 124);
}

#[test]
fn cancelled_and_interrupted_waits_exit_with_one() {
    assert_eq!(
        settle_wait(ExecWaitEvent::Expired(ExecExpirationOutcome::Cancelled)),
        (ExitStatusInfo { code: Some(1), signal: None }, false)
    );
    assert_eq!(
        settle_wait(ExecWaitEvent::Interrupted),
        (ExitStatusInfo { code: Some(1), signal: None }, false)
    );
    let exited = ExitStatusInfo { code: Some(0), signal: None };
    assert_eq!(settle_wait(ExecWaitEvent::Exited(exited)), (exited, false));
}

#[test]
fn expiration_timeouts() {
    assert_eq!(ExecExpiration::from(Some(5_000)).timeout_ms(), Some(5_000));
    assert_eq!(
        ExecExpiration::from(None).timeout_ms(),
        Some(DEFAULT_EXEC_COMMAND_TIMEOUT_MS)
    );
    assert_eq!(ExecExpiration::from(7u64), ExecExpiration::Timeout(7));
    assert_eq!(ExecExpiration::Cancellation.timeout_ms(), None);
    assert_eq!(
        ExecExpiration::TimeoutOrCancellation { timeout_ms: 9 }.timeout_ms(),
        Some(9)
    );
    assert_eq!(
        ExecExpiration::TimeoutOrCancellation { timeout_ms: 9 }.outcome(true),
        ExecExpirationOutcome::Cancelled
    );
    assert_eq!(
        ExecExpiration::Timeout(1).outcome(false),
        ExecExpirationOutcome::TimedOut
    );
}

#[test]
fn capture_policies() {
    assert_eq!(ExecCapturePolicy::default(), ExecCapturePolicy::ShellTool);
    assert_eq!(
        ExecCapturePolicy::ShellTool.retained_bytes_cap(),
        Some(EXEC_OUTPUT_MAX_BYTES)
    );
    assert_eq!(ExecCapturePolicy::FullBuffer.retained_bytes_cap(), None);
    assert!(ExecCapturePolicy::ShellTool.uses_expiration());
    assert!(!ExecCapturePolicy::FullBuffer.uses_expiration());
    assert_eq!(
        ExecCapturePolicy::FullBuffer.io_drain_timeout(),
        IO_DRAIN_TIMEOUT_MS
    );
}

#[test]
fn raw_exec_output_assembles_status_and_streams() {
    let done = raw_exec_output(
        ExecWaitEvent::Exited(ExitStatusInfo { code: Some(0), signal: None }),
        ExecCapturePolicy::FullBuffer,
        stream(b"out"),
        stream(b"err"),
    );
    assert!(!done.timed_out);
    assert_eq!(done.exit_status.code, Some(0));
    assert_eq!(done.stdout, stream(b"out"));
    assert_eq!(done.aggregated_output.text, b"outerr".to_vec());
    let timed = raw_exec_output(
        ExecWaitEvent::Expired(ExecExpirationOutcome::TimedOut),
        ExecCapturePolicy::ShellTool,
        stream(b"a"),
        stream(b""),
    );
    assert!(timed.timed_out);
    assert_eq!(timed.exit_status.code, Some(192));
    let interrupted =
        raw_exec_output(ExecWaitEvent::Interrupted, ExecCapturePolicy::ShellTool, stream(b""), stream(b""));
    assert!(!interrupted.timed_out);
    assert_eq!(interrupted.exit_status.code, Some(1));
}

#[test]
fn chunked_reads_keep_the_same_capped_prefix() {
    let mut split = Vec::new();
    append_capped(&mut split, b"ab", 5);
    append_capped(&mut split, b"cd", 5);
    append_capped(&mut split, b"efg", 5);
    let mut whole = Vec::new();
    append_capped(&mut whole, b"abcdefg", 5);
    assert_eq!(split, whole);
    assert_eq!(split, b"abcde".to_vec());
}
