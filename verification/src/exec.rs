//! Running a command for a tool call: how its output is kept, capped and
//! combined, and how its end is turned into a result.
use vstd::prelude::*;
use crate::text::{int_text, int_to_string};

verus! {

/// The timeout of a command that names none.
pub const DEFAULT_EXEC_COMMAND_TIMEOUT_MS: u64 = 10_000;

/// How long the output pipes are drained after a command ends.
pub const IO_DRAIN_TIMEOUT_MS: u64 = 2_000;

/// The most output deltas one call streams to the client.
pub const MAX_EXEC_OUTPUT_DELTAS_PER_CALL: usize = 10_000;

/// The most bytes of each stream (and of the combined output) a shell tool keeps.
pub const EXEC_OUTPUT_MAX_BYTES: usize = 1024 * 1024;

/// The signal number by which a timed-out command is reported.
pub const TIMEOUT_CODE: i32 = 64;

/// The base added to a signal number in a synthetic exit status.
pub const EXIT_CODE_SIGNAL_BASE: i32 = 128;

/// The exit code reported for a command that timed out.
pub const EXEC_TIMEOUT_EXIT_CODE: i32 = 124;

/// How much of a command's output is kept.
#[derive(Debug, Clone, Copy, PartialEq, Eq, Structural)]
pub enum ExecCapturePolicy {
    /// Output is capped and the command is bound by its expiration.
    ShellTool,
    /// All output is kept and the command runs until it ends.
    FullBuffer,
}

impl Default for ExecCapturePolicy {
    fn default() -> (r: Self)
        ensures
            r == ExecCapturePolicy::ShellTool,
    {
        ExecCapturePolicy::ShellTool
    }
}

impl ExecCapturePolicy {
    /// The most bytes of each stream kept, if any limit applies.
    pub fn retained_bytes_cap(self) -> (r: Option<usize>)
        ensures
            r == match self {
                ExecCapturePolicy::ShellTool => Some(EXEC_OUTPUT_MAX_BYTES),
                ExecCapturePolicy::FullBuffer => None::<usize>,
            },
    {
        match self {
            ExecCapturePolicy::ShellTool => Some(EXEC_OUTPUT_MAX_BYTES),
            ExecCapturePolicy::FullBuffer => None,
        }
    }

    /// How long, in milliseconds, the output pipes are drained after the process ends.
    pub fn io_drain_timeout(self) -> (r: u64)
        ensures
            r == IO_DRAIN_TIMEOUT_MS,
    {
        IO_DRAIN_TIMEOUT_MS
    }

    /// Whether the command's expiration applies.
    pub fn uses_expiration(self) -> (r: bool)
        ensures
            r == (self == ExecCapturePolicy::ShellTool),
    {
        match self {
            ExecCapturePolicy::ShellTool => true,
            ExecCapturePolicy::FullBuffer => false,
        }
    }
}

/// When a running command is stopped. Durations are in milliseconds; the
/// cancellation token itself is held by the caller that waits on it.
#[derive(Debug, Clone, Copy, PartialEq, Eq, Structural)]
pub enum ExecExpiration {
    Timeout(u64),
    DefaultTimeout,
    Cancellation,
    TimeoutOrCancellation { timeout_ms: u64 },
}

/// Why a command was stopped.
#[derive(Debug, Clone, Copy, PartialEq, Eq, Structural)]
pub enum ExecExpirationOutcome {
    TimedOut,
    Cancelled,
}

impl From<Option<u64>> for ExecExpiration {
    fn from(timeout_ms: Option<u64>) -> (r: Self) {
        match timeout_ms {
            Some(ms) => ExecExpiration::Timeout(ms),
            None => ExecExpiration::DefaultTimeout,
        }
    }
}

impl vstd::std_specs::convert::FromSpecImpl<Option<u64>> for ExecExpiration {
    open spec fn obeys_from_spec() -> bool {
        true
    }

    open spec fn from_spec(timeout_ms: Option<u64>) -> Self {
        match timeout_ms {
            Some(ms) => ExecExpiration::Timeout(ms),
            None => ExecExpiration::DefaultTimeout,
        }
    }
}

impl From<u64> for ExecExpiration {
    fn from(timeout_ms: u64) -> (r: Self) {
        ExecExpiration::Timeout(timeout_ms)
    }
}

impl vstd::std_specs::convert::FromSpecImpl<u64> for ExecExpiration {
    open spec fn obeys_from_spec() -> bool {
        true
    }

    open spec fn from_spec(timeout_ms: u64) -> Self {
        ExecExpiration::Timeout(timeout_ms)
    }
}

impl ExecExpiration {
    /// The timeout in milliseconds, if the expiration has one.
    pub fn timeout_ms(&self) -> (r: Option<u64>)
        ensures
            r == match *self {
                ExecExpiration::Timeout(ms) => Some(ms),
                ExecExpiration::DefaultTimeout => Some(DEFAULT_EXEC_COMMAND_TIMEOUT_MS),
                ExecExpiration::Cancellation => None::<u64>,
                ExecExpiration::TimeoutOrCancellation { timeout_ms } => Some(timeout_ms),
            },
    {
        match self {
            ExecExpiration::Timeout(ms) => Some(*ms),
            ExecExpiration::DefaultTimeout => Some(DEFAULT_EXEC_COMMAND_TIMEOUT_MS),
            ExecExpiration::Cancellation => None,
            ExecExpiration::TimeoutOrCancellation { timeout_ms } => Some(*timeout_ms),
        }
    }

    /// Whether the expiration can be reached through cancellation.
    pub fn can_be_cancelled(&self) -> (r: bool)
        ensures
            r == (*self is Cancellation || *self is TimeoutOrCancellation),
    {
        match self {
            ExecExpiration::Cancellation => true,
            ExecExpiration::TimeoutOrCancellation { .. } => true,
            _ => false,
        }
    }

    /// The outcome once the wait ends: `cancelled` says whether the
    /// cancellation fired (it wins over a timeout that fires together with it).
    pub fn outcome(&self, cancelled: bool) -> (r: ExecExpirationOutcome)
        requires
            cancelled ==> (*self is Cancellation || *self is TimeoutOrCancellation),
            *self is Cancellation ==> cancelled,
        ensures
            r == (if cancelled { ExecExpirationOutcome::Cancelled } else {
                ExecExpirationOutcome::TimedOut
            }),
    {
        if cancelled {
            ExecExpirationOutcome::Cancelled
        } else {
            ExecExpirationOutcome::TimedOut
        }
    }
}

/// Bytes read from one stream of a command.
#[derive(Debug, Clone, PartialEq, Eq)]
pub struct StreamOutput {
    pub text: Vec<u8>,
    pub truncated_after_lines: Option<u32>,
}

/// `dst` after appending `src` up to a total of `max_bytes`.
pub open spec fn capped_append(dst: Seq<u8>, src: Seq<u8>, max_bytes: nat) -> Seq<u8> {
    if dst.len() >= max_bytes {
        dst
    } else {
        let take = if max_bytes - dst.len() < src.len() {
            (max_bytes - dst.len()) as nat
        } else {
            src.len()
        };
        dst + src.take(take as int)
    }
}

proof fn copy_bytes_lemma(dst: Seq<u8>, old_dst: Seq<u8>, src: Seq<u8>)
    requires
        dst.len() == old_dst.len() + src.len(),
        forall|i: int|
            0 <= i < dst.len() ==> if i < old_dst.len() {
                dst[i] == old_dst[i]
            } else {
                dst[i] == src[i - old_dst.len()]
            },
    ensures
        dst == old_dst + src,
{
    assert(dst =~= old_dst + src);
}

/// Appends all of `src` to `dst`.
fn extend_bytes(dst: &mut Vec<u8>, src: &[u8])
    requires
        old(dst)@.len() + src@.len() <= usize::MAX,
    ensures
        final(dst)@ == old(dst)@ + src@,
{
    let ghost before = dst@;
    dst.extend_from_slice(src);
    proof {
        assert forall|i: int| 0 <= i < dst@.len() implies if i < before.len() {
            dst@[i] == before[i]
        } else {
            dst@[i] == src@[i - before.len()]
        } by {
            if i >= before.len() {
                assert(cloned::<u8>(src@[i - before.len()], dst@[i]));
            }
        }
        copy_bytes_lemma(dst@, before, src@);
    }
}

/// Appends `src` to `dst`, keeping at most `max_bytes` bytes in all.
pub fn append_capped(dst: &mut Vec<u8>, src: &[u8], max_bytes: usize)
    ensures
        final(dst)@ == capped_append(old(dst)@, src@, max_bytes as nat),
{
    if dst.len() >= max_bytes {
        return;
    }
    let remaining = max_bytes.saturating_sub(dst.len());
    let take = if remaining < src.len() {
        remaining
    } else {
        src.len()
    };
    let part = &src[0..take];
    assert(part@ == src@.take(take as int));
    extend_bytes(dst, part);
}

/// How many bytes of stdout and of stderr the combined output keeps when
/// both do not fit in `max_bytes`: stdout keeps up to a third of the limit,
/// stderr fills what it can of the rest, and stdout takes what stderr left.
pub open spec fn aggregate_takes(len_out: nat, len_err: nat, max_bytes: nat) -> (nat, nat) {
    let want_stdout = if len_out < max_bytes / 3 { len_out } else { max_bytes / 3 };
    let stderr_take = if len_err < max_bytes - want_stdout {
        len_err
    } else {
        (max_bytes - want_stdout) as nat
    };
    let remaining = (max_bytes - (want_stdout + stderr_take)) as nat;
    let rest_out = (len_out - want_stdout) as nat;
    let stdout_take = want_stdout + if remaining < rest_out { remaining } else { rest_out };
    (stdout_take, stderr_take)
}

/// The combined output of a command: stdout then stderr, cut as
/// `aggregate_takes` says when a limit applies and both do not fit.
pub open spec fn aggregated(out: Seq<u8>, err: Seq<u8>, max_bytes: Option<usize>) -> Seq<u8> {
    match max_bytes {
        None => out + err,
        Some(m) => if out.len() + err.len() <= m {
            out + err
        } else {
            let takes = aggregate_takes(out.len(), err.len(), m as nat);
            out.take(takes.0 as int) + err.take(takes.1 as int)
        },
    }
}

proof fn lemma_aggregate_takes_bounds(len_out: nat, len_err: nat, max_bytes: nat)
    requires
        len_out + len_err > max_bytes,
    ensures
        aggregate_takes(len_out, len_err, max_bytes).0 <= len_out,
        aggregate_takes(len_out, len_err, max_bytes).1 <= len_err,
        aggregate_takes(len_out, len_err, max_bytes).0 + aggregate_takes(
            len_out,
            len_err,
            max_bytes,
        ).1 == max_bytes,
{
}

/// Combines the output of both streams of a command.
pub fn aggregate_output(stdout: &StreamOutput, stderr: &StreamOutput, max_bytes: Option<usize>) -> (r:
    StreamOutput)
    requires
        stdout.text@.len() + stderr.text@.len() <= usize::MAX,
    ensures
        r.text@ == aggregated(stdout.text@, stderr.text@, max_bytes),
        r.truncated_after_lines is None,
{
    let total_len = stdout.text.len() + stderr.text.len();
    let mut aggregated_bytes: Vec<u8> = Vec::new();
    match max_bytes {
        None => {
            extend_bytes(&mut aggregated_bytes, stdout.text.as_slice());
            extend_bytes(&mut aggregated_bytes, stderr.text.as_slice());
            StreamOutput { text: aggregated_bytes, truncated_after_lines: None }
        },
        Some(max_bytes) => {
            if total_len <= max_bytes {
                extend_bytes(&mut aggregated_bytes, stdout.text.as_slice());
                extend_bytes(&mut aggregated_bytes, stderr.text.as_slice());
                return StreamOutput { text: aggregated_bytes, truncated_after_lines: None };
            }
            proof {
                lemma_aggregate_takes_bounds(
                    stdout.text@.len(),
                    stderr.text@.len(),
                    max_bytes as nat,
                );
            }
            let third = max_bytes / 3;
            let want_stdout = if stdout.text.len() < third {
                stdout.text.len()
            } else {
                third
            };
            let want_stderr = stderr.text.len();
            let room = max_bytes - want_stdout;
            let stderr_take = if want_stderr < room {
                want_stderr
            } else {
                room
            };
            let remaining = max_bytes - (want_stdout + stderr_take);
            let rest_out = stdout.text.len() - want_stdout;
            let stdout_take = want_stdout + if remaining < rest_out {
                remaining
            } else {
                rest_out
            };
            let out_part = &stdout.text.as_slice()[0..stdout_take];
            let err_part = &stderr.text.as_slice()[0..stderr_take];
            assert(out_part@ == stdout.text@.take(stdout_take as int));
            assert(err_part@ == stderr.text@.take(stderr_take as int));
            extend_bytes(&mut aggregated_bytes, out_part);
            extend_bytes(&mut aggregated_bytes, err_part);
            StreamOutput { text: aggregated_bytes, truncated_after_lines: None }
        },
    }
}

/// The combined output never holds more bytes than the limit, and is stdout
/// followed by stderr whole whenever both fit.
pub proof fn law_aggregate_respects_limit(out: Seq<u8>, err: Seq<u8>, max_bytes: usize)
    ensures
        aggregated(out, err, Some(max_bytes)).len() <= max_bytes,
        out.len() + err.len() <= max_bytes ==> aggregated(out, err, Some(max_bytes)) == out + err,
        out.len() + err.len() > max_bytes ==> aggregated(out, err, Some(max_bytes)).len()
            == max_bytes,
{
    if out.len() + err.len() > max_bytes {
        lemma_aggregate_takes_bounds(out.len(), err.len(), max_bytes as nat);
    }
}

/// When the output is cut, what is kept of each stream is a prefix of it,
/// and stderr keeps at least what is left of the limit after a third of it.
pub proof fn law_aggregate_keeps_prefixes(out: Seq<u8>, err: Seq<u8>, max_bytes: usize)
    requires
        out.len() + err.len() > max_bytes,
    ensures
        ({
            let takes = aggregate_takes(out.len(), err.len(), max_bytes as nat);
            &&& aggregated(out, err, Some(max_bytes)) == out.take(takes.0 as int) + err.take(
                takes.1 as int,
            )
            &&& takes.0 <= out.len()
            &&& takes.1 <= err.len()
            &&& takes.1 >= if err.len() < max_bytes - max_bytes / 3 {
                err.len() as int
            } else {
                max_bytes - max_bytes / 3
            }
        }),
{
    lemma_aggregate_takes_bounds(out.len(), err.len(), max_bytes as nat);
}

/// What reading one stream has gathered so far.
#[derive(Debug, Clone, PartialEq, Eq)]
pub struct OutputReader {
    pub buf: Vec<u8>,
    pub emitted_deltas: usize,
    pub max_bytes: Option<usize>,
}

impl OutputReader {
    /// A reader that has read nothing yet.
    pub fn new(max_bytes: Option<usize>) -> (r: OutputReader)
        ensures
            r.buf@.len() == 0,
            r.emitted_deltas == 0,
            r.max_bytes == max_bytes,
    {
        OutputReader { buf: Vec::new(), emitted_deltas: 0, max_bytes }
    }

    /// Takes in one chunk read from the stream; `streaming` says whether a
    /// client listens for deltas. Returns whether this chunk is sent as a delta.
    pub fn accept_chunk(&mut self, chunk: &[u8], streaming: bool) -> (emit: bool)
        requires
            old(self).max_bytes is None ==> old(self).buf@.len() + chunk@.len() <= usize::MAX,
        ensures
            emit == (streaming && old(self).emitted_deltas < MAX_EXEC_OUTPUT_DELTAS_PER_CALL),
            final(self).emitted_deltas == if emit {
                old(self).emitted_deltas + 1
            } else {
                old(self).emitted_deltas as int
            },
            final(self).max_bytes == old(self).max_bytes,
            final(self).buf@ == match old(self).max_bytes {
                Some(m) => capped_append(old(self).buf@, chunk@, m as nat),
                None => old(self).buf@ + chunk@,
            },
    {
        let emit = streaming && self.emitted_deltas < MAX_EXEC_OUTPUT_DELTAS_PER_CALL;
        if emit {
            self.emitted_deltas = self.emitted_deltas + 1;
        }
        match self.max_bytes {
            Some(m) => append_capped(&mut self.buf, chunk, m),
            None => extend_bytes(&mut self.buf, chunk),
        }
        emit
    }

    /// The stream's output once it has ended.
    pub fn finish(self) -> (r: StreamOutput)
        ensures
            r.text@ == self.buf@,
            r.truncated_after_lines is None,
    {
        StreamOutput { text: self.buf, truncated_after_lines: None }
    }
}

/// A capped reader never holds more bytes than its cap once it has held no more.
pub proof fn law_capped_reader_bounded(buf: Seq<u8>, chunk: Seq<u8>, m: usize)
    requires
        buf.len() <= m,
    ensures
        capped_append(buf, chunk, m as nat).len() <= m,
        capped_append(buf, chunk, m as nat).take(buf.len() as int) == buf,
{
    assert(capped_append(buf, chunk, m as nat).take(buf.len() as int) =~= buf);
}

/// Reading a stream in two chunks keeps the same bytes as reading the two
/// chunks at once: the cap applies to what was read, not to how it arrived.
pub proof fn law_capped_append_chunks(buf: Seq<u8>, c1: Seq<u8>, c2: Seq<u8>, m: nat)
    ensures
        capped_append(capped_append(buf, c1, m), c2, m) == capped_append(buf, c1 + c2, m),
{
    if buf.len() < m {
        let room = (m - buf.len()) as int;
        if room <= c1.len() {
            assert((c1 + c2).take(room) =~= c1.take(room));
        } else {
            let rest = (m - buf.len() - c1.len()) as int;
            if rest < c2.len() {
                assert((c1 + c2).take(room) =~= c1 + c2.take(rest));
            } else {
                assert((c1 + c2).take((c1 + c2).len() as int) =~= c1 + c2);
                assert(c2.take(c2.len() as int) =~= c2);
            }
            assert(c1.take(c1.len() as int) =~= c1);
            assert((buf + c1) + c2.take(if rest < c2.len() { rest } else { c2.len() as int })
                =~= buf + (c1 + c2).take(if room < (c1 + c2).len() { room } else { (c1 + c2).len() as int }));
        }
    }
}

/// A stream that starts empty keeps the first `m` bytes of all it has read,
/// however the bytes were split into chunks.
pub proof fn law_capped_stream_prefix(chunks: Seq<Seq<u8>>, m: nat)
    ensures
        chunks.fold_left(Seq::<u8>::empty(), |acc: Seq<u8>, c: Seq<u8>| capped_append(acc, c, m))
            == ({
            let all = chunks.fold_left(Seq::<u8>::empty(), |acc: Seq<u8>, c: Seq<u8>| acc + c);
            if all.len() <= m { all } else { all.take(m as int) }
        }),
    decreases chunks.len(),
{
    let f = |acc: Seq<u8>, c: Seq<u8>| capped_append(acc, c, m);
    let g = |acc: Seq<u8>, c: Seq<u8>| acc + c;
    if chunks.len() == 0 {
    } else {
        let init = chunks.drop_last();
        let last = chunks.last();
        law_capped_stream_prefix(init, m);
        let all0 = init.fold_left(Seq::<u8>::empty(), g);
        let kept0 = init.fold_left(Seq::<u8>::empty(), f);
        assert(chunks.fold_left(Seq::<u8>::empty(), f) == capped_append(kept0, last, m));
        assert(chunks.fold_left(Seq::<u8>::empty(), g) == all0 + last);
        let all = all0 + last;
        if all0.len() <= m {
            assert(kept0 == all0);
            let room = (m - all0.len()) as int;
            if room < last.len() {
                assert(all.take(m as int) =~= all0 + last.take(room));
            } else {
                assert(last.take(last.len() as int) =~= last);
            }
        } else {
            assert(kept0 == all0.take(m as int));
            assert(all.take(m as int) =~= all0.take(m as int));
        }
    }
}

/// The exit status of a process: its exit code or the signal that ended it.
#[derive(Debug, Clone, Copy, PartialEq, Eq, Structural)]
pub struct ExitStatusInfo {
    pub code: Option<i32>,
    pub signal: Option<i32>,
}

/// How the wait on a running command ended.
#[derive(Debug, Clone, Copy, PartialEq, Eq, Structural)]
pub enum ExecWaitEvent {
    /// The process ended by itself.
    Exited(ExitStatusInfo),
    /// Its expiration was reached; the process group is killed.
    Expired(ExecExpirationOutcome),
    /// The user interrupted; the process group is killed.
    Interrupted,
}

/// The exit status reported for a process that was killed: an exit code
/// with no signal.
pub open spec fn synthetic_status(code: i32) -> ExitStatusInfo {
    ExitStatusInfo { code: Some(code), signal: None }
}

/// The exit status and timed-out flag recorded for how the wait ended.
pub fn settle_wait(event: ExecWaitEvent) -> (r: (ExitStatusInfo, bool))
    ensures
        r == match event {
            ExecWaitEvent::Exited(status) => (status, false),
            ExecWaitEvent::Expired(ExecExpirationOutcome::TimedOut) => (
                synthetic_status((EXIT_CODE_SIGNAL_BASE + TIMEOUT_CODE) as i32),
                true,
            ),
            ExecWaitEvent::Expired(ExecExpirationOutcome::Cancelled) => (synthetic_status(1), false),
            ExecWaitEvent::Interrupted => (synthetic_status(1), false),
        },
{
    match event {
        ExecWaitEvent::Exited(status) => (status, false),
        ExecWaitEvent::Expired(ExecExpirationOutcome::TimedOut) => (
            ExitStatusInfo { code: Some(EXIT_CODE_SIGNAL_BASE + TIMEOUT_CODE), signal: None },
            true,
        ),
        ExecWaitEvent::Expired(ExecExpirationOutcome::Cancelled) => (
            ExitStatusInfo { code: Some(1), signal: None },
            false,
        ),
        ExecWaitEvent::Interrupted => (ExitStatusInfo { code: Some(1), signal: None }, false),
    }
}


/// Why running a command failed.
#[derive(Debug, Clone, PartialEq, Eq)]
pub enum ExecError {
    /// The request itself was unusable (an I/O error of kind `InvalidInput`).
    InvalidInput(String),
    /// Another I/O failure while spawning or reading the command.
    Io(String),
    /// The command ended in a way that cannot be reported as a result.
    Fatal(String),
}

/// A command to run, as a tool call describes it.
#[derive(Debug, Clone, PartialEq, Eq)]
pub struct ExecParams {
    pub command: Vec<String>,
    pub cwd: String,
    pub expiration: ExecExpiration,
    pub capture_policy: ExecCapturePolicy,
    pub env: Vec<(String, String)>,
    pub justification: Option<String>,
    pub arg0: Option<String>,
}

/// A command ready to be spawned.
#[derive(Debug, Clone, PartialEq, Eq)]
pub struct ExecRequest {
    pub command: Vec<String>,
    pub cwd: String,
    pub env: Vec<(String, String)>,
    pub expiration: ExecExpiration,
    pub capture_policy: ExecCapturePolicy,
    pub arg0: Option<String>,
}

/// Turns the parameters of a call into a request; a call with no command
/// words is refused.
pub fn build_exec_request(params: ExecParams) -> (r: Result<ExecRequest, ExecError>)
    ensures
        params.command@.len() == 0 ==> (r matches Err(ExecError::InvalidInput(m)) && m@
            == "command args are empty"@),
        params.command@.len() > 0 ==> (r matches Ok(req) && req == (ExecRequest {
            command: params.command,
            cwd: params.cwd,
            env: params.env,
            expiration: params.expiration,
            capture_policy: params.capture_policy,
            arg0: params.arg0,
        })),
{
    let ExecParams { command, cwd, env, expiration, capture_policy, arg0, justification: _ } =
        params;
    if command.len() == 0 {
        return Err(ExecError::InvalidInput(String::from_str("command args are empty")));
    }
    Ok(ExecRequest { command, cwd, env, expiration, capture_policy, arg0 })
}

/// What a finished command left: its status, its output and whether it was
/// stopped for taking too long.
#[derive(Debug, Clone, PartialEq, Eq)]
pub struct RawExecToolCallOutput {
    pub exit_status: ExitStatusInfo,
    pub stdout: StreamOutput,
    pub stderr: StreamOutput,
    pub aggregated_output: StreamOutput,
    pub timed_out: bool,
}

/// What a finished command left, from how the wait on it ended and the
/// output read from its two streams: the exit status and timed-out flag that
/// the wait settles on, the streams as read, and both combined, capped at the
/// exec output limit. A capture without expiration is never stopped by it, so
/// its wait cannot end by expiring.
pub fn raw_exec_output(event: ExecWaitEvent, policy: ExecCapturePolicy, stdout: StreamOutput, stderr: StreamOutput) -> (r:
    RawExecToolCallOutput)
    requires
        policy == ExecCapturePolicy::FullBuffer ==> !(event is Expired),
        stdout.text@.len() + stderr.text@.len() <= usize::MAX,
    ensures
        (r.exit_status, r.timed_out) == match event {
            ExecWaitEvent::Exited(status) => (status, false),
            ExecWaitEvent::Expired(ExecExpirationOutcome::TimedOut) => (
                synthetic_status((EXIT_CODE_SIGNAL_BASE + TIMEOUT_CODE) as i32),
                true,
            ),
            ExecWaitEvent::Expired(ExecExpirationOutcome::Cancelled) => (synthetic_status(1), false),
            ExecWaitEvent::Interrupted => (synthetic_status(1), false),
        },
        policy == ExecCapturePolicy::FullBuffer ==> !r.timed_out,
        r.timed_out ==> r.exit_status.code == Some((EXIT_CODE_SIGNAL_BASE + TIMEOUT_CODE) as i32),
        r.stdout == stdout,
        r.stderr == stderr,
        r.aggregated_output.text@ == aggregated(stdout.text@, stderr.text@, Some(EXEC_OUTPUT_MAX_BYTES)),
        r.aggregated_output.truncated_after_lines is None,
{
    let (exit_status, timed_out) = settle_wait(event);
    let aggregated_output = aggregate_output(&stdout, &stderr, Some(EXEC_OUTPUT_MAX_BYTES));
    RawExecToolCallOutput { exit_status, stdout, stderr, aggregated_output, timed_out }
}

/// The result of a command as the tool call reports it.
#[derive(Debug, Clone, PartialEq, Eq)]
pub struct ExecToolCallOutput {
    pub exit_code: i32,
    pub stdout: StreamOutput,
    pub stderr: StreamOutput,
    pub aggregated_output: StreamOutput,
    pub duration_ms: u64,
    pub timed_out: bool,
}

/// The message of a command that a signal other than the timeout ended.
pub open spec fn signal_message(signal: i32) -> Seq<char> {
    "process terminated by signal "@ + int_text(signal as int)
}

/// Whether the raw output is reported as a result: only a signal other than
/// the timeout signal makes it fail.
pub open spec fn finalize_fails(raw: RawExecToolCallOutput) -> bool {
    raw.exit_status.signal matches Some(sig) && sig != TIMEOUT_CODE
}

/// Whether the command counts as timed out.
pub open spec fn finalized_timed_out(raw: RawExecToolCallOutput) -> bool {
    raw.timed_out || raw.exit_status.signal == Some(TIMEOUT_CODE)
}

/// The exit code reported for a finished command.
pub open spec fn finalized_exit_code(raw: RawExecToolCallOutput) -> i32 {
    if finalized_timed_out(raw) {
        EXEC_TIMEOUT_EXIT_CODE
    } else {
        match raw.exit_status.code {
            Some(c) => c,
            None => -1i32,
        }
    }
}

/// Turns what a command left into the tool call's result.
pub fn finalize_exec_result(raw_output_result: Result<RawExecToolCallOutput, ExecError>, duration_ms: u64) -> (r: Result<ExecToolCallOutput, ExecError>)
    ensures
        raw_output_result matches Err(e) ==> r == Err::<ExecToolCallOutput, ExecError>(e),
        raw_output_result matches Ok(raw) ==> {
            &&& finalize_fails(raw) ==> (r matches Err(ExecError::Fatal(m)) && m@ == signal_message(
                raw.exit_status.signal.unwrap(),
            ))
            &&& !finalize_fails(raw) ==> (r matches Ok(out) && out == (ExecToolCallOutput {
                exit_code: finalized_exit_code(raw),
                stdout: raw.stdout,
                stderr: raw.stderr,
                aggregated_output: raw.aggregated_output,
                duration_ms,
                timed_out: finalized_timed_out(raw),
            }))
        },
{
    match raw_output_result {
        Ok(raw) => {
            let mut timed_out = raw.timed_out;
            if let Some(signal) = raw.exit_status.signal {
                if signal == TIMEOUT_CODE {
                    timed_out = true;
                } else {
                    let mut m = String::from_str("process terminated by signal ");
                    let digits = int_to_string(signal as i64);
                    m.append(digits.as_str());
                    return Err(ExecError::Fatal(m));
                }
            }
            let mut exit_code = match raw.exit_status.code {
                Some(c) => c,
                None => -1,
            };
            if timed_out {
                exit_code = EXEC_TIMEOUT_EXIT_CODE;
            }
            Ok(ExecToolCallOutput {
                exit_code,
                stdout: raw.stdout,
                stderr: raw.stderr,
                aggregated_output: raw.aggregated_output,
                duration_ms,
                timed_out,
            })
        },
        Err(err) => Err(err),
    }
}

} // verus!
