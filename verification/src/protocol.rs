//! Protocol values exchanged between a client and the agent: identifiers,
//! events, error classifications and the records kept in a rollout.
use vstd::prelude::*;
use crate::config_types::ReasoningSummary;
use crate::models::{BaseInstructions, DynamicToolSpec, ResponseItem};
use crate::openai_models::{ReasoningEffort, TruncationMode, TruncationPolicyConfig};
use crate::session_source::SessionSource;
use crate::text::str_eq;

verus! {

/// The canonical text of the UUID written as `s`, if `s` is a UUID.
pub uninterp spec fn uuid_canonical(s: Seq<char>) -> Option<Seq<char>>;

/// Parses a UUID (`uuid::Uuid::parse_str`) and writes it in canonical form
/// (`Display`: lowercase and hyphenated). The canonical form parses back to
/// the same UUID, so it is its own canonical form.
#[verifier::external_body]
pub(crate) fn parse_uuid(s: &str) -> (r: Option<String>)
    ensures
        r matches Some(c) ==> uuid_canonical(s@) == Some(c@) && uuid_canonical(c@) == Some(c@),
        r is None ==> uuid_canonical(s@) is None,
{
    uuid::Uuid::parse_str(s).ok().map(|u| u.to_string())
}

/// A fresh time-ordered UUID (`uuid::Uuid::now_v7`) in canonical form. Which
/// UUID comes out depends on the clock and on chance; whatever it is, it is
/// written in canonical form, which parses back to itself.
#[verifier::external_body]
fn new_uuid_v7() -> (r: String)
    ensures
        uuid_canonical(r@) == Some(r@),
{
    uuid::Uuid::now_v7().to_string()
}

/// The identifier of a thread, a UUID kept in canonical text form.
#[derive(Debug, PartialEq, Eq, Hash)]
pub struct ThreadId {
    uuid: String,
}

impl ThreadId {
    /// The canonical text of the identifier.
    pub closed spec fn text(&self) -> Seq<char> {
        self.uuid@
    }

    /// A new identifier, from the clock and chance; its text is a canonical UUID.
    pub fn new() -> (r: ThreadId)
        ensures
            uuid_canonical(r.text()) == Some(r.text()),
    {
        ThreadId { uuid: new_uuid_v7() }
    }

    /// Reads an identifier from its text; anything that is not a UUID is refused.
    pub fn from_string(s: &str) -> (r: Result<ThreadId, String>)
        ensures
            uuid_canonical(s@) matches Some(c) ==> (r matches Ok(t) && t.text() == c
                && uuid_canonical(c) == Some(c)),
            uuid_canonical(s@) is None ==> (r matches Err(m) && m@ == "invalid thread id: "@ + s@),
    {
        match parse_uuid(s) {
            Some(c) => Ok(ThreadId { uuid: c }),
            None => {
                let mut m = String::new();
                m.append("invalid thread id: ");
                m.append(s);
                proof {
                    reveal_strlit("invalid thread id: ");
                }
                Err(m)
            },
        }
    }

    /// The canonical text of the identifier.
    pub fn as_string(&self) -> (r: String)
        ensures
            r@ == self.text(),
    {
        self.uuid.clone()
    }

    /// Whether this identifier's text comes strictly before the other's.
    pub fn precedes(&self, other: &ThreadId) -> (r: bool)
        ensures
            r == crate::text::text_lt(self.text(), other.text()),
    {
        crate::text::str_lt(self.uuid.as_str(), other.uuid.as_str())
    }

    /// Whether both identifiers name the same thread.
    pub fn same_as(&self, other: &ThreadId) -> (r: bool)
        ensures
            r == (self.text() == other.text()),
    {
        str_eq(self.uuid.as_str(), other.uuid.as_str())
    }
}

impl Clone for ThreadId {
    fn clone(&self) -> (r: Self)
        ensures
            r == *self,
    {
        ThreadId { uuid: self.uuid.clone() }
    }
}

/// W3C trace context headers carried with a request.
#[derive(Debug, Clone, PartialEq, Eq)]
pub struct W3cTraceContext {
    pub traceparent: Option<String>,
    pub tracestate: Option<String>,
}

/// A git commit hash.
#[derive(Debug, Clone, PartialEq, Eq)]
pub struct GitSha(pub String);

impl GitSha {
    /// The hash written as `sha`.
    pub fn new(sha: &str) -> (r: GitSha)
        ensures
            r.0@ == sha@,
    {
        GitSha(crate::text::copy_str(sha))
    }
}

/// How far extra context supplied with a turn can be trusted.
#[derive(Debug, Clone, Copy, PartialEq, Eq, Structural)]
pub enum AdditionalContextKind {
    Untrusted,
    Application,
}

/// A value of extra context supplied with a turn.
#[derive(Debug, Clone, PartialEq, Eq)]
pub struct AdditionalContextEntry {
    pub value: String,
    pub kind: AdditionalContextKind,
}

/// Where web tools run.
#[derive(Debug, Clone, Copy, PartialEq, Eq, Structural)]
pub enum WebToolRuntime {
    Hosted,
    Local,
    Disabled,
}

/// A kind of turn that new input cannot steer.
#[derive(Debug, Clone, Copy, PartialEq, Eq, Structural)]
pub enum NonSteerableTurnKind {
    Compact,
}

/// A machine-readable classification of an error.
#[derive(Debug, Clone, Copy, PartialEq, Eq, Structural)]
pub enum CodexErrorInfo {
    ContextWindowExceeded,
    UsageLimitExceeded,
    ServerOverloaded,
    CyberPolicy,
    HttpConnectionFailed { http_status_code: Option<u16> },
    ResponseStreamConnectionFailed { http_status_code: Option<u16> },
    InternalServerError,
    Unauthorized,
    BadRequest,
    ResponseStreamDisconnected { http_status_code: Option<u16> },
    ResponseTooManyFailedAttempts { http_status_code: Option<u16> },
    ActiveTurnNotSteerable { turn_kind: NonSteerableTurnKind },
    Other,
}

impl CodexErrorInfo {
    /// Whether the error marks the turn as failed: every error does, except an
    /// attempt to steer a turn that cannot be steered.
    pub fn affects_turn_status(&self) -> (r: bool)
        ensures
            r == !(*self is ActiveTurnNotSteerable),
    {
        match self {
            CodexErrorInfo::ActiveTurnNotSteerable { .. } => false,
            _ => true,
        }
    }
}

/// An error reported to the client.
#[derive(Debug, Clone, PartialEq, Eq)]
pub struct ErrorEvent {
    pub message: String,
    pub codex_error_info: Option<CodexErrorInfo>,
}

impl ErrorEvent {
    /// Whether the error marks the turn as failed; an unclassified error does.
    pub fn affects_turn_status(&self) -> (r: bool)
        ensures
            r == match self.codex_error_info {
                None => true,
                Some(info) => !(info is ActiveTurnNotSteerable),
            },
    {
        match &self.codex_error_info {
            None => true,
            Some(info) => info.affects_turn_status(),
        }
    }
}

/// A working directory chosen for a turn.
#[derive(Debug, PartialEq, Eq)]
pub struct TurnEnvironmentSelection {
    pub cwd: String,
}

impl Clone for TurnEnvironmentSelection {
    fn clone(&self) -> (r: Self)
        ensures
            r == *self,
    {
        TurnEnvironmentSelection { cwd: self.cwd.clone() }
    }
}

/// Where a sub-agent stands.
#[derive(Debug, Clone, PartialEq, Eq)]
pub enum AgentStatus {
    PendingInit,
    Running,
    Interrupted,
    Completed(Option<String>),
    Errored(String),
    Shutdown,
    NotFound,
}

/// A warning reported to the client.
#[derive(Debug, Clone, PartialEq, Eq)]
pub struct WarningEvent {
    pub message: String,
}

/// Why a request was moved to another model.
#[derive(Debug, Clone, Copy, PartialEq, Eq, Structural)]
pub enum ModelRerouteReason {
    HighRiskCyberActivity,
}

/// A request was moved to another model.
#[derive(Debug, Clone, PartialEq, Eq)]
pub struct ModelRerouteEvent {
    pub from_model: String,
    pub to_model: String,
    pub reason: ModelRerouteReason,
}

/// A verification the account passed.
#[derive(Debug, Clone, Copy, PartialEq, Eq, Structural)]
pub enum ModelVerification {
    TrustedAccessForCyber,
}

/// The verifications that apply to the model.
#[derive(Debug, Clone, PartialEq, Eq)]
pub struct ModelVerificationEvent {
    pub verifications: Vec<ModelVerification>,
}

/// A turn finished.
#[derive(Debug, PartialEq, Eq)]
pub struct TurnCompleteEvent {
    pub turn_id: String,
    pub last_agent_message: Option<String>,
    pub completed_at: Option<i64>,
    pub duration_ms: Option<i64>,
    pub time_to_first_token_ms: Option<i64>,
}

impl Clone for TurnCompleteEvent {
    fn clone(&self) -> (r: Self)
        ensures
            r == *self,
    {
        TurnCompleteEvent {
            turn_id: self.turn_id.clone(),
            last_agent_message: crate::text::clone_opt_string(&self.last_agent_message),
            completed_at: self.completed_at,
            duration_ms: self.duration_ms,
            time_to_first_token_ms: self.time_to_first_token_ms,
        }
    }
}

/// A turn started.
#[derive(Debug, Clone, PartialEq, Eq)]
pub struct TurnStartedEvent {
    pub turn_id: String,
    pub trace_id: Option<String>,
    pub started_at: Option<i64>,
    pub model_context_window: Option<i64>,
}

/// A raw item of the model's response.
#[derive(Debug, Clone, PartialEq, Eq)]
pub struct RawResponseItemEvent {
    pub item: ResponseItem,
}

/// Part of an agent message as it streams in.
#[derive(Debug, Clone, PartialEq, Eq)]
pub struct AgentMessageContentDeltaEvent {
    pub thread_id: String,
    pub turn_id: String,
    pub item_id: String,
    pub delta: String,
}

/// Part of a reasoning summary as it streams in.
#[derive(Debug, Clone, PartialEq, Eq)]
pub struct ReasoningContentDeltaEvent {
    pub thread_id: String,
    pub turn_id: String,
    pub item_id: String,
    pub delta: String,
    pub summary_index: i64,
}

/// Part of raw reasoning as it streams in.
#[derive(Debug, Clone, PartialEq, Eq)]
pub struct ReasoningRawContentDeltaEvent {
    pub thread_id: String,
    pub turn_id: String,
    pub item_id: String,
    pub delta: String,
    pub content_index: i64,
}

/// Which limit was reached.
#[derive(Debug, Clone, Copy, PartialEq, Eq, Structural)]
pub enum RateLimitReachedType {
    RateLimitReached,
    WorkspaceOwnerCreditsDepleted,
    WorkspaceMemberCreditsDepleted,
    WorkspaceOwnerUsageLimitReached,
    WorkspaceMemberUsageLimitReached,
}

/// The limit type named `s`.
pub open spec fn spec_rate_limit_reached_type(s: Seq<char>) -> Option<RateLimitReachedType> {
    if s == "rate_limit_reached"@ {
        Some(RateLimitReachedType::RateLimitReached)
    } else if s == "workspace_owner_credits_depleted"@ {
        Some(RateLimitReachedType::WorkspaceOwnerCreditsDepleted)
    } else if s == "workspace_member_credits_depleted"@ {
        Some(RateLimitReachedType::WorkspaceMemberCreditsDepleted)
    } else if s == "workspace_owner_usage_limit_reached"@ {
        Some(RateLimitReachedType::WorkspaceOwnerUsageLimitReached)
    } else if s == "workspace_member_usage_limit_reached"@ {
        Some(RateLimitReachedType::WorkspaceMemberUsageLimitReached)
    } else {
        None
    }
}

impl RateLimitReachedType {
    /// Reads a limit type from its snake-case name; any other text is refused
    /// with a message that quotes it.
    pub fn parse(value: &str) -> (r: Result<RateLimitReachedType, String>)
        ensures
            spec_rate_limit_reached_type(value@) matches Some(t) ==> r == Ok::<
                RateLimitReachedType,
                String,
            >(t),
            spec_rate_limit_reached_type(value@) is None ==> (r matches Err(m) && m@
                == "unknown rate limit reached type: "@ + value@),
    {
        if str_eq(value, "rate_limit_reached") {
            Ok(RateLimitReachedType::RateLimitReached)
        } else if str_eq(value, "workspace_owner_credits_depleted") {
            Ok(RateLimitReachedType::WorkspaceOwnerCreditsDepleted)
        } else if str_eq(value, "workspace_member_credits_depleted") {
            Ok(RateLimitReachedType::WorkspaceMemberCreditsDepleted)
        } else if str_eq(value, "workspace_owner_usage_limit_reached") {
            Ok(RateLimitReachedType::WorkspaceOwnerUsageLimitReached)
        } else if str_eq(value, "workspace_member_usage_limit_reached") {
            Ok(RateLimitReachedType::WorkspaceMemberUsageLimitReached)
        } else {
            let mut m = String::new();
            m.append("unknown rate limit reached type: ");
            m.append(value);
            proof {
                reveal_strlit("unknown rate limit reached type: ");
            }
            Err(m)
        }
    }
}

impl std::str::FromStr for RateLimitReachedType {
    type Err = String;

    fn from_str(value: &str) -> (r: Result<RateLimitReachedType, String>)
        ensures
            spec_rate_limit_reached_type(value@) matches Some(t) ==> r == Ok::<
                RateLimitReachedType,
                String,
            >(t),
            spec_rate_limit_reached_type(value@) is None ==> (r matches Err(m) && m@
                == "unknown rate limit reached type: "@ + value@),
    {
        RateLimitReachedType::parse(value)
    }
}

/// The credits of an account.
#[derive(Debug, Clone, PartialEq, Eq)]
pub struct CreditsSnapshot {
    pub has_credits: bool,
    pub unlimited: bool,
    pub balance: Option<String>,
}

/// A spend limit and how much of it is used.
#[derive(Debug, Clone, PartialEq, Eq)]
pub struct SpendControlLimitSnapshot {
    pub limit: String,
    pub used: String,
    pub remaining_percent: i32,
    pub resets_at: i64,
}

/// A break between sections of a reasoning summary.
#[derive(Debug, Clone, PartialEq, Eq)]
pub struct AgentReasoningSectionBreakEvent {
    pub item_id: String,
    pub summary_index: i64,
}

/// Where a conversation is stored.
#[derive(Debug, Clone, PartialEq, Eq)]
pub struct ConversationPathResponseEvent {
    pub conversation_id: ThreadId,
    pub path: String,
}

/// Metadata recorded at the start of a session.
#[derive(Debug, Clone, PartialEq, Eq)]
pub struct SessionMeta {
    pub id: ThreadId,
    pub forked_from_id: Option<ThreadId>,
    pub timestamp: String,
    pub cwd: String,
    pub originator: String,
    pub cli_version: String,
    pub source: SessionSource,
    pub model_provider: Option<String>,
    pub base_instructions: Option<BaseInstructions>,
    pub dynamic_tools: Option<Vec<DynamicToolSpec>>,
}

/// Git state of the working directory.
#[derive(Debug, Clone, PartialEq, Eq)]
pub struct GitInfo {
    pub commit_hash: Option<GitSha>,
    pub branch: Option<String>,
    pub repository_url: Option<String>,
}

/// The first line of a rollout: session metadata and git state.
#[derive(Debug, Clone, PartialEq, Eq)]
pub struct SessionMetaLine {
    pub meta: SessionMeta,
    pub git: Option<GitInfo>,
}

/// A summary that replaced earlier history.
#[derive(Debug, Clone, PartialEq, Eq)]
pub struct CompactedItem {
    pub message: String,
    pub replacement_history: Option<Vec<ResponseItem>>,
}

/// The settings a turn ran with.
#[derive(Debug, Clone, PartialEq, Eq)]
pub struct TurnContextItem {
    pub turn_id: Option<String>,
    pub cwd: String,
    pub current_date: Option<String>,
    pub timezone: Option<String>,
    pub model: String,
    pub effort: Option<ReasoningEffort>,
    pub summary: ReasoningSummary,
}

/// How much tool output is kept, in bytes or in tokens.
#[derive(Debug, Clone, Copy, PartialEq, Eq, Structural)]
pub enum TruncationPolicy {
    Bytes(usize),
    Tokens(usize),
}

impl TruncationPolicy {
    /// The policy of a model's truncation settings; the limit is taken as an
    /// unsigned size, as a numeric cast would.
    pub fn from_config(config: TruncationPolicyConfig) -> (r: TruncationPolicy)
        ensures
            r == match config.mode {
                TruncationMode::Bytes => TruncationPolicy::Bytes(config.limit as usize),
                TruncationMode::Tokens => TruncationPolicy::Tokens(config.limit as usize),
            },
    {
        match config.mode {
            TruncationMode::Bytes => TruncationPolicy::Bytes(config.limit as usize),
            TruncationMode::Tokens => TruncationPolicy::Tokens(config.limit as usize),
        }
    }
}

/// What started a command.
#[derive(Debug, Clone, Copy, PartialEq, Eq, Structural)]
pub enum ExecCommandSource {
    Agent,
    UnifiedExecStartup,
    UnifiedExecInteraction,
}

/// Commands are started by the agent unless stated otherwise.
impl Default for ExecCommandSource {
    fn default() -> (r: ExecCommandSource)
        ensures
            r == ExecCommandSource::Agent,
    {
        ExecCommandSource::Agent
    }
}

/// How a command ended.
#[derive(Debug, Clone, Copy, PartialEq, Eq, Structural)]
pub enum ExecCommandStatus {
    Completed,
    Failed,
    Declined,
}

/// A command's output stream.
#[derive(Debug, Clone, Copy, PartialEq, Eq, Structural)]
pub enum ExecOutputStream {
    Stdout,
    Stderr,
}

/// A chunk of a command's output.
#[derive(Debug, Clone, PartialEq, Eq)]
pub struct ExecCommandOutputDeltaEvent {
    pub call_id: String,
    pub stream: ExecOutputStream,
    pub chunk: Vec<u8>,
}

/// Input written to a running process.
#[derive(Debug, Clone, PartialEq, Eq)]
pub struct TerminalInteractionEvent {
    pub call_id: String,
    pub process_id: String,
    pub stdin: String,
}

/// Notice that something the client uses will go away.
#[derive(Debug, Clone, PartialEq, Eq)]
pub struct DeprecationNoticeEvent {
    pub summary: String,
    pub details: Option<String>,
}

/// An error while streaming a response, which will be retried.
#[derive(Debug, Clone, PartialEq, Eq)]
pub struct StreamErrorEvent {
    pub message: String,
    pub codex_error_info: Option<CodexErrorInfo>,
    pub additional_details: Option<String>,
}

/// Information while streaming a response.
#[derive(Debug, Clone, PartialEq, Eq)]
pub struct StreamInfoEvent {
    pub message: String,
}

/// The diff a turn made.
#[derive(Debug, Clone, PartialEq, Eq)]
pub struct TurnDiffEvent {
    pub unified_diff: String,
}

/// One hunk of a diff.
#[derive(Debug, Clone, PartialEq, Eq)]
pub struct Chunk {
    pub orig_index: u32,
    pub deleted_lines: Vec<String>,
    pub inserted_lines: Vec<String>,
}

/// Why a turn was stopped.
#[derive(Debug, Clone, Copy, PartialEq, Eq, Structural)]
pub enum TurnAbortReason {
    Interrupted,
    Replaced,
    BudgetLimited,
}

/// A turn was stopped.
#[derive(Debug, PartialEq, Eq)]
pub struct TurnAbortedEvent {
    pub turn_id: Option<String>,
    pub reason: TurnAbortReason,
    pub completed_at: Option<i64>,
    pub duration_ms: Option<i64>,
}

impl Clone for TurnAbortedEvent {
    fn clone(&self) -> (r: Self)
        ensures
            r == *self,
    {
        TurnAbortedEvent {
            turn_id: crate::text::clone_opt_string(&self.turn_id),
            reason: self.reason,
            completed_at: self.completed_at,
            duration_ms: self.duration_ms,
        }
    }
}

} // verus!
