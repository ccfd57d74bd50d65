//! Sign-in state: tokens supplied by an external authority, the recovery
//! sequence after an unauthorized response, and the classification of token
//! refresh failures.
use vstd::prelude::*;
use crate::json::{get_member, member, parse_json, parsed_json, text_of, JsonValue};
use crate::text::{
    ascii_lower_chars, chars_of, chars_eq, copy_str, is_blank, lower, str_eq, string_from_chars, trim,
    trim_bounds,
};

verus! {

/// An API key sign-in.
#[derive(Debug, Clone, PartialEq, Eq)]
pub struct ApiKeyAuth {
    api_key: String,
}

impl ApiKeyAuth {
    /// The key.
    pub closed spec fn spec_key(&self) -> Seq<char> {
        self.api_key@
    }

    /// A sign-in with the given key.
    pub fn new(api_key: String) -> (r: ApiKeyAuth)
        ensures
            r.spec_key() == api_key@,
    {
        ApiKeyAuth { api_key }
    }

    /// The key.
    pub fn api_key(&self) -> (r: &str)
        ensures
            r@ == self.spec_key(),
    {
        self.api_key.as_str()
    }
}

/// Tokens supplied by an external authority.
#[derive(Debug, Clone, PartialEq, Eq)]
pub struct ExternalAuthTokens {
    pub access_token: String,
    pub chatgpt_metadata: Option<ExternalAuthChatgptMetadata>,
}

/// The ChatGPT account that externally supplied tokens belong to.
#[derive(Debug, Clone, PartialEq, Eq)]
pub struct ExternalAuthChatgptMetadata {
    pub account_id: String,
    pub plan_type: Option<String>,
}

impl ExternalAuthTokens {
    /// Tokens with an access token and no account.
    pub fn access_token_only(access_token: String) -> (r: ExternalAuthTokens)
        ensures
            r.access_token == access_token,
            r.chatgpt_metadata is None,
    {
        ExternalAuthTokens { access_token, chatgpt_metadata: None }
    }

    /// Tokens of a ChatGPT account.
    pub fn chatgpt(
        access_token: String,
        chatgpt_account_id: String,
        chatgpt_plan_type: Option<String>,
    ) -> (r: ExternalAuthTokens)
        ensures
            r.access_token == access_token,
            r.chatgpt_metadata == Some(
                ExternalAuthChatgptMetadata {
                    account_id: chatgpt_account_id,
                    plan_type: chatgpt_plan_type,
                },
            ),
    {
        ExternalAuthTokens {
            access_token,
            chatgpt_metadata: Some(
                ExternalAuthChatgptMetadata {
                    account_id: chatgpt_account_id,
                    plan_type: chatgpt_plan_type,
                },
            ),
        }
    }

    /// The account the tokens belong to, if any.
    pub fn chatgpt_metadata(&self) -> (r: Option<&ExternalAuthChatgptMetadata>)
        ensures
            match self.chatgpt_metadata {
                Some(m) => r == Some(&m),
                None => r is None,
            },
    {
        match &self.chatgpt_metadata {
            Some(m) => Some(m),
            None => None,
        }
    }
}

/// Why external tokens are asked to refresh.
#[derive(Debug, Clone, Copy, PartialEq, Eq, Structural)]
pub enum ExternalAuthRefreshReason {
    Unauthorized,
}

/// What an external refresh is told.
#[derive(Debug, Clone, PartialEq, Eq)]
pub struct ExternalAuthRefreshContext {
    pub reason: ExternalAuthRefreshReason,
    pub previous_account_id: Option<String>,
}

/// The environment variable that holds an OpenAI API key.
pub const OPENAI_API_KEY_ENV_VAR: &'static str = "OPENAI_API_KEY";

/// The environment variable that holds a Codex API key.
pub const CODEX_API_KEY_ENV_VAR: &'static str = "CODEX_API_KEY";

/// The Codex API key from the value of `CODEX_API_KEY` (read by the caller):
/// the value trimmed, or nothing when it is unset or blank.
pub fn read_codex_api_key_from_env(value: Option<String>) -> (r: Option<String>)
    ensures
        match value {
            None => r is None,
            Some(v) => if trim(v@).len() == 0 {
                r is None
            } else {
                r matches Some(t) && t@ == trim(v@)
            },
        },
{
    read_non_empty_env_var(value)
}

/// The value of an environment variable, trimmed; nothing when it is unset or
/// blank. This is what reading an API key from the environment keeps.
pub fn read_non_empty_env_var(value: Option<String>) -> (r: Option<String>)
    ensures
        match value {
            None => r is None,
            Some(v) => if trim(v@).len() == 0 {
                r is None
            } else {
                r matches Some(t) && t@ == trim(v@)
            },
        },
{
    match value {
        None => None,
        Some(v) => {
            let cs = chars_of(v.as_str());
            let (a, b) = trim_bounds(&cs);
            if a == b {
                None
            } else {
                Some(string_from_chars(&cs, a, b))
            }
        },
    }
}

/// The result of one recovery step.
#[derive(Debug, Clone, Copy, PartialEq, Eq, Structural)]
pub struct UnauthorizedRecoveryStepResult {
    auth_state_changed: Option<bool>,
}

impl UnauthorizedRecoveryStepResult {
    /// Whether the step changed the sign-in state.
    pub closed spec fn spec_changed(&self) -> Option<bool> {
        self.auth_state_changed
    }

    /// A result with the given change.
    pub fn new(auth_state_changed: Option<bool>) -> (r: UnauthorizedRecoveryStepResult)
        ensures
            r.spec_changed() == auth_state_changed,
    {
        UnauthorizedRecoveryStepResult { auth_state_changed }
    }

    /// Whether the step changed the sign-in state; nothing when no step ran.
    pub fn auth_state_changed(&self) -> (r: Option<bool>)
        ensures
            r == self.spec_changed(),
    {
        self.auth_state_changed
    }
}

/// The next step of the recovery after an unauthorized response.
#[derive(Debug, Clone, Copy, PartialEq, Eq, Structural)]
pub enum UnauthorizedRecoveryStep {
    Reload,
    RefreshToken,
    ExternalRefresh,
    Done,
}

/// Who refreshes the credentials.
#[derive(Debug, Clone, Copy, PartialEq, Eq, Structural)]
pub enum UnauthorizedRecoveryMode {
    Managed,
    External,
}

/// What reloading the stored credentials found.
#[derive(Debug, Clone, Copy, PartialEq, Eq, Structural)]
pub enum ReloadOutcome {
    ReloadedChanged,
    ReloadedNoChange,
    Skipped,
}

/// What the sign-in manager currently knows, as the recovery needs it.
#[derive(Debug, Clone, Copy, PartialEq, Eq, Structural)]
pub struct RecoveryFacts {
    /// An external authority supplies API keys.
    pub has_external_api_key_auth: bool,
    /// The cached sign-in is a ChatGPT sign-in.
    pub cached_is_chatgpt_auth: bool,
    /// An external authority is registered.
    pub has_external_auth: bool,
}

/// What the recovery asks the caller to do next.
#[derive(Debug, Clone, PartialEq, Eq)]
pub enum RecoveryAction {
    /// No step is left: fail with the given message.
    Exhausted,
    /// Reload stored credentials if they still belong to this account.
    Reload { expected_account_id: Option<String> },
    /// Refresh the token with the authority.
    RefreshToken,
    /// Ask the external authority to refresh.
    ExternalRefresh,
    /// Nothing to do; report that no step ran.
    NoStep,
}

/// The state of a recovery after an unauthorized response.
#[derive(Debug, Clone, PartialEq, Eq)]
pub struct UnauthorizedRecoveryState {
    pub step: UnauthorizedRecoveryStep,
    pub expected_account_id: Option<String>,
    pub mode: UnauthorizedRecoveryMode,
}

/// Whether a recovery step is available.
pub open spec fn spec_has_next(s: UnauthorizedRecoveryState, f: RecoveryFacts) -> bool {
    if f.has_external_api_key_auth {
        !(s.step is Done)
    } else if !f.cached_is_chatgpt_auth {
        false
    } else if s.mode is External && !f.has_external_auth {
        false
    } else {
        !(s.step is Done)
    }
}

/// The message of a refresh refused because the account changed.
pub open spec fn account_mismatch_message() -> Seq<char> {
    "Your access token could not be refreshed because you have since logged out or signed in to another account. Please sign in again."@
}

/// The recovery that starts for the current sign-in.
pub open spec fn spec_new_recovery(
    has_external_api_key_auth: bool,
    cached_is_external_chatgpt_tokens: bool,
    cached_account_id: Option<String>,
) -> UnauthorizedRecoveryState {
    if has_external_api_key_auth || cached_is_external_chatgpt_tokens {
        UnauthorizedRecoveryState {
            step: UnauthorizedRecoveryStep::ExternalRefresh,
            expected_account_id: cached_account_id,
            mode: UnauthorizedRecoveryMode::External,
        }
    } else {
        UnauthorizedRecoveryState {
            step: UnauthorizedRecoveryStep::Reload,
            expected_account_id: cached_account_id,
            mode: UnauthorizedRecoveryMode::Managed,
        }
    }
}

/// The state after a reload: the token is refreshed next, unless the reload
/// was skipped, which ends the recovery.
pub open spec fn spec_after_reload(s: UnauthorizedRecoveryState, outcome: ReloadOutcome) -> UnauthorizedRecoveryState {
    UnauthorizedRecoveryState {
        step: match outcome {
            ReloadOutcome::Skipped => UnauthorizedRecoveryStep::Done,
            _ => UnauthorizedRecoveryStep::RefreshToken,
        },
        ..s
    }
}

/// The state after a successful refresh: the recovery is done.
pub open spec fn spec_after_refresh(s: UnauthorizedRecoveryState) -> UnauthorizedRecoveryState {
    UnauthorizedRecoveryState { step: UnauthorizedRecoveryStep::Done, ..s }
}

impl UnauthorizedRecoveryState {
    /// The recovery for the current sign-in: external when an external authority
    /// supplies the credentials, managed otherwise.
    pub fn new(
        has_external_api_key_auth: bool,
        cached_is_external_chatgpt_tokens: bool,
        cached_account_id: Option<String>,
    ) -> (r: UnauthorizedRecoveryState)
        ensures
            r == spec_new_recovery(
                has_external_api_key_auth,
                cached_is_external_chatgpt_tokens,
                cached_account_id,
            ),
    {
        let mode = if has_external_api_key_auth || cached_is_external_chatgpt_tokens {
            UnauthorizedRecoveryMode::External
        } else {
            UnauthorizedRecoveryMode::Managed
        };
        let step = match mode {
            UnauthorizedRecoveryMode::Managed => UnauthorizedRecoveryStep::Reload,
            UnauthorizedRecoveryMode::External => UnauthorizedRecoveryStep::ExternalRefresh,
        };
        UnauthorizedRecoveryState { step, expected_account_id: cached_account_id, mode }
    }

    /// Whether a recovery step is available.
    pub fn has_next(&self, facts: RecoveryFacts) -> (r: bool)
        ensures
            r == spec_has_next(*self, facts),
    {
        if facts.has_external_api_key_auth {
            return !matches!(self.step, UnauthorizedRecoveryStep::Done);
        }
        if !facts.cached_is_chatgpt_auth {
            return false;
        }
        if matches!(self.mode, UnauthorizedRecoveryMode::External) && !facts.has_external_auth {
            return false;
        }
        !matches!(self.step, UnauthorizedRecoveryStep::Done)
    }

    /// Why no step is available, or "ready".
    pub fn unavailable_reason(&self, facts: RecoveryFacts) -> (r: &'static str)
        ensures
            r@ == if facts.has_external_api_key_auth {
                if self.step is Done {
                    "recovery_exhausted"@
                } else {
                    "ready"@
                }
            } else if !facts.cached_is_chatgpt_auth {
                "not_chatgpt_auth"@
            } else if self.mode is External && !facts.has_external_auth {
                "no_external_auth"@
            } else if self.step is Done {
                "recovery_exhausted"@
            } else {
                "ready"@
            },
    {
        if facts.has_external_api_key_auth {
            return if matches!(self.step, UnauthorizedRecoveryStep::Done) {
                "recovery_exhausted"
            } else {
                "ready"
            };
        }
        if !facts.cached_is_chatgpt_auth {
            return "not_chatgpt_auth";
        }
        if matches!(self.mode, UnauthorizedRecoveryMode::External) && !facts.has_external_auth {
            return "no_external_auth";
        }
        if matches!(self.step, UnauthorizedRecoveryStep::Done) {
            return "recovery_exhausted";
        }
        "ready"
    }

    /// The name of the mode.
    pub fn mode_name(&self) -> (r: &'static str)
        ensures
            r@ == match self.mode {
                UnauthorizedRecoveryMode::Managed => "managed"@,
                UnauthorizedRecoveryMode::External => "external"@,
            },
    {
        match self.mode {
            UnauthorizedRecoveryMode::Managed => "managed",
            UnauthorizedRecoveryMode::External => "external",
        }
    }

    /// The name of the next step.
    pub fn step_name(&self) -> (r: &'static str)
        ensures
            r@ == match self.step {
                UnauthorizedRecoveryStep::Reload => "reload"@,
                UnauthorizedRecoveryStep::RefreshToken => "refresh_token"@,
                UnauthorizedRecoveryStep::ExternalRefresh => "external_refresh"@,
                UnauthorizedRecoveryStep::Done => "done"@,
            },
    {
        match self.step {
            UnauthorizedRecoveryStep::Reload => "reload",
            UnauthorizedRecoveryStep::RefreshToken => "refresh_token",
            UnauthorizedRecoveryStep::ExternalRefresh => "external_refresh",
            UnauthorizedRecoveryStep::Done => "done",
        }
    }

    /// What the next step asks of the caller.
    pub fn plan_next(&self, facts: RecoveryFacts) -> (r: RecoveryAction)
        ensures
            !spec_has_next(*self, facts) ==> r is Exhausted,
            spec_has_next(*self, facts) ==> r == match self.step {
                UnauthorizedRecoveryStep::Reload => RecoveryAction::Reload {
                    expected_account_id: self.expected_account_id,
                },
                UnauthorizedRecoveryStep::RefreshToken => RecoveryAction::RefreshToken,
                UnauthorizedRecoveryStep::ExternalRefresh => RecoveryAction::ExternalRefresh,
                UnauthorizedRecoveryStep::Done => RecoveryAction::NoStep,
            },
    {
        if !self.has_next(facts) {
            return RecoveryAction::Exhausted;
        }
        match self.step {
            UnauthorizedRecoveryStep::Reload => RecoveryAction::Reload {
                expected_account_id: self.expected_account_id.clone(),
            },
            UnauthorizedRecoveryStep::RefreshToken => RecoveryAction::RefreshToken,
            UnauthorizedRecoveryStep::ExternalRefresh => RecoveryAction::ExternalRefresh,
            UnauthorizedRecoveryStep::Done => RecoveryAction::NoStep,
        }
    }

    /// Takes in the outcome of a reload: on a reload the token is refreshed next
    /// and the result says whether the credentials changed; a skipped reload ends
    /// the recovery with the account-mismatch message.
    pub fn after_reload(&mut self, outcome: ReloadOutcome) -> (r: Result<
        UnauthorizedRecoveryStepResult,
        String,
    >)
        ensures
            *final(self) == spec_after_reload(*old(self), outcome),
            match outcome {
                ReloadOutcome::ReloadedChanged => r matches Ok(s) && s.spec_changed() == Some(true),
                ReloadOutcome::ReloadedNoChange => r matches Ok(s) && s.spec_changed() == Some(false),
                ReloadOutcome::Skipped => r matches Err(m) && m@ == account_mismatch_message(),
            },
    {
        match outcome {
            ReloadOutcome::ReloadedChanged => {
                self.step = UnauthorizedRecoveryStep::RefreshToken;
                Ok(UnauthorizedRecoveryStepResult::new(Some(true)))
            },
            ReloadOutcome::ReloadedNoChange => {
                self.step = UnauthorizedRecoveryStep::RefreshToken;
                Ok(UnauthorizedRecoveryStepResult::new(Some(false)))
            },
            ReloadOutcome::Skipped => {
                self.step = UnauthorizedRecoveryStep::Done;
                Err(crate::text::copy_str(
                    "Your access token could not be refreshed because you have since logged out or signed in to another account. Please sign in again.",
                ))
            },
        }
    }

    /// Takes in a successful refresh (by the authority or the external one):
    /// the recovery is done and the credentials changed. A failed refresh leaves
    /// the state as it was.
    pub fn after_refresh(&mut self) -> (r: UnauthorizedRecoveryStepResult)
        ensures
            *final(self) == spec_after_refresh(*old(self)),
            r.spec_changed() == Some(true),
    {
        self.step = UnauthorizedRecoveryStep::Done;
        UnauthorizedRecoveryStepResult::new(Some(true))
    }
}

/// A managed recovery takes at most two steps: after the reload, and after the
/// refresh that follows a reload that was not skipped, no step is left,
/// whatever the sign-in manager knows.
pub proof fn law_managed_recovery_ends(
    cached_account_id: Option<String>,
    outcome: ReloadOutcome,
    facts: RecoveryFacts,
)
    ensures
        ({
            let s0 = spec_new_recovery(false, false, cached_account_id);
            let s1 = spec_after_reload(s0, outcome);
            &&& s0.step is Reload
            &&& outcome is Skipped ==> !spec_has_next(s1, facts)
            &&& !(outcome is Skipped) ==> s1.step is RefreshToken && !spec_has_next(
                spec_after_refresh(s1),
                facts,
            )
        }),
{
}

/// An external recovery takes one step: after the external refresh no step is
/// left.
pub proof fn law_external_recovery_ends(
    cached_account_id: Option<String>,
    has_external_api_key_auth: bool,
    facts: RecoveryFacts,
)
    ensures
        ({
            let s0 = spec_new_recovery(has_external_api_key_auth, true, cached_account_id);
            &&& s0.step is ExternalRefresh
            &&& !spec_has_next(spec_after_refresh(s0), facts)
        }),
{
}

/// Why a token refresh failed for good.
#[derive(Debug, Clone, Copy, PartialEq, Eq, Structural)]
pub enum RefreshTokenFailedReason {
    Expired,
    Exhausted,
    Revoked,
    Other,
}

/// A refresh that failed for good, with the message shown to the user.
#[derive(Debug, Clone, PartialEq, Eq)]
pub struct RefreshTokenFailedError {
    pub reason: RefreshTokenFailedReason,
    pub message: String,
}

/// The error code of a refresh error body parsed as JSON: `error.code` when
/// `error` is an object with a string `code`, `error` itself when it is a
/// string, else the top-level `code` when it is a string; nothing for a value
/// that is not an object.
pub open spec fn spec_error_code(v: JsonValue) -> Option<Seq<char>> {
    match v {
        JsonValue::Object(_) => {
            let from_error = match get_member(v, "error"@) {
                Some(JsonValue::Object(inner)) => text_of(member(inner@, "code"@)),
                Some(JsonValue::Text(c)) => Some(c@),
                _ => None,
            };
            match from_error {
                Some(c) => Some(c),
                None => text_of(get_member(v, "code"@)),
            }
        },
        _ => None,
    }
}

/// The error code of a refresh failure, given what the body parses to:
/// nothing for a blank body or one that is not a JSON object (`parsed` is then
/// `None`).
pub fn error_code_of_parsed_body(body: &str, parsed: &Option<JsonValue>) -> (r: Option<
    String,
>)
    ensures
        trim(body@).len() == 0 ==> r is None,
        trim(body@).len() > 0 ==> match *parsed {
            None => r is None,
            Some(b) => match spec_error_code(b) {
                Some(c) => r matches Some(s) && s@ == c,
                None => r is None,
            },
        },
{
    if is_blank(body) {
        return None;
    }
    let v = match parsed {
        None => return None,
        Some(v) => v,
    };
    if let JsonValue::Object(_) = v {
        if let Some(e) = v.get("error") {
            match e {
                JsonValue::Object(_) => {
                    if let Some(c) = e.get("code") {
                        if let Some(t) = c.as_text() {
                            return Some(copy_str(t));
                        }
                    }
                },
                JsonValue::Text(c) => {
                    return Some(c.clone());
                },
                _ => {},
            }
        }
        match v.get("code") {
            Some(c) => match c.as_text() {
                Some(t) => Some(copy_str(t)),
                None => None,
            },
            None => None,
        }
    } else {
        None
    }
}

/// The reason a lowercased error code stands for.
pub open spec fn spec_reason_for_code(code: Option<Seq<char>>) -> RefreshTokenFailedReason {
    match code {
        Some(c) => if lower(c) == "refresh_token_expired"@ {
            RefreshTokenFailedReason::Expired
        } else if lower(c) == "refresh_token_reused"@ {
            RefreshTokenFailedReason::Exhausted
        } else if lower(c) == "refresh_token_invalidated"@ {
            RefreshTokenFailedReason::Revoked
        } else {
            RefreshTokenFailedReason::Other
        },
        None => RefreshTokenFailedReason::Other,
    }
}

/// The message shown for a refresh failure reason.
pub open spec fn spec_reason_message(reason: RefreshTokenFailedReason) -> Seq<char> {
    match reason {
        RefreshTokenFailedReason::Expired => "Your access token could not be refreshed because your refresh token has expired. Please log out and sign in again."@,
        RefreshTokenFailedReason::Exhausted => "Your access token could not be refreshed because your refresh token was already used. Please log out and sign in again."@,
        RefreshTokenFailedReason::Revoked => "Your access token could not be refreshed because your refresh token was revoked. Please log out and sign in again."@,
        RefreshTokenFailedReason::Other => "Your access token could not be refreshed. Please log out and sign in again."@,
    }
}

/// Classifies a refresh failure, given what its body parses to, by its error
/// code (case-insensitively), and attaches the message for the reason.
pub fn classify_parsed_refresh_failure(body: &str, parsed: &Option<JsonValue>) -> (r:
    RefreshTokenFailedError)
    ensures
        r.reason == spec_reason_for_code(
            if trim(body@).len() == 0 {
                None
            } else {
                match *parsed {
                    None => None,
                    Some(b) => spec_error_code(b),
                }
            },
        ),
        r.message@ == spec_reason_message(r.reason),
{
    let code = error_code_of_parsed_body(body, parsed);
    let reason = match &code {
        Some(c) => {
            let lc = ascii_lower_chars(&chars_of(c.as_str()));
            if chars_eq(&lc, &chars_of("refresh_token_expired")) {
                RefreshTokenFailedReason::Expired
            } else if chars_eq(&lc, &chars_of("refresh_token_reused")) {
                RefreshTokenFailedReason::Exhausted
            } else if chars_eq(&lc, &chars_of("refresh_token_invalidated")) {
                RefreshTokenFailedReason::Revoked
            } else {
                RefreshTokenFailedReason::Other
            }
        },
        None => RefreshTokenFailedReason::Other,
    };
    let message = match reason {
        RefreshTokenFailedReason::Expired => crate::text::copy_str(
            "Your access token could not be refreshed because your refresh token has expired. Please log out and sign in again.",
        ),
        RefreshTokenFailedReason::Exhausted => crate::text::copy_str(
            "Your access token could not be refreshed because your refresh token was already used. Please log out and sign in again.",
        ),
        RefreshTokenFailedReason::Revoked => crate::text::copy_str(
            "Your access token could not be refreshed because your refresh token was revoked. Please log out and sign in again.",
        ),
        RefreshTokenFailedReason::Other => crate::text::copy_str(
            "Your access token could not be refreshed. Please log out and sign in again.",
        ),
    };
    RefreshTokenFailedError { reason, message }
}

/// The error code of a refresh failure's body: `error.code`, or `error` when
/// it is a string, else the top-level `code`; nothing for a blank body or one
/// that is not a JSON object.
pub fn extract_refresh_token_error_code(body: &str) -> (r: Option<String>)
    ensures
        trim(body@).len() == 0 ==> r is None,
        trim(body@).len() > 0 ==> match parsed_json(body@) {
            None => r is None,
            Some(b) => match spec_error_code(b) {
                Some(c) => r matches Some(s) && s@ == c,
                None => r is None,
            },
        },
{
    if is_blank(body) {
        return None;
    }
    let parsed = parse_json(body);
    error_code_of_parsed_body(body, &parsed)
}

/// Classifies a refresh failure by the error code in its body.
pub fn classify_refresh_token_failure(body: &str) -> (r: RefreshTokenFailedError)
    ensures
        r.reason == spec_reason_for_code(
            if trim(body@).len() == 0 {
                None
            } else {
                match parsed_json(body@) {
                    None => None,
                    Some(b) => spec_error_code(b),
                }
            },
        ),
        r.message@ == spec_reason_message(r.reason),
{
    let parsed = if is_blank(body) {
        None
    } else {
        parse_json(body)
    };
    classify_parsed_refresh_failure(body, &parsed)
}

/// How the user is signed in.
#[derive(Debug, Clone, Copy, PartialEq, Eq, Structural)]
pub enum AuthMode {
    ApiKey,
    Chatgpt,
    ChatgptAuthTokens,
}

/// The sign-in method an administrator requires.
#[derive(Debug, Clone, Copy, PartialEq, Eq, Structural)]
pub enum ForcedLoginMethod {
    Api,
    Chatgpt,
}

/// Why the current sign-in breaks the required method, if it does.
pub open spec fn spec_method_violation(required: ForcedLoginMethod, mode: AuthMode) -> Option<Seq<char>> {
    match (required, mode) {
        (ForcedLoginMethod::Api, AuthMode::ApiKey) => None,
        (ForcedLoginMethod::Chatgpt, AuthMode::ApiKey) => Some(
            "ChatGPT login is required, but an API key is currently being used. Logging out."@,
        ),
        (ForcedLoginMethod::Api, _) => Some(
            "API key login is required, but ChatGPT is currently being used. Logging out."@,
        ),
        (ForcedLoginMethod::Chatgpt, _) => None,
    }
}

/// The message that signs the user out when the sign-in method is not the
/// required one; nothing when it is.
pub fn login_method_violation(required: ForcedLoginMethod, mode: AuthMode) -> (r: Option<String>)
    ensures
        match spec_method_violation(required, mode) {
            Some(m) => r matches Some(s) && s@ == m,
            None => r is None,
        },
{
    match (required, mode) {
        (ForcedLoginMethod::Api, AuthMode::ApiKey) => None,
        (ForcedLoginMethod::Chatgpt, AuthMode::ApiKey) => Some(
            copy_str("ChatGPT login is required, but an API key is currently being used. Logging out."),
        ),
        (ForcedLoginMethod::Api, _) => Some(
            copy_str("API key login is required, but ChatGPT is currently being used. Logging out."),
        ),
        (ForcedLoginMethod::Chatgpt, _) => None,
    }
}

/// Texts joined with `", "` between each two.
pub open spec fn join_comma(v: Seq<Seq<char>>) -> Seq<char>
    decreases v.len(),
{
    if v.len() == 0 {
        Seq::empty()
    } else if v.len() == 1 {
        v[0]
    } else {
        join_comma(v.drop_last()) + ", "@ + v.last()
    }
}

/// The texts of a list of strings.
pub open spec fn string_texts(v: Seq<String>) -> Seq<Seq<char>> {
    v.map_values(|s: String| s@)
}

fn join_with_comma(v: &Vec<String>) -> (r: String)
    ensures
        r@ == join_comma(string_texts(v@)),
{
    let mut r = String::new();
    let mut i: usize = 0;
    while i < v.len()
        invariant
            i <= v.len(),
            r@ == join_comma(string_texts(v@.take(i as int))),
        decreases v.len() - i,
    {
        proof {
            assert(string_texts(v@.take(i + 1)).drop_last() =~= string_texts(v@.take(i as int)));
        }
        if i > 0 {
            r.append(", ");
        }
        r.append(v[i].as_str());
        i = i + 1;
    }
    proof {
        assert(v@.take(v@.len() as int) =~= v@);
    }
    r
}

/// Whether `id` is one of the workspaces in `ids`.
pub open spec fn workspace_listed(ids: Seq<String>, id: Seq<char>) -> bool {
    exists|i: int| 0 <= i < ids.len() && (#[trigger] ids[i])@ == id
}

/// Why a ChatGPT sign-in breaks a restriction to the given workspaces, if it does.
pub open spec fn spec_workspace_violation(expected: Seq<String>, account_id: Option<Seq<char>>) -> Option<
    Seq<char>,
> {
    match account_id {
        Some(a) => if workspace_listed(expected, a) {
            None
        } else {
            Some(
                "Login is restricted to workspace(s) "@ + join_comma(string_texts(expected))
                    + ", but current credentials belong to "@ + a + ". Logging out."@,
            )
        },
        None => Some(
            "Login is restricted to workspace(s) "@ + join_comma(string_texts(expected))
                + ", but current credentials lack a workspace identifier. Logging out."@,
        ),
    }
}

/// The message that signs the user out when the ChatGPT account is not in one
/// of the required workspaces; nothing when it is.
pub fn workspace_violation(expected_account_ids: &Vec<String>, account_id: Option<&str>) -> (r: Option<
    String,
>)
    ensures
        match spec_workspace_violation(
            expected_account_ids@,
            match account_id {
                Some(a) => Some(a@),
                None => None,
            },
        ) {
            Some(m) => r matches Some(s) && s@ == m,
            None => r is None,
        },
{
    match account_id {
        Some(actual) => {
            let mut i: usize = 0;
            while i < expected_account_ids.len()
                invariant
                    i <= expected_account_ids.len(),
                    account_id == Some(actual),
                    forall|j: int| 0 <= j < i ==> (#[trigger] expected_account_ids@[j])@ != actual@,
                decreases expected_account_ids.len() - i,
            {
                if str_eq(expected_account_ids[i].as_str(), actual) {
                    assert(workspace_listed(expected_account_ids@, actual@)) by {
                        assert(expected_account_ids@[i as int]@ == actual@);
                    }
                    return None;
                }
                i = i + 1;
            }
            let mut m = copy_str("Login is restricted to workspace(s) ");
            m.append(join_with_comma(expected_account_ids).as_str());
            m.append(", but current credentials belong to ");
            m.append(actual);
            m.append(". Logging out.");
            Some(m)
        },
        None => {
            let mut m = copy_str("Login is restricted to workspace(s) ");
            m.append(join_with_comma(expected_account_ids).as_str());
            m.append(", but current credentials lack a workspace identifier. Logging out.");
            Some(m)
        },
    }
}

/// The message that signs the user out when the ChatGPT credentials cannot be
/// read while a workspace restriction is checked.
pub fn credentials_load_failure_message(error: &str) -> (r: String)
    ensures
        r@ == "Failed to load ChatGPT credentials while enforcing workspace restrictions: "@ + error@
            + ". Logging out."@,
{
    let mut m = copy_str("Failed to load ChatGPT credentials while enforcing workspace restrictions: ");
    m.append(error);
    m.append(". Logging out.");
    m
}

} // verus!
