//! Decisions a session makes between turns: which service tier and reasoning
//! effort a turn uses, how much of the context window it may fill, how token
//! accounting is restored and reset, and how a refused steer is reported.
use vstd::prelude::*;
use crate::config_types::{ReasoningSummary, ServiceTier, SERVICE_TIER_DEFAULT_REQUEST_VALUE};
use crate::context::{
    build_text_message, describes, environment_diff, is_texts_message, rendered_context, same_opt, EnvironmentContext, EnvironmentContextEnvironment,
    EnvironmentContextEnvironments, ENVIRONMENT_CONTEXT_CLOSE_TAG,
    ENVIRONMENT_CONTEXT_OPEN_TAG,
};
use crate::models::{DynamicToolSpec, ResponseInputItem, ResponseItem};
use crate::protocol::{uuid_canonical, ThreadId, TurnContextItem, TurnEnvironmentSelection};
use crate::util::{spec_is_absolute, spec_join_relative};
use crate::openai_models::{has_tier, spec_resolved_context_window, ModelInfo, ReasoningEffort};
use crate::protocol::{CodexErrorInfo, ErrorEvent, NonSteerableTurnKind, WarningEvent};
use crate::rollout::{
    first_found, history_items, meta_base_instructions, meta_dynamic_tools, InitialHistory, RolloutEvent,
    RolloutItem,
};
use crate::text::{clone_opt_string, copy_str, decimal_digits, push_decimal_digits, str_eq, trim, trim_str};
use crate::config::{
    dedupe_paths, dedupe_text, lemma_dedupe_text_contains, lemma_dedupe_text_unique, lemma_deduped_views,
    normalized_service_tier,
};
use crate::token_usage::{TokenUsage, TokenUsageInfo, zero_usage};
use crate::user_input::UserInput;
use crate::json::JsonValue;

verus! {

/// Why new input could not steer the running turn.
#[derive(Debug, PartialEq)]
pub enum SteerInputError {
    NoActiveTurn(Vec<UserInput>),
    ExpectedTurnMismatch { expected: String, actual: String },
    ActiveTurnNotSteerable { turn_kind: NonSteerableTurnKind },
    EmptyInput,
}

/// The message reported for a refused steer.
pub open spec fn steer_error_message(e: SteerInputError) -> Seq<char> {
    match e {
        SteerInputError::NoActiveTurn(_) => "no active turn to steer"@,
        SteerInputError::ExpectedTurnMismatch { expected, actual } => "expected active turn id `"@
            + expected@ + "` but found `"@ + actual@ + "`"@,
        SteerInputError::ActiveTurnNotSteerable { turn_kind } => match turn_kind {
            NonSteerableTurnKind::Compact => "cannot steer a compact turn"@,
        },
        SteerInputError::EmptyInput => "input must not be empty"@,
    }
}

impl SteerInputError {
    /// The error event for a refused steer: a bad request, except that a turn
    /// that cannot be steered is reported as such.
    pub fn to_error_event(&self) -> (r: ErrorEvent)
        ensures
            r.message@ == steer_error_message(*self),
            r.codex_error_info == Some(
                match *self {
                    SteerInputError::ActiveTurnNotSteerable { turn_kind } => CodexErrorInfo::ActiveTurnNotSteerable {
                        turn_kind,
                    },
                    _ => CodexErrorInfo::BadRequest,
                },
            ),
    {
        match self {
            SteerInputError::NoActiveTurn(_) => ErrorEvent {
                message: String::from_str("no active turn to steer"),
                codex_error_info: Some(CodexErrorInfo::BadRequest),
            },
            SteerInputError::ExpectedTurnMismatch { expected, actual } => {
                let mut message = String::from_str("expected active turn id `");
                message.append(expected.as_str());
                message.append("` but found `");
                message.append(actual.as_str());
                message.append("`");
                ErrorEvent { message, codex_error_info: Some(CodexErrorInfo::BadRequest) }
            },
            SteerInputError::ActiveTurnNotSteerable { turn_kind } => {
                let message = match turn_kind {
                    NonSteerableTurnKind::Compact => String::from_str("cannot steer a compact turn"),
                };
                ErrorEvent {
                    message,
                    codex_error_info: Some(
                        CodexErrorInfo::ActiveTurnNotSteerable { turn_kind: *turn_kind },
                    ),
                }
            },
            SteerInputError::EmptyInput => ErrorEvent {
                message: String::from_str("input must not be empty"),
                codex_error_info: Some(CodexErrorInfo::BadRequest),
            },
        }
    }
}

/// What a running task does.
#[derive(Debug, Clone, Copy, PartialEq, Eq, Structural)]
pub enum TaskKind {
    Regular,
    Compact,
}

/// The task of the active turn, as far as steering reads it.
#[derive(Debug, Clone, PartialEq, Eq)]
pub struct ActiveTask {
    pub sub_id: String,
    pub kind: TaskKind,
}

/// Whether new input may steer the active turn: it must not be empty, a turn
/// with a task must be running, its id must be the expected one when one is
/// given, and it must not be a compaction. On success the input comes back
/// with the id of the turn it goes to.
pub fn check_steer_input(
    input: Vec<UserInput>,
    active: Option<&ActiveTask>,
    expected_turn_id: Option<&str>,
) -> (r: Result<(Vec<UserInput>, String), SteerInputError>)
    ensures
        input@.len() == 0 ==> r == Err::<(Vec<UserInput>, String), SteerInputError>(
            SteerInputError::EmptyInput,
        ),
        input@.len() > 0 && active is None ==> (r matches Err(SteerInputError::NoActiveTurn(v))
            && v@ == input@),
        input@.len() > 0 && active is Some ==> match (active.unwrap(), expected_turn_id) {
            (task, Some(expected)) if expected@ != task.sub_id@ => r matches Err(
                SteerInputError::ExpectedTurnMismatch { expected: e, actual: a },
            ) && e@ == expected@ && a@ == task.sub_id@,
            (task, _) => if task.kind == TaskKind::Compact {
                r == Err::<(Vec<UserInput>, String), SteerInputError>(
                    SteerInputError::ActiveTurnNotSteerable { turn_kind: NonSteerableTurnKind::Compact },
                )
            } else {
                r matches Ok((v, id)) && v@ == input@ && id@ == match expected_turn_id {
                    Some(expected) => expected@,
                    None => task.sub_id@,
                }
            },
        },
{
    if input.len() == 0 {
        return Err(SteerInputError::EmptyInput);
    }
    let task = match active {
        None => {
            return Err(SteerInputError::NoActiveTurn(input));
        },
        Some(task) => task,
    };
    if let Some(expected) = expected_turn_id {
        if !str_eq(task.sub_id.as_str(), expected) {
            return Err(
                SteerInputError::ExpectedTurnMismatch {
                    expected: copy_str(expected),
                    actual: copy_str(task.sub_id.as_str()),
                },
            );
        }
    }
    if task.kind == TaskKind::Compact {
        return Err(SteerInputError::ActiveTurnNotSteerable { turn_kind: NonSteerableTurnKind::Compact });
    }
    let turn_id = match expected_turn_id {
        Some(expected) => copy_str(expected),
        None => copy_str(task.sub_id.as_str()),
    };
    Ok((input, turn_id))
}

/// The settings of the previous turn that decide what a new turn must be told.
#[derive(Debug, Clone, PartialEq, Eq)]
pub struct PreviousTurnSettings {
    pub model: String,
}

/// The configured service tier, kept when it is the default request value or a
/// tier the model offers.
pub fn get_service_tier(configured_service_tier: Option<String>, model_info: &ModelInfo) -> (r: Option<
    String,
>)
    ensures
        match configured_service_tier {
            Some(t) => if t@ == SERVICE_TIER_DEFAULT_REQUEST_VALUE@ || has_tier(
                model_info.service_tiers@,
                t@,
            ) {
                r == Some(t)
            } else {
                r is None
            },
            None => r is None,
        },
{
    match configured_service_tier {
        Some(t) => {
            if str_eq(t.as_str(), SERVICE_TIER_DEFAULT_REQUEST_VALUE) || model_info.supports_service_tier(
                t.as_str(),
            ) {
                Some(t)
            } else {
                None
            }
        },
        None => None,
    }
}

/// The reasoning effort a turn asks for: the configured one, else the model's
/// default; none for a model without reasoning summaries.
pub fn effective_reasoning_effort(model_info: &ModelInfo, reasoning_effort: Option<ReasoningEffort>) -> (r:
    Option<ReasoningEffort>)
    ensures
        r == if model_info.supports_reasoning_summaries {
            match reasoning_effort {
                Some(e) => Some(e),
                None => model_info.default_reasoning_level,
            }
        } else {
            None
        },
{
    if model_info.supports_reasoning_summaries {
        match reasoning_effort {
            Some(e) => Some(e),
            None => model_info.default_reasoning_level,
        }
    } else {
        None
    }
}

/// `x` held to the range of `i64`.
pub open spec fn saturate_i64(x: int) -> int {
    if x > i64::MAX {
        i64::MAX as int
    } else if x < i64::MIN {
        i64::MIN as int
    } else {
        x
    }
}

/// `a / b` rounded toward zero, as integer division on machine integers does.
pub open spec fn div_toward_zero(a: int, b: int) -> int
    recommends
        b > 0,
{
    if a >= 0 {
        a / b
    } else {
        -((-a) / b)
    }
}

/// The share of a model's context window that a turn may fill: the resolved
/// window times the effective percentage (saturating), divided by a hundred.
pub open spec fn spec_model_context_window(m: ModelInfo) -> Option<int> {
    match spec_resolved_context_window(m) {
        Some(c) => Some(div_toward_zero(saturate_i64(c * m.effective_context_window_percent), 100)),
        None => None,
    }
}

/// The part of the model's context window a turn may fill.
pub fn model_context_window(model_info: &ModelInfo) -> (r: Option<i64>)
    ensures
        match spec_model_context_window(*model_info) {
            Some(w) => r matches Some(v) && v == w,
            None => r is None,
        },
{
    match model_info.resolved_context_window() {
        Some(c) => {
            let pct = model_info.effective_context_window_percent;
            let a: i128 = c as i128;
            let b: i128 = pct as i128;
            assert(-0x8000_0000_0000_0000 * 0x8000_0000_0000_0000 <= a * b <= 0x8000_0000_0000_0000
                * 0x8000_0000_0000_0000) by (nonlinear_arith)
                requires
                    -0x8000_0000_0000_0000 <= a <= 0x7fff_ffff_ffff_ffff,
                    -0x8000_0000_0000_0000 <= b <= 0x7fff_ffff_ffff_ffff,
            ;
            let p: i128 = a * b;
            let s: i128 = if p > 0x7fff_ffff_ffff_ffff {
                0x7fff_ffff_ffff_ffff
            } else if p < -0x8000_0000_0000_0000 {
                -0x8000_0000_0000_0000
            } else {
                p
            };
            if s >= 0 {
                let q: i128 = s / 100;
                Some(q as i64)
            } else {
                let m: i128 = -s;
                let q: i128 = m / 100;
                Some((-q) as i64)
            }
        },
        None => None,
    }
}

/// The token accounting recorded last in a rollout: the info of the latest
/// token count that carries one.
pub open spec fn last_token_info(items: Seq<RolloutItem>) -> Option<TokenUsageInfo>
    decreases items.len(),
{
    if items.len() == 0 {
        None
    } else {
        match items.last() {
            RolloutItem::EventMsg(RolloutEvent::TokenCount { info: Some(i) }) => Some(i),
            _ => last_token_info(items.drop_last()),
        }
    }
}

/// The token accounting recorded last in a rollout.
pub fn last_token_info_from_rollout(rollout_items: &Vec<RolloutItem>) -> (r: Option<TokenUsageInfo>)
    ensures
        r == last_token_info(rollout_items@),
{
    let mut i: usize = rollout_items.len();
    proof {
        assert(rollout_items@.take(i as int) =~= rollout_items@);
    }
    while i > 0
        invariant
            i <= rollout_items.len(),
            last_token_info(rollout_items@) == last_token_info(rollout_items@.take(i as int)),
        decreases i,
    {
        proof {
            assert(rollout_items@.take(i as int).drop_last() =~= rollout_items@.take(i - 1));
        }
        match &rollout_items[i - 1] {
            RolloutItem::EventMsg(RolloutEvent::TokenCount { info: Some(info) }) => {
                return Some(*info);
            },
            _ => {},
        }
        i = i - 1;
    }
    None
}

/// The accounting after the history was re-estimated at `estimated_total_tokens`:
/// the last usage becomes that estimate (never negative), the totals stay, and
/// the window is replaced when one is known.
pub open spec fn spec_recomputed_token_info(
    info: Option<TokenUsageInfo>,
    estimated_total_tokens: i64,
    model_context_window: Option<i64>,
) -> TokenUsageInfo {
    let base = match info {
        Some(i) => i,
        None => TokenUsageInfo {
            total_token_usage: zero_usage(),
            last_token_usage: zero_usage(),
            model_context_window: None,
        },
    };
    TokenUsageInfo {
        last_token_usage: TokenUsage {
            total_tokens: if estimated_total_tokens < 0 {
                0
            } else {
                estimated_total_tokens
            },
            ..zero_usage()
        },
        model_context_window: match model_context_window {
            Some(w) => Some(w),
            None => base.model_context_window,
        },
        ..base
    }
}

/// The accounting after the history was re-estimated.
pub fn recomputed_token_info(
    info: Option<TokenUsageInfo>,
    estimated_total_tokens: i64,
    model_context_window: Option<i64>,
) -> (r: TokenUsageInfo)
    ensures
        r == spec_recomputed_token_info(info, estimated_total_tokens, model_context_window),
{
    let mut info = match info {
        Some(i) => i,
        None => TokenUsageInfo {
            total_token_usage: TokenUsage::default(),
            last_token_usage: TokenUsage::default(),
            model_context_window: None,
        },
    };
    info.last_token_usage = TokenUsage {
        input_tokens: 0,
        cached_input_tokens: 0,
        output_tokens: 0,
        reasoning_output_tokens: 0,
        total_tokens: if estimated_total_tokens < 0 {
            0
        } else {
            estimated_total_tokens
        },
    };
    if let Some(w) = model_context_window {
        info.model_context_window = Some(w);
    }
    info
}

/// The accounting of a full context window: both the last and the total usage
/// count `total_tokens` tokens in all, their other fields unchanged.
pub open spec fn spec_full_token_info(
    info: Option<TokenUsageInfo>,
    model_context_window: Option<i64>,
    total_tokens: i64,
) -> TokenUsageInfo {
    let base = match info {
        Some(i) => i,
        None => TokenUsageInfo {
            total_token_usage: zero_usage(),
            last_token_usage: zero_usage(),
            model_context_window,
        },
    };
    TokenUsageInfo {
        last_token_usage: TokenUsage { total_tokens, ..base.last_token_usage },
        total_token_usage: TokenUsage { total_tokens, ..base.total_token_usage },
        ..base
    }
}

/// The accounting of a full context window: the window the turn may fill when
/// it is known, else the usage counted so far (`current_total`).
pub fn full_token_info(
    info: Option<TokenUsageInfo>,
    model_context_window: Option<i64>,
    current_total: i64,
) -> (r: TokenUsageInfo)
    ensures
        r == spec_full_token_info(
            info,
            model_context_window,
            match model_context_window {
                Some(w) => w,
                None => current_total,
            },
        ),
{
    let total_tokens = match model_context_window {
        Some(w) => w,
        None => current_total,
    };
    let mut info = match info {
        Some(i) => i,
        None => TokenUsageInfo {
            total_token_usage: TokenUsage::default(),
            last_token_usage: TokenUsage::default(),
            model_context_window,
        },
    };
    info.last_token_usage.total_tokens = total_tokens;
    info.total_token_usage.total_tokens = total_tokens;
    info
}

/// The instructions a model brings along: its template, when it has one that
/// is not blank.
pub open spec fn spec_model_instructions(m: ModelInfo) -> Option<Seq<char>> {
    match m.model_messages {
        Some(mm) => match mm.instructions_template {
            Some(t) => if trim(t@).len() > 0 {
                Some(t@)
            } else {
                None
            },
            None => None,
        },
        None => None,
    }
}

/// The instructions a model brings along, when it has its own.
pub fn model_instructions_from_info(model_info: &ModelInfo) -> (r: Option<String>)
    ensures
        match spec_model_instructions(*model_info) {
            Some(t) => r matches Some(s) && s@ == t,
            None => r is None,
        },
{
    match &model_info.model_messages {
        Some(messages) => {
            if messages.is_empty() {
                None
            } else {
                Some(model_info.get_model_instructions())
            }
        },
        None => None,
    }
}

/// The instructions to announce when a turn switches model: those of the new
/// model, when the previous turn used another model and the new one has its own.
pub fn model_switch_instructions(
    previous_turn_settings: Option<&PreviousTurnSettings>,
    model_info: &ModelInfo,
) -> (r: Option<String>)
    ensures
        match previous_turn_settings {
            None => r is None,
            Some(p) => if p.model@ == model_info.slug@ {
                r is None
            } else {
                match spec_model_instructions(*model_info) {
                    Some(t) => r matches Some(s) && s@ == t,
                    None => r is None,
                }
            },
        },
{
    let previous = match previous_turn_settings {
        Some(p) => p,
        None => return None,
    };
    if str_eq(previous.model.as_str(), model_info.slug.as_str()) {
        return None;
    }
    let instructions = match model_instructions_from_info(model_info) {
        Some(i) => i,
        None => return None,
    };
    if instructions.unicode_len() == 0 {
        return None;
    }
    Some(instructions)
}

/// A recorded directory as the environment reports it: absolute as it is,
/// otherwise taken from the root.
pub open spec fn resolved_cwd(cwd: Seq<char>) -> Seq<char> {
    if spec_is_absolute(cwd) {
        cwd
    } else {
        spec_join_relative("/"@, cwd)
    }
}

/// Whether the environment of the next turn is what the recorded turn already
/// told the model, shells aside.
pub open spec fn environment_unchanged(previous: TurnContextItem, next: EnvironmentContext) -> bool {
    &&& next.environments matches EnvironmentContextEnvironments::Single(x) && x.cwd@ == resolved_cwd(
        previous.cwd@,
    )
    &&& same_opt(previous.current_date, next.current_date)
    &&& same_opt(previous.timezone, next.timezone)
}


/// The user-role note telling the model what changed in its environment since
/// the recorded turn; nothing when environment context is off, when there is
/// no recorded turn, or when nothing but the shell changed.
pub fn build_environment_update_item(
    include_environment_context: bool,
    previous: Option<&TurnContextItem>,
    next_context: &EnvironmentContext,
    shell: &str,
) -> (r: Option<ResponseItem>)
    ensures
        !include_environment_context ==> r is None,
        previous is None ==> r is None,
        include_environment_context ==> match previous {
            None => true,
            Some(p) => if environment_unchanged(*p, *next_context) {
                r is None
            } else {
                r matches Some(item) && is_texts_message(
                    item,
                    "user"@,
                    seq![rendered_context(environment_diff(*p, *next_context))],
                )
            },
        },
{
    if !include_environment_context {
        return None;
    }
    let prev = match previous {
        Some(p) => p,
        None => return None,
    };
    let prev_context = EnvironmentContext::from_turn_context_item(prev, String::from_str(shell));
    if prev_context.equals_except_shell(next_context) {
        return None;
    }
    let diff = EnvironmentContext::diff_from_turn_context_item(prev, next_context);
    let text = diff.render();
    let mut sections: Vec<String> = Vec::new();
    sections.push(text);
    proof {
        assert(sections@.map_values(|t: String| t@) =~= seq![
            rendered_context(environment_diff(*prev, *next_context)),
        ]);
    }
    build_text_message("user", sections)
}

/// The messages that bring the model up to date at the start of a turn: a
/// developer message with the model-switch instructions, when there are any,
/// then the note on the environment, when it changed.
pub fn build_settings_update_items(
    model_switch_update: Option<String>,
    include_environment_context: bool,
    previous: Option<&TurnContextItem>,
    next_context: &EnvironmentContext,
    shell: &str,
) -> (r: Vec<ResponseItem>)
    ensures
        ({
            let env = if include_environment_context && previous is Some && !environment_unchanged(
                *previous->0,
                *next_context,
            ) {
                1int
            } else {
                0int
            };
            let dev = if model_switch_update is Some {
                1int
            } else {
                0int
            };
            &&& r@.len() == dev + env
            &&& model_switch_update matches Some(u) ==> is_texts_message(
                r@[0],
                "developer"@,
                seq![u@],
            )
            &&& env == 1 ==> is_texts_message(
                r@[dev],
                "user"@,
                seq![rendered_context(environment_diff(*previous->0, *next_context))],
            )
        }),
{
    let contextual_user_message = build_environment_update_item(
        include_environment_context,
        previous,
        next_context,
        shell,
    );
    let mut items: Vec<ResponseItem> = Vec::new();
    match model_switch_update {
        Some(update) => {
            let ghost u = update@;
            let mut sections: Vec<String> = Vec::new();
            sections.push(update);
            proof {
                assert(sections@.map_values(|t: String| t@) =~= seq![u]);
            }
            match build_text_message("developer", sections) {
                Some(message) => items.push(message),
                None => {},
            }
        },
        None => {},
    }
    match contextual_user_message {
        Some(message) => items.push(message),
        None => {},
    }
    items
}

/// An environment a turn works in: its directory and, when it has its own,
/// its shell.
#[derive(Debug, PartialEq, Eq)]
pub struct TurnEnvironment {
    pub cwd: String,
    pub shell: Option<String>,
}

impl Clone for TurnEnvironment {
    fn clone(&self) -> (r: Self)
        ensures
            r == *self,
    {
        TurnEnvironment { cwd: self.cwd.clone(), shell: crate::text::clone_opt_string(&self.shell) }
    }
}

/// The selection an environment stands for.
pub open spec fn selection_of(e: TurnEnvironment) -> TurnEnvironmentSelection {
    TurnEnvironmentSelection { cwd: e.cwd }
}

/// The environment a selection resolves to, before a shell is known.
pub open spec fn environment_of(s: TurnEnvironmentSelection) -> TurnEnvironment {
    TurnEnvironment { cwd: s.cwd, shell: None }
}

impl TurnEnvironment {
    /// The selection of this environment's directory.
    pub fn selection(&self) -> (r: TurnEnvironmentSelection)
        ensures
            r == selection_of(*self),
    {
        TurnEnvironmentSelection { cwd: self.cwd.clone() }
    }
}

/// The environments of a turn together with the selections they came from.
#[derive(Debug, Clone, Default)]
pub struct ResolvedTurnEnvironments {
    pub turn_environments: Vec<TurnEnvironment>,
    pub selections: Vec<TurnEnvironmentSelection>,
}

/// The selections that resolved environments stand for: those of the
/// environments, or the recorded selections when there are no environments.
pub open spec fn spec_to_selections(
    environments: Seq<TurnEnvironment>,
    selections: Seq<TurnEnvironmentSelection>,
) -> Seq<TurnEnvironmentSelection> {
    if environments.len() == 0 {
        selections
    } else {
        environments.map_values(|e: TurnEnvironment| selection_of(e))
    }
}

impl ResolvedTurnEnvironments {
    /// One environment per selection, in order, without shells.
    pub fn from_selections(selections: Vec<TurnEnvironmentSelection>) -> (r: ResolvedTurnEnvironments)
        ensures
            r.turn_environments@ == selections@.map_values(|s: TurnEnvironmentSelection| environment_of(s)),
            r.selections@ == selections@,
    {
        let mut turn_environments: Vec<TurnEnvironment> = Vec::new();
        let mut i: usize = 0;
        while i < selections.len()
            invariant
                i <= selections.len(),
                turn_environments@ == selections@.take(i as int).map_values(
                    |s: TurnEnvironmentSelection| environment_of(s),
                ),
            decreases selections.len() - i,
        {
            turn_environments.push(TurnEnvironment { cwd: selections[i].cwd.clone(), shell: None });
            proof {
                assert(selections@.take(i + 1).map_values(
                    |s: TurnEnvironmentSelection| environment_of(s),
                ) =~= selections@.take(i as int).map_values(
                    |s: TurnEnvironmentSelection| environment_of(s),
                ).push(environment_of(selections@[i as int])));
            }
            i = i + 1;
        }
        proof {
            assert(selections@.take(selections@.len() as int) =~= selections@);
        }
        ResolvedTurnEnvironments { turn_environments, selections }
    }

    /// The first environment, where the turn starts.
    pub fn primary(&self) -> (r: Option<&TurnEnvironment>)
        ensures
            self.turn_environments@.len() == 0 ==> r is None,
            self.turn_environments@.len() > 0 ==> r == Some(&self.turn_environments@[0]),
    {
        if self.turn_environments.len() == 0 {
            None
        } else {
            Some(&self.turn_environments[0])
        }
    }

    /// The selections these environments stand for.
    pub fn to_selections(&self) -> (r: Vec<TurnEnvironmentSelection>)
        ensures
            r@ == spec_to_selections(self.turn_environments@, self.selections@),
    {
        if self.turn_environments.len() == 0 {
            let copy = self.selections.clone();
            assert(copy@ =~= self.selections@);
            return copy;
        }
        let mut r: Vec<TurnEnvironmentSelection> = Vec::new();
        let mut i: usize = 0;
        while i < self.turn_environments.len()
            invariant
                i <= self.turn_environments.len(),
                r@ == self.turn_environments@.take(i as int).map_values(
                    |e: TurnEnvironment| selection_of(e),
                ),
            decreases self.turn_environments.len() - i,
        {
            r.push(self.turn_environments[i].selection());
            proof {
                assert(self.turn_environments@.take(i + 1).map_values(
                    |e: TurnEnvironment| selection_of(e),
                ) =~= self.turn_environments@.take(i as int).map_values(
                    |e: TurnEnvironment| selection_of(e),
                ).push(selection_of(self.turn_environments@[i as int])));
            }
            i = i + 1;
        }
        proof {
            assert(self.turn_environments@.take(self.turn_environments@.len() as int)
                =~= self.turn_environments@);
        }
        r
    }
}

/// Resolving selections into environments and reading the selections back
/// gives the selections that were resolved.
pub proof fn law_selections_round_trip(selections: Seq<TurnEnvironmentSelection>)
    ensures
        spec_to_selections(
            selections.map_values(|s: TurnEnvironmentSelection| environment_of(s)),
            selections,
        ) == selections,
{
    let envs = selections.map_values(|s: TurnEnvironmentSelection| environment_of(s));
    if envs.len() > 0 {
        assert(envs.map_values(|e: TurnEnvironment| selection_of(e)) =~= selections);
    }
}

/// How an environment is described to the model: its directory, and its own
/// shell or else the session's shell.
pub open spec fn described_environment(e: TurnEnvironment, shell: Seq<char>) -> (Seq<char>, Seq<char>) {
    (
        e.cwd@,
        match e.shell {
            Some(s) => s@,
            None => shell,
        },
    )
}

/// Whether `v` describes the environments `envs` one for one, in order.
pub open spec fn describes_environments(
    v: Seq<EnvironmentContextEnvironment>,
    envs: Seq<TurnEnvironment>,
    shell: Seq<char>,
) -> bool {
    v.len() == envs.len() && forall|i: int|
        0 <= i < v.len() ==> ((#[trigger] v[i]).cwd@, v[i].shell@) == described_environment(
            envs[i],
            shell,
        )
}

impl EnvironmentContextEnvironment {
    /// The description of each environment of a turn.
    pub fn from_turn_environments(environments: &Vec<TurnEnvironment>, shell: &str) -> (r: Vec<
        EnvironmentContextEnvironment,
    >)
        ensures
            describes_environments(r@, environments@, shell@),
    {
        let mut r: Vec<EnvironmentContextEnvironment> = Vec::new();
        let mut i: usize = 0;
        while i < environments.len()
            invariant
                i <= environments.len(),
                describes_environments(r@, environments@.take(i as int), shell@),
            decreases environments.len() - i,
        {
            let e = &environments[i];
            let shell_name = match &e.shell {
                Some(s) => s.clone(),
                None => String::from_str(shell),
            };
            r.push(EnvironmentContextEnvironment { cwd: e.cwd.clone(), shell: shell_name });
            proof {
                assert forall|k: int| 0 <= k < r@.len() implies ((#[trigger] r@[k]).cwd@, r@[k].shell@)
                    == described_environment(environments@.take(i + 1)[k], shell@) by {
                    if k < i {
                        assert(environments@.take(i + 1)[k] == environments@.take(i as int)[k]);
                    }
                }
            }
            i = i + 1;
        }
        proof {
            assert(environments@.take(environments@.len() as int) =~= environments@);
        }
        r
    }
}

impl EnvironmentContext {
    /// The environment context of a turn: its environments with the session's
    /// shell where they have none of their own, its date and its time zone.
    pub fn from_turn_environments(
        environments: &Vec<TurnEnvironment>,
        shell: &str,
        current_date: Option<String>,
        timezone: Option<String>,
    ) -> (r: EnvironmentContext)
        ensures
            exists|v: Seq<EnvironmentContextEnvironment>|
                describes(r.environments, v) && #[trigger] describes_environments(
                    v,
                    environments@,
                    shell@,
                ),
            r.current_date == current_date,
            r.timezone == timezone,
    {
        let described = EnvironmentContextEnvironment::from_turn_environments(environments, shell);
        let ghost v = described@;
        let r = EnvironmentContext::new(described, current_date, timezone);
        assert(describes(r.environments, v) && describes_environments(v, environments@, shell@));
        r
    }
}

/// The warning given when a session resumes on another model than the one its
/// previous turn used; nothing when there was no previous turn or the model is the same.
pub fn resume_model_warning(previous: Option<&PreviousTurnSettings>, current_model: &str) -> (r: Option<
    WarningEvent,
>)
    ensures
        match previous {
            Some(p) if p.model@ != current_model@ => r matches Some(w) && w.message@
                == "This session was recorded with model `"@ + p.model@ + "` but is resuming with `"@
                + current_model@ + "`. Consider switching back to `"@ + p.model@
                + "` as it may affect Codex performance."@,
            _ => r is None,
        },
{
    let prev = match previous {
        None => {
            return None;
        },
        Some(p) => p,
    };
    if str_eq(prev.model.as_str(), current_model) {
        return None;
    }
    let mut message = String::from_str("This session was recorded with model `");
    message.append(prev.model.as_str());
    message.append("` but is resuming with `");
    message.append(current_model);
    message.append("`. Consider switching back to `");
    message.append(prev.model.as_str());
    message.append("` as it may affect Codex performance.");
    Some(WarningEvent { message })
}

/// The warning given when a turn runs on fallback model metadata because the
/// catalog does not know the model; nothing otherwise.
pub fn unknown_model_warning(model_info: &ModelInfo) -> (r: Option<WarningEvent>)
    ensures
        !model_info.used_fallback_model_metadata ==> r is None,
        model_info.used_fallback_model_metadata ==> (r matches Some(w) && w.message@ == "Model metadata for `"@
            + model_info.slug@
            + "` not found. Defaulting to fallback metadata; this can degrade performance and cause issues."@),
{
    if !model_info.used_fallback_model_metadata {
        return None;
    }
    let mut message = String::from_str("Model metadata for `");
    message.append(model_info.slug.as_str());
    message.append(
        "` not found. Defaulting to fallback metadata; this can degrade performance and cause issues.",
    );
    Some(WarningEvent { message })
}

/// The title a stored thread shows: its name, trimmed, unless it is blank or
/// merely repeats the thread's preview.
pub open spec fn spec_thread_title(name: Option<String>, preview: Seq<char>) -> Option<Seq<char>> {
    match name {
        Some(n) => if trim(n@).len() > 0 && trim(preview) != trim(n@) {
            Some(trim(n@))
        } else {
            None
        },
        None => None,
    }
}

/// The title a stored thread shows, from its name and preview.
pub fn thread_title_from_stored(name: &Option<String>, preview: &str) -> (r: Option<String>)
    ensures
        match spec_thread_title(*name, preview@) {
            Some(t) => r matches Some(s) && s@ == t,
            None => r is None,
        },
{
    let title = match name {
        Some(n) => trim_str(n.as_str()),
        None => return None,
    };
    let preview_trimmed = trim_str(preview);
    if title.unicode_len() > 0 && !str_eq(preview_trimmed.as_str(), title.as_str()) {
        Some(title)
    } else {
        None
    }
}

/// The id of an internal turn the session starts itself, from its counter.
pub fn internal_sub_id(counter: u64) -> (r: String)
    ensures
        r@ == "auto-compact-"@ + decimal_digits(counter as nat),
{
    let mut r = String::from_str("auto-compact-");
    push_decimal_digits(&mut r, counter);
    r
}

/// The record of a turn's settings that a rollout keeps.
pub fn turn_context_item(
    sub_id: String,
    cwd: String,
    current_date: Option<String>,
    timezone: Option<String>,
    model_info: &ModelInfo,
    reasoning_effort: Option<ReasoningEffort>,
) -> (r: TurnContextItem)
    ensures
        r.turn_id == Some(sub_id),
        r.cwd == cwd,
        r.current_date == current_date,
        r.timezone == timezone,
        r.model == model_info.slug,
        r.effort == reasoning_effort,
        r.summary == ReasoningSummary::Auto,
{
    TurnContextItem {
        turn_id: Some(sub_id),
        cwd,
        current_date,
        timezone,
        model: model_info.slug.clone(),
        effort: reasoning_effort,
        summary: ReasoningSummary::Auto,
    }
}


/// Settings a client asks to change for the thread along with new input;
/// `None` leaves a setting as it is.
#[derive(Debug, Clone, PartialEq)]
pub struct ThreadSettingsOverrides {
    pub cwd: Option<String>,
    pub workspace_roots: Option<Vec<String>>,
    pub model: Option<String>,
    pub effort: Option<Option<ReasoningEffort>>,
    pub summary: Option<ReasoningSummary>,
    pub service_tier: Option<Option<String>>,
}

impl ThreadSettingsOverrides {
    /// Whether the overrides change nothing.
    pub fn is_empty(&self) -> (r: bool)
        ensures
            r == (self.cwd is None && self.workspace_roots is None && self.model is None
                && self.effort is None && self.summary is None && self.service_tier is None),
    {
        self.cwd.is_none() && self.workspace_roots.is_none() && self.model.is_none()
            && self.effort.is_none() && self.summary.is_none() && self.service_tier.is_none()
    }
}

/// The changes to apply to a session's settings before a turn; `None` leaves
/// a setting as it is.
#[derive(Debug, PartialEq)]
pub struct SessionSettingsUpdate {
    pub cwd: Option<String>,
    pub workspace_roots: Option<Vec<String>>,
    pub reasoning_summary: Option<ReasoningSummary>,
    pub service_tier: Option<Option<String>>,
    pub final_output_json_schema: Option<Option<JsonValue>>,
    pub environments: Option<Vec<TurnEnvironmentSelection>>,
    pub app_server_client_name: Option<String>,
    pub app_server_client_version: Option<String>,
}

impl Default for SessionSettingsUpdate {
    fn default() -> (r: Self)
        ensures
            r == (SessionSettingsUpdate {
                cwd: None,
                workspace_roots: None,
                reasoning_summary: None,
                service_tier: None,
                final_output_json_schema: None,
                environments: None,
                app_server_client_name: None,
                app_server_client_version: None,
            }),
    {
        SessionSettingsUpdate {
            cwd: None,
            workspace_roots: None,
            reasoning_summary: None,
            service_tier: None,
            final_output_json_schema: None,
            environments: None,
            app_server_client_name: None,
            app_server_client_version: None,
        }
    }
}

/// The session update a thread's setting overrides ask for: the directory,
/// workspace roots, reasoning summary and service tier carry over; the model
/// and reasoning effort are not changed this way.
pub fn thread_settings_update(thread_settings: ThreadSettingsOverrides) -> (r: SessionSettingsUpdate)
    ensures
        r == (SessionSettingsUpdate {
            cwd: thread_settings.cwd,
            workspace_roots: thread_settings.workspace_roots,
            reasoning_summary: thread_settings.summary,
            service_tier: thread_settings.service_tier,
            final_output_json_schema: None,
            environments: None,
            app_server_client_name: None,
            app_server_client_version: None,
        }),
{
    let ThreadSettingsOverrides { cwd, workspace_roots, model: _, effort: _, summary, service_tier } =
        thread_settings;
    SessionSettingsUpdate {
        cwd,
        workspace_roots,
        reasoning_summary: summary,
        service_tier,
        final_output_json_schema: None,
        environments: None,
        app_server_client_name: None,
        app_server_client_version: None,
    }
}

/// The settings update for new user input and whether the thread must be told
/// that its settings were applied: only when the input carries overrides.
/// The environments and the final output schema chosen with the input replace
/// the session's in either case.
pub fn user_input_settings_update(
    thread_settings: ThreadSettingsOverrides,
    environments: Option<Vec<TurnEnvironmentSelection>>,
    final_output_json_schema: Option<JsonValue>,
) -> (r: (SessionSettingsUpdate, bool))
    ensures
        r.0.final_output_json_schema == Some(final_output_json_schema),
        r.1 == !(thread_settings.cwd is None && thread_settings.workspace_roots is None
            && thread_settings.model is None && thread_settings.effort is None
            && thread_settings.summary is None && thread_settings.service_tier is None),
        r.0.environments == environments,
        r.0.app_server_client_name is None,
        r.0.app_server_client_version is None,
        r.1 ==> (r.0.cwd == thread_settings.cwd && r.0.workspace_roots == thread_settings.workspace_roots
            && r.0.reasoning_summary == thread_settings.summary && r.0.service_tier
            == thread_settings.service_tier),
        !r.1 ==> (r.0.cwd is None && r.0.workspace_roots is None && r.0.reasoning_summary is None
            && r.0.service_tier is None),
{
    let emit = !thread_settings.is_empty();
    let mut updates = if emit {
        thread_settings_update(thread_settings)
    } else {
        SessionSettingsUpdate::default()
    };
    updates.final_output_json_schema = Some(final_output_json_schema);
    updates.environments = environments;
    (updates, emit)
}


/// How much of a thread's events its record keeps.
#[derive(Debug, Clone, Copy, PartialEq, Eq, Structural)]
pub enum ThreadEventPersistenceMode {
    Limited,
    Extended,
}

/// The events a new session records: all of them when extended history is kept.
pub fn event_persistence_mode(persist_extended_history: bool) -> (r: ThreadEventPersistenceMode)
    ensures
        r == if persist_extended_history {
            ThreadEventPersistenceMode::Extended
        } else {
            ThreadEventPersistenceMode::Limited
        },
{
    if persist_extended_history {
        ThreadEventPersistenceMode::Extended
    } else {
        ThreadEventPersistenceMode::Limited
    }
}

/// How many compactions a rollout records.
pub open spec fn compacted_count(items: Seq<RolloutItem>) -> nat
    decreases items.len(),
{
    if items.len() == 0 {
        0
    } else {
        compacted_count(items.drop_last()) + if items.last() is Compacted {
            1nat
        } else {
            0nat
        }
    }
}

proof fn lemma_compacted_count_bound(items: Seq<RolloutItem>)
    ensures
        compacted_count(items) <= items.len(),
    decreases items.len(),
{
    if items.len() > 0 {
        lemma_compacted_count_bound(items.drop_last());
    }
}

/// The generation of the context window a session starts in: the number of
/// compactions a resumed history records; a new, cleared or forked history starts at zero.
pub fn window_generation(history: &InitialHistory) -> (r: u64)
    ensures
        r == match *history {
            InitialHistory::Resumed(resumed) => compacted_count(resumed.history@),
            _ => 0nat,
        },
{
    match history {
        InitialHistory::Resumed(resumed) => {
            let items = &resumed.history;
            let mut count: u64 = 0;
            let mut i: usize = 0;
            while i < items.len()
                invariant
                    i <= items.len(),
                    count == compacted_count(items@.take(i as int)),
                decreases items.len() - i,
            {
                proof {
                    assert(items@.take(i + 1).drop_last() =~= items@.take(i as int));
                    lemma_compacted_count_bound(items@.take(i as int));
                }
                if let RolloutItem::Compacted(_) = &items[i] {
                    count = count + 1;
                }
                i = i + 1;
            }
            proof {
                assert(items@.take(items@.len() as int) =~= items@);
            }
            count
        },
        _ => 0,
    }
}

/// The thread a session continues: the resumed thread, or a new one.
pub fn session_thread_id(history: &InitialHistory) -> (r: ThreadId)
    ensures
        history is Resumed ==> r == history->Resumed_0.conversation_id,
        !(history is Resumed) ==> uuid_canonical(r.text()) == Some(r.text()),
{
    match history {
        InitialHistory::Resumed(resumed) => resumed.conversation_id.clone(),
        _ => ThreadId::new(),
    }
}

/// The shell a session runs commands in.
#[derive(Debug, Clone, PartialEq, Eq)]
pub enum ShellChoice {
    /// The shell the user chose for the session.
    UserOverride,
    /// The configured zsh, for the zsh fork feature.
    ZshFork(String),
    /// The user's default shell.
    Default,
}

/// The message when the zsh fork feature is on without a configured zsh.
pub open spec fn zsh_path_missing_message() -> Seq<char> {
    "zsh fork feature enabled, but `zsh_path` is not configured; set `zsh_path` in config.toml"@
}

/// Which shell a session uses: the user's choice first; else the configured
/// zsh when the zsh fork feature is on, which then needs a configured path;
/// else the default shell.
pub fn choose_shell(has_user_override: bool, zsh_fork_enabled: bool, zsh_path: Option<&str>) -> (r: Result<
    ShellChoice,
    String,
>)
    ensures
        has_user_override ==> r == Ok::<ShellChoice, String>(ShellChoice::UserOverride),
        !has_user_override && !zsh_fork_enabled ==> r == Ok::<ShellChoice, String>(ShellChoice::Default),
        !has_user_override && zsh_fork_enabled ==> match zsh_path {
            Some(p) => r matches Ok(ShellChoice::ZshFork(q)) && q@ == p@,
            None => r matches Err(m) && m@ == zsh_path_missing_message(),
        },
{
    if has_user_override {
        Ok(ShellChoice::UserOverride)
    } else if zsh_fork_enabled {
        match zsh_path {
            Some(p) => Ok(ShellChoice::ZshFork(copy_str(p))),
            None => Err(
                String::from_str(
                    "zsh fork feature enabled, but `zsh_path` is not configured; set `zsh_path` in config.toml",
                ),
            ),
        }
    } else {
        Ok(ShellChoice::Default)
    }
}

/// The message when the configured zsh cannot be used.
pub fn unusable_zsh_path_message(zsh_path: &str) -> (r: String)
    ensures
        r@ == "zsh fork feature enabled, but zsh_path `"@ + zsh_path@
            + "` is not usable; set `zsh_path` to a valid zsh executable"@,
{
    let mut m = String::from_str("zsh fork feature enabled, but zsh_path `");
    m.append(zsh_path);
    m.append("` is not usable; set `zsh_path` to a valid zsh executable");
    m
}


/// Whether a model offers an effort among its reasoning levels.
pub open spec fn offers_effort(m: ModelInfo, e: ReasoningEffort) -> bool {
    exists|i: int| 0 <= i < m.supported_reasoning_levels@.len() && #[trigger] m.supported_reasoning_levels@[i].effort == e
}

/// The effort a turn keeps when it moves to model `m`: the current effort
/// when the model offers it; else the middle one of the model's levels (the
/// lower middle for an even count), or the model's default when it lists none.
pub open spec fn effort_after_model_switch(m: ModelInfo, current: Option<ReasoningEffort>) -> Option<ReasoningEffort> {
    let levels = m.supported_reasoning_levels@;
    match current {
        Some(e) if offers_effort(m, e) => Some(e),
        _ => if levels.len() > 0 {
            Some(levels[(levels.len() - 1) / 2].effort)
        } else {
            m.default_reasoning_level
        },
    }
}

/// The effort a turn keeps when it moves to another model.
pub fn reasoning_effort_for_model(model_info: &ModelInfo, current: Option<ReasoningEffort>) -> (r: Option<
    ReasoningEffort,
>)
    ensures
        r == effort_after_model_switch(*model_info, current),
{
    let levels = &model_info.supported_reasoning_levels;
    if let Some(e) = current {
        let mut i: usize = 0;
        while i < levels.len()
            invariant
                i <= levels.len(),
                levels@ == model_info.supported_reasoning_levels@,
                current == Some(e),
                forall|k: int| 0 <= k < i ==> (#[trigger] levels@[k]).effort != e,
            decreases levels.len() - i,
        {
            if levels[i].effort == e {
                proof {
                    assert(offers_effort(*model_info, e)) by {
                        assert(model_info.supported_reasoning_levels@[i as int].effort == e);
                    }
                }
                return Some(e);
            }
            i = i + 1;
        }
    }
    if levels.len() > 0 {
        Some(levels[(levels.len() - 1) / 2].effort)
    } else {
        model_info.default_reasoning_level
    }
}


/// The settings of a session that a settings update can change. Paths are
/// absolute and compared as text.
#[derive(Debug, Clone, PartialEq)]
pub struct SessionSettings {
    pub model_reasoning_summary: Option<ReasoningSummary>,
    pub service_tier: Option<String>,
    pub cwd: String,
    pub workspace_roots: Vec<String>,
    pub app_server_client_name: Option<String>,
    pub app_server_client_version: Option<String>,
}

/// The texts of a list of paths.
pub open spec fn path_texts(v: Seq<String>) -> Seq<Seq<char>> {
    v.map_values(|p: String| p@)
}

/// The workspace roots after the working directory moves from `old_cwd` to
/// `new_cwd`: the old directory replaced by the new one, repeats removed.
pub open spec fn retargeted_roots(roots: Seq<Seq<char>>, old_cwd: Seq<char>, new_cwd: Seq<char>) -> Seq<Seq<char>> {
    dedupe_text(replaced_root(roots, old_cwd, new_cwd))
}

/// The roots with the old working directory replaced by the new one.
pub open spec fn replaced_root(roots: Seq<Seq<char>>, old_cwd: Seq<char>, new_cwd: Seq<char>) -> Seq<Seq<char>> {
    roots.map_values(|r: Seq<char>| if r == old_cwd { new_cwd } else { r })
}

/// The workspace roots a session has after an update: those the update
/// gives; else, when the working directory moved and was a root, the roots
/// retargeted to the new directory; else the old roots.
pub open spec fn roots_after_update(
    roots: Seq<Seq<char>>,
    update: Option<Vec<String>>,
    old_cwd: Seq<char>,
    new_cwd: Seq<char>,
) -> Seq<Seq<char>> {
    match update {
        Some(w) => path_texts(w@),
        None => if new_cwd != old_cwd && roots.contains(old_cwd) {
            retargeted_roots(roots, old_cwd, new_cwd)
        } else {
            roots
        },
    }
}

/// When the working directory moves to another path and was a workspace
/// root, the roots afterwards hold the new directory, no longer the old one,
/// and no root twice.
pub proof fn law_retargeted_roots_follow_cwd(roots: Seq<Seq<char>>, old_cwd: Seq<char>, new_cwd: Seq<char>)
    requires
        roots.contains(old_cwd),
        new_cwd != old_cwd,
    ensures
        retargeted_roots(roots, old_cwd, new_cwd).contains(new_cwd),
        !retargeted_roots(roots, old_cwd, new_cwd).contains(old_cwd),
        forall|i: int, j: int|
            #![trigger retargeted_roots(roots, old_cwd, new_cwd)[i], retargeted_roots(roots, old_cwd, new_cwd)[j]]
            0 <= i < j < retargeted_roots(roots, old_cwd, new_cwd).len() ==> retargeted_roots(
                roots,
                old_cwd,
                new_cwd,
            )[i] != retargeted_roots(roots, old_cwd, new_cwd)[j],
{
    let mapped = replaced_root(roots, old_cwd, new_cwd);
    let k = choose|k: int| 0 <= k < roots.len() && roots[k] == old_cwd;
    assert(mapped[k] == new_cwd);
    lemma_dedupe_text_contains(mapped, new_cwd);
    lemma_dedupe_text_contains(mapped, old_cwd);
    if mapped.contains(old_cwd) {
        let m = choose|m: int| 0 <= m < mapped.len() && mapped[m] == old_cwd;
        assert(mapped[m] == if roots[m] == old_cwd { new_cwd } else { roots[m] });
    }
    lemma_dedupe_text_unique(mapped);
}

fn contains_text(v: &Vec<String>, t: &str) -> (r: bool)
    ensures
        r == path_texts(v@).contains(t@),
{
    let mut i: usize = 0;
    while i < v.len()
        invariant
            i <= v.len(),
            forall|k: int| 0 <= k < i ==> (#[trigger] v@[k])@ != t@,
        decreases v.len() - i,
    {
        if str_eq(v[i].as_str(), t) {
            proof {
                assert(path_texts(v@)[i as int] == t@);
            }
            return true;
        }
        i = i + 1;
    }
    proof {
        if path_texts(v@).contains(t@) {
            let k = choose|k: int| 0 <= k < path_texts(v@).len() && path_texts(v@)[k] == t@;
            assert(v@[k]@ == t@);
        }
    }
    false
}

fn retarget_roots(roots: &Vec<String>, old_cwd: &str, new_cwd: &str) -> (r: Vec<String>)
    ensures
        path_texts(r@) == retargeted_roots(path_texts(roots@), old_cwd@, new_cwd@),
{
    let mut mapped: Vec<String> = Vec::new();
    let mut i: usize = 0;
    while i < roots.len()
        invariant
            i <= roots.len(),
            mapped@.len() == i,
            forall|k: int|
                0 <= k < i ==> (#[trigger] mapped@[k])@ == if roots@[k]@ == old_cwd@ {
                    new_cwd@
                } else {
                    roots@[k]@
                },
        decreases roots.len() - i,
    {
        if str_eq(roots[i].as_str(), old_cwd) {
            mapped.push(copy_str(new_cwd));
        } else {
            mapped.push(roots[i].clone());
        }
        i = i + 1;
    }
    proof {
        assert(path_texts(mapped@) =~= replaced_root(path_texts(roots@), old_cwd@, new_cwd@));
    }
    let ghost before = mapped@;
    dedupe_paths(&mut mapped);
    proof {
        lemma_deduped_views(before);
    }
    mapped
}

impl SessionSettings {
    /// The settings after an update. `absolute_cwd` is the update's working
    /// directory made absolute, or nothing when the update keeps the directory
    /// or it could not be resolved. A reasoning summary, client name or
    /// version that the update gives replaces the old one; a service tier is
    /// stored as requests send it, clearing it asks for the default tier.
    pub fn apply(&self, updates: &SessionSettingsUpdate, absolute_cwd: Option<String>) -> (r: SessionSettings)
        ensures
            r.model_reasoning_summary == match updates.reasoning_summary {
                Some(s) => Some(s),
                None => self.model_reasoning_summary,
            },
            match updates.service_tier {
                None => r.service_tier == self.service_tier,
                Some(Some(t)) => r.service_tier matches Some(v) && v@ == normalized_service_tier(t@),
                Some(None) => r.service_tier matches Some(v) && v@ == "default"@,
            },
            r.cwd@ == match absolute_cwd {
                Some(c) => c@,
                None => self.cwd@,
            },
            path_texts(r.workspace_roots@) == roots_after_update(
                path_texts(self.workspace_roots@),
                updates.workspace_roots,
                self.cwd@,
                r.cwd@,
            ),
            r.app_server_client_name == match updates.app_server_client_name {
                Some(n) => Some(n),
                None => self.app_server_client_name,
            },
            r.app_server_client_version == match updates.app_server_client_version {
                Some(v) => Some(v),
                None => self.app_server_client_version,
            },
    {
        proof {
            reveal_strlit("default");
        }
        let model_reasoning_summary = match updates.reasoning_summary {
            Some(s) => Some(s),
            None => self.model_reasoning_summary,
        };
        let service_tier = match &updates.service_tier {
            None => clone_opt_string(&self.service_tier),
            Some(Some(t)) => match ServiceTier::from_request_value(t.as_str()) {
                Some(tier) => Some(String::from_str(tier.request_value())),
                None => Some(t.clone()),
            },
            Some(None) => Some(String::from_str(SERVICE_TIER_DEFAULT_REQUEST_VALUE)),
        };
        let cwd = match absolute_cwd {
            Some(c) => c,
            None => self.cwd.clone(),
        };
        let workspace_roots = match &updates.workspace_roots {
            Some(w) => {
                let mut out: Vec<String> = Vec::new();
                let mut i: usize = 0;
                while i < w.len()
                    invariant
                        i <= w.len(),
                        out@.len() == i,
                        forall|k: int| 0 <= k < i ==> (#[trigger] out@[k])@ == w@[k]@,
                    decreases w.len() - i,
                {
                    out.push(w[i].clone());
                    i = i + 1;
                }
                proof {
                    assert(path_texts(out@) =~= path_texts(w@));
                }
                out
            },
            None => {
                if !str_eq(cwd.as_str(), self.cwd.as_str()) && contains_text(
                    &self.workspace_roots,
                    self.cwd.as_str(),
                ) {
                    retarget_roots(&self.workspace_roots, self.cwd.as_str(), cwd.as_str())
                } else {
                    let mut out: Vec<String> = Vec::new();
                    let mut i: usize = 0;
                    while i < self.workspace_roots.len()
                        invariant
                            i <= self.workspace_roots.len(),
                            out@.len() == i,
                            forall|k: int| 0 <= k < i ==> (#[trigger] out@[k])@ == self.workspace_roots@[k]@,
                        decreases self.workspace_roots.len() - i,
                    {
                        out.push(self.workspace_roots[i].clone());
                        i = i + 1;
                    }
                    proof {
                        assert(path_texts(out@) =~= path_texts(self.workspace_roots@));
                    }
                    out
                }
            },
        };
        SessionSettings {
            model_reasoning_summary,
            service_tier,
            cwd,
            workspace_roots,
            app_server_client_name: match &updates.app_server_client_name {
                Some(n) => Some(n.clone()),
                None => clone_opt_string(&self.app_server_client_name),
            },
            app_server_client_version: match &updates.app_server_client_version {
                Some(v) => Some(v.clone()),
                None => clone_opt_string(&self.app_server_client_version),
            },
        }
    }
}

/// The environments a turn runs in: those the update chooses; else the
/// session's, with the first one moved to the session's working directory.
pub fn effective_environments(
    update: Option<Vec<TurnEnvironmentSelection>>,
    session_environments: &Vec<TurnEnvironmentSelection>,
    cwd: &str,
) -> (r: Vec<TurnEnvironmentSelection>)
    ensures
        match update {
            Some(v) => r@ == v@,
            None => r@.len() == session_environments@.len() && (r@.len() > 0 ==> r@[0].cwd@ == cwd@)
                && forall|k: int| 1 <= k < r@.len() ==> r@[k] == session_environments@[k],
        },
{
    match update {
        Some(v) => v,
        None => {
            let mut out: Vec<TurnEnvironmentSelection> = Vec::new();
            let mut i: usize = 0;
            while i < session_environments.len()
                invariant
                    i <= session_environments.len(),
                    out@.len() == i,
                    i > 0 ==> out@[0].cwd@ == cwd@,
                    forall|k: int| 1 <= k < i ==> out@[k] == session_environments@[k],
                decreases session_environments.len() - i,
            {
                if i == 0 {
                    out.push(TurnEnvironmentSelection { cwd: copy_str(cwd) });
                } else {
                    out.push(session_environments[i].clone());
                }
                i = i + 1;
            }
            out
        },
    }
}

/// The working directory of a turn: that of its primary environment, else the session's.
pub fn turn_cwd(environments: &ResolvedTurnEnvironments, session_cwd: &str) -> (r: String)
    ensures
        environments.turn_environments@.len() > 0 ==> r@ == environments.turn_environments@[0].cwd@,
        environments.turn_environments@.len() == 0 ==> r@ == session_cwd@,
{
    match environments.primary() {
        Some(e) => e.cwd.clone(),
        None => copy_str(session_cwd),
    }
}


/// The developer sections that open a new conversation: the model switch
/// note, then the developer instructions unless they are empty.
pub open spec fn initial_developer_sections(model_switch_update: Option<String>, developer_instructions: Option<&str>) -> Seq<
    Seq<char>,
> {
    (match model_switch_update {
        Some(u) => seq![u@],
        None => Seq::empty(),
    }) + (match developer_instructions {
        Some(d) => if d@.len() > 0 {
            seq![d@]
        } else {
            Seq::empty()
        },
        None => Seq::empty(),
    })
}

/// The items that open a new conversation: a developer message with the
/// developer sections when there are any, then, when the environment context
/// is included, a user message holding it.
pub fn build_initial_context_items(
    model_switch_update: Option<String>,
    developer_instructions: Option<&str>,
    include_environment_context: bool,
    context: &EnvironmentContext,
) -> (r: Vec<ResponseItem>)
    ensures
        ({
            let dev = initial_developer_sections(model_switch_update, developer_instructions);
            let n = if dev.len() > 0 {
                1int
            } else {
                0int
            };
            &&& r@.len() == n + if include_environment_context {
                1int
            } else {
                0int
            }
            &&& dev.len() > 0 ==> is_texts_message(r@[0], "developer"@, dev)
            &&& include_environment_context ==> is_texts_message(
                r@[n],
                "user"@,
                seq![rendered_context(*context)],
            )
        }),
{
    let ghost dev = initial_developer_sections(model_switch_update, developer_instructions);
    let ghost first: Seq<Seq<char>> = if model_switch_update is Some {
        seq![model_switch_update->0@]
    } else {
        Seq::empty()
    };
    let mut sections: Vec<String> = Vec::new();
    match model_switch_update {
        Some(u) => sections.push(u),
        None => {},
    }
    assert(sections@.map_values(|t: String| t@) =~= first);
    match developer_instructions {
        Some(d) => {
            proof {
                reveal_strlit("");
            }
            if !str_eq(d, "") {
                sections.push(copy_str(d));
                assert(sections@.map_values(|t: String| t@) =~= first + seq![d@]);
                assert(d@.len() > 0) by {
                    if d@.len() == 0 {
                        assert(d@ =~= ""@);
                    }
                }
            } else {
                assert(d@.len() == 0);
            }
        },
        None => {},
    }
    proof {
        let second: Seq<Seq<char>> = match developer_instructions {
            Some(d) => if d@.len() > 0 {
                seq![d@]
            } else {
                Seq::empty()
            },
            None => Seq::empty(),
        };
        assert(dev =~= first + second);
        assert(sections@.map_values(|t: String| t@) =~= first + second);
    }
    let mut items: Vec<ResponseItem> = Vec::new();
    match build_text_message("developer", sections) {
        Some(message) => items.push(message),
        None => {},
    }
    if include_environment_context {
        let rendered = context.render();
        let ghost text = rendered@;
        let mut user_sections: Vec<String> = Vec::new();
        user_sections.push(rendered);
        proof {
            assert(user_sections@.map_values(|t: String| t@) =~= seq![text]);
        }
        match build_text_message("user", user_sections) {
            Some(message) => items.push(message),
            None => {},
        }
    }
    items
}


/// One piece of the input a turn's task works through.
#[derive(Debug, PartialEq)]
pub enum TurnInput {
    /// An item for the model's context, such as refreshed additional context.
    ResponseInputItem(ResponseInputItem),
    /// What the user wrote.
    UserInput(Vec<UserInput>),
}

/// The input queued for a turn: the additional context items first, in
/// order, then the user's input when there is any.
pub fn turn_input(context_items: Vec<ResponseInputItem>, items: Vec<UserInput>) -> (r: Vec<TurnInput>)
    ensures
        r@.len() == context_items@.len() + if items@.len() > 0 {
            1int
        } else {
            0int
        },
        forall|i: int| 0 <= i < context_items@.len() ==> r@[i] == TurnInput::ResponseInputItem(context_items@[i]),
        items@.len() > 0 ==> (r@[context_items@.len() as int] matches TurnInput::UserInput(v) && v@ == items@),
{
    let ghost ctx = context_items@;
    let mut r: Vec<TurnInput> = Vec::new();
    for item in it: context_items
        invariant
            ctx == it.seq(),
            r@.len() == it.index(),
            forall|i: int| 0 <= i < it.index() ==> r@[i] == TurnInput::ResponseInputItem(ctx[i]),
    {
        r.push(TurnInput::ResponseInputItem(item));
    }
    if items.len() > 0 {
        r.push(TurnInput::UserInput(items));
    }
    r
}


/// The base instructions a new session starts with: the configured ones, else
/// those the history's metadata records, else the model's own.
pub fn session_base_instructions(configured: Option<String>, history: &InitialHistory, model_info: &ModelInfo) -> (r:
    String)
    ensures
        r@ == match configured {
            Some(c) => c@,
            None => match first_found(history_items(*history), |item: RolloutItem| meta_base_instructions(item)) {
                Some(b) => b.text@,
                None => match model_info.model_messages {
                    Some(mm) => match mm.instructions_template {
                        Some(t) => t@,
                        None => model_info.base_instructions@,
                    },
                    None => model_info.base_instructions@,
                },
            },
        },
{
    match configured {
        Some(c) => c,
        None => match history.get_base_instructions() {
            Some(b) => b.text,
            None => model_info.get_model_instructions(),
        },
    }
}

/// The dynamic tools of a new session: those given, else those the
/// history's metadata records, else none.
pub fn session_dynamic_tools(given: Vec<DynamicToolSpec>, history: &InitialHistory) -> (r: Vec<DynamicToolSpec>)
    ensures
        given@.len() > 0 ==> r@ == given@,
        given@.len() == 0 ==> match first_found(history_items(*history), |item: RolloutItem| meta_dynamic_tools(item)) {
            Some(t) => r@ == t,
            None => r@.len() == 0,
        },
{
    if given.len() > 0 {
        given
    } else {
        match history.get_dynamic_tools() {
            Some(t) => t,
            None => Vec::new(),
        }
    }
}

} // verus!
