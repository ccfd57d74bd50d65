//! Model metadata: reasoning efforts, model presets shown to users, the model
//! catalog entries, and the rules that derive request settings from them.
use vstd::prelude::*;
use crate::config_types::{
    ReasoningSummary, ServiceTier, Verbosity, SERVICE_TIER_DEFAULT_REQUEST_VALUE,
    spec_request_value,
};
use crate::text::{is_blank, str_eq, trim};

verus! {

/// The speed tier name that marks a fast model.
pub const SPEED_TIER_FAST: &'static str = "fast";

/// How much the model reasons before answering.
#[derive(Debug, Clone, Copy, PartialEq, Eq, Structural, Hash)]
pub enum ReasoningEffort {
    NoReasoning,
    Minimal,
    Low,
    Medium,
    High,
    XHigh,
}

/// Medium effort unless configured.
impl Default for ReasoningEffort {
    fn default() -> (r: ReasoningEffort)
        ensures
            r == ReasoningEffort::Medium,
    {
        ReasoningEffort::Medium
    }
}

/// The lowercase name of an effort.
pub open spec fn spec_effort_name(e: ReasoningEffort) -> Seq<char> {
    match e {
        ReasoningEffort::NoReasoning => "none"@,
        ReasoningEffort::Minimal => "minimal"@,
        ReasoningEffort::Low => "low"@,
        ReasoningEffort::Medium => "medium"@,
        ReasoningEffort::High => "high"@,
        ReasoningEffort::XHigh => "xhigh"@,
    }
}

/// The effort named `s`, if any.
pub open spec fn spec_effort_from_name(s: Seq<char>) -> Option<ReasoningEffort> {
    if s == "none"@ {
        Some(ReasoningEffort::NoReasoning)
    } else if s == "minimal"@ {
        Some(ReasoningEffort::Minimal)
    } else if s == "low"@ {
        Some(ReasoningEffort::Low)
    } else if s == "medium"@ {
        Some(ReasoningEffort::Medium)
    } else if s == "high"@ {
        Some(ReasoningEffort::High)
    } else if s == "xhigh"@ {
        Some(ReasoningEffort::XHigh)
    } else {
        None
    }
}

/// The order in which efforts are listed.
pub open spec fn all_efforts() -> Seq<ReasoningEffort> {
    seq![
        ReasoningEffort::NoReasoning,
        ReasoningEffort::Minimal,
        ReasoningEffort::Low,
        ReasoningEffort::Medium,
        ReasoningEffort::High,
        ReasoningEffort::XHigh,
    ]
}

/// The rank of an effort, from the least to the most reasoning.
pub open spec fn spec_effort_rank(e: ReasoningEffort) -> int {
    match e {
        ReasoningEffort::NoReasoning => 0,
        ReasoningEffort::Minimal => 1,
        ReasoningEffort::Low => 2,
        ReasoningEffort::Medium => 3,
        ReasoningEffort::High => 4,
        ReasoningEffort::XHigh => 5,
    }
}

/// Distance between the ranks of two efforts.
pub open spec fn effort_distance(a: ReasoningEffort, t: ReasoningEffort) -> int {
    let d = spec_effort_rank(a) - spec_effort_rank(t);
    if d < 0 {
        -d
    } else {
        d
    }
}

/// Index of the first element of `s[..n]` nearest to `t`.
pub open spec fn best_index(s: Seq<ReasoningEffort>, t: ReasoningEffort, n: int) -> int
    decreases n,
{
    if n <= 1 {
        0
    } else {
        let b = best_index(s, t, n - 1);
        if effort_distance(s[n - 1], t) < effort_distance(s[b], t) {
            n - 1
        } else {
            b
        }
    }
}

/// The supported effort nearest to `t`, the first on ties; `t` when none is supported.
pub open spec fn spec_nearest_effort(t: ReasoningEffort, s: Seq<ReasoningEffort>) -> ReasoningEffort {
    if s.len() == 0 {
        t
    } else {
        s[best_index(s, t, s.len() as int)]
    }
}

impl ReasoningEffort {
    /// The lowercase name of the effort.
    pub fn as_str(self) -> (r: &'static str)
        ensures
            r@ == spec_effort_name(self),
    {
        match self {
            ReasoningEffort::NoReasoning => "none",
            ReasoningEffort::Minimal => "minimal",
            ReasoningEffort::Low => "low",
            ReasoningEffort::Medium => "medium",
            ReasoningEffort::High => "high",
            ReasoningEffort::XHigh => "xhigh",
        }
    }

    /// Parses a lowercase effort name; any other text is refused with a message
    /// that quotes it.
    pub fn parse(s: &str) -> (r: Result<ReasoningEffort, String>)
        ensures
            spec_effort_from_name(s@) matches Some(e) ==> r == Ok::<ReasoningEffort, String>(e),
            spec_effort_from_name(s@) is None ==> (r matches Err(m) && m@ == "invalid reasoning_effort: "@ + s@),
    {
        if str_eq(s, "none") {
            Ok(ReasoningEffort::NoReasoning)
        } else if str_eq(s, "minimal") {
            Ok(ReasoningEffort::Minimal)
        } else if str_eq(s, "low") {
            Ok(ReasoningEffort::Low)
        } else if str_eq(s, "medium") {
            Ok(ReasoningEffort::Medium)
        } else if str_eq(s, "high") {
            Ok(ReasoningEffort::High)
        } else if str_eq(s, "xhigh") {
            Ok(ReasoningEffort::XHigh)
        } else {
            let mut m = String::new();
            m.append("invalid reasoning_effort: ");
            m.append(s);
            proof {
                reveal_strlit("invalid reasoning_effort: ");
            }
            Err(m)
        }
    }
}

/// Parsing the name of an effort gives that effort back.
pub proof fn law_effort_name_round_trip(e: ReasoningEffort)
    ensures
        spec_effort_from_name(spec_effort_name(e)) == Some(e),
{
    reveal_strlit("none");
    reveal_strlit("minimal");
    reveal_strlit("low");
    reveal_strlit("medium");
    reveal_strlit("high");
    reveal_strlit("xhigh");
    assert("none"@[0] == 'n' && "minimal"@[0] == 'm' && "low"@[0] == 'l' && "medium"@[0] == 'm'
        && "high"@[0] == 'h' && "xhigh"@[0] == 'x');
    assert("minimal"@.len() != "medium"@.len());
}

impl std::str::FromStr for ReasoningEffort {
    type Err = String;

    fn from_str(s: &str) -> (r: Result<ReasoningEffort, String>)
        ensures
            spec_effort_from_name(s@) matches Some(e) ==> r == Ok::<ReasoningEffort, String>(e),
            spec_effort_from_name(s@) is None ==> (r matches Err(m) && m@ == "invalid reasoning_effort: "@ + s@),
    {
        ReasoningEffort::parse(s)
    }
}

/// What a model accepts as input.
#[derive(Debug, Clone, Copy, PartialEq, Eq, Structural, Hash)]
pub enum InputModality {
    Text,
    Image,
}

/// Models accept text and images unless their metadata says otherwise.
pub fn default_input_modalities() -> (r: Vec<InputModality>)
    ensures
        r@ == seq![InputModality::Text, InputModality::Image],
{
    let mut r: Vec<InputModality> = Vec::new();
    r.push(InputModality::Text);
    r.push(InputModality::Image);
    r
}

/// An effort a model supports, with the text that describes it.
#[derive(Debug, Clone, PartialEq, Eq)]
pub struct ReasoningEffortPreset {
    pub effort: ReasoningEffort,
    pub description: String,
}

/// How a model is upgraded to its successor.
#[derive(Debug, Clone, PartialEq)]
pub struct ModelUpgrade {
    pub id: String,
    /// For each effort, in listing order, the effort it becomes.
    pub reasoning_effort_mapping: Option<Vec<(ReasoningEffort, ReasoningEffort)>>,
    pub migration_config_key: String,
    pub model_link: Option<String>,
    pub upgrade_copy: Option<String>,
    pub migration_markdown: Option<String>,
}

/// A notice shown when a model becomes available.
#[derive(Debug, Clone, PartialEq, Eq)]
pub struct ModelAvailabilityNux {
    pub message: String,
}

/// A service tier that a model supports.
#[derive(Debug, Clone, PartialEq, Eq)]
pub struct ModelServiceTier {
    pub id: String,
    pub name: String,
    pub description: String,
}

/// A model as the model picker shows it.
#[derive(Debug, Clone, PartialEq)]
pub struct ModelPreset {
    pub id: String,
    pub model: String,
    pub display_name: String,
    pub description: String,
    pub default_reasoning_effort: ReasoningEffort,
    pub supported_reasoning_efforts: Vec<ReasoningEffortPreset>,
    pub additional_speed_tiers: Vec<String>,
    pub service_tiers: Vec<ModelServiceTier>,
    pub default_service_tier: Option<String>,
    pub is_default: bool,
    pub upgrade: Option<ModelUpgrade>,
    pub show_in_picker: bool,
    pub availability_nux: Option<ModelAvailabilityNux>,
    pub supported_in_api: bool,
    pub input_modalities: Vec<InputModality>,
}

/// Where a model is listed.
#[derive(Debug, Clone, Copy, PartialEq, Eq, Structural)]
pub enum ModelVisibility {
    List,
    Hide,
    Unlisted,
}

/// Which shell tool a model uses.
#[derive(Debug, Clone, Copy, PartialEq, Eq, Structural, Hash)]
pub enum ConfigShellToolType {
    Default,
    Local,
    UnifiedExec,
    Disabled,
    ShellCommand,
}

/// Which web search tool a model uses.
#[derive(Debug, Clone, Copy, PartialEq, Eq, Structural, Hash)]
pub enum WebSearchToolType {
    Text,
    TextAndImage,
}

/// Text-only web search unless configured.
impl Default for WebSearchToolType {
    fn default() -> (r: WebSearchToolType)
        ensures
            r == WebSearchToolType::Text,
    {
        WebSearchToolType::Text
    }
}

/// The unit in which tool output is truncated.
#[derive(Debug, Clone, Copy, PartialEq, Eq, Structural)]
pub enum TruncationMode {
    Bytes,
    Tokens,
}

/// How much tool output a model keeps.
#[derive(Debug, Clone, Copy, PartialEq, Eq, Structural)]
pub struct TruncationPolicyConfig {
    pub mode: TruncationMode,
    pub limit: i64,
}

impl TruncationPolicyConfig {
    /// A limit counted in bytes.
    pub fn bytes(limit: i64) -> (r: TruncationPolicyConfig)
        ensures
            r == (TruncationPolicyConfig { mode: TruncationMode::Bytes, limit }),
    {
        TruncationPolicyConfig { mode: TruncationMode::Bytes, limit }
    }

    /// A limit counted in tokens.
    pub fn tokens(limit: i64) -> (r: TruncationPolicyConfig)
        ensures
            r == (TruncationPolicyConfig { mode: TruncationMode::Tokens, limit }),
    {
        TruncationPolicyConfig { mode: TruncationMode::Tokens, limit }
    }
}

/// A client version: major, minor, patch.
#[derive(Debug, Clone, Copy, PartialEq, Eq, Structural)]
pub struct ClientVersion(pub i32, pub i32, pub i32);

/// The share of the context window that counts as usable, unless the catalog says otherwise.
pub fn default_effective_context_window_percent() -> (r: i64)
    ensures
        r == 95,
{
    95
}

/// Instructions that a model's catalog entry carries.
#[derive(Debug, Clone, PartialEq, Eq)]
pub struct ModelMessages {
    pub instructions_template: Option<String>,
    pub instructions_variables: Option<ModelInstructionsVariables>,
}

impl ModelMessages {
    /// No template, or only whitespace in it.
    pub fn is_empty(&self) -> (r: bool)
        ensures
            r == match self.instructions_template {
                None => true,
                Some(t) => trim(t@).len() == 0,
            },
    {
        match &self.instructions_template {
            None => true,
            Some(template) => is_blank(template.as_str()),
        }
    }
}

/// The variables of an instructions template; there are none yet.
#[derive(Debug, Clone, PartialEq, Eq)]
pub struct ModelInstructionsVariables {}

impl ModelInstructionsVariables {
    /// All variables are set.
    pub fn is_complete(&self) -> (r: bool)
        ensures
            r,
    {
        true
    }
}

/// The successor a catalog entry points to.
#[derive(Debug, Clone, PartialEq, Eq)]
pub struct ModelInfoUpgrade {
    pub model: String,
    pub migration_markdown: String,
}

impl ModelInfoUpgrade {
    /// The successor of an upgrade description; a missing migration text becomes empty.
    pub fn from_upgrade(upgrade: &ModelUpgrade) -> (r: ModelInfoUpgrade)
        ensures
            r.model@ == upgrade.id@,
            r.migration_markdown@ == match upgrade.migration_markdown {
                Some(m) => m@,
                None => Seq::<char>::empty(),
            },
    {
        ModelInfoUpgrade {
            model: upgrade.id.clone(),
            migration_markdown: match &upgrade.migration_markdown {
                Some(m) => m.clone(),
                None => String::new(),
            },
        }
    }
}

/// A model's entry in the model catalog.
#[derive(Debug, Clone, PartialEq, Eq)]
pub struct ModelInfo {
    pub slug: String,
    pub display_name: String,
    pub description: Option<String>,
    pub default_reasoning_level: Option<ReasoningEffort>,
    pub supported_reasoning_levels: Vec<ReasoningEffortPreset>,
    pub shell_type: ConfigShellToolType,
    pub visibility: ModelVisibility,
    pub supported_in_api: bool,
    pub priority: i32,
    pub additional_speed_tiers: Vec<String>,
    pub service_tiers: Vec<ModelServiceTier>,
    pub default_service_tier: Option<String>,
    pub availability_nux: Option<ModelAvailabilityNux>,
    pub upgrade: Option<ModelInfoUpgrade>,
    pub base_instructions: String,
    pub model_messages: Option<ModelMessages>,
    pub supports_reasoning_summaries: bool,
    pub default_reasoning_summary: ReasoningSummary,
    pub support_verbosity: bool,
    pub default_verbosity: Option<Verbosity>,
    pub web_search_tool_type: WebSearchToolType,
    pub truncation_policy: TruncationPolicyConfig,
    pub supports_parallel_tool_calls: bool,
    pub supports_image_detail_original: bool,
    pub context_window: Option<i64>,
    pub max_context_window: Option<i64>,
    pub auto_compact_token_limit: Option<i64>,
    pub effective_context_window_percent: i64,
    pub experimental_supported_tools: Vec<String>,
    pub input_modalities: Vec<InputModality>,
    pub used_fallback_model_metadata: bool,
    pub supports_search_tool: bool,
}

/// The context window: the configured one, else the maximum one.
pub open spec fn spec_resolved_context_window(m: ModelInfo) -> Option<i64> {
    match m.context_window {
        Some(c) => Some(c),
        None => m.max_context_window,
    }
}

/// Nine tenths of `c`, rounded toward zero.
pub open spec fn nine_tenths(c: int) -> int {
    if c >= 0 {
        (c * 9) / 10
    } else {
        -((-c * 9) / 10)
    }
}

/// The token count at which history is compacted: nine tenths of the context
/// window, or the configured limit when that is lower; the configured limit
/// alone when the window is unknown.
pub open spec fn spec_auto_compact_token_limit(m: ModelInfo) -> Option<int> {
    match spec_resolved_context_window(m) {
        Some(c) => match m.auto_compact_token_limit {
            Some(l) => Some(
                if l < nine_tenths(c as int) {
                    l as int
                } else {
                    nine_tenths(c as int)
                },
            ),
            None => Some(nine_tenths(c as int)),
        },
        None => match m.auto_compact_token_limit {
            Some(l) => Some(l as int),
            None => None,
        },
    }
}

/// Some tier of `tiers` has the id `id`.
pub open spec fn has_tier(tiers: Seq<ModelServiceTier>, id: Seq<char>) -> bool {
    exists|i: int| 0 <= i < tiers.len() && (#[trigger] tiers[i]).id@ == id
}

/// Some string of `names` equals `n`.
pub open spec fn has_name(names: Seq<String>, n: Seq<char>) -> bool {
    exists|i: int| 0 <= i < names.len() && (#[trigger] names[i])@ == n
}

/// Whether some tier of `tiers` has the id `id`.
fn any_tier_with_id(tiers: &Vec<ModelServiceTier>, id: &str) -> (r: bool)
    ensures
        r == has_tier(tiers@, id@),
{
    let mut i: usize = 0;
    while i < tiers.len()
        invariant
            i <= tiers.len(),
            forall|k: int| 0 <= k < i ==> (#[trigger] tiers@[k]).id@ != id@,
        decreases tiers.len() - i,
    {
        if str_eq(tiers[i].id.as_str(), id) {
            return true;
        }
        i = i + 1;
    }
    false
}

/// Whether some string of `names` equals `n`.
fn any_name_equal(names: &Vec<String>, n: &str) -> (r: bool)
    ensures
        r == has_name(names@, n@),
{
    let mut i: usize = 0;
    while i < names.len()
        invariant
            i <= names.len(),
            forall|k: int| 0 <= k < i ==> (#[trigger] names@[k])@ != n@,
        decreases names.len() - i,
    {
        if str_eq(names[i].as_str(), n) {
            return true;
        }
        i = i + 1;
    }
    false
}

impl ModelInfo {
    /// The context window: the configured one, else the maximum one.
    pub fn resolved_context_window(&self) -> (r: Option<i64>)
        ensures
            r == spec_resolved_context_window(*self),
    {
        match self.context_window {
            Some(c) => Some(c),
            None => self.max_context_window,
        }
    }

    /// The token count at which history is compacted.
    pub fn auto_compact_token_limit(&self) -> (r: Option<i64>)
        requires
            spec_resolved_context_window(*self) matches Some(c) ==> i64::MIN <= c * 9 <= i64::MAX,
        ensures
            r matches Some(v) ==> spec_auto_compact_token_limit(*self) == Some(v as int),
            r is None ==> spec_auto_compact_token_limit(*self) is None,
    {
        let context_limit = match self.resolved_context_window() {
            Some(context_window) => {
                let nine = context_window * 9;
                let q = nine / 10;
                Some(q)
            },
            None => None,
        };
        let config_limit = self.auto_compact_token_limit;
        if let Some(context_limit) = context_limit {
            return Some(
                match config_limit {
                    Some(limit) => if limit < context_limit {
                        limit
                    } else {
                        context_limit
                    },
                    None => context_limit,
                },
            );
        }
        config_limit
    }

    /// The instructions: the catalog's template when there is one, else the base instructions.
    pub fn get_model_instructions(&self) -> (r: String)
        ensures
            r@ == match self.model_messages {
                Some(mm) => match mm.instructions_template {
                    Some(t) => t@,
                    None => self.base_instructions@,
                },
                None => self.base_instructions@,
            },
    {
        if let Some(model_messages) = &self.model_messages {
            if let Some(template) = &model_messages.instructions_template {
                return template.clone();
            }
        }
        self.base_instructions.clone()
    }

    /// Whether the model offers the tier whose request value is `service_tier`.
    pub fn supports_service_tier(&self, service_tier: &str) -> (r: bool)
        ensures
            r == has_tier(self.service_tiers@, service_tier@),
    {
        any_tier_with_id(&self.service_tiers, service_tier)
    }

    /// The tier to send with a request: the requested one, unless it is the
    /// default value or the model does not offer it.
    pub fn service_tier_for_request(&self, service_tier: Option<String>) -> (r: Option<String>)
        ensures
            match service_tier {
                Some(t) => if t@ != SERVICE_TIER_DEFAULT_REQUEST_VALUE@ && has_tier(
                    self.service_tiers@,
                    t@,
                ) {
                    r == Some(t)
                } else {
                    r is None
                },
                None => r is None,
            },
    {
        match service_tier {
            Some(t) => {
                if !str_eq(t.as_str(), SERVICE_TIER_DEFAULT_REQUEST_VALUE)
                    && self.supports_service_tier(t.as_str()) {
                    Some(t)
                } else {
                    None
                }
            },
            None => None,
        }
    }
}

/// Whether `r` is the preset that catalog entry `info` describes: every field
/// is taken from the entry, strings by their text.
pub open spec fn preset_describes(info: ModelInfo, r: ModelPreset) -> bool {
    &&& r.id@ == info.slug@
    &&& r.model@ == info.slug@
    &&& r.display_name == info.display_name
    &&& r.description@ == match info.description {
        Some(d) => d@,
        None => Seq::<char>::empty(),
    }
    &&& r.default_reasoning_effort == match info.default_reasoning_level {
        Some(e) => e,
        None => ReasoningEffort::NoReasoning,
    }
    &&& r.supported_reasoning_efforts == info.supported_reasoning_levels
    &&& r.additional_speed_tiers == info.additional_speed_tiers
    &&& r.service_tiers == info.service_tiers
    &&& r.default_service_tier == info.default_service_tier
    &&& !r.is_default
    &&& r.show_in_picker == (info.visibility == ModelVisibility::List)
    &&& r.availability_nux == info.availability_nux
    &&& r.supported_in_api == info.supported_in_api
    &&& r.input_modalities == info.input_modalities
    &&& match info.upgrade {
        None => r.upgrade is None,
        Some(u) => r.upgrade matches Some(ru) && ru.id@ == u.model@ && ru.migration_config_key@
            == info.slug@ && ru.model_link is None && ru.upgrade_copy is None && (
        ru.migration_markdown matches Some(mm) && mm@ == u.migration_markdown@) && (
        ru.reasoning_effort_mapping matches Some(mv) && spec_effort_mapping(
            info.supported_reasoning_levels@,
        ) == Some(mv@)) == (info.supported_reasoning_levels.len() > 0) && (
        ru.reasoning_effort_mapping is None) == (info.supported_reasoning_levels.len() == 0),
    }
}

impl ModelPreset {
    /// Whether the model has a fast tier: a service tier with the fast request
    /// value, or the speed tier named fast.
    pub fn supports_fast_mode(&self) -> (r: bool)
        ensures
            r == (has_tier(self.service_tiers@, spec_request_value(ServiceTier::Fast)) || has_name(
                self.additional_speed_tiers@,
                SPEED_TIER_FAST@,
            )),
    {
        any_tier_with_id(&self.service_tiers, ServiceTier::Fast.request_value())
            || any_name_equal(&self.additional_speed_tiers, SPEED_TIER_FAST)
    }

    /// The presets usable with the given kind of sign-in: all of them in
    /// ChatGPT mode, otherwise those supported through the API, in order.
    pub fn filter_by_auth(models: Vec<ModelPreset>, chatgpt_mode: bool) -> (r: Vec<ModelPreset>)
        ensures
            r@ == models@.filter(|m: ModelPreset| chatgpt_mode || m.supported_in_api),
    {
        let ghost pred = |m: ModelPreset| chatgpt_mode || m.supported_in_api;
        let ghost all = models@;
        let mut r: Vec<ModelPreset> = Vec::new();
        for model in it: models
            invariant
                all == it.seq(),
                pred == (|m: ModelPreset| chatgpt_mode || m.supported_in_api),
                r@ == all.take(it.index() as int).filter(pred),
        {
            let ghost i = it.index();
            assert(model == all[i as int]);
            let keep = chatgpt_mode || model.supported_in_api;
            assert(keep == pred(all[i as int]));
            if keep {
                r.push(model);
            }
            proof {
                assert(all.take(i + 1) =~= all.take(i as int).push(all[i as int]));
                all.take(i as int).lemma_filter_push(all[i as int], pred);
            }
        }
        proof {
            assert(all.take(all.len() as int) =~= all);
        }
        r
    }

    /// Marks exactly one preset as the default: the first shown in the picker,
    /// else the first one.
    pub fn mark_default_by_picker_visibility(models: &mut Vec<ModelPreset>)
        ensures
            final(models).len() == old(models).len(),
            forall|i: int|
                0 <= i < old(models).len() ==> (#[trigger] final(models)@[i]) == with_default(
                    old(models)@[i],
                    i == default_index(old(models)@),
                ),
    {
        let ghost all = models@;
        let mut taken: Vec<ModelPreset> = Vec::new();
        std::mem::swap(&mut taken, models);
        let mut found = false;
        let mut out: Vec<ModelPreset> = Vec::new();
        for preset in it: taken
            invariant
                all == it.seq(),
                out.len() == it.index(),
                found == exists|k: int| 0 <= k < it.index() && (#[trigger] all[k]).show_in_picker,
                forall|k: int|
                    0 <= k < it.index() ==> (#[trigger] out@[k]) == with_default(
                        all[k],
                        k == first_shown(all) && all[k].show_in_picker,
                    ),
        {
            let ghost i = it.index();
            let mut p = preset;
            let mark = !found && p.show_in_picker;
            proof {
                if mark {
                    lemma_first_shown_is(all, i as int);
                } else if p.show_in_picker {
                    let k = choose|k: int| 0 <= k < i && (#[trigger] all[k]).show_in_picker;
                    lemma_first_shown_at_most(all, k);
                }
            }
            p.is_default = mark;
            if mark {
                found = true;
            }
            out.push(p);
        }
        if !found && out.len() > 0 {
            let mut first: Vec<ModelPreset> = Vec::new();
            let mut k: usize = 0;
            let n = out.len();
            let ghost before = out@;
            for p in it: out
                invariant
                    it.seq() == before,
                    before.len() == n,
                    first.len() == it.index(),
                    k == it.index(),
                    k <= n,
                    forall|j: int|
                        0 <= j < it.index() ==> (#[trigger] first@[j]) == if j == 0 {
                            with_default(before[j], true)
                        } else {
                            before[j]
                        },
            {
                let mut q = p;
                if k == 0 {
                    q.is_default = true;
                }
                first.push(q);
                k = k + 1;
            }
            proof {
                assert forall|i: int| 0 <= i < all.len() implies !(#[trigger] all[i]).show_in_picker by {
                    if all[i].show_in_picker {
                        assert(exists|k: int| 0 <= k < all.len() && (#[trigger] all[k]).show_in_picker);
                    }
                }
                lemma_first_shown_none(all);
            }
            *models = first;
        } else {
            proof {
                if found {
                    let k = choose|k: int| 0 <= k < all.len() && (#[trigger] all[k]).show_in_picker;
                    lemma_first_shown_at_most(all, k);
                }
            }
            *models = out;
        }
    }

    /// The preset that a catalog entry describes.
    pub fn from_model_info(info: ModelInfo) -> (r: ModelPreset)
        ensures
            preset_describes(info, r),
    {
        let upgrade = match &info.upgrade {
            Some(u) => {
                let mapping = reasoning_effort_mapping_from_presets(&info.supported_reasoning_levels);
                Some(
                    ModelUpgrade {
                        id: u.model.clone(),
                        reasoning_effort_mapping: mapping,
                        migration_config_key: info.slug.clone(),
                        model_link: None,
                        upgrade_copy: None,
                        migration_markdown: Some(u.migration_markdown.clone()),
                    },
                )
            },
            None => None,
        };
        let show_in_picker = match info.visibility {
            ModelVisibility::List => true,
            _ => false,
        };
        ModelPreset {
            id: info.slug.clone(),
            model: info.slug.clone(),
            display_name: info.display_name,
            description: match info.description {
                Some(d) => d,
                None => String::new(),
            },
            default_reasoning_effort: match info.default_reasoning_level {
                Some(e) => e,
                None => ReasoningEffort::NoReasoning,
            },
            supported_reasoning_efforts: info.supported_reasoning_levels,
            additional_speed_tiers: info.additional_speed_tiers,
            service_tiers: info.service_tiers,
            default_service_tier: info.default_service_tier,
            is_default: false,
            upgrade,
            show_in_picker,
            availability_nux: info.availability_nux,
            supported_in_api: info.supported_in_api,
            input_modalities: info.input_modalities,
        }
    }
}

/// A preset that catalog entry `v` describes.  `from` states its result by
/// `preset_describes`, because the strings it makes afresh (an empty
/// description) are known by their text alone.
impl vstd::std_specs::convert::FromSpecImpl<ModelInfo> for ModelPreset {
    open spec fn obeys_from_spec() -> bool {
        false
    }

    open spec fn from_spec(v: ModelInfo) -> ModelPreset {
        choose|r: ModelPreset| preset_describes(v, r)
    }
}

/// The preset that a catalog entry describes; see `ModelPreset::from_model_info`.
impl From<ModelInfo> for ModelPreset {
    fn from(info: ModelInfo) -> (r: ModelPreset)
        ensures
            preset_describes(info, r),
    {
        ModelPreset::from_model_info(info)
    }
}

/// `p` with its default mark set to `b`.
pub open spec fn with_default(p: ModelPreset, b: bool) -> ModelPreset {
    ModelPreset { is_default: b, ..p }
}

/// Index of the first preset shown in the picker (the length when none is).
pub open spec fn first_shown(s: Seq<ModelPreset>) -> int
    decreases s.len(),
{
    if s.len() == 0 {
        0
    } else if s[0].show_in_picker {
        0
    } else {
        1 + first_shown(s.drop_first())
    }
}

/// The preset that becomes the default: the first shown one, else the first one.
pub open spec fn default_index(s: Seq<ModelPreset>) -> int {
    if first_shown(s) < s.len() {
        first_shown(s)
    } else {
        0
    }
}

proof fn lemma_first_shown_is(s: Seq<ModelPreset>, i: int)
    requires
        0 <= i < s.len(),
        s[i].show_in_picker,
        forall|k: int| 0 <= k < i ==> !(#[trigger] s[k]).show_in_picker,
    ensures
        first_shown(s) == i,
    decreases s.len(),
{
    if i > 0 {
        assert(!s[0].show_in_picker);
        lemma_first_shown_is(s.drop_first(), i - 1);
    }
}

proof fn lemma_first_shown_none(s: Seq<ModelPreset>)
    requires
        forall|k: int| 0 <= k < s.len() ==> !(#[trigger] s[k]).show_in_picker,
    ensures
        first_shown(s) == s.len(),
    decreases s.len(),
{
    if s.len() > 0 {
        assert forall|k: int| 0 <= k < s.drop_first().len() implies !(
        #[trigger] s.drop_first()[k]).show_in_picker by {
            assert(s.drop_first()[k] == s[k + 1]);
        }
        lemma_first_shown_none(s.drop_first());
    }
}

proof fn lemma_first_shown_at_most(s: Seq<ModelPreset>, k: int)
    requires
        0 <= k < s.len(),
        s[k].show_in_picker,
    ensures
        0 <= first_shown(s) <= k,
        s[first_shown(s)].show_in_picker,
        forall|j: int| 0 <= j < first_shown(s) ==> !(#[trigger] s[j]).show_in_picker,
    decreases s.len(),
{
    if !s[0].show_in_picker {
        assert(s.drop_first()[k - 1] == s[k]);
        lemma_first_shown_at_most(s.drop_first(), k - 1);
        assert(first_shown(s) == 1 + first_shown(s.drop_first()));
        assert(s[first_shown(s)] == s.drop_first()[first_shown(s.drop_first())]);
        assert forall|j: int| 0 <= j < first_shown(s) implies !(#[trigger] s[j]).show_in_picker by {
            if j > 0 {
                assert(s[j] == s.drop_first()[j - 1]);
            }
        }
    }
}

/// For each effort in listing order, the supported effort nearest to it;
/// nothing when no effort is supported.
pub open spec fn spec_effort_mapping(presets: Seq<ReasoningEffortPreset>) -> Option<
    Seq<(ReasoningEffort, ReasoningEffort)>,
> {
    if presets.len() == 0 {
        None
    } else {
        let supported = presets.map_values(|p: ReasoningEffortPreset| p.effort);
        Some(
            all_efforts().map_values(
                |e: ReasoningEffort| (e, spec_nearest_effort(e, supported)),
            ),
        )
    }
}

/// For each effort in listing order, the supported effort nearest to it.
pub fn reasoning_effort_mapping_from_presets(presets: &Vec<ReasoningEffortPreset>) -> (r: Option<
    Vec<(ReasoningEffort, ReasoningEffort)>,
>)
    ensures
        r matches Some(v) ==> spec_effort_mapping(presets@) == Some(v@),
        r is None <==> presets.len() == 0,
{
    if presets.len() == 0 {
        return None;
    }
    let mut supported: Vec<ReasoningEffort> = Vec::new();
    let mut i: usize = 0;
    while i < presets.len()
        invariant
            i <= presets.len(),
            supported@ == presets@.take(i as int).map_values(|p: ReasoningEffortPreset| p.effort),
        decreases presets.len() - i,
    {
        supported.push(presets[i].effort);
        assert(presets@.take(i + 1).map_values(|p: ReasoningEffortPreset| p.effort) =~= presets@.take(
            i as int,
        ).map_values(|p: ReasoningEffortPreset| p.effort).push(presets@[i as int].effort));
        i = i + 1;
    }
    assert(presets@.take(presets.len() as int) =~= presets@);
    let efforts = all_efforts_vec();
    let mut map: Vec<(ReasoningEffort, ReasoningEffort)> = Vec::new();
    let mut k: usize = 0;
    while k < efforts.len()
        invariant
            efforts@ == all_efforts(),
            supported@ == presets@.map_values(|p: ReasoningEffortPreset| p.effort),
            k <= efforts.len(),
            map@ == all_efforts().take(k as int).map_values(
                |e: ReasoningEffort| (e, spec_nearest_effort(e, supported@)),
            ),
        decreases efforts.len() - k,
    {
        let e = efforts[k];
        let nearest = nearest_effort(e, &supported);
        map.push((e, nearest));
        assert(all_efforts().take(k + 1).map_values(
            |e: ReasoningEffort| (e, spec_nearest_effort(e, supported@)),
        ) =~= all_efforts().take(k as int).map_values(
            |e: ReasoningEffort| (e, spec_nearest_effort(e, supported@)),
        ).push((e, nearest)));
        k = k + 1;
    }
    assert(all_efforts().take(6) =~= all_efforts());
    Some(map)
}

/// The efforts in listing order.
fn all_efforts_vec() -> (r: Vec<ReasoningEffort>)
    ensures
        r@ == all_efforts(),
{
    let mut r: Vec<ReasoningEffort> = Vec::new();
    r.push(ReasoningEffort::NoReasoning);
    r.push(ReasoningEffort::Minimal);
    r.push(ReasoningEffort::Low);
    r.push(ReasoningEffort::Medium);
    r.push(ReasoningEffort::High);
    r.push(ReasoningEffort::XHigh);
    assert(r@ =~= all_efforts());
    r
}

/// The rank of an effort.
pub fn effort_rank(effort: ReasoningEffort) -> (r: i32)
    ensures
        r == spec_effort_rank(effort),
{
    match effort {
        ReasoningEffort::NoReasoning => 0,
        ReasoningEffort::Minimal => 1,
        ReasoningEffort::Low => 2,
        ReasoningEffort::Medium => 3,
        ReasoningEffort::High => 4,
        ReasoningEffort::XHigh => 5,
    }
}

/// The supported effort nearest to `target`, the first on ties; `target` itself
/// when nothing is supported.
pub fn nearest_effort(target: ReasoningEffort, supported: &Vec<ReasoningEffort>) -> (r: ReasoningEffort)
    ensures
        r == spec_nearest_effort(target, supported@),
{
    if supported.len() == 0 {
        return target;
    }
    let target_rank = effort_rank(target);
    let mut best: usize = 0;
    let mut i: usize = 1;
    while i < supported.len()
        invariant
            1 <= i <= supported.len(),
            target_rank == spec_effort_rank(target),
            best == best_index(supported@, target, i as int),
            best < i,
        decreases supported.len() - i,
    {
        let d_new = effort_rank(supported[i]) - target_rank;
        let d_new = if d_new < 0 {
            -d_new
        } else {
            d_new
        };
        let d_best = effort_rank(supported[best]) - target_rank;
        let d_best = if d_best < 0 {
            -d_best
        } else {
            d_best
        };
        if d_new < d_best {
            best = i;
        }
        i = i + 1;
    }
    supported[best]
}

/// The catalog of models as the service returns it.
#[derive(Debug, Clone, PartialEq, Eq)]
pub struct ModelsResponse {
    pub models: Vec<ModelInfo>,
}

/// An empty catalog.
impl Default for ModelsResponse {
    fn default() -> (r: ModelsResponse)
        ensures
            r.models@.len() == 0,
    {
        ModelsResponse { models: Vec::new() }
    }
}

} // verus!
