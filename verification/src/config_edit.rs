//! Edits to the user's configuration file: what each edit writes or removes,
//! how a path through the file's tables is walked, and a builder that
//! collects edits for one file.
use vstd::prelude::*;
use crate::config_types::{spec_tier_from_request_value, ServiceTier};
use crate::features::{feature_for_key, spec_default_enabled, spec_feature_for_key};
use crate::openai_models::{spec_effort_name, ReasoningEffort};
use crate::text::copy_str;
use crate::util::{resolve_path, spec_join_relative};

verus! {

/// The name of the configuration file in the Codex home directory.
pub const CONFIG_TOML_FILE: &'static str = "config.toml";

/// The table under which acknowledged notices are recorded.
pub const NOTICE_TABLE_KEY: &'static str = "notice";

/// A value an edit writes into the configuration file.
#[derive(Debug, Clone, PartialEq, Eq)]
pub enum ConfigValue {
    Bool(bool),
    Integer(i64),
    Text(String),
}

/// A configuration value as the contracts speak of it.
pub enum ConfigValueView {
    Bool(bool),
    Integer(i64),
    Text(Seq<char>),
}

impl View for ConfigValue {
    type V = ConfigValueView;

    open spec fn view(&self) -> ConfigValueView {
        match *self {
            ConfigValue::Bool(b) => ConfigValueView::Bool(b),
            ConfigValue::Integer(i) => ConfigValueView::Integer(i),
            ConfigValue::Text(s) => ConfigValueView::Text(s@),
        }
    }
}

/// How far a project directory is trusted.
#[derive(Debug, Clone, Copy, PartialEq, Eq, Structural)]
pub enum TrustLevel {
    Trusted,
    Untrusted,
}

/// One change to make to the configuration file.
#[derive(Debug, Clone, PartialEq, Eq)]
pub enum ConfigEdit {
    /// The model and its reasoning effort; `None` removes the setting.
    SetModel { model: Option<String>, effort: Option<ReasoningEffort> },
    /// The service tier; `None` removes the setting.
    SetServiceTier { service_tier: Option<String> },
    SetNoticeHideFullAccessWarning(bool),
    SetNoticeHideWorldWritableWarning(bool),
    SetNoticeHideRateLimitModelNudge(bool),
    /// Whether the prompt to migrate to another model is hidden, by migration.
    SetNoticeHideModelMigrationPrompt(String, bool),
    SetNoticeHideExternalConfigMigrationPromptHome(bool),
    SetNoticeExternalConfigMigrationPromptHomeLastPromptedAt(i64),
    SetNoticeHideExternalConfigMigrationPromptProject(String, bool),
    SetNoticeExternalConfigMigrationPromptProjectLastPromptedAt(String, i64),
    /// How far the project at `path` is trusted.
    SetProjectTrustLevel { path: String, level: TrustLevel },
    /// Any value at a path of keys.
    SetPath { segments: Vec<String>, value: ConfigValue },
    /// Removes what a path of keys holds.
    ClearPath { segments: Vec<String> },
}

/// What an edit does to the file, as the contracts speak of it.
pub enum ChangeView {
    Write(Seq<Seq<char>>, ConfigValueView),
    Remove(Seq<Seq<char>>),
    TrustProject(Seq<char>, TrustLevel),
}

/// What an edit does to the file: a value written at a path of keys, the
/// removal of what a path holds, or a project's trust level.
#[derive(Debug, Clone, PartialEq, Eq)]
pub enum DocumentChange {
    Write { segments: Vec<String>, value: ConfigValue },
    Remove { segments: Vec<String> },
    TrustProject { path: String, level: TrustLevel },
}

/// The keys of a path.
pub open spec fn segs(v: Vec<String>) -> Seq<Seq<char>> {
    v@.map_values(|s: String| s@)
}

impl View for DocumentChange {
    type V = ChangeView;

    open spec fn view(&self) -> ChangeView {
        match *self {
            DocumentChange::Write { segments, value } => ChangeView::Write(segs(segments), value@),
            DocumentChange::Remove { segments } => ChangeView::Remove(segs(segments)),
            DocumentChange::TrustProject { path, level } => ChangeView::TrustProject(path@, level),
        }
    }
}

/// A write of `value` at `segments`, or the removal of what is there when there is no value.
pub open spec fn write_or_remove(segments: Seq<Seq<char>>, value: Option<ConfigValueView>) -> ChangeView {
    match value {
        Some(v) => ChangeView::Write(segments, v),
        None => ChangeView::Remove(segments),
    }
}

/// The text the configuration file records for a service tier: `fast` or
/// `flex` for a tier it names, the value itself otherwise.
pub open spec fn service_tier_config_text(s: Seq<char>) -> Seq<char> {
    match spec_tier_from_request_value(s) {
        Some(ServiceTier::Fast) => "fast"@,
        Some(ServiceTier::Flex) => "flex"@,
        None => s,
    }
}

/// The path of a notice key.
pub open spec fn notice_path(key: Seq<char>) -> Seq<Seq<char>> {
    seq!["notice"@, key]
}

/// The path of a key about the prompts to migrate an external configuration.
pub open spec fn migration_path(key: Seq<char>) -> Seq<Seq<char>> {
    seq!["notice"@, "external_config_migration_prompts"@, key]
}

/// What each edit does to the file, in order.
pub open spec fn edit_plan(edit: ConfigEdit) -> Seq<ChangeView> {
    match edit {
        ConfigEdit::SetModel { model, effort } => seq![
            write_or_remove(
                seq!["model"@],
                match model {
                    Some(m) => Some(ConfigValueView::Text(m@)),
                    None => None,
                },
            ),
            write_or_remove(
                seq!["model_reasoning_effort"@],
                match effort {
                    Some(e) => Some(ConfigValueView::Text(spec_effort_name(e))),
                    None => None,
                },
            ),
        ],
        ConfigEdit::SetServiceTier { service_tier } => seq![
            write_or_remove(
                seq!["service_tier"@],
                match service_tier {
                    Some(t) => Some(ConfigValueView::Text(service_tier_config_text(t@))),
                    None => None,
                },
            ),
        ],
        ConfigEdit::SetNoticeHideFullAccessWarning(b) => seq![
            ChangeView::Write(notice_path("hide_full_access_warning"@), ConfigValueView::Bool(b)),
        ],
        ConfigEdit::SetNoticeHideWorldWritableWarning(b) => seq![
            ChangeView::Write(notice_path("hide_world_writable_warning"@), ConfigValueView::Bool(b)),
        ],
        ConfigEdit::SetNoticeHideRateLimitModelNudge(b) => seq![
            ChangeView::Write(notice_path("hide_rate_limit_model_nudge"@), ConfigValueView::Bool(b)),
        ],
        ConfigEdit::SetNoticeHideModelMigrationPrompt(m, b) => seq![
            ChangeView::Write(notice_path(m@), ConfigValueView::Bool(b)),
        ],
        ConfigEdit::SetNoticeHideExternalConfigMigrationPromptHome(b) => seq![
            ChangeView::Write(migration_path("home"@), ConfigValueView::Bool(b)),
        ],
        ConfigEdit::SetNoticeExternalConfigMigrationPromptHomeLastPromptedAt(t) => seq![
            ChangeView::Write(migration_path("home_last_prompted_at"@), ConfigValueView::Integer(t)),
        ],
        ConfigEdit::SetNoticeHideExternalConfigMigrationPromptProject(p, b) => seq![
            ChangeView::Write(migration_path("projects"@).push(p@), ConfigValueView::Bool(b)),
        ],
        ConfigEdit::SetNoticeExternalConfigMigrationPromptProjectLastPromptedAt(p, t) => seq![
            ChangeView::Write(
                migration_path("project_last_prompted_at"@).push(p@),
                ConfigValueView::Integer(t),
            ),
        ],
        ConfigEdit::SetProjectTrustLevel { path, level } => seq![ChangeView::TrustProject(path@, level)],
        ConfigEdit::SetPath { segments, value } => seq![ChangeView::Write(segs(segments), value@)],
        ConfigEdit::ClearPath { segments } => seq![ChangeView::Remove(segs(segments))],
    }
}

fn path1(a: &str) -> (r: Vec<String>)
    ensures
        segs(r) == seq![a@],
{
    let mut v: Vec<String> = Vec::new();
    v.push(copy_str(a));
    proof {
        assert(segs(v) =~= seq![a@]);
    }
    v
}

fn path2(a: &str, b: &str) -> (r: Vec<String>)
    ensures
        segs(r) == seq![a@, b@],
{
    let mut v: Vec<String> = Vec::new();
    v.push(copy_str(a));
    v.push(copy_str(b));
    proof {
        assert(segs(v) =~= seq![a@, b@]);
    }
    v
}

fn path3(a: &str, b: &str, c: &str) -> (r: Vec<String>)
    ensures
        segs(r) == seq![a@, b@, c@],
{
    let mut v: Vec<String> = Vec::new();
    v.push(copy_str(a));
    v.push(copy_str(b));
    v.push(copy_str(c));
    proof {
        assert(segs(v) =~= seq![a@, b@, c@]);
    }
    v
}

fn path4(a: &str, b: &str, c: &str, d: &str) -> (r: Vec<String>)
    ensures
        segs(r) == seq![a@, b@, c@, d@],
{
    let mut v: Vec<String> = Vec::new();
    v.push(copy_str(a));
    v.push(copy_str(b));
    v.push(copy_str(c));
    v.push(copy_str(d));
    proof {
        assert(segs(v) =~= seq![a@, b@, c@, d@]);
    }
    v
}

fn copy_segments(v: &Vec<String>) -> (r: Vec<String>)
    ensures
        segs(r) == segs(*v),
{
    let mut out: Vec<String> = Vec::new();
    let mut i: usize = 0;
    while i < v.len()
        invariant
            i <= v.len(),
            out@.len() == i,
            forall|k: int| 0 <= k < i ==> (#[trigger] out@[k])@ == v@[k]@,
        decreases v.len() - i,
    {
        out.push(v[i].clone());
        i = i + 1;
    }
    proof {
        assert(segs(out) =~= segs(*v));
    }
    out
}

fn copy_value(v: &ConfigValue) -> (r: ConfigValue)
    ensures
        r@ == v@,
{
    match v {
        ConfigValue::Bool(b) => ConfigValue::Bool(*b),
        ConfigValue::Integer(i) => ConfigValue::Integer(*i),
        ConfigValue::Text(s) => ConfigValue::Text(s.clone()),
    }
}

fn write_text_or_remove(segments: Vec<String>, text: Option<String>) -> (r: DocumentChange)
    ensures
        r@ == write_or_remove(
            segs(segments),
            match text {
                Some(t) => Some(ConfigValueView::Text(t@)),
                None => None,
            },
        ),
{
    match text {
        Some(t) => DocumentChange::Write { segments, value: ConfigValue::Text(t) },
        None => DocumentChange::Remove { segments },
    }
}

/// The text the configuration file records for a service tier.
pub fn service_tier_config_value(service_tier: &str) -> (r: String)
    ensures
        r@ == service_tier_config_text(service_tier@),
{
    match ServiceTier::from_request_value(service_tier) {
        Some(ServiceTier::Fast) => String::from_str("fast"),
        Some(ServiceTier::Flex) => String::from_str("flex"),
        None => copy_str(service_tier),
    }
}

fn one(c: DocumentChange) -> (r: Vec<DocumentChange>)
    ensures
        r@.map_values(|x: DocumentChange| x@) == seq![c@],
{
    let mut v: Vec<DocumentChange> = Vec::new();
    v.push(c);
    proof {
        assert(v@.map_values(|x: DocumentChange| x@) =~= seq![c@]);
    }
    v
}

impl ConfigEdit {
    /// What the edit does to the file, in order.
    pub fn changes(&self) -> (r: Vec<DocumentChange>)
        ensures
            r@.map_values(|c: DocumentChange| c@) == edit_plan(*self),
    {
        match self {
            ConfigEdit::SetModel { model, effort } => {
                let first = write_text_or_remove(
                    path1("model"),
                    match model {
                        Some(m) => Some(m.clone()),
                        None => None,
                    },
                );
                let second = write_text_or_remove(
                    path1("model_reasoning_effort"),
                    match effort {
                        Some(e) => Some(String::from_str(e.as_str())),
                        None => None,
                    },
                );
                let mut v: Vec<DocumentChange> = Vec::new();
                v.push(first);
                v.push(second);
                proof {
                    assert(v@.map_values(|c: DocumentChange| c@) =~= edit_plan(*self));
                }
                v
            },
            ConfigEdit::SetServiceTier { service_tier } => one(
                write_text_or_remove(
                    path1("service_tier"),
                    match service_tier {
                        Some(t) => Some(service_tier_config_value(t.as_str())),
                        None => None,
                    },
                ),
            ),
            ConfigEdit::SetNoticeHideFullAccessWarning(b) => one(
                DocumentChange::Write {
                    segments: path2(NOTICE_TABLE_KEY, "hide_full_access_warning"),
                    value: ConfigValue::Bool(*b),
                },
            ),
            ConfigEdit::SetNoticeHideWorldWritableWarning(b) => one(
                DocumentChange::Write {
                    segments: path2(NOTICE_TABLE_KEY, "hide_world_writable_warning"),
                    value: ConfigValue::Bool(*b),
                },
            ),
            ConfigEdit::SetNoticeHideRateLimitModelNudge(b) => one(
                DocumentChange::Write {
                    segments: path2(NOTICE_TABLE_KEY, "hide_rate_limit_model_nudge"),
                    value: ConfigValue::Bool(*b),
                },
            ),
            ConfigEdit::SetNoticeHideModelMigrationPrompt(m, b) => one(
                DocumentChange::Write {
                    segments: path2(NOTICE_TABLE_KEY, m.as_str()),
                    value: ConfigValue::Bool(*b),
                },
            ),
            ConfigEdit::SetNoticeHideExternalConfigMigrationPromptHome(b) => one(
                DocumentChange::Write {
                    segments: path3(NOTICE_TABLE_KEY, "external_config_migration_prompts", "home"),
                    value: ConfigValue::Bool(*b),
                },
            ),
            ConfigEdit::SetNoticeExternalConfigMigrationPromptHomeLastPromptedAt(t) => one(
                DocumentChange::Write {
                    segments: path3(
                        NOTICE_TABLE_KEY,
                        "external_config_migration_prompts",
                        "home_last_prompted_at",
                    ),
                    value: ConfigValue::Integer(*t),
                },
            ),
            ConfigEdit::SetNoticeHideExternalConfigMigrationPromptProject(p, b) => {
                let segments = path4(
                    NOTICE_TABLE_KEY,
                    "external_config_migration_prompts",
                    "projects",
                    p.as_str(),
                );
                proof {
                    assert(segs(segments) =~= migration_path("projects"@).push(p@));
                }
                one(DocumentChange::Write { segments, value: ConfigValue::Bool(*b) })
            },
            ConfigEdit::SetNoticeExternalConfigMigrationPromptProjectLastPromptedAt(p, t) => {
                let segments = path4(
                    NOTICE_TABLE_KEY,
                    "external_config_migration_prompts",
                    "project_last_prompted_at",
                    p.as_str(),
                );
                proof {
                    assert(segs(segments) =~= migration_path("project_last_prompted_at"@).push(p@));
                }
                one(DocumentChange::Write { segments, value: ConfigValue::Integer(*t) })
            },
            ConfigEdit::SetProjectTrustLevel { path, level } => one(
                DocumentChange::TrustProject { path: path.clone(), level: *level },
            ),
            ConfigEdit::SetPath { segments, value } => one(
                DocumentChange::Write { segments: copy_segments(segments), value: copy_value(value) },
            ),
            ConfigEdit::ClearPath { segments } => one(
                DocumentChange::Remove { segments: copy_segments(segments) },
            ),
        }
    }
}


/// What stands at a key of a table, as far as walking a path through the
/// file's tables reads it.
#[derive(Debug, Clone, Copy, PartialEq, Eq, Structural)]
pub enum ItemShape {
    /// The key is not there.
    Absent,
    /// The key holds nothing.
    Empty,
    Table,
    InlineTable,
    /// A value that is not an inline table.
    OtherValue,
    ArrayOfTables,
}

/// Whether a walk may create the tables it misses, or only enters existing ones.
#[derive(Debug, Clone, Copy, PartialEq, Eq, Structural)]
pub enum TraversalMode {
    Create,
    Existing,
}

/// What a walk does at one key on its way.
#[derive(Debug, Clone, Copy, PartialEq, Eq, Structural)]
pub enum TableStep {
    /// Enter the table that is there.
    Enter,
    /// Put an implicit table at the missing key and enter it.
    InsertImplicitTable,
    /// Turn the inline table there into a table and enter it.
    ConvertInlineTable,
    /// Replace what is there with an implicit table and enter it.
    ReplaceWithImplicitTable,
    /// The walk cannot go on.
    Stop,
}

/// The step a walk takes at a key, by what stands there: a walk that creates
/// makes a table of anything but an array of tables; a walk through existing
/// tables enters only tables and inline tables.
pub open spec fn spec_table_step(shape: ItemShape, mode: TraversalMode) -> TableStep {
    match (shape, mode) {
        (ItemShape::Table, _) => TableStep::Enter,
        (ItemShape::InlineTable, _) => TableStep::ConvertInlineTable,
        (ItemShape::Absent, TraversalMode::Create) => TableStep::InsertImplicitTable,
        (ItemShape::Empty, TraversalMode::Create) => TableStep::ReplaceWithImplicitTable,
        (ItemShape::OtherValue, TraversalMode::Create) => TableStep::ReplaceWithImplicitTable,
        _ => TableStep::Stop,
    }
}

/// The step a walk takes at a key.
pub fn table_step(shape: ItemShape, mode: TraversalMode) -> (r: TableStep)
    ensures
        r == spec_table_step(shape, mode),
{
    match shape {
        ItemShape::Table => TableStep::Enter,
        ItemShape::InlineTable => TableStep::ConvertInlineTable,
        ItemShape::Absent => match mode {
            TraversalMode::Create => TableStep::InsertImplicitTable,
            TraversalMode::Existing => TableStep::Stop,
        },
        ItemShape::Empty | ItemShape::OtherValue => match mode {
            TraversalMode::Create => TableStep::ReplaceWithImplicitTable,
            TraversalMode::Existing => TableStep::Stop,
        },
        ItemShape::ArrayOfTables => TableStep::Stop,
    }
}

/// How the `projects` table is prepared before a project's trust is recorded:
/// kept when it is a table; otherwise replaced by a new implicit table, which
/// takes over the entries of an inline table that are inline tables themselves.
#[derive(Debug, Clone, Copy, PartialEq, Eq, Structural)]
pub enum ProjectsStep {
    Keep,
    Rebuild { copy_inline_entries: bool },
}

/// How the `projects` table is prepared, by what stands at `projects`.
pub fn projects_step(shape: ItemShape) -> (r: ProjectsStep)
    ensures
        shape == ItemShape::Table ==> r == ProjectsStep::Keep,
        shape != ItemShape::Table ==> r == (ProjectsStep::Rebuild {
            copy_inline_entries: shape == ItemShape::InlineTable,
        }),
{
    match shape {
        ItemShape::Table => ProjectsStep::Keep,
        ItemShape::InlineTable => ProjectsStep::Rebuild { copy_inline_entries: true },
        _ => ProjectsStep::Rebuild { copy_inline_entries: false },
    }
}

/// Whether an entry of an inline `projects` table is carried over: only an
/// inline table is.
pub fn keeps_project_entry(shape: ItemShape) -> (r: bool)
    ensures
        r == (shape == ItemShape::InlineTable),
{
    shape == ItemShape::InlineTable
}

/// Whether a project needs a new table before its trust is recorded: unless a
/// table is already there.
pub fn project_needs_table(shape: ItemShape) -> (r: bool)
    ensures
        r == (shape != ItemShape::Table),
{
    shape != ItemShape::Table
}

/// The text the configuration file records for a trust level.
pub open spec fn spec_trust_level_text(level: TrustLevel) -> Seq<char> {
    match level {
        TrustLevel::Trusted => "trusted"@,
        TrustLevel::Untrusted => "untrusted"@,
    }
}

impl TrustLevel {
    /// The text the configuration file records for the level.
    pub fn as_str(self) -> (r: &'static str)
        ensures
            r@ == spec_trust_level_text(self),
    {
        match self {
            TrustLevel::Trusted => "trusted",
            TrustLevel::Untrusted => "untrusted",
        }
    }
}

/// Whether `key` names a known feature that is off unless configured.
pub open spec fn is_default_false_feature(key: Seq<char>) -> bool {
    spec_feature_for_key(key) matches Some(f) && !spec_default_enabled(f)
}

/// The edits collected for one configuration file, in the order they were asked for.
#[derive(Debug)]
pub struct ConfigEditsBuilder {
    config_path: String,
    edits: Vec<ConfigEdit>,
}

impl ConfigEditsBuilder {
    /// The file the edits are for.
    pub closed spec fn path(&self) -> Seq<char> {
        self.config_path@
    }

    /// The edits collected so far.
    pub closed spec fn edit_list(&self) -> Seq<ConfigEdit> {
        self.edits@
    }

    /// No edits yet, for the configuration file in the Codex home directory.
    pub fn new(codex_home: &str) -> (r: Self)
        ensures
            r.path() == spec_join_relative(codex_home@, "config.toml"@),
            r.edit_list().len() == 0,
    {
        proof {
            reveal_strlit("config.toml");
        }
        let path = resolve_path(codex_home, CONFIG_TOML_FILE);
        Self::for_config_path(path.as_str())
    }

    /// No edits yet, for the file at `config_path`.
    pub fn for_config_path(config_path: &str) -> (r: Self)
        ensures
            r.path() == config_path@,
            r.edit_list().len() == 0,
    {
        ConfigEditsBuilder { config_path: copy_str(config_path), edits: Vec::new() }
    }

    /// The file the edits are for.
    pub fn config_path(&self) -> (r: &str)
        ensures
            r@ == self.path(),
    {
        self.config_path.as_str()
    }

    /// The edits collected so far.
    pub fn edits(&self) -> (r: &Vec<ConfigEdit>)
        ensures
            r@ == self.edit_list(),
    {
        &self.edits
    }

    fn with_edit(self, edit: ConfigEdit) -> (r: Self)
        ensures
            r.path() == self.path(),
            r.edit_list() == self.edit_list().push(edit),
    {
        let ConfigEditsBuilder { config_path, mut edits } = self;
        edits.push(edit);
        ConfigEditsBuilder { config_path, edits }
    }

    /// Adds setting the model and its reasoning effort.
    pub fn set_model(self, model: Option<&str>, effort: Option<ReasoningEffort>) -> (r: Self)
        ensures
            r.path() == self.path(),
            r.edit_list().drop_last() == self.edit_list(),
            r.edit_list().last() matches ConfigEdit::SetModel { model: m, effort: e } && e == effort
                && match (m, model) {
                (Some(a), Some(b)) => a@ == b@,
                (None, None) => true,
                _ => false,
            },
    {
        let m = match model {
            Some(s) => Some(copy_str(s)),
            None => None,
        };
        let r = self.with_edit(ConfigEdit::SetModel { model: m, effort });
        proof {
            assert(r.edit_list().drop_last() =~= self.edit_list());
        }
        r
    }

    /// Adds setting the service tier.
    pub fn set_service_tier(self, service_tier: Option<String>) -> (r: Self)
        ensures
            r.path() == self.path(),
            r.edit_list() == self.edit_list().push(ConfigEdit::SetServiceTier { service_tier }),
    {
        self.with_edit(ConfigEdit::SetServiceTier { service_tier })
    }

    /// Adds recording whether the full access warning is hidden.
    pub fn set_hide_full_access_warning(self, acknowledged: bool) -> (r: Self)
        ensures
            r.path() == self.path(),
            r.edit_list() == self.edit_list().push(ConfigEdit::SetNoticeHideFullAccessWarning(acknowledged)),
    {
        self.with_edit(ConfigEdit::SetNoticeHideFullAccessWarning(acknowledged))
    }

    /// Adds recording whether the world-writable warning is hidden.
    pub fn set_hide_world_writable_warning(self, acknowledged: bool) -> (r: Self)
        ensures
            r.path() == self.path(),
            r.edit_list() == self.edit_list().push(ConfigEdit::SetNoticeHideWorldWritableWarning(acknowledged)),
    {
        self.with_edit(ConfigEdit::SetNoticeHideWorldWritableWarning(acknowledged))
    }

    /// Adds recording whether the rate limit nudge towards another model is hidden.
    pub fn set_hide_rate_limit_model_nudge(self, acknowledged: bool) -> (r: Self)
        ensures
            r.path() == self.path(),
            r.edit_list() == self.edit_list().push(ConfigEdit::SetNoticeHideRateLimitModelNudge(acknowledged)),
    {
        self.with_edit(ConfigEdit::SetNoticeHideRateLimitModelNudge(acknowledged))
    }

    /// Adds recording whether the prompt for a model migration is hidden.
    pub fn set_hide_model_migration_prompt(self, model: &str, acknowledged: bool) -> (r: Self)
        ensures
            r.path() == self.path(),
            r.edit_list().drop_last() == self.edit_list(),
            r.edit_list().last() matches ConfigEdit::SetNoticeHideModelMigrationPrompt(m, b) && m@
                == model@ && b == acknowledged,
    {
        let r = self.with_edit(ConfigEdit::SetNoticeHideModelMigrationPrompt(copy_str(model), acknowledged));
        proof {
            assert(r.edit_list().drop_last() =~= self.edit_list());
        }
        r
    }

    /// Adds recording whether the prompt to migrate the home configuration is hidden.
    pub fn set_hide_external_config_migration_prompt_home(self, acknowledged: bool) -> (r: Self)
        ensures
            r.path() == self.path(),
            r.edit_list() == self.edit_list().push(
                ConfigEdit::SetNoticeHideExternalConfigMigrationPromptHome(acknowledged),
            ),
    {
        self.with_edit(ConfigEdit::SetNoticeHideExternalConfigMigrationPromptHome(acknowledged))
    }

    /// Adds recording whether the prompt to migrate a project's configuration is hidden.
    pub fn set_hide_external_config_migration_prompt_project(self, project: &str, acknowledged: bool) -> (r:
        Self)
        ensures
            r.path() == self.path(),
            r.edit_list().drop_last() == self.edit_list(),
            r.edit_list().last() matches ConfigEdit::SetNoticeHideExternalConfigMigrationPromptProject(p, b)
                && p@ == project@ && b == acknowledged,
    {
        let r = self.with_edit(
            ConfigEdit::SetNoticeHideExternalConfigMigrationPromptProject(copy_str(project), acknowledged),
        );
        proof {
            assert(r.edit_list().drop_last() =~= self.edit_list());
        }
        r
    }

    /// Adds recording how far the project at `project_path` is trusted.
    pub fn set_project_trust_level(self, project_path: &str, trust_level: TrustLevel) -> (r: Self)
        ensures
            r.path() == self.path(),
            r.edit_list().drop_last() == self.edit_list(),
            r.edit_list().last() matches ConfigEdit::SetProjectTrustLevel { path, level } && path@
                == project_path@ && level == trust_level,
    {
        let r = self.with_edit(
            ConfigEdit::SetProjectTrustLevel { path: copy_str(project_path), level: trust_level },
        );
        proof {
            assert(r.edit_list().drop_last() =~= self.edit_list());
        }
        r
    }

    /// Adds switching a feature: the value is written under `features`, except
    /// that switching off a known feature that is off by default removes the
    /// key instead.
    pub fn set_feature_enabled(self, key: &str, enabled: bool) -> (r: Self)
        ensures
            r.path() == self.path(),
            r.edit_list().drop_last() == self.edit_list(),
            enabled || !is_default_false_feature(key@) ==> (r.edit_list().last() matches ConfigEdit::SetPath {
                segments,
                value,
            } && segs(segments) == seq!["features"@, key@] && value@ == ConfigValueView::Bool(enabled)),
            !enabled && is_default_false_feature(key@) ==> (r.edit_list().last() matches ConfigEdit::ClearPath {
                segments,
            } && segs(segments) == seq!["features"@, key@]),
    {
        let segments = path2("features", key);
        let is_default_false_feature = match feature_for_key(key) {
            Some(f) => !f.default_enabled(),
            None => false,
        };
        let r = if enabled || !is_default_false_feature {
            self.with_edit(ConfigEdit::SetPath { segments, value: ConfigValue::Bool(enabled) })
        } else {
            self.with_edit(ConfigEdit::ClearPath { segments })
        };
        proof {
            assert(r.edit_list().drop_last() =~= self.edit_list());
        }
        r
    }

    /// Adds the given edits, in order.
    pub fn with_edits(self, edits: Vec<ConfigEdit>) -> (r: Self)
        ensures
            r.path() == self.path(),
            r.edit_list() == self.edit_list() + edits@,
    {
        let ConfigEditsBuilder { config_path, edits: mut collected } = self;
        let mut more = edits;
        collected.append(&mut more);
        ConfigEditsBuilder { config_path, edits: collected }
    }

    /// The file the edits are for and the edits, in order.
    pub fn into_parts(self) -> (r: (String, Vec<ConfigEdit>))
        ensures
            r.0@ == self.path(),
            r.1@ == self.edit_list(),
    {
        (self.config_path, self.edits)
    }
}


/// Each notice edit writes one boolean, the value given, at its own key of
/// `[notice]`: the full-access warning, the world-writable warning and the
/// rate-limit model nudge are three different keys.
pub proof fn law_notice_edits_write_own_keys(b: bool)
    ensures
        edit_plan(ConfigEdit::SetNoticeHideFullAccessWarning(b)) == seq![
            ChangeView::Write(seq!["notice"@, "hide_full_access_warning"@], ConfigValueView::Bool(b)),
        ],
        edit_plan(ConfigEdit::SetNoticeHideWorldWritableWarning(b)) == seq![
            ChangeView::Write(seq!["notice"@, "hide_world_writable_warning"@], ConfigValueView::Bool(b)),
        ],
        edit_plan(ConfigEdit::SetNoticeHideRateLimitModelNudge(b)) == seq![
            ChangeView::Write(seq!["notice"@, "hide_rate_limit_model_nudge"@], ConfigValueView::Bool(b)),
        ],
        "hide_full_access_warning"@ != "hide_world_writable_warning"@,
        "hide_full_access_warning"@ != "hide_rate_limit_model_nudge"@,
        "hide_world_writable_warning"@ != "hide_rate_limit_model_nudge"@,
{
    reveal_strlit("hide_full_access_warning");
    reveal_strlit("hide_world_writable_warning");
    reveal_strlit("hide_rate_limit_model_nudge");
    assert("hide_full_access_warning"@[5] != "hide_world_writable_warning"@[5]);
    assert("hide_full_access_warning"@[5] != "hide_rate_limit_model_nudge"@[5]);
    assert("hide_world_writable_warning"@[5] != "hide_rate_limit_model_nudge"@[5]);
}

} // verus!
