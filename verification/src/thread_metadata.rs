//! What the state store keeps about each thread, how it is read back from a
//! stored row, and how the lines of a rollout update it.
//!
//! Times are kept as milliseconds since the Unix epoch.
use vstd::prelude::*;
use crate::models::{ContentItem, ResponseItem};
use crate::openai_models::{spec_effort_from_name, ReasoningEffort};
use crate::protocol::{ThreadId, SessionMetaLine, TurnContextItem, uuid_canonical};
use crate::rollout::{RolloutEvent, RolloutItem};
use crate::session_source::{spec_source_name, SessionSource};
use crate::text::{
    chars_of, clone_opt_string, find, find_chars, int_text, int_to_string, str_eq, string_from_chars,
    trim, trim_bounds,
};

verus! {

/// Which time threads are listed by.
#[derive(Debug, Clone, Copy, PartialEq, Eq, Structural)]
pub enum SortKey {
    CreatedAt,
    UpdatedAt,
}

/// The order in which threads are listed.
#[derive(Debug, Clone, Copy, PartialEq, Eq, Structural)]
pub enum SortDirection {
    Asc,
    Desc,
}

/// Where a page of threads ends: the time of its last thread, in milliseconds.
#[derive(Debug, Clone, Copy, PartialEq, Eq, Structural)]
pub struct Anchor {
    pub ts_ms: i64,
}

/// Counts from filling the store from rollout files.
#[derive(Debug, Clone, Copy, PartialEq, Eq, Structural)]
pub struct BackfillStats {
    pub scanned: usize,
    pub upserted: usize,
    pub failed: usize,
}

/// What the store keeps about one thread.
#[derive(Debug, Clone, PartialEq, Eq)]
pub struct ThreadMetadata {
    pub id: ThreadId,
    pub rollout_path: String,
    pub created_at: i64,
    pub updated_at: i64,
    pub source: String,
    pub model_provider: String,
    pub model: Option<String>,
    pub reasoning_effort: Option<ReasoningEffort>,
    pub cwd: String,
    pub cli_version: String,
    pub title: String,
    pub preview: Option<String>,
    pub tokens_used: i64,
    pub first_user_message: Option<String>,
    pub archived_at: Option<i64>,
    pub git_sha: Option<String>,
    pub git_branch: Option<String>,
    pub git_origin_url: Option<String>,
}

/// A page of listed threads.
#[derive(Debug, Clone, PartialEq, Eq)]
pub struct ThreadsPage {
    pub items: Vec<ThreadMetadata>,
    pub next_anchor: Option<Anchor>,
    pub num_scanned_rows: usize,
}

/// The metadata read from a rollout, with the number of lines that could not be read.
#[derive(Debug, Clone, PartialEq, Eq)]
pub struct ExtractionOutcome {
    pub metadata: ThreadMetadata,
    pub parse_errors: usize,
}

/// Whether `millis` milliseconds since the epoch is a time `chrono` can hold.
pub uninterp spec fn chrono_millis_valid(millis: i64) -> bool;

/// Whether `secs` seconds since the epoch is a time `chrono` can hold.
pub uninterp spec fn chrono_seconds_valid(secs: i64) -> bool;

/// `chrono::DateTime::<Utc>::from_timestamp_millis`, read back in milliseconds.
#[verifier::external_body]
fn datetime_from_millis(millis: i64) -> (r: Option<i64>)
    ensures
        r is Some == chrono_millis_valid(millis),
        r matches Some(m) ==> m == millis,
{
    chrono::DateTime::<chrono::Utc>::from_timestamp_millis(millis).map(|d| d.timestamp_millis())
}

/// `chrono::DateTime::<Utc>::from_timestamp(secs, 0)`, read back in milliseconds.
#[verifier::external_body]
fn datetime_from_seconds(secs: i64) -> (r: Option<i64>)
    ensures
        r is Some == chrono_seconds_valid(secs),
        r matches Some(m) ==> m == secs * 1000,
{
    chrono::DateTime::<chrono::Utc>::from_timestamp(secs, 0).map(|d| d.timestamp_millis())
}

/// The first instant of 2020 in milliseconds: stored times below it are
/// taken to be seconds.
pub const MIN_EPOCH_MILLIS: i64 = 1_577_836_800_000;

/// A stored time in milliseconds: values below `MIN_EPOCH_MILLIS` are
/// seconds, scaled (saturating) to milliseconds.
pub open spec fn stored_millis(value: i64) -> int {
    if value < MIN_EPOCH_MILLIS {
        if value * 1000 < i64::MIN {
            i64::MIN as int
        } else {
            value * 1000
        }
    } else {
        value as int
    }
}

/// Why a stored row could not be read.
#[derive(Debug, Clone, PartialEq, Eq)]
pub enum ThreadMetadataError {
    InvalidThreadId(String),
    InvalidTimestampMillis(i64),
    InvalidTimestampSeconds(i64),
}

impl ThreadMetadataError {
    /// The error's message.
    pub fn message(&self) -> (r: String)
        ensures
            r@ == match *self {
                ThreadMetadataError::InvalidThreadId(id) => "invalid thread id: "@ + id@,
                ThreadMetadataError::InvalidTimestampMillis(v) => "invalid unix timestamp millis: "@
                    + int_text(v as int),
                ThreadMetadataError::InvalidTimestampSeconds(v) => "invalid unix timestamp seconds: "@
                    + int_text(v as int),
            },
    {
        match self {
            ThreadMetadataError::InvalidThreadId(id) => {
                let mut m = String::from_str("invalid thread id: ");
                m.append(id.as_str());
                m
            },
            ThreadMetadataError::InvalidTimestampMillis(v) => {
                let mut m = String::from_str("invalid unix timestamp millis: ");
                m.append(int_to_string(*v).as_str());
                m
            },
            ThreadMetadataError::InvalidTimestampSeconds(v) => {
                let mut m = String::from_str("invalid unix timestamp seconds: ");
                m.append(int_to_string(*v).as_str());
                m
            },
        }
    }
}

/// Reads a stored time: seconds before 2020 are scaled to milliseconds.
pub fn epoch_millis_to_datetime(value: i64) -> (r: Result<i64, ThreadMetadataError>)
    ensures
        chrono_millis_valid(stored_millis(value) as i64) ==> r == Ok::<i64, ThreadMetadataError>(
            stored_millis(value) as i64,
        ),
        !chrono_millis_valid(stored_millis(value) as i64) ==> r == Err::<i64, ThreadMetadataError>(
            ThreadMetadataError::InvalidTimestampMillis(value),
        ),
{
    let millis = if value < MIN_EPOCH_MILLIS {
        if value < -9_223_372_036_854_775 {
            i64::MIN
        } else {
            value * 1000
        }
    } else {
        value
    };
    match datetime_from_millis(millis) {
        Some(m) => Ok(m),
        None => Err(ThreadMetadataError::InvalidTimestampMillis(value)),
    }
}

/// Reads a stored time in seconds.
pub fn epoch_seconds_to_datetime(value: i64) -> (r: Result<i64, ThreadMetadataError>)
    ensures
        chrono_seconds_valid(value) ==> r == Ok::<i64, ThreadMetadataError>((value * 1000) as i64),
        !chrono_seconds_valid(value) ==> r == Err::<i64, ThreadMetadataError>(
            ThreadMetadataError::InvalidTimestampSeconds(value),
        ),
{
    match datetime_from_seconds(value) {
        Some(m) => Ok(m),
        None => Err(ThreadMetadataError::InvalidTimestampSeconds(value)),
    }
}

/// A time as it reads back from the store.
pub open spec fn canonical_time(t: i64) -> i64 {
    if chrono_millis_valid(stored_millis(t) as i64) {
        stored_millis(t) as i64
    } else {
        t
    }
}

/// A time made to read back from the store as it was written.
pub fn canonicalize_datetime(t: i64) -> (r: i64)
    ensures
        r == canonical_time(t),
{
    match epoch_millis_to_datetime(t) {
        Ok(m) => m,
        Err(_) => t,
    }
}

/// The anchor that continues a listing after `item`.
pub fn anchor_from_item(item: &ThreadMetadata, sort_key: SortKey) -> (r: Option<Anchor>)
    ensures
        r == Some(
            Anchor {
                ts_ms: match sort_key {
                    SortKey::CreatedAt => item.created_at,
                    SortKey::UpdatedAt => item.updated_at,
                },
            },
        ),
{
    let ts_ms = match sort_key {
        SortKey::CreatedAt => item.created_at,
        SortKey::UpdatedAt => item.updated_at,
    };
    Some(Anchor { ts_ms })
}

/// The lowercase hexadecimal digit for `n` below 16.
pub open spec fn hex_digit(n: int) -> char {
    "0123456789abcdef"@[n]
}

/// How one character is written inside a JSON string literal: a quote and a
/// backslash are escaped, the controls with a short escape use it, the other
/// characters below U+0020 are written `\u00XX` in lowercase hex, and every
/// other character is written as it is.
pub open spec fn json_escaped_char(c: char) -> Seq<char> {
    if c == '"' {
        seq!['\\', '"']
    } else if c == '\\' {
        seq!['\\', '\\']
    } else if c == '\u{8}' {
        seq!['\\', 'b']
    } else if c == '\t' {
        seq!['\\', 't']
    } else if c == '\n' {
        seq!['\\', 'n']
    } else if c == '\u{c}' {
        seq!['\\', 'f']
    } else if c == '\r' {
        seq!['\\', 'r']
    } else if (c as u32) < 0x20 {
        seq!['\\', 'u', '0', '0', hex_digit((c as int) / 16), hex_digit((c as int) % 16)]
    } else {
        seq![c]
    }
}

/// The characters of a string, each as a JSON string literal writes it.
pub open spec fn json_escaped(s: Seq<char>) -> Seq<char>
    decreases s.len(),
{
    if s.len() == 0 {
        Seq::empty()
    } else {
        json_escaped(s.drop_last()) + json_escaped_char(s.last())
    }
}

/// The JSON string literal that `serde_json` writes for a string: the
/// escaped characters between quotes.
pub open spec fn json_quoted(s: Seq<char>) -> Seq<char> {
    seq!['"'] + json_escaped(s) + seq!['"']
}

/// `serde_json::to_string` of a string, which cannot fail for a string.
#[verifier::external_body]
pub(crate) fn json_string(s: &str) -> (r: String)
    ensures
        r@ == json_quoted(s@),
{
    match serde_json::to_string(s) {
        Ok(t) => t,
        Err(_) => String::new(),
    }
}

/// How a session source is stored: its name, or for a custom source the
/// JSON object that names it.
pub open spec fn source_text(s: SessionSource) -> Seq<char> {
    match s {
        SessionSource::Custom(c) => "{\"custom\":"@ + json_quoted(c@) + "}"@,
        _ => spec_source_name(s),
    }
}

/// The stored text of a session source.
pub fn session_source_to_string(source: &SessionSource) -> (r: String)
    ensures
        r@ == source_text(*source),
{
    match source {
        SessionSource::Custom(c) => {
            let mut r = String::from_str("{\"custom\":");
            r.append(json_string(c.as_str()).as_str());
            r.append("}");
            r
        },
        _ => source.name(),
    }
}

/// What is known of a thread when it is first recorded.
#[derive(Debug, Clone, PartialEq, Eq)]
pub struct ThreadMetadataBuilder {
    pub id: ThreadId,
    pub rollout_path: String,
    pub created_at: i64,
    pub updated_at: Option<i64>,
    pub source: SessionSource,
    pub model_provider: Option<String>,
    pub cwd: String,
    pub cli_version: Option<String>,
    pub archived_at: Option<i64>,
    pub git_sha: Option<String>,
    pub git_branch: Option<String>,
    pub git_origin_url: Option<String>,
}

impl ThreadMetadataBuilder {
    /// A builder with only the identity, path, creation time and source known.
    pub fn new(id: ThreadId, rollout_path: String, created_at: i64, source: SessionSource) -> (r:
        ThreadMetadataBuilder)
        ensures
            r.id == id,
            r.rollout_path == rollout_path,
            r.created_at == created_at,
            r.source == source,
            r.updated_at is None,
            r.model_provider is None,
            r.cwd@.len() == 0,
            r.cli_version is None,
            r.archived_at is None,
            r.git_sha is None,
            r.git_branch is None,
            r.git_origin_url is None,
    {
        ThreadMetadataBuilder {
            id,
            rollout_path,
            created_at,
            updated_at: None,
            source,
            model_provider: None,
            cwd: String::new(),
            cli_version: None,
            archived_at: None,
            git_sha: None,
            git_branch: None,
            git_origin_url: None,
        }
    }

    /// The metadata of the thread; what is unknown takes its default.
    pub fn build(&self, default_provider: &str) -> (r: ThreadMetadata)
        ensures
            r.id == self.id,
            r.rollout_path == self.rollout_path,
            r.created_at == canonical_time(self.created_at),
            r.updated_at == match self.updated_at {
                Some(u) => canonical_time(u),
                None => canonical_time(self.created_at),
            },
            r.source@ == source_text(self.source),
            r.model_provider@ == match self.model_provider {
                Some(p) => p@,
                None => default_provider@,
            },
            r.model is None,
            r.reasoning_effort is None,
            r.cwd == self.cwd,
            r.cli_version@ == match self.cli_version {
                Some(v) => v@,
                None => Seq::<char>::empty(),
            },
            r.title@.len() == 0,
            r.preview is None,
            r.tokens_used == 0,
            r.first_user_message is None,
            r.archived_at == match self.archived_at {
                Some(a) => Some(canonical_time(a)),
                None => None::<i64>,
            },
            r.git_sha == self.git_sha,
            r.git_branch == self.git_branch,
            r.git_origin_url == self.git_origin_url,
    {
        let source = session_source_to_string(&self.source);
        let created_at = canonicalize_datetime(self.created_at);
        let updated_at = match self.updated_at {
            Some(u) => canonicalize_datetime(u),
            None => created_at,
        };
        let model_provider = match &self.model_provider {
            Some(p) => p.clone(),
            None => String::from_str(default_provider),
        };
        let cli_version = match &self.cli_version {
            Some(v) => v.clone(),
            None => String::new(),
        };
        let archived_at = match self.archived_at {
            Some(a) => Some(canonicalize_datetime(a)),
            None => None,
        };
        ThreadMetadata {
            id: self.id.clone(),
            rollout_path: self.rollout_path.clone(),
            created_at,
            updated_at,
            source,
            model_provider,
            model: None,
            reasoning_effort: None,
            cwd: self.cwd.clone(),
            cli_version,
            title: String::new(),
            preview: None,
            tokens_used: 0,
            first_user_message: None,
            archived_at,
            git_sha: clone_opt_string(&self.git_sha),
            git_branch: clone_opt_string(&self.git_branch),
            git_origin_url: clone_opt_string(&self.git_origin_url),
        }
    }
}

/// Whether a title says nothing of its own: it is blank, or it is the first
/// user message (both trimmed).
pub open spec fn title_is_derived(title: Seq<char>, first_user_message: Option<String>) -> bool {
    trim(title).len() == 0 || (first_user_message matches Some(f) && trim(f@) == trim(title))
}

fn opt_trim_equals(v: &Option<String>, t: &String) -> (r: bool)
    ensures
        r == (*v matches Some(f) && trim(f@) == trim(t@)),
{
    match v {
        Some(f) => {
            let a = crate::text::trim_str(f.as_str());
            let b = crate::text::trim_str(t.as_str());
            str_eq(a.as_str(), b.as_str())
        },
        None => false,
    }
}

fn opt_eq_string(a: &Option<String>, b: &Option<String>) -> (r: bool)
    ensures
        r == opt_same(*a, *b),
{
    match (a, b) {
        (None, None) => true,
        (Some(x), Some(y)) => str_eq(x.as_str(), y.as_str()),
        _ => false,
    }
}

/// Whether two optional texts are equal.
pub open spec fn opt_same(a: Option<String>, b: Option<String>) -> bool {
    match (a, b) {
        (None, None) => true,
        (Some(x), Some(y)) => x@ == y@,
        _ => false,
    }
}

fn opt_eq_effort(a: &Option<ReasoningEffort>, b: &Option<ReasoningEffort>) -> (r: bool)
    ensures
        r == (*a == *b),
{
    match (a, b) {
        (None, None) => true,
        (Some(x), Some(y)) => *x == *y,
        _ => false,
    }
}

fn opt_eq_i64(a: &Option<i64>, b: &Option<i64>) -> (r: bool)
    ensures
        r == (*a == *b),
{
    match (a, b) {
        (None, None) => true,
        (Some(x), Some(y)) => *x == *y,
        _ => false,
    }
}

/// The number of fields of a metadata record.
pub const FIELD_COUNT: usize = 18;

/// The name of the `k`-th field, in the order the fields are declared.
pub open spec fn field_name(k: int) -> &'static str {
    if k == 0 { "id" } else if k == 1 { "rollout_path" } else if k == 2 { "created_at" } else if k == 3 {
        "updated_at"
    } else if k == 4 { "source" } else if k == 5 { "model_provider" } else if k == 6 { "model" } else if k
        == 7 { "reasoning_effort" } else if k == 8 { "cwd" } else if k == 9 { "cli_version" } else if k
        == 10 { "title" } else if k == 11 { "preview" } else if k == 12 { "tokens_used" } else if k == 13 {
        "first_user_message"
    } else if k == 14 { "archived_at" } else if k == 15 { "git_sha" } else if k == 16 { "git_branch" } else {
        "git_origin_url"
    }
}

/// Whether two records differ in their `k`-th field.
pub open spec fn field_differs(a: ThreadMetadata, b: ThreadMetadata, k: int) -> bool {
    if k == 0 { a.id.text() != b.id.text() } else if k == 1 { a.rollout_path@ != b.rollout_path@ } else if k
        == 2 { a.created_at != b.created_at } else if k == 3 { a.updated_at != b.updated_at } else if k == 4 {
        a.source@ != b.source@
    } else if k == 5 { a.model_provider@ != b.model_provider@ } else if k == 6 { !opt_same(a.model, b.model) } else if k
        == 7 { a.reasoning_effort != b.reasoning_effort } else if k == 8 { a.cwd@ != b.cwd@ } else if k == 9 {
        a.cli_version@ != b.cli_version@
    } else if k == 10 { a.title@ != b.title@ } else if k == 11 { !opt_same(a.preview, b.preview) } else if k
        == 12 { a.tokens_used != b.tokens_used } else if k == 13 {
        !opt_same(a.first_user_message, b.first_user_message)
    } else if k == 14 { a.archived_at != b.archived_at } else if k == 15 { !opt_same(a.git_sha, b.git_sha) } else if k
        == 16 { !opt_same(a.git_branch, b.git_branch) } else { !opt_same(a.git_origin_url, b.git_origin_url) }
}

/// The names of the first `n` fields in which two records differ, in order.
pub open spec fn diffs_upto(a: ThreadMetadata, b: ThreadMetadata, n: int) -> Seq<&'static str>
    decreases n,
{
    if n <= 0 {
        Seq::empty()
    } else if field_differs(a, b, n - 1) {
        diffs_upto(a, b, n - 1).push(field_name(n - 1))
    } else {
        diffs_upto(a, b, n - 1)
    }
}

/// The names of the fields in which two metadata records differ, in the order
/// the fields are declared.
pub open spec fn field_diffs(a: ThreadMetadata, b: ThreadMetadata) -> Seq<&'static str> {
    diffs_upto(a, b, FIELD_COUNT as int)
}

impl ThreadMetadata {
    /// Keeps the git details already stored wherever they are known.
    pub fn prefer_existing_git_info(&mut self, existing: &ThreadMetadata)
        ensures
            final(self).git_sha == if existing.git_sha is Some {
                existing.git_sha
            } else {
                old(self).git_sha
            },
            final(self).git_branch == if existing.git_branch is Some {
                existing.git_branch
            } else {
                old(self).git_branch
            },
            final(self).git_origin_url == if existing.git_origin_url is Some {
                existing.git_origin_url
            } else {
                old(self).git_origin_url
            },
            *final(self) == (ThreadMetadata {
                git_sha: final(self).git_sha,
                git_branch: final(self).git_branch,
                git_origin_url: final(self).git_origin_url,
                ..*old(self)
            }),
    {
        if existing.git_sha.is_some() {
            self.git_sha = clone_opt_string(&existing.git_sha);
        }
        if existing.git_branch.is_some() {
            self.git_branch = clone_opt_string(&existing.git_branch);
        }
        if existing.git_origin_url.is_some() {
            self.git_origin_url = clone_opt_string(&existing.git_origin_url);
        }
    }

    /// Keeps a title the user gave the thread when reconciling with what a
    /// rollout says: the stored title wins when it says something of its own
    /// and the new one does not.
    pub fn prefer_existing_explicit_title(&mut self, existing: &ThreadMetadata)
        ensures
            *final(self) == (ThreadMetadata {
                title: if !title_is_derived(existing.title@, existing.first_user_message)
                    && title_is_derived(old(self).title@, old(self).first_user_message) {
                    existing.title
                } else {
                    old(self).title
                },
                ..*old(self)
            }),
    {
        let existing_trimmed = crate::text::trim_str(existing.title.as_str());
        if existing_trimmed.unicode_len() == 0 || opt_trim_equals(
            &existing.first_user_message,
            &existing.title,
        ) {
            return;
        }
        let own_trimmed = crate::text::trim_str(self.title.as_str());
        if own_trimmed.unicode_len() == 0 || opt_trim_equals(&self.first_user_message, &self.title) {
            self.title = existing.title.clone();
        }
    }

    fn differs_at(&self, other: &ThreadMetadata, k: usize) -> (r: bool)
        requires
            k < FIELD_COUNT,
        ensures
            r == field_differs(*self, *other, k as int),
    {
        if k == 0 {
            !self.id.same_as(&other.id)
        } else if k == 1 {
            !str_eq(self.rollout_path.as_str(), other.rollout_path.as_str())
        } else if k == 2 {
            self.created_at != other.created_at
        } else if k == 3 {
            self.updated_at != other.updated_at
        } else if k == 4 {
            !str_eq(self.source.as_str(), other.source.as_str())
        } else if k == 5 {
            !str_eq(self.model_provider.as_str(), other.model_provider.as_str())
        } else if k == 6 {
            !opt_eq_string(&self.model, &other.model)
        } else if k == 7 {
            !opt_eq_effort(&self.reasoning_effort, &other.reasoning_effort)
        } else if k == 8 {
            !str_eq(self.cwd.as_str(), other.cwd.as_str())
        } else if k == 9 {
            !str_eq(self.cli_version.as_str(), other.cli_version.as_str())
        } else if k == 10 {
            !str_eq(self.title.as_str(), other.title.as_str())
        } else if k == 11 {
            !opt_eq_string(&self.preview, &other.preview)
        } else if k == 12 {
            self.tokens_used != other.tokens_used
        } else if k == 13 {
            !opt_eq_string(&self.first_user_message, &other.first_user_message)
        } else if k == 14 {
            !opt_eq_i64(&self.archived_at, &other.archived_at)
        } else if k == 15 {
            !opt_eq_string(&self.git_sha, &other.git_sha)
        } else if k == 16 {
            !opt_eq_string(&self.git_branch, &other.git_branch)
        } else {
            !opt_eq_string(&self.git_origin_url, &other.git_origin_url)
        }
    }

    /// The names of the fields in which `self` and `other` differ.
    pub fn diff_fields(&self, other: &ThreadMetadata) -> (r: Vec<&'static str>)
        ensures
            r@ == field_diffs(*self, *other),
    {
        let mut diffs: Vec<&'static str> = Vec::new();
        let mut k: usize = 0;
        while k < FIELD_COUNT
            invariant
                k <= FIELD_COUNT,
                diffs@ == diffs_upto(*self, *other, k as int),
            decreases FIELD_COUNT - k,
        {
            if self.differs_at(other, k) {
                diffs.push(field_name_at(k));
            }
            k = k + 1;
        }
        diffs
    }
}

fn field_name_at(k: usize) -> (r: &'static str)
    ensures
        r == field_name(k as int),
{
    if k == 0 { "id" } else if k == 1 { "rollout_path" } else if k == 2 { "created_at" } else if k == 3 {
        "updated_at"
    } else if k == 4 { "source" } else if k == 5 { "model_provider" } else if k == 6 { "model" } else if k
        == 7 { "reasoning_effort" } else if k == 8 { "cwd" } else if k == 9 { "cli_version" } else if k
        == 10 { "title" } else if k == 11 { "preview" } else if k == 12 { "tokens_used" } else if k == 13 {
        "first_user_message"
    } else if k == 14 { "archived_at" } else if k == 15 { "git_sha" } else if k == 16 { "git_branch" } else {
        "git_origin_url"
    }
}

/// A record comes out the same as itself: no field differs.
pub proof fn law_no_diff_with_itself(m: ThreadMetadata)
    ensures
        field_diffs(m, m).len() == 0,
{
    lemma_no_diffs_upto(m, FIELD_COUNT as int);
}

proof fn lemma_no_diffs_upto(m: ThreadMetadata, n: int)
    ensures
        diffs_upto(m, m, n).len() == 0,
    decreases n,
{
    if n > 0 {
        lemma_no_diffs_upto(m, n - 1);
    }
}

/// A thread's row as the store holds it.
#[derive(Debug, Clone, PartialEq, Eq)]
pub struct ThreadRow {
    pub id: String,
    pub rollout_path: String,
    pub created_at: i64,
    pub updated_at: i64,
    pub source: String,
    pub model_provider: String,
    pub model: Option<String>,
    pub reasoning_effort: Option<String>,
    pub cwd: String,
    pub cli_version: String,
    pub title: String,
    pub preview: String,
    pub tokens_used: i64,
    pub first_user_message: String,
    pub archived_at: Option<i64>,
    pub git_sha: Option<String>,
    pub git_branch: Option<String>,
    pub git_origin_url: Option<String>,
}

/// A text stored as empty when absent.
pub open spec fn non_empty(s: String) -> Option<Seq<char>> {
    if s@.len() == 0 {
        None
    } else {
        Some(s@)
    }
}

/// Whether an optional text reads as the given optional view.
pub open spec fn opt_view(a: Option<String>) -> Option<Seq<char>> {
    match a {
        Some(s) => Some(s@),
        None => None,
    }
}

/// Whether a stored row can be read: its id is a UUID and its times are times.
pub open spec fn row_readable(row: ThreadRow) -> bool {
    &&& uuid_canonical(row.id@) is Some
    &&& chrono_millis_valid(stored_millis(row.created_at) as i64)
    &&& chrono_millis_valid(stored_millis(row.updated_at) as i64)
    &&& (row.archived_at matches Some(a) ==> chrono_seconds_valid(a))
}

/// The first reason, in field order, why a row cannot be read.
pub open spec fn row_error(row: ThreadRow) -> ThreadMetadataError {
    if uuid_canonical(row.id@) is None {
        ThreadMetadataError::InvalidThreadId(row.id)
    } else if !chrono_millis_valid(stored_millis(row.created_at) as i64) {
        ThreadMetadataError::InvalidTimestampMillis(row.created_at)
    } else if !chrono_millis_valid(stored_millis(row.updated_at) as i64) {
        ThreadMetadataError::InvalidTimestampMillis(row.updated_at)
    } else {
        ThreadMetadataError::InvalidTimestampSeconds(row.archived_at.unwrap())
    }
}

impl ThreadMetadata {
    /// Reads a stored row. A reasoning effort that is no known effort is dropped;
    /// empty preview and first message read as absent; the archive time is in seconds.
    pub fn try_from_row(row: ThreadRow) -> (r: Result<ThreadMetadata, ThreadMetadataError>)
        ensures
            !row_readable(row) ==> r == Err::<ThreadMetadata, ThreadMetadataError>(row_error(row)),
            row_readable(row) ==> (r matches Ok(m) && {
                &&& Some(m.id.text()) == uuid_canonical(row.id@)
                &&& m.rollout_path == row.rollout_path
                &&& m.created_at == stored_millis(row.created_at)
                &&& m.updated_at == stored_millis(row.updated_at)
                &&& m.source == row.source
                &&& m.model_provider == row.model_provider
                &&& m.model == row.model
                &&& m.reasoning_effort == match row.reasoning_effort {
                    Some(e) => spec_effort_from_name(e@),
                    None => None::<ReasoningEffort>,
                }
                &&& m.cwd == row.cwd
                &&& m.cli_version == row.cli_version
                &&& m.title == row.title
                &&& opt_view(m.preview) == non_empty(row.preview)
                &&& m.tokens_used == row.tokens_used
                &&& opt_view(m.first_user_message) == non_empty(row.first_user_message)
                &&& m.archived_at == match row.archived_at {
                    Some(a) => Some((a * 1000) as i64),
                    None => None::<i64>,
                }
                &&& m.git_sha == row.git_sha
                &&& m.git_branch == row.git_branch
                &&& m.git_origin_url == row.git_origin_url
            }),
    {
        let ThreadRow {
            id,
            rollout_path,
            created_at,
            updated_at,
            source,
            model_provider,
            model,
            reasoning_effort,
            cwd,
            cli_version,
            title,
            preview,
            tokens_used,
            first_user_message,
            archived_at,
            git_sha,
            git_branch,
            git_origin_url,
        } = row;
        let id = match ThreadId::from_string(id.as_str()) {
            Ok(t) => t,
            Err(_) => return Err(ThreadMetadataError::InvalidThreadId(id)),
        };
        let created_at = match epoch_millis_to_datetime(created_at) {
            Ok(v) => v,
            Err(e) => return Err(e),
        };
        let updated_at = match epoch_millis_to_datetime(updated_at) {
            Ok(v) => v,
            Err(e) => return Err(e),
        };
        let reasoning_effort = match reasoning_effort {
            Some(value) => match ReasoningEffort::parse(value.as_str()) {
                Ok(e) => Some(e),
                Err(_) => None,
            },
            None => None,
        };
        let preview = if preview.unicode_len() == 0 {
            None
        } else {
            Some(preview)
        };
        let first_user_message = if first_user_message.unicode_len() == 0 {
            None
        } else {
            Some(first_user_message)
        };
        let archived_at = match archived_at {
            Some(a) => match epoch_seconds_to_datetime(a) {
                Ok(v) => Some(v),
                Err(e) => return Err(e),
            },
            None => None,
        };
        Ok(ThreadMetadata {
            id,
            rollout_path,
            created_at,
            updated_at,
            source,
            model_provider,
            model,
            reasoning_effort,
            cwd,
            cli_version,
            title,
            preview,
            tokens_used,
            first_user_message,
            archived_at,
            git_sha,
            git_branch,
            git_origin_url,
        })
    }
}


/// Reads a stored row; see `ThreadMetadata::try_from_row`.
impl TryFrom<ThreadRow> for ThreadMetadata {
    type Error = ThreadMetadataError;

    fn try_from(row: ThreadRow) -> (r: Result<ThreadMetadata, ThreadMetadataError>)
        ensures
            !row_readable(row) ==> r == Err::<ThreadMetadata, ThreadMetadataError>(row_error(row)),
            row_readable(row) ==> (r matches Ok(m) && {
                &&& Some(m.id.text()) == uuid_canonical(row.id@)
                &&& m.rollout_path == row.rollout_path
                &&& m.created_at == stored_millis(row.created_at)
                &&& m.updated_at == stored_millis(row.updated_at)
                &&& m.source == row.source
                &&& m.model_provider == row.model_provider
                &&& m.model == row.model
                &&& m.reasoning_effort == match row.reasoning_effort {
                    Some(e) => spec_effort_from_name(e@),
                    None => None::<ReasoningEffort>,
                }
                &&& m.cwd == row.cwd
                &&& m.cli_version == row.cli_version
                &&& m.title == row.title
                &&& opt_view(m.preview) == non_empty(row.preview)
                &&& m.tokens_used == row.tokens_used
                &&& opt_view(m.first_user_message) == non_empty(row.first_user_message)
                &&& m.archived_at == match row.archived_at {
                    Some(a) => Some((a * 1000) as i64),
                    None => None::<i64>,
                }
                &&& m.git_sha == row.git_sha
                &&& m.git_branch == row.git_branch
                &&& m.git_origin_url == row.git_origin_url
            }),
    {
        ThreadMetadata::try_from_row(row)
    }
}

impl vstd::std_specs::convert::TryFromSpecImpl<ThreadRow> for ThreadMetadata {
    open spec fn obeys_try_from_spec() -> bool {
        false
    }

    open spec fn try_from_spec(row: ThreadRow) -> Result<ThreadMetadata, ThreadMetadataError> {
        vstd::pervasive::arbitrary()
    }
}

} // verus!
