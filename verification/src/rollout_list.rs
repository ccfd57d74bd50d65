//! Listing the threads stored as rollout files: the listing's options, the
//! anchor a page resumes from, provider filters, previews, and the date in a
//! rollout file's name.
use vstd::prelude::*;
use crate::extract::{user_preview_and_title, user_response_item_preview_and_title};
use crate::models::ResponseItem;
use crate::text::{
    chars_of, has_prefix, has_suffix, lemma_text_lt_asymmetric, lemma_text_lt_irreflexive,
    lemma_text_lt_total, lemma_text_lt_transitive, str_eq, str_lt, string_from_chars, text_lt,
};
use crate::protocol::{parse_uuid, uuid_canonical, GitInfo, SessionMetaLine, ThreadId};
use crate::rollout::{opt_text, RolloutItem};
use crate::session_source::{same_source, SessionSource};
use crate::user_input::{byte_slice, str_get};

verus! {

/// Which time threads are listed by.
#[derive(Debug, Clone, Copy, PartialEq, Eq, Structural)]
pub enum ThreadSortKey {
    CreatedAt,
    UpdatedAt,
}

/// The order in which threads are listed.
#[derive(Debug, Clone, Copy, PartialEq, Eq, Structural)]
pub enum SortDirection {
    Asc,
    Desc,
}

/// How rollout files are laid out on disk.
#[derive(Debug, Clone, Copy, PartialEq, Eq, Structural)]
pub enum ThreadListLayout {
    NestedByDate,
    Flat,
}

/// The most files one listing scans.
pub const MAX_SCAN_FILES: usize = 10000;

/// The most records read from the head of a rollout file.
pub const HEAD_RECORD_LIMIT: usize = 10;

/// The most records scanned for a user event.
pub const USER_EVENT_SCAN_LIMIT: usize = 200;

/// Where a listing in descending time order resumes: threads are skipped
/// until one comes strictly before the anchor's time. Times are any ordered
/// measure, such as nanoseconds since the epoch.
#[derive(Debug, Clone, Copy, PartialEq, Eq, Structural)]
pub struct AnchorState {
    pub ts: i128,
    pub passed: bool,
}

impl AnchorState {
    /// The state for a listing that resumes after `anchor`, or starts from
    /// the beginning without one.
    pub fn new(anchor: Option<i128>) -> (r: AnchorState)
        ensures
            r == match anchor {
                Some(ts) => AnchorState { ts, passed: false },
                None => AnchorState { ts: 0, passed: true },
            },
    {
        match anchor {
            Some(ts) => AnchorState { ts, passed: false },
            None => AnchorState { ts: 0, passed: true },
        }
    }

    /// Whether the thread at time `ts` is skipped; the anchor is passed at the
    /// first thread strictly before it.
    pub fn should_skip(&mut self, ts: i128) -> (skip: bool)
        ensures
            skip == (!old(self).passed && ts >= old(self).ts),
            final(self).ts == old(self).ts,
            final(self).passed == (old(self).passed || ts < old(self).ts),
    {
        if self.passed {
            return false;
        }
        if ts < self.ts {
            self.passed = true;
            false
        } else {
            true
        }
    }
}

/// A filter on the provider a thread was recorded with.
#[derive(Debug, Clone, PartialEq, Eq)]
pub struct ProviderMatcher {
    pub filters: Vec<String>,
    pub matches_default_provider: bool,
}

/// Whether `p` is one of `filters`.
pub open spec fn listed(filters: Seq<String>, p: Seq<char>) -> bool {
    exists|i: int| 0 <= i < filters.len() && (#[trigger] filters[i])@ == p
}

fn any_equal(filters: &Vec<String>, p: &str) -> (r: bool)
    ensures
        r == listed(filters@, p@),
{
    let mut i: usize = 0;
    while i < filters.len()
        invariant
            i <= filters.len(),
            forall|j: int| 0 <= j < i ==> (#[trigger] filters@[j])@ != p@,
        decreases filters.len() - i,
    {
        if str_eq(filters[i].as_str(), p) {
            return true;
        }
        i = i + 1;
    }
    false
}

impl ProviderMatcher {
    /// A filter on the given providers; none when there are none. Threads
    /// recorded without a provider use the default one.
    pub fn new(filters: Vec<String>, default_provider: &str) -> (r: Option<ProviderMatcher>)
        ensures
            filters@.len() == 0 ==> r is None,
            filters@.len() > 0 ==> (r matches Some(m) && m.filters == filters
                && m.matches_default_provider == listed(filters@, default_provider@)),
    {
        if filters.len() == 0 {
            return None;
        }
        let matches_default_provider = any_equal(&filters, default_provider);
        Some(ProviderMatcher { filters, matches_default_provider })
    }

    /// Whether a thread recorded with `session_provider` passes the filter.
    pub fn matches(&self, session_provider: Option<&str>) -> (r: bool)
        ensures
            r == match session_provider {
                Some(p) => listed(self.filters@, p@),
                None => self.matches_default_provider,
            },
    {
        match session_provider {
            Some(provider) => any_equal(&self.filters, provider),
            None => self.matches_default_provider,
        }
    }
}

/// The preview a history item gives a listed thread.
pub fn response_item_preview(item: &ResponseItem) -> (r: Option<String>)
    ensures
        user_preview_and_title(*item) matches Some(p) ==> (r matches Some(t) && t@ == p.0),
        user_preview_and_title(*item) is None ==> r is None,
{
    match user_response_item_preview_and_title(item) {
        Some((preview, _)) => Some(preview),
        None => None,
    }
}

/// The prefix of every rollout file's name.
pub const ROLLOUT_FILE_PREFIX: &'static str = "rollout-";

/// The year, month and day in a rollout file's name
/// (`rollout-YYYY-MM-DDThh-mm-ss-<id>.jsonl`), taken by byte position.
pub open spec fn date_parts(name: Seq<char>) -> Option<(Seq<char>, Seq<char>, Seq<char>)> {
    if !has_prefix(name, ROLLOUT_FILE_PREFIX@) {
        None
    } else {
        let rest = name.skip(ROLLOUT_FILE_PREFIX@.len() as int);
        match byte_slice(rest, 0, 10) {
            None => None,
            Some(date) => match (byte_slice(date, 0, 4), byte_slice(date, 5, 7), byte_slice(date, 8, 10)) {
                (Some(y), Some(m), Some(d)) => Some((y, m, d)),
                _ => None,
            },
        }
    }
}

/// The year, month and day a rollout file's name carries.
pub fn rollout_date_parts(file_name: &str) -> (r: Option<(String, String, String)>)
    ensures
        date_parts(file_name@) matches Some(p) ==> (r matches Some(q) && q.0@ == p.0 && q.1@ == p.1
            && q.2@ == p.2),
        date_parts(file_name@) is None ==> r is None,
{
    let chars = chars_of(file_name);
    let prefix = chars_of(ROLLOUT_FILE_PREFIX);
    if !crate::text::starts_with_chars(&chars, &prefix) {
        return None;
    }
    let rest = string_from_chars(&chars, prefix.len(), chars.len());
    proof {
        assert(rest@ =~= file_name@.skip(ROLLOUT_FILE_PREFIX@.len() as int));
    }
    let date = match str_get(rest.as_str(), 0, 10) {
        Some(d) => d,
        None => return None,
    };
    let year = match str_get(date, 0, 4) {
        Some(y) => y,
        None => return None,
    };
    let month = match str_get(date, 5, 7) {
        Some(m) => m,
        None => return None,
    };
    let day = match str_get(date, 8, 10) {
        Some(d) => d,
        None => return None,
    };
    Some((String::from_str(year), String::from_str(month), String::from_str(day)))
}

/// The instant, in nanoseconds since the Unix epoch, that `s` denotes as an
/// RFC 3339 date and time.
pub uninterp spec fn rfc3339_instant(s: Seq<char>) -> Option<int>;

/// `time::OffsetDateTime::parse` with the RFC 3339 format, as nanoseconds
/// since the Unix epoch.
#[verifier::external_body]
fn parse_rfc3339_nanos(s: &str) -> (r: Option<i128>)
    ensures
        match r {
            Some(n) => rfc3339_instant(s@) == Some(n as int),
            None => rfc3339_instant(s@) is None,
        },
{
    time::OffsetDateTime::parse(s, &time::format_description::well_known::Rfc3339).ok().map(
        |t| t.unix_timestamp_nanos(),
    )
}

/// The instant, in nanoseconds since the Unix epoch, that `s` denotes when
/// read as a date and time in UTC with the format description `format`.
pub uninterp spec fn formatted_utc_instant(s: Seq<char>, format: Seq<char>) -> Option<int>;

/// `time::PrimitiveDateTime::parse` with a format description (version 1 of
/// its syntax), taken to be in UTC, as nanoseconds since the Unix epoch.
#[verifier::external_body]
fn parse_utc_with_format(s: &str, format: &str) -> (r: Option<i128>)
    ensures
        match r {
            Some(n) => formatted_utc_instant(s@, format@) == Some(n as int),
            None => formatted_utc_instant(s@, format@) is None,
        },
{
    let items = time::format_description::parse_borrowed::<1>(format).ok()?;
    time::PrimitiveDateTime::parse(s, &items[..]).ok().map(|p| p.assume_utc().unix_timestamp_nanos())
}

/// The RFC 3339 text of the instant `nanos` nanoseconds after the Unix epoch.
pub uninterp spec fn rfc3339_text(nanos: int) -> Option<Seq<char>>;

/// `time::OffsetDateTime::format` with the RFC 3339 format, of an instant in
/// UTC given in nanoseconds since the Unix epoch.
#[verifier::external_body]
fn format_rfc3339_nanos(nanos: i128) -> (r: Option<String>)
    ensures
        match r {
            Some(t) => rfc3339_text(nanos as int) == Some(t@),
            None => rfc3339_text(nanos as int) is None,
        },
{
    time::OffsetDateTime::from_unix_timestamp_nanos(nanos).ok().and_then(
        |t| t.format(&time::format_description::well_known::Rfc3339).ok(),
    )
}

/// The RFC 3339 text of a time given in nanoseconds since the Unix epoch.
pub fn format_rfc3339(nanos: i128) -> (r: Option<String>)
    ensures
        match rfc3339_text(nanos as int) {
            Some(t) => r matches Some(s) && s@ == t,
            None => r is None,
        },
{
    format_rfc3339_nanos(nanos)
}

/// How the time in a rollout file's name is written.
pub const FILE_TIMESTAMP_FORMAT: &'static str = "[year]-[month]-[day]T[hour]-[minute]-[second]";

/// The suffix of every rollout file's name.
pub const ROLLOUT_FILE_SUFFIX: &'static str = ".jsonl";

/// Where a listing resumes: a time, in nanoseconds since the Unix epoch.
#[derive(Debug, Clone, Copy, PartialEq, Eq, Structural)]
pub struct Cursor {
    pub ts: i128,
}

impl Cursor {
    /// The time the cursor points at.
    pub fn timestamp(&self) -> (r: i128)
        ensures
            r == self.ts,
    {
        self.ts
    }
}

/// Whether `s` holds the character `c`.
pub open spec fn has_char(s: Seq<char>, c: char) -> bool {
    exists|i: int| 0 <= i < s.len() && s[i] == c
}

/// The time a cursor token denotes: an RFC 3339 time, or a time written as in
/// a rollout file's name; tokens with a `|` are refused.
pub open spec fn spec_cursor_time(token: Seq<char>) -> Option<int> {
    if has_char(token, '|') {
        None
    } else {
        match rfc3339_instant(token) {
            Some(n) => Some(n),
            None => formatted_utc_instant(token, FILE_TIMESTAMP_FORMAT@),
        }
    }
}

fn contains_char(s: &str, c: char) -> (r: bool)
    ensures
        r == has_char(s@, c),
{
    let v = chars_of(s);
    let mut i: usize = 0;
    while i < v.len()
        invariant
            i <= v.len(),
            v@ == s@,
            forall|j: int| 0 <= j < i ==> v@[j] != c,
        decreases v.len() - i,
    {
        if v[i] == c {
            return true;
        }
        i = i + 1;
    }
    false
}

/// Reads a cursor token.
pub fn parse_cursor(token: &str) -> (r: Option<Cursor>)
    ensures
        match spec_cursor_time(token@) {
            Some(n) => r matches Some(c) && c.ts == n,
            None => r is None,
        },
{
    if contains_char(token, '|') {
        return None;
    }
    let ts = match parse_rfc3339_nanos(token) {
        Some(n) => n,
        None => match parse_utc_with_format(token, FILE_TIMESTAMP_FORMAT) {
            Some(n) => n,
            None => return None,
        },
    };
    Some(Cursor { ts })
}

/// The last position `i < j` of a `-` in `core` after which a UUID follows.
pub open spec fn uuid_split(core: Seq<char>, j: int) -> Option<int>
    decreases j,
{
    if j <= 0 || j > core.len() {
        None
    } else if core[j - 1] == '-' && uuid_canonical(core.skip(j)) is Some {
        Some(j - 1)
    } else {
        uuid_split(core, j - 1)
    }
}

/// The part of a rollout file's name between its prefix and its suffix.
pub open spec fn name_core(name: Seq<char>) -> Option<Seq<char>> {
    if has_prefix(name, ROLLOUT_FILE_PREFIX@) && has_suffix(
        name.skip(ROLLOUT_FILE_PREFIX@.len() as int),
        ROLLOUT_FILE_SUFFIX@,
    ) {
        let rest = name.skip(ROLLOUT_FILE_PREFIX@.len() as int);
        Some(rest.take(rest.len() - ROLLOUT_FILE_SUFFIX@.len()))
    } else {
        None
    }
}

/// The time and the canonical UUID in a rollout file's name
/// (`rollout-<time>-<uuid>.jsonl`); the UUID is the longest tail after a `-`
/// that is one.
pub open spec fn spec_timestamp_uuid(name: Seq<char>) -> Option<(int, Seq<char>)> {
    match name_core(name) {
        None => None,
        Some(core) => match uuid_split(core, core.len() as int) {
            None => None,
            Some(i) => match formatted_utc_instant(core.take(i), FILE_TIMESTAMP_FORMAT@) {
                None => None,
                Some(ts) => Some((ts, uuid_canonical(core.skip(i + 1))->0)),
            },
        },
    }
}

/// The time and UUID in a rollout file's name.
pub fn parse_timestamp_uuid_from_filename(name: &str) -> (r: Option<(i128, String)>)
    ensures
        match spec_timestamp_uuid(name@) {
            Some((ts, id)) => r matches Some(p) && p.0 == ts && p.1@ == id,
            None => r is None,
        },
{
    let chars = chars_of(name);
    let prefix = chars_of(ROLLOUT_FILE_PREFIX);
    let suffix = chars_of(ROLLOUT_FILE_SUFFIX);
    if !crate::text::starts_with_chars(&chars, &prefix) {
        return None;
    }
    let rest = string_from_chars(&chars, prefix.len(), chars.len());
    let rest_chars = chars_of(rest.as_str());
    proof {
        assert(rest@ =~= name@.skip(ROLLOUT_FILE_PREFIX@.len() as int));
    }
    if !crate::text::ends_with_chars(&rest_chars, &suffix) {
        return None;
    }
    let core_len = rest_chars.len() - suffix.len();
    let core = string_from_chars(&rest_chars, 0, core_len);
    let core_chars = chars_of(core.as_str());
    proof {
        assert(core@ =~= rest@.take(rest@.len() - ROLLOUT_FILE_SUFFIX@.len()));
        assert(name_core(name@) == Some(core@));
    }
    let mut j: usize = core_chars.len();
    while j > 0
        invariant
            j <= core_chars.len(),
            core_chars@ == core@,
            name_core(name@) == Some(core@),
            uuid_split(core@, core@.len() as int) == uuid_split(core@, j as int),
        decreases j,
    {
        if core_chars[j - 1] == '-' {
            let tail = string_from_chars(&core_chars, j, core_chars.len());
            proof {
                assert(tail@ =~= core@.skip(j as int));
            }
            match parse_uuid(tail.as_str()) {
                Some(id) => {
                    let head = string_from_chars(&core_chars, 0, j - 1);
                    proof {
                        assert(head@ =~= core@.take(j - 1));
                    }
                    return match parse_utc_with_format(head.as_str(), FILE_TIMESTAMP_FORMAT) {
                        Some(ts) => Some((ts, id)),
                        None => None,
                    };
                },
                None => {},
            }
        }
        j = j - 1;
    }
    None
}

/// What the head of a rollout file says about its thread.
#[derive(Debug, PartialEq, Eq)]
pub struct HeadTailSummary {
    pub saw_session_meta: bool,
    pub thread_id: Option<ThreadId>,
    pub first_user_message: Option<String>,
    pub preview: Option<String>,
    pub cwd: Option<String>,
    pub git_branch: Option<String>,
    pub git_sha: Option<String>,
    pub git_origin_url: Option<String>,
    pub source: Option<SessionSource>,
    pub model_provider: Option<String>,
    pub cli_version: Option<String>,
    pub created_at: Option<String>,
    pub updated_at: Option<String>,
}

/// Nothing read yet.
pub open spec fn empty_summary() -> HeadTailSummary {
    HeadTailSummary {
        saw_session_meta: false,
        thread_id: None,
        first_user_message: None,
        preview: None,
        cwd: None,
        git_branch: None,
        git_sha: None,
        git_origin_url: None,
        source: None,
        model_provider: None,
        cli_version: None,
        created_at: None,
        updated_at: None,
    }
}

impl Default for HeadTailSummary {
    fn default() -> (r: HeadTailSummary)
        ensures
            r == empty_summary(),
    {
        HeadTailSummary {
            saw_session_meta: false,
            thread_id: None,
            first_user_message: None,
            preview: None,
            cwd: None,
            git_branch: None,
            git_sha: None,
            git_origin_url: None,
            source: None,
            model_provider: None,
            cli_version: None,
            created_at: None,
            updated_at: None,
        }
    }
}

/// The commit hash of the git state, if any.
pub open spec fn git_sha_of(git: Option<GitInfo>) -> Option<String> {
    match git {
        Some(g) => match g.commit_hash {
            Some(h) => Some(h.0),
            None => None,
        },
        None => None,
    }
}

/// The summary after the session metadata line, taken only from the first one.
pub open spec fn with_session_meta(s: HeadTailSummary, line: SessionMetaLine) -> HeadTailSummary {
    if s.saw_session_meta {
        s
    } else {
        HeadTailSummary {
            source: Some(line.meta.source),
            model_provider: line.meta.model_provider,
            thread_id: Some(line.meta.id),
            cwd: Some(line.meta.cwd),
            git_branch: match line.git {
                Some(g) => g.branch,
                None => None,
            },
            git_sha: git_sha_of(line.git),
            git_origin_url: match line.git {
                Some(g) => g.repository_url,
                None => None,
            },
            cli_version: Some(line.meta.cli_version),
            created_at: Some(line.meta.timestamp),
            saw_session_meta: true,
            ..s
        }
    }
}

/// The preview text a history item offers, if any.
pub open spec fn preview_text(item: ResponseItem) -> Option<Seq<char>> {
    match user_preview_and_title(item) {
        Some(p) => Some(p.0),
        None => None,
    }
}

/// Whether `after` is the summary `before` becomes once it reads a history
/// item recorded at `timestamp`: the creation time defaults to the line's
/// time, and the first preview offered fills the preview and the first
/// message where they are still empty.
pub open spec fn with_history_item(
    before: HeadTailSummary,
    timestamp: String,
    item: ResponseItem,
    after: HeadTailSummary,
) -> bool {
    &&& after.created_at == match before.created_at {
        Some(c) => Some(c),
        None => Some(timestamp),
    }
    &&& (before.preview is Some ==> after.preview == before.preview)
    &&& (before.preview is None ==> opt_text(after.preview) == preview_text(item))
    &&& (before.first_user_message is Some ==> after.first_user_message == before.first_user_message)
    &&& (before.first_user_message is None ==> opt_text(after.first_user_message) == preview_text(item))
    &&& after.saw_session_meta == before.saw_session_meta
    &&& after.thread_id == before.thread_id
    &&& after.cwd == before.cwd
    &&& after.git_branch == before.git_branch
    &&& after.git_sha == before.git_sha
    &&& after.git_origin_url == before.git_origin_url
    &&& after.source == before.source
    &&& after.model_provider == before.model_provider
    &&& after.cli_version == before.cli_version
    &&& after.updated_at == before.updated_at
}

/// Whether `after` is the summary `before` becomes once it reads a rollout
/// line recorded at `timestamp` holding `item`.
pub open spec fn absorbed(
    before: HeadTailSummary,
    timestamp: String,
    item: RolloutItem,
    after: HeadTailSummary,
) -> bool {
    match item {
        RolloutItem::SessionMeta(line) => after == with_session_meta(before, line),
        RolloutItem::ResponseItem(r) => with_history_item(before, timestamp, r, after),
        _ => after == before,
    }
}

fn clone_opt(v: &Option<String>) -> (r: Option<String>)
    ensures
        r == *v,
{
    crate::text::clone_opt_string(v)
}

impl HeadTailSummary {
    /// Takes in one rollout line recorded at `timestamp`.
    pub fn absorb_line(&mut self, timestamp: &String, item: &RolloutItem)
        ensures
            absorbed(*old(self), *timestamp, *item, *final(self)),
    {
        match item {
            RolloutItem::SessionMeta(line) => {
                if !self.saw_session_meta {
                    self.source = Some(line.meta.source.clone());
                    self.model_provider = clone_opt(&line.meta.model_provider);
                    self.thread_id = Some(line.meta.id.clone());
                    self.cwd = Some(line.meta.cwd.clone());
                    self.git_branch = match &line.git {
                        Some(g) => clone_opt(&g.branch),
                        None => None,
                    };
                    self.git_sha = match &line.git {
                        Some(g) => match &g.commit_hash {
                            Some(h) => Some(h.0.clone()),
                            None => None,
                        },
                        None => None,
                    };
                    self.git_origin_url = match &line.git {
                        Some(g) => clone_opt(&g.repository_url),
                        None => None,
                    };
                    self.cli_version = Some(line.meta.cli_version.clone());
                    self.created_at = Some(line.meta.timestamp.clone());
                    self.saw_session_meta = true;
                }
            },
            RolloutItem::ResponseItem(r) => {
                if self.created_at.is_none() {
                    self.created_at = Some(timestamp.clone());
                }
                match response_item_preview(r) {
                    Some(preview) => {
                        if self.preview.is_none() {
                            self.preview = Some(preview.clone());
                        }
                        if self.first_user_message.is_none() {
                            self.first_user_message = Some(preview);
                        }
                    },
                    None => {},
                }
            },
            _ => {},
        }
    }

    /// Whether the summary has all it looks for: the session metadata, a
    /// preview and a first message.
    pub fn is_complete(&self) -> (r: bool)
        ensures
            r == (self.saw_session_meta && self.preview is Some && self.first_user_message is Some),
    {
        self.saw_session_meta && self.preview.is_some() && self.first_user_message.is_some()
    }

    /// Whether another line is read after `lines_scanned` non-blank ones: the
    /// first `head_limit` always, then, once the session metadata was seen but
    /// a preview or first message is still missing, up to
    /// `USER_EVENT_SCAN_LIMIT` more.
    pub fn wants_more_lines(&self, lines_scanned: usize, head_limit: usize) -> (r: bool)
        ensures
            r == (lines_scanned < head_limit || (self.saw_session_meta && (self.preview is None
                || self.first_user_message is None) && lines_scanned < head_limit
                + USER_EVENT_SCAN_LIMIT)),
    {
        if lines_scanned < head_limit {
            return true;
        }
        self.saw_session_meta && (self.preview.is_none() || self.first_user_message.is_none())
            && lines_scanned - head_limit < USER_EVENT_SCAN_LIMIT
    }
}

/// A thread as a listing shows it.
#[derive(Debug, PartialEq, Eq)]
pub struct ThreadItem {
    pub path: String,
    pub thread_id: Option<ThreadId>,
    pub first_user_message: Option<String>,
    pub preview: Option<String>,
    pub cwd: Option<String>,
    pub git_branch: Option<String>,
    pub git_sha: Option<String>,
    pub git_origin_url: Option<String>,
    pub source: Option<SessionSource>,
    pub model_provider: Option<String>,
    pub cli_version: Option<String>,
    pub created_at: Option<String>,
    pub updated_at: Option<String>,
}

/// Whether `s` is one of `allowed`.
pub open spec fn source_allowed(allowed: Seq<SessionSource>, s: SessionSource) -> bool {
    exists|i: int| 0 <= i < allowed.len() && same_source(#[trigger] allowed[i], s)
}

/// Whether a thread with this summary passes the filters on its source and
/// provider; `cwd_matches` says whether it passes the filter on its directory.
pub open spec fn passes_filters(
    summary: HeadTailSummary,
    allowed_sources: Seq<SessionSource>,
    provider_matcher: Option<ProviderMatcher>,
    cwd_matches: bool,
) -> bool {
    &&& (allowed_sources.len() == 0 || (summary.source matches Some(s) && source_allowed(
        allowed_sources,
        s,
    )))
    &&& match provider_matcher {
        Some(m) => match summary.model_provider {
            Some(p) => listed(m.filters@, p@),
            None => m.matches_default_provider,
        },
        None => true,
    }
    &&& cwd_matches
}

fn any_source(allowed: &Vec<SessionSource>, s: &SessionSource) -> (r: bool)
    ensures
        r == source_allowed(allowed@, *s),
{
    let mut i: usize = 0;
    while i < allowed.len()
        invariant
            i <= allowed.len(),
            forall|j: int| 0 <= j < i ==> !same_source(#[trigger] allowed@[j], *s),
        decreases allowed.len() - i,
    {
        if allowed[i].same_as(s) {
            return true;
        }
        i = i + 1;
    }
    false
}

/// The listed thread a rollout file makes: none when it fails a filter or
/// lacks the session metadata or a preview. The update time is the summary's,
/// else `updated_at`, else the creation time.
pub fn thread_item_from_summary(
    path: String,
    summary: HeadTailSummary,
    allowed_sources: &Vec<SessionSource>,
    provider_matcher: Option<&ProviderMatcher>,
    cwd_matches: bool,
    updated_at: Option<String>,
) -> (r: Option<ThreadItem>)
    ensures
        !passes_filters(
            summary,
            allowed_sources@,
            match provider_matcher {
                Some(m) => Some(*m),
                None => None,
            },
            cwd_matches,
        ) ==> r is None,
        passes_filters(
            summary,
            allowed_sources@,
            match provider_matcher {
                Some(m) => Some(*m),
                None => None,
            },
            cwd_matches,
        ) ==> if summary.saw_session_meta && summary.preview is Some {
            r == Some(
                ThreadItem {
                    path,
                    thread_id: summary.thread_id,
                    first_user_message: summary.first_user_message,
                    preview: summary.preview,
                    cwd: summary.cwd,
                    git_branch: summary.git_branch,
                    git_sha: summary.git_sha,
                    git_origin_url: summary.git_origin_url,
                    source: summary.source,
                    model_provider: summary.model_provider,
                    cli_version: summary.cli_version,
                    created_at: summary.created_at,
                    updated_at: match summary.updated_at {
                        Some(u) => Some(u),
                        None => match updated_at {
                            Some(u) => Some(u),
                            None => summary.created_at,
                        },
                    },
                },
            )
        } else {
            r is None
        },
{
    if allowed_sources.len() > 0 {
        let ok = match &summary.source {
            Some(s) => any_source(allowed_sources, s),
            None => false,
        };
        if !ok {
            return None;
        }
    }
    match provider_matcher {
        Some(m) => {
            let provider = match &summary.model_provider {
                Some(p) => Some(p.as_str()),
                None => None,
            };
            if !m.matches(provider) {
                return None;
            }
        },
        None => {},
    }
    if !cwd_matches {
        return None;
    }
    if !(summary.saw_session_meta && summary.preview.is_some()) {
        return None;
    }
    let HeadTailSummary {
        thread_id,
        first_user_message,
        preview,
        cwd,
        git_branch,
        git_sha,
        git_origin_url,
        source,
        model_provider,
        cli_version,
        created_at,
        updated_at: summary_updated_at,
        ..
    } = summary;
    let updated = match summary_updated_at {
        Some(u) => Some(u),
        None => match updated_at {
            Some(u) => Some(u),
            None => clone_opt(&created_at),
        },
    };
    Some(
        ThreadItem {
            path,
            thread_id,
            first_user_message,
            preview,
            cwd,
            git_branch,
            git_sha,
            git_origin_url,
            source,
            model_provider,
            cli_version,
            created_at,
            updated_at: updated,
        },
    )
}

/// What a listing does with the next rollout file it meets.
#[derive(Debug, Clone, Copy, PartialEq, Eq, Structural)]
pub enum VisitStep {
    /// The page is done and more threads remain.
    StopWithMore,
    /// The file comes before the resume point; go on.
    Skip,
    /// Read the file and list its thread if it qualifies.
    Build,
}

/// The step for a file met while walking the dated directories in creation
/// order, as the `scanned`-th file: once the scan cap is reached with a full
/// page, or when the page is full after the resume point, the page is done.
pub fn created_visit_step(
    scanned: usize,
    items_len: usize,
    page_size: usize,
    anchor: &mut AnchorState,
    ts: i128,
) -> (r: VisitStep)
    ensures
        scanned >= MAX_SCAN_FILES && items_len >= page_size ==> r is StopWithMore && *final(anchor)
            == *old(anchor),
        !(scanned >= MAX_SCAN_FILES && items_len >= page_size) ==> {
            let skip = !old(anchor).passed && ts >= old(anchor).ts;
            &&& final(anchor).ts == old(anchor).ts
            &&& final(anchor).passed == (old(anchor).passed || ts < old(anchor).ts)
            &&& r == if skip {
                VisitStep::Skip
            } else if items_len == page_size {
                VisitStep::StopWithMore
            } else {
                VisitStep::Build
            }
        },
{
    if scanned >= MAX_SCAN_FILES && items_len >= page_size {
        return VisitStep::StopWithMore;
    }
    candidate_step(items_len, page_size, anchor, ts)
}

/// The step for a candidate in a listing ordered ahead of time: skipped until
/// the resume point is passed, then listed until the page is full.
pub fn candidate_step(items_len: usize, page_size: usize, anchor: &mut AnchorState, ts: i128) -> (r:
    VisitStep)
    ensures
        final(anchor).ts == old(anchor).ts,
        final(anchor).passed == (old(anchor).passed || ts < old(anchor).ts),
        r == if !old(anchor).passed && ts >= old(anchor).ts {
            VisitStep::Skip
        } else if items_len == page_size {
            VisitStep::StopWithMore
        } else {
            VisitStep::Build
        },
{
    if anchor.should_skip(ts) {
        return VisitStep::Skip;
    }
    if items_len == page_size {
        VisitStep::StopWithMore
    } else {
        VisitStep::Build
    }
}

/// The final component of a path (`Path::file_name`), if it has one.
pub uninterp spec fn file_name_of(path: Seq<char>) -> Option<Seq<char>>;

/// `Path::file_name`, as text.
#[verifier::external_body]
fn path_file_name(path: &str) -> (r: Option<String>)
    ensures
        match r {
            Some(n) => file_name_of(path@) == Some(n@),
            None => file_name_of(path@) is None,
        },
{
    std::path::Path::new(path).file_name().map(|n| n.to_string_lossy().into_owned())
}

/// The cursor after a page: the creation time in the last thread's file name,
/// or its update time, by the order of the listing.
pub open spec fn spec_next_cursor(items: Seq<ThreadItem>, sort_key: ThreadSortKey) -> Option<int> {
    if items.len() == 0 {
        None
    } else {
        let last = items.last();
        match file_name_of(last.path@) {
            None => None,
            Some(name) => match spec_timestamp_uuid(name) {
                None => None,
                Some((created, _)) => match sort_key {
                    ThreadSortKey::CreatedAt => Some(created),
                    ThreadSortKey::UpdatedAt => match last.updated_at {
                        Some(u) => rfc3339_instant(u@),
                        None => None,
                    },
                },
            },
        }
    }
}

/// The cursor that resumes after a page.
pub fn build_next_cursor(items: &Vec<ThreadItem>, sort_key: ThreadSortKey) -> (r: Option<Cursor>)
    ensures
        match spec_next_cursor(items@, sort_key) {
            Some(n) => r matches Some(c) && c.ts == n,
            None => r is None,
        },
{
    if items.len() == 0 {
        return None;
    }
    let last = &items[items.len() - 1];
    let name = match path_file_name(last.path.as_str()) {
        Some(n) => n,
        None => return None,
    };
    let created = match parse_timestamp_uuid_from_filename(name.as_str()) {
        Some((ts, _)) => ts,
        None => return None,
    };
    let ts = match sort_key {
        ThreadSortKey::CreatedAt => created,
        ThreadSortKey::UpdatedAt => {
            let updated = match &last.updated_at {
                Some(u) => u,
                None => return None,
            };
            match parse_rfc3339_nanos(updated.as_str()) {
                Some(n) => n,
                None => return None,
            }
        },
    };
    Some(Cursor { ts })
}

/// A page of listed threads.
#[derive(Debug, PartialEq, Eq)]
pub struct ThreadsPage {
    pub items: Vec<ThreadItem>,
    pub next_cursor: Option<Cursor>,
    pub num_scanned_files: usize,
    pub reached_scan_cap: bool,
}

/// Closes a page: the scan cap counts as reached at `MAX_SCAN_FILES` files,
/// in which case a non-empty page says more may follow; a cursor is given
/// exactly when more may follow.
pub fn finish_page(
    items: Vec<ThreadItem>,
    scanned_files: usize,
    more_matches_available: bool,
    sort_key: ThreadSortKey,
) -> (r: ThreadsPage)
    ensures
        r.items@ == items@,
        r.num_scanned_files == scanned_files,
        r.reached_scan_cap == (scanned_files >= MAX_SCAN_FILES),
        ({
            let more = more_matches_available || (scanned_files >= MAX_SCAN_FILES && items@.len() > 0);
            &&& !more ==> r.next_cursor is None
            &&& more ==> match spec_next_cursor(items@, sort_key) {
                Some(n) => r.next_cursor matches Some(c) && c.ts == n,
                None => r.next_cursor is None,
            }
        }),
{
    let reached_scan_cap = scanned_files >= MAX_SCAN_FILES;
    let more = more_matches_available || (reached_scan_cap && items.len() > 0);
    let next_cursor = if more {
        build_next_cursor(&items, sort_key)
    } else {
        None
    };
    ThreadsPage { items, next_cursor, num_scanned_files: scanned_files, reached_scan_cap }
}

/// A rollout file to list by its update time.
#[derive(Debug, PartialEq, Eq)]
pub struct ThreadCandidate {
    pub path: String,
    /// The thread's UUID in canonical form.
    pub id: String,
    /// When the file was last modified, in nanoseconds since the Unix epoch.
    pub updated_at: Option<i128>,
}

/// The time a candidate is ordered by: its update time, or the epoch.
pub open spec fn candidate_time(c: ThreadCandidate) -> i128 {
    match c.updated_at {
        Some(t) => t,
        None => 0,
    }
}

/// Whether `a` is listed strictly before `b`: more recently updated first,
/// then the greater UUID first. Canonical UUIDs have fixed-width lowercase
/// hex digits, so their text orders as their bytes do.
pub open spec fn listed_before(a: ThreadCandidate, b: ThreadCandidate) -> bool {
    candidate_time(a) > candidate_time(b) || (candidate_time(a) == candidate_time(b) && text_lt(
        b.id@,
        a.id@,
    ))
}

/// Whether no candidate of `s` is listed strictly before an earlier one.
pub open spec fn listing_ordered(s: Seq<ThreadCandidate>) -> bool {
    forall|i: int, j: int| 0 <= i < j < s.len() ==> !listed_before(s[j], s[i])
}

proof fn lemma_listed_before_transitive(a: ThreadCandidate, b: ThreadCandidate, c: ThreadCandidate)
    requires
        listed_before(a, b),
        listed_before(b, c),
    ensures
        listed_before(a, c),
{
    if candidate_time(a) == candidate_time(b) && candidate_time(b) == candidate_time(c) {
        lemma_text_lt_transitive(c.id@, b.id@, a.id@);
    }
}

proof fn lemma_listed_before_asymmetric(a: ThreadCandidate, b: ThreadCandidate)
    requires
        listed_before(a, b),
    ensures
        !listed_before(b, a),
{
    if candidate_time(a) == candidate_time(b) {
        lemma_text_lt_asymmetric(b.id@, a.id@);
    }
}

fn before(a: &ThreadCandidate, b: &ThreadCandidate) -> (r: bool)
    ensures
        r == listed_before(*a, *b),
{
    let ta: i128 = match a.updated_at {
        Some(t) => t,
        None => 0,
    };
    let tb: i128 = match b.updated_at {
        Some(t) => t,
        None => 0,
    };
    ta > tb || (ta == tb && str_lt(b.id.as_str(), a.id.as_str()))
}

/// The candidates in listing order: most recently updated first, then the
/// greater UUID first.
pub fn sort_candidates(candidates: Vec<ThreadCandidate>) -> (r: Vec<ThreadCandidate>)
    ensures
        r@.to_multiset() == candidates@.to_multiset(),
        listing_ordered(r@),
{
    broadcast use vstd::seq_lib::to_multiset_insert;

    let ghost all = candidates@;
    let mut out: Vec<ThreadCandidate> = Vec::new();
    proof {
        assert(all.take(0) =~= out@);
    }
    for c in it: candidates
        invariant
            all == it.seq(),
            out@.to_multiset() == all.take(it.index() as int).to_multiset(),
            listing_ordered(out@),
    {
        let ghost i = it.index();
        let mut k: usize = 0;
        while k < out.len() && !before(&c, &out[k])
            invariant
                k <= out.len(),
                listing_ordered(out@),
                forall|m: int| 0 <= m < k ==> !listed_before(c, #[trigger] out@[m]),
            decreases out.len() - k,
        {
            k = k + 1;
        }
        let ghost old_out = out@;
        out.insert(k, c);
        proof {
            assert(out@ == old_out.insert(k as int, c));
            assert(all.take(i + 1) =~= all.take(i as int).push(c));
            vstd::seq_lib::to_multiset_build(all.take(i as int), c);
            vstd::seq_lib::to_multiset_insert(old_out, k as int, c);
            assert(out@.to_multiset() == all.take(i + 1).to_multiset());
            assert forall|a: int, b: int| 0 <= a < b < out@.len() implies !listed_before(
                out@[b],
                out@[a],
            ) by {
                if b < k {
                    assert(out@[a] == old_out[a] && out@[b] == old_out[b]);
                } else if b == k {
                    assert(out@[a] == old_out[a]);
                } else if a == k {
                    assert(out@[b] == old_out[b - 1]);
                    if listed_before(old_out[b - 1], c) {
                        assert(k < old_out.len());
                        assert(listed_before(c, old_out[k as int]));
                        if b - 1 > k {
                            lemma_listed_before_transitive(old_out[b - 1], c, old_out[k as int]);
                        } else {
                            lemma_listed_before_asymmetric(c, old_out[k as int]);
                        }
                    }
                } else if a < k {
                    assert(out@[a] == old_out[a] && out@[b] == old_out[b - 1]);
                } else {
                    assert(out@[a] == old_out[a - 1] && out@[b] == old_out[b - 1]);
                }
            }
        }
    }
    proof {
        assert(all.take(all.len() as int) =~= all);
    }
    out
}

/// Which of the files met at times `ts`, in order, an anchor skips, starting
/// from the given state.
pub open spec fn skipped_files(state: AnchorState, ts: Seq<i128>) -> Seq<bool>
    decreases ts.len(),
{
    if ts.len() == 0 {
        Seq::empty()
    } else {
        let skip = !state.passed && ts[0] >= state.ts;
        let next = AnchorState { ts: state.ts, passed: state.passed || ts[0] < state.ts };
        seq![skip] + skipped_files(next, ts.drop_first())
    }
}

/// A listing resumed from a cursor skips exactly the files met before the
/// first one strictly older than the cursor's time, and nothing after it.
pub proof fn law_resume_skips_leading_files(cursor_ts: i128, ts: Seq<i128>, i: int)
    requires
        0 <= i < ts.len(),
    ensures
        skipped_files(AnchorState { ts: cursor_ts, passed: false }, ts).len() == ts.len(),
        skipped_files(AnchorState { ts: cursor_ts, passed: false }, ts)[i] == forall|j: int|
            0 <= j <= i ==> #[trigger] ts[j] >= cursor_ts,
    decreases ts.len(),
{
    lemma_skipped_files_len(AnchorState { ts: cursor_ts, passed: false }, ts);
    let flags = skipped_files(AnchorState { ts: cursor_ts, passed: false }, ts);
    if ts[0] < cursor_ts {
        lemma_passed_skips_nothing(cursor_ts, ts.drop_first());
        if i > 0 {
            assert(flags[i] == skipped_files(AnchorState { ts: cursor_ts, passed: true }, ts.drop_first())[i
                - 1]);
        }
        assert(!(ts[0] >= cursor_ts));
    } else if i > 0 {
        law_resume_skips_leading_files(cursor_ts, ts.drop_first(), i - 1);
        assert(flags[i] == skipped_files(AnchorState { ts: cursor_ts, passed: false }, ts.drop_first())[i
            - 1]);
        assert((forall|j: int| 0 <= j <= i - 1 ==> #[trigger] ts.drop_first()[j] >= cursor_ts) == (
        forall|j: int| 0 <= j <= i ==> #[trigger] ts[j] >= cursor_ts)) by {
            if forall|j: int| 0 <= j <= i - 1 ==> #[trigger] ts.drop_first()[j] >= cursor_ts {
                assert forall|j: int| 0 <= j <= i implies #[trigger] ts[j] >= cursor_ts by {
                    if j > 0 {
                        assert(ts[j] == ts.drop_first()[j - 1]);
                    }
                }
            }
            if forall|j: int| 0 <= j <= i ==> #[trigger] ts[j] >= cursor_ts {
                assert forall|j: int| 0 <= j <= i - 1 implies #[trigger] ts.drop_first()[j] >= cursor_ts by {
                    assert(ts.drop_first()[j] == ts[j + 1]);
                }
            }
        }
    }
}

proof fn lemma_skipped_files_len(state: AnchorState, ts: Seq<i128>)
    ensures
        skipped_files(state, ts).len() == ts.len(),
    decreases ts.len(),
{
    if ts.len() > 0 {
        lemma_skipped_files_len(
            AnchorState { ts: state.ts, passed: state.passed || ts[0] < state.ts },
            ts.drop_first(),
        );
    }
}

proof fn lemma_passed_skips_nothing(anchor_ts: i128, ts: Seq<i128>)
    ensures
        forall|k: int|
            0 <= k < ts.len() ==> !#[trigger] skipped_files(AnchorState { ts: anchor_ts, passed: true }, ts)[k],
    decreases ts.len(),
{
    lemma_skipped_files_len(AnchorState { ts: anchor_ts, passed: true }, ts);
    if ts.len() > 0 {
        lemma_passed_skips_nothing(anchor_ts, ts.drop_first());
        let flags = skipped_files(AnchorState { ts: anchor_ts, passed: true }, ts);
        assert forall|k: int| 0 <= k < ts.len() implies !#[trigger] flags[k] by {
            if k > 0 {
                assert(flags[k] == skipped_files(AnchorState { ts: anchor_ts, passed: true }, ts.drop_first())[k
                    - 1]);
            }
        }
    }
}

} // verus!
