//! Settings that shape a session: snapshot limits, overrides given on the
//! command line, and the choices derived from them.
use vstd::prelude::*;
use crate::config_edit::service_tier_config_text;
use crate::config_types::{spec_request_value, spec_tier_from_request_value, ServiceTier, WebSearchMode, SERVICE_TIER_DEFAULT_REQUEST_VALUE};
use crate::features::{Feature, Features};
use crate::text::{copy_str, chars_of, has_prefix, starts_with_chars, str_eq, string_from_chars, trim, trim_bounds, trim_str};
use crate::util::{resolve_path, spec_is_absolute, spec_join_relative};

verus! {

/// The default limit on untracked directories a ghost snapshot skips.
pub const DEFAULT_IGNORE_LARGE_UNTRACKED_DIRS: i64 = 200;

/// The default size, in bytes, above which untracked files are left out of a ghost snapshot.
pub const DEFAULT_IGNORE_LARGE_UNTRACKED_FILES: i64 = 10 * 1024 * 1024;

/// The environment variable that points at the state database's directory.
pub const SQLITE_HOME_ENV: &'static str = "CODEX_SQLITE_HOME";

/// Limits on what a ghost snapshot of the working tree takes in.
#[derive(Debug, Clone, Copy, PartialEq, Eq, Structural)]
pub struct GhostSnapshotConfig {
    pub ignore_large_untracked_files: Option<i64>,
    pub ignore_large_untracked_dirs: Option<i64>,
    pub disable_warnings: bool,
}

impl Default for GhostSnapshotConfig {
    fn default() -> (r: Self)
        ensures
            r == (GhostSnapshotConfig {
                ignore_large_untracked_files: Some(DEFAULT_IGNORE_LARGE_UNTRACKED_FILES),
                ignore_large_untracked_dirs: Some(DEFAULT_IGNORE_LARGE_UNTRACKED_DIRS),
                disable_warnings: false,
            }),
    {
        GhostSnapshotConfig {
            ignore_large_untracked_files: Some(DEFAULT_IGNORE_LARGE_UNTRACKED_FILES),
            ignore_large_untracked_dirs: Some(DEFAULT_IGNORE_LARGE_UNTRACKED_DIRS),
            disable_warnings: false,
        }
    }
}

/// Settings given for one run, over those of the configuration files. Paths
/// are kept as text.
#[derive(Debug, Clone, PartialEq, Eq)]
pub struct ConfigOverrides {
    pub model: Option<String>,
    pub cwd: Option<String>,
    pub model_provider: Option<String>,
    pub service_tier: Option<Option<String>>,
    pub codex_self_exe: Option<String>,
    pub main_execve_wrapper_exe: Option<String>,
    pub zsh_path: Option<String>,
    pub base_instructions: Option<String>,
    pub developer_instructions: Option<String>,
    pub compact_prompt: Option<String>,
    pub show_raw_agent_reasoning: Option<bool>,
    pub tools_web_search_request: Option<bool>,
    pub ephemeral: Option<bool>,
    pub additional_writable_roots: Vec<String>,
    pub workspace_roots: Option<Vec<String>>,
}

impl Default for ConfigOverrides {
    fn default() -> (r: Self)
        ensures
            r.model is None && r.cwd is None && r.model_provider is None && r.service_tier is None
                && r.codex_self_exe is None && r.main_execve_wrapper_exe is None && r.zsh_path is None
                && r.base_instructions is None && r.developer_instructions is None
                && r.compact_prompt is None && r.show_raw_agent_reasoning is None
                && r.tools_web_search_request is None && r.ephemeral is None
                && r.additional_writable_roots@.len() == 0 && r.workspace_roots is None,
    {
        ConfigOverrides {
            model: None,
            cwd: None,
            model_provider: None,
            service_tier: None,
            codex_self_exe: None,
            main_execve_wrapper_exe: None,
            zsh_path: None,
            base_instructions: None,
            developer_instructions: None,
            compact_prompt: None,
            show_raw_agent_reasoning: None,
            tools_web_search_request: None,
            ephemeral: None,
            additional_writable_roots: Vec::new(),
            workspace_roots: None,
        }
    }
}

/// Where the state database lives, from the value of `CODEX_SQLITE_HOME`
/// (read by the caller): the trimmed value, under the working directory
/// when relative; nothing when unset or blank.
pub fn sqlite_home_from_env_value(raw: Option<String>, resolved_cwd: &str) -> (r: Option<String>)
    ensures
        match raw {
            None => r is None,
            Some(v) => if trim(v@).len() == 0 {
                r is None
            } else {
                r matches Some(p) && p@ == if spec_is_absolute(trim(v@)) {
                    trim(v@)
                } else {
                    spec_join_relative(resolved_cwd@, trim(v@))
                }
            },
        },
{
    let raw = match raw {
        Some(v) => v,
        None => return None,
    };
    let cs = chars_of(raw.as_str());
    let (a, b) = trim_bounds(&cs);
    if a == b {
        return None;
    }
    let trimmed = string_from_chars(&cs, a, b);
    Some(resolve_path(resolved_cwd, trimmed.as_str()))
}

/// The paths of `s` with every repeat of an earlier path removed.
pub open spec fn deduped(s: Seq<String>) -> Seq<String>
    decreases s.len(),
{
    if s.len() == 0 {
        Seq::empty()
    } else {
        let d = deduped(s.drop_last());
        if exists|i: int| 0 <= i < d.len() && d[i]@ == s.last()@ {
            d
        } else {
            d.push(s.last())
        }
    }
}

/// Removes every path that repeats an earlier one, keeping the order.
pub fn dedupe_paths(paths: &mut Vec<String>)
    ensures
        final(paths)@ == deduped(old(paths)@),
{
    let ghost all = paths@;
    let mut kept: Vec<String> = Vec::new();
    let mut rest: Vec<String> = Vec::new();
    std::mem::swap(&mut rest, paths);
    let mut i: usize = 0;
    let n = rest.len();
    while i < n
        invariant
            n == rest.len(),
            rest@ == all,
            i <= n,
            kept@ == deduped(all.take(i as int)),
        decreases n - i,
    {
        let mut seen = false;
        let mut j: usize = 0;
        while j < kept.len()
            invariant
                j <= kept.len(),
                i < n,
                n == rest.len(),
                seen == exists|k: int| 0 <= k < j && kept@[k]@ == rest@[i as int]@,
            decreases kept.len() - j,
        {
            if str_eq(kept[j].as_str(), rest[i].as_str()) {
                seen = true;
            }
            j = j + 1;
        }
        proof {
            assert(all.take(i + 1).drop_last() =~= all.take(i as int));
            assert(all.take(i + 1).last() == all[i as int]);
        }
        if !seen {
            kept.push(rest[i].clone());
        }
        i = i + 1;
    }
    proof {
        assert(all.take(n as int) =~= all);
    }
    *paths = kept;
}

/// The web search mode: the configured one, else cached or live search as
/// the features enable them, cached first.
pub open spec fn web_search_mode(configured: Option<WebSearchMode>, enabled: Set<Feature>) -> Option<WebSearchMode> {
    match configured {
        Some(mode) => Some(mode),
        None => if enabled.contains(Feature::WebSearchCached) {
            Some(WebSearchMode::Cached)
        } else if enabled.contains(Feature::WebSearchRequest) {
            Some(WebSearchMode::Live)
        } else {
            None
        },
    }
}

/// Decides the web search mode.
pub fn resolve_web_search_mode(configured: Option<WebSearchMode>, features: &Features) -> (r: Option<WebSearchMode>)
    ensures
        r == web_search_mode(configured, features@),
{
    if let Some(mode) = configured {
        return Some(mode);
    }
    if features.enabled(Feature::WebSearchCached) {
        return Some(WebSearchMode::Cached);
    }
    if features.enabled(Feature::WebSearchRequest) {
        return Some(WebSearchMode::Live);
    }
    None
}


/// Who a proxied request is made for, recorded with it.
#[derive(Debug, Clone, PartialEq, Eq)]
pub struct NetworkProxyAuditMetadata {
    pub session_id: Option<String>,
    pub originator: Option<String>,
    pub user_id: Option<String>,
}

impl Default for NetworkProxyAuditMetadata {
    fn default() -> (r: Self)
        ensures
            r.session_id is None && r.originator is None && r.user_id is None,
    {
        NetworkProxyAuditMetadata { session_id: None, originator: None, user_id: None }
    }
}

/// A running network proxy.
#[derive(Debug, Clone, Copy, PartialEq, Eq, Structural)]
pub struct StartedNetworkProxy;

/// The network proxy settings of a session.
#[derive(Debug, Clone, PartialEq, Eq)]
pub struct NetworkProxySpec {
    pub enabled: bool,
    pub proxy_url: String,
    pub enable_socks5: bool,
}

/// The proxy's address without its `http://` or `https://` scheme.
pub open spec fn host_and_port(url: Seq<char>) -> Seq<char> {
    if has_prefix(url, "http://"@) {
        url.skip(7)
    } else if has_prefix(url, "https://"@) {
        url.skip(8)
    } else {
        url
    }
}

/// The message of a request to start the proxy.
pub const NETWORK_PROXY_REMOVED_MESSAGE: &'static str = "managed network proxy has been removed";

impl NetworkProxySpec {
    /// Whether the proxy is on.
    pub fn enabled(&self) -> (r: bool)
        ensures
            r == self.enabled,
    {
        self.enabled
    }

    /// Whether SOCKS5 is offered.
    pub fn socks_enabled(&self) -> (r: bool)
        ensures
            r == self.enable_socks5,
    {
        self.enable_socks5
    }

    /// The proxy's host and port.
    pub fn proxy_host_and_port(&self) -> (r: String)
        ensures
            r@ == host_and_port(self.proxy_url@),
    {
        let url = chars_of(self.proxy_url.as_str());
        let http = chars_of("http://");
        let https = chars_of("https://");
        proof {
            reveal_strlit("http://");
            reveal_strlit("https://");
        }
        if starts_with_chars(&url, &http) {
            string_from_chars(&url, http.len(), url.len())
        } else if starts_with_chars(&url, &https) {
            string_from_chars(&url, https.len(), url.len())
        } else {
            self.proxy_url.clone()
        }
    }

    /// Starting a managed proxy always fails: the managed proxy is gone.
    pub fn start_proxy(&self, audit_metadata: NetworkProxyAuditMetadata) -> (r: Result<StartedNetworkProxy, String>)
        ensures
            r matches Err(m) && m@ == NETWORK_PROXY_REMOVED_MESSAGE@,
    {
        Err(String::from_str(NETWORK_PROXY_REMOVED_MESSAGE))
    }
}

/// What a configuration file's contents contribute: the contents trimmed, or
/// nothing when they are blank.
pub fn non_empty_config_contents(contents: &str) -> (r: Option<String>)
    ensures
        trim(contents@).len() == 0 ==> r is None,
        trim(contents@).len() > 0 ==> (r matches Some(t) && t@ == trim(contents@)),
{
    let trimmed = trim_str(contents);
    if trimmed.unicode_len() == 0 {
        None
    } else {
        Some(trimmed)
    }
}


/// The tier the configuration asks for before normalizing: an explicit tier
/// given for the run, the default request value when the run clears it, else
/// the configured tier.
pub open spec fn chosen_service_tier(service_tier_override: Option<Option<String>>, configured: Option<String>) -> Option<
    Seq<char>,
> {
    match service_tier_override {
        Some(Some(t)) => Some(t@),
        Some(None) => Some("default"@),
        None => match configured {
            Some(t) => Some(t@),
            None => None,
        },
    }
}

/// A tier as requests send it: the request value of a tier that the text
/// names, else the text itself.
pub open spec fn normalized_service_tier(s: Seq<char>) -> Seq<char> {
    match spec_tier_from_request_value(s) {
        Some(t) => spec_request_value(t),
        None => s,
    }
}

/// The service tier a session uses, as requests send it.
pub fn resolve_service_tier(service_tier_override: Option<Option<String>>, configured: Option<String>) -> (r:
    Option<String>)
    ensures
        match chosen_service_tier(service_tier_override, configured) {
            Some(t) => r matches Some(v) && v@ == normalized_service_tier(t),
            None => r is None,
        },
{
    proof {
        reveal_strlit("default");
    }
    let chosen = match service_tier_override {
        Some(Some(t)) => Some(t),
        Some(None) => Some(String::from_str(SERVICE_TIER_DEFAULT_REQUEST_VALUE)),
        None => configured,
    };
    match chosen {
        None => None,
        Some(t) => match ServiceTier::from_request_value(t.as_str()) {
            Some(tier) => Some(String::from_str(tier.request_value())),
            None => Some(t),
        },
    }
}

/// Writing a service tier into the configuration file and loading it back
/// gives requests the same tier as the one written.
pub proof fn law_service_tier_survives_config_round_trip(tier: Seq<char>)
    ensures
        normalized_service_tier(service_tier_config_text(tier)) == normalized_service_tier(tier),
{
    reveal_strlit("fast");
    reveal_strlit("flex");
    reveal_strlit("priority");
}

/// The prompt used for compaction: the one given for the run, else the
/// configured one, trimmed; nothing when that leaves it empty.
pub fn resolve_compact_prompt(override_prompt: Option<String>, configured: Option<String>) -> (r: Option<
    String,
>)
    ensures
        match (override_prompt, configured) {
            (Some(p), _) | (None, Some(p)) => if trim(p@).len() == 0 {
                r is None
            } else {
                r matches Some(v) && v@ == trim(p@)
            },
            (None, None) => r is None,
        },
{
    let chosen = match override_prompt {
        Some(p) => p,
        None => match configured {
            Some(p) => p,
            None => return None,
        },
    };
    let cs = chars_of(chosen.as_str());
    let (a, b) = trim_bounds(&cs);
    if a == b {
        None
    } else {
        Some(string_from_chars(&cs, a, b))
    }
}

/// A path as a workspace root: itself when absolute, else under the working directory.
pub open spec fn root_text(cwd: Seq<char>, p: Seq<char>) -> Seq<char> {
    if spec_is_absolute(p) {
        p
    } else {
        spec_join_relative(cwd, p)
    }
}

/// The texts of `s`, each repeat of an earlier text removed.
pub open spec fn dedupe_text(s: Seq<Seq<char>>) -> Seq<Seq<char>>
    decreases s.len(),
{
    if s.len() == 0 {
        Seq::empty()
    } else {
        let d = dedupe_text(s.drop_last());
        if d.contains(s.last()) {
            d
        } else {
            d.push(s.last())
        }
    }
}

/// Removing repeats keeps exactly the texts that were there.
pub proof fn lemma_dedupe_text_contains(s: Seq<Seq<char>>, x: Seq<char>)
    ensures
        dedupe_text(s).contains(x) == s.contains(x),
    decreases s.len(),
{
    if s.len() > 0 {
        let prefix = s.drop_last();
        lemma_dedupe_text_contains(prefix, x);
        lemma_dedupe_text_contains(prefix, s.last());
        if s.contains(x) && !prefix.contains(x) {
            let i = choose|i: int| 0 <= i < s.len() && s[i] == x;
            if i < s.len() - 1 {
                assert(prefix[i] == x);
            }
            assert(x == s.last());
        }
        if prefix.contains(x) {
            let i = choose|i: int| 0 <= i < prefix.len() && prefix[i] == x;
            assert(s[i] == x);
        }
        let d = dedupe_text(prefix);
        if !d.contains(s.last()) {
            assert(d.push(s.last())[d.len() as int] == s.last());
            if d.contains(x) {
                let i = choose|i: int| 0 <= i < d.len() && d[i] == x;
                assert(d.push(s.last())[i] == x);
            }
            if d.push(s.last()).contains(x) && x != s.last() {
                let i = choose|i: int| 0 <= i < d.len() + 1 && d.push(s.last())[i] == x;
                assert(d[i] == x);
            }
        }
        if x == s.last() {
            assert(s[s.len() - 1] == x);
        }
    }
}

/// Removing repeats leaves no text twice.
pub proof fn lemma_dedupe_text_unique(s: Seq<Seq<char>>)
    ensures
        forall|i: int, j: int|
            #![trigger dedupe_text(s)[i], dedupe_text(s)[j]]
            0 <= i < j < dedupe_text(s).len() ==> dedupe_text(s)[i] != dedupe_text(s)[j],
    decreases s.len(),
{
    if s.len() > 0 {
        let prefix = s.drop_last();
        lemma_dedupe_text_unique(prefix);
        let d = dedupe_text(prefix);
        if !d.contains(s.last()) {
            let e = d.push(s.last());
            assert forall|i: int, j: int| 0 <= i < j < e.len() implies e[i] != e[j] by {
                if j == d.len() {
                    if e[i] == e[j] {
                        assert(d[i] == s.last());
                    }
                } else {
                    assert(e[i] == d[i] && e[j] == d[j]);
                }
            }
        }
    }
}

pub proof fn lemma_deduped_views(s: Seq<String>)
    ensures
        deduped(s).map_values(|p: String| p@) == dedupe_text(s.map_values(|p: String| p@)),
    decreases s.len(),
{
    if s.len() > 0 {
        let prefix = s.drop_last();
        lemma_deduped_views(prefix);
        assert(s.map_values(|p: String| p@).drop_last() =~= prefix.map_values(|p: String| p@));
        let d = deduped(prefix);
        let dv = d.map_values(|p: String| p@);
        if exists|i: int| 0 <= i < d.len() && d[i]@ == s.last()@ {
            let i = choose|i: int| 0 <= i < d.len() && d[i]@ == s.last()@;
            assert(dv[i] == s.last()@);
        } else {
            if dv.contains(s.last()@) {
                let i = choose|i: int| 0 <= i < dv.len() && dv[i] == s.last()@;
                assert(d[i]@ == s.last()@);
            }
            assert(d.push(s.last()).map_values(|p: String| p@) =~= dv.push(s.last()@));
        }
    }
}

fn resolve_roots(paths: &Vec<String>, cwd: &str) -> (r: Vec<String>)
    ensures
        r@.map_values(|p: String| p@) == paths@.map_values(|p: String| root_text(cwd@, p@)),
{
    let mut out: Vec<String> = Vec::new();
    let mut i: usize = 0;
    while i < paths.len()
        invariant
            i <= paths.len(),
            out@.len() == i,
            forall|k: int| 0 <= k < i ==> (#[trigger] out@[k])@ == root_text(cwd@, paths@[k]@),
        decreases paths.len() - i,
    {
        out.push(resolve_path(cwd, paths[i].as_str()));
        i = i + 1;
    }
    proof {
        assert(out@.map_values(|p: String| p@) =~= paths@.map_values(|p: String| root_text(cwd@, p@)));
    }
    out
}

/// The workspace roots before repeats are removed: those given for the run,
/// else the working directory followed by the extra writable roots; each
/// relative path taken under the working directory.
pub open spec fn root_candidates(workspace_roots: Option<Vec<String>>, additional_writable_roots: Seq<String>, cwd: Seq<
    char,
>) -> Seq<Seq<char>> {
    match workspace_roots {
        Some(v) => v@.map_values(|p: String| root_text(cwd, p@)),
        None => seq![cwd] + additional_writable_roots.map_values(|p: String| root_text(cwd, p@)),
    }
}

/// The workspace roots of a session, without repeats, and whether they were
/// asked for explicitly: by roots given for the run or extra writable roots.
pub fn resolve_workspace_roots(
    workspace_roots: Option<Vec<String>>,
    additional_writable_roots: &Vec<String>,
    resolved_cwd: &str,
) -> (r: (Vec<String>, bool))
    ensures
        r.0@.map_values(|p: String| p@) == dedupe_text(
            root_candidates(workspace_roots, additional_writable_roots@, resolved_cwd@),
        ),
        r.1 == (workspace_roots is Some || additional_writable_roots@.len() > 0),
{
    let explicit = workspace_roots.is_some() || additional_writable_roots.len() > 0;
    let mut roots = match &workspace_roots {
        Some(v) => resolve_roots(v, resolved_cwd),
        None => {
            let mut v: Vec<String> = Vec::new();
            v.push(copy_str(resolved_cwd));
            let mut extra = resolve_roots(additional_writable_roots, resolved_cwd);
            let ghost first = v@;
            let ghost rest = extra@;
            v.append(&mut extra);
            proof {
                assert(v@ == first + rest);
                assert(v@.map_values(|p: String| p@) =~= root_candidates(
                    workspace_roots,
                    additional_writable_roots@,
                    resolved_cwd@,
                ));
            }
            v
        },
    };
    let ghost before = roots@;
    dedupe_paths(&mut roots);
    proof {
        lemma_deduped_views(before);
    }
    (roots, explicit)
}

/// The workspace ids a ChatGPT login must belong to: the configured ones,
/// trimmed, blanks dropped; nothing when none is left.
pub fn forced_workspace_ids(values: Option<Vec<String>>) -> (r: Option<Vec<String>>)
    ensures
        match values {
            None => r is None,
            Some(v) => {
                let kept = v@.map_values(|s: String| trim(s@)).filter(|t: Seq<char>| t.len() > 0);
                if kept.len() == 0 {
                    r is None
                } else {
                    r matches Some(ids) && ids@.map_values(|s: String| s@) == kept
                }
            },
        },
{
    let values = match values {
        None => return None,
        Some(v) => v,
    };
    let ghost src = values@.map_values(|s: String| trim(s@));
    let mut out: Vec<String> = Vec::new();
    let mut i: usize = 0;
    while i < values.len()
        invariant
            i <= values.len(),
            src == values@.map_values(|s: String| trim(s@)),
            out@.map_values(|s: String| s@) == src.take(i as int).filter(|t: Seq<char>| t.len() > 0),
        decreases values.len() - i,
    {
        let cs = chars_of(values[i].as_str());
        let (a, b) = trim_bounds(&cs);
        proof {
            assert(src.take(i + 1).drop_last() =~= src.take(i as int));
            reveal(Seq::filter);
        }
        if a != b {
            let t = string_from_chars(&cs, a, b);
            let ghost prev = out@;
            out.push(t);
            proof {
                assert(out@.map_values(|s: String| s@) =~= prev.map_values(|s: String| s@).push(
                    src[i as int],
                ));
            }
        }
        i = i + 1;
    }
    proof {
        assert(src.take(values@.len() as int) =~= src);
    }
    if out.len() == 0 {
        None
    } else {
        Some(out)
    }
}

/// The model provider a session uses: the one given for the run, else the
/// configured one, else `openai`.
pub fn resolve_model_provider_id(override_provider: Option<String>, configured: Option<String>) -> (r: String)
    ensures
        r@ == match (override_provider, configured) {
            (Some(p), _) => p@,
            (None, Some(p)) => p@,
            (None, None) => "openai"@,
        },
{
    match override_provider {
        Some(p) => p,
        None => match configured {
            Some(p) => p,
            None => String::from_str("openai"),
        },
    }
}

/// The error message for a model provider that is not known.
pub fn provider_not_found_message(model_provider_id: &str) -> (r: String)
    ensures
        r@ == "Model provider `"@ + model_provider_id@ + "` not found"@,
{
    let mut m = String::from_str("Model provider `");
    m.append(model_provider_id);
    m.append("` not found");
    m
}

/// The limits of ghost snapshots: each configured size limit replaces the
/// default, a limit of zero or less switching it off; warnings are shown
/// unless disabled.
pub fn ghost_snapshot_config(
    ignore_large_untracked_files: Option<i64>,
    ignore_large_untracked_dirs: Option<i64>,
    disable_warnings: Option<bool>,
) -> (r: GhostSnapshotConfig)
    ensures
        r.ignore_large_untracked_files == match ignore_large_untracked_files {
            Some(n) => if n > 0 { Some(n) } else { None },
            None => Some(DEFAULT_IGNORE_LARGE_UNTRACKED_FILES),
        },
        r.ignore_large_untracked_dirs == match ignore_large_untracked_dirs {
            Some(n) => if n > 0 { Some(n) } else { None },
            None => Some(DEFAULT_IGNORE_LARGE_UNTRACKED_DIRS),
        },
        r.disable_warnings == match disable_warnings {
            Some(d) => d,
            None => false,
        },
{
    let mut config = GhostSnapshotConfig::default();
    if let Some(n) = ignore_large_untracked_files {
        config.ignore_large_untracked_files = if n > 0 { Some(n) } else { None };
    }
    if let Some(n) = ignore_large_untracked_dirs {
        config.ignore_large_untracked_dirs = if n > 0 { Some(n) } else { None };
    }
    if let Some(d) = disable_warnings {
        config.disable_warnings = d;
    }
    config
}

/// Where logs go: the configured directory, else `log` in the Codex home.
pub fn resolve_log_dir(configured: Option<String>, codex_home: &str) -> (r: String)
    ensures
        r@ == match configured {
            Some(d) => d@,
            None => spec_join_relative(codex_home@, "log"@),
        },
{
    match configured {
        Some(d) => d,
        None => {
            proof {
                reveal_strlit("log");
            }
            resolve_path(codex_home, "log")
        },
    }
}

/// Where the state database lives: the configured directory, else the one
/// the environment names, else the Codex home.
pub fn resolve_sqlite_home(configured: Option<String>, from_env: Option<String>, codex_home: &str) -> (r: String)
    ensures
        r@ == match (configured, from_env) {
            (Some(d), _) => d@,
            (None, Some(d)) => d@,
            (None, None) => codex_home@,
        },
{
    match configured {
        Some(d) => d,
        None => match from_env {
            Some(d) => d,
            None => copy_str(codex_home),
        },
    }
}

/// The directory a configuration is built for: the one the caller's
/// overrides name, else the fallback the builder was given; `None` means the
/// process's current directory.
pub fn build_cwd_override(harness_cwd: Option<String>, fallback_cwd: Option<String>) -> (r: Option<String>)
    ensures
        r == match harness_cwd {
            Some(c) => Some(c),
            None => fallback_cwd,
        },
{
    match harness_cwd {
        Some(c) => Some(c),
        None => fallback_cwd,
    }
}

/// The `[debug.config_lockfile]` settings of a configuration.
#[derive(Debug, Clone, PartialEq, Eq, Default)]
pub struct ConfigLockSettings {
    pub load_path: Option<String>,
    pub allow_codex_version_mismatch: Option<bool>,
    pub save_fields_resolved_from_model_catalog: Option<bool>,
}

/// How a configuration is loaded from a lockfile.
#[derive(Debug, Clone, PartialEq, Eq)]
pub struct LockfileLoad {
    pub load_path: String,
    pub allow_codex_version_mismatch: bool,
    pub save_fields_resolved_from_model_catalog: bool,
}

/// Whether the configuration is loaded from a lockfile, and how: only when
/// the settings name a path to load; a version mismatch is refused unless
/// allowed, and the fields resolved from the model catalog are saved unless
/// switched off.
pub fn lockfile_load(settings: Option<ConfigLockSettings>) -> (r: Option<LockfileLoad>)
    ensures
        match settings {
            Some(s) => match s.load_path {
                Some(p) => r == Some(
                    LockfileLoad {
                        load_path: p,
                        allow_codex_version_mismatch: match s.allow_codex_version_mismatch {
                            Some(b) => b,
                            None => false,
                        },
                        save_fields_resolved_from_model_catalog: match s.save_fields_resolved_from_model_catalog {
                            Some(b) => b,
                            None => true,
                        },
                    },
                ),
                None => r is None,
            },
            None => r is None,
        },
{
    match settings {
        Some(s) => match s.load_path {
            Some(p) => {
                let allow = match s.allow_codex_version_mismatch {
                    Some(b) => b,
                    None => false,
                };
                let save = match s.save_fields_resolved_from_model_catalog {
                    Some(b) => b,
                    None => true,
                };
                Some(
                    LockfileLoad {
                        load_path: p,
                        allow_codex_version_mismatch: allow,
                        save_fields_resolved_from_model_catalog: save,
                    },
                )
            },
            None => None,
        },
        None => None,
    }
}

} // verus!
