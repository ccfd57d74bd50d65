//! Choosing models from the catalog: the default model, the catalog entry
//! that a model name falls under, how remote entries are merged into the
//! bundled ones, and when the catalog is refreshed.
use vstd::prelude::*;
use crate::openai_models::{ModelInfo, ModelPreset, ModelVisibility};
use crate::text::{chars_of, has_prefix, starts_with_chars, str_eq, string_from_chars};

verus! {

/// How the catalog of models is brought up to date.
#[derive(Debug, Clone, Copy, PartialEq, Eq, Structural)]
pub enum RefreshStrategy {
    /// Always fetch the remote catalog.
    Online,
    /// Only use the cached catalog.
    Offline,
    /// Use the cached catalog when there is one, else fetch.
    OnlineIfUncached,
}

impl RefreshStrategy {
    /// The strategy's name.
    pub fn as_str(self) -> (r: &'static str)
        ensures
            r@ == match self {
                RefreshStrategy::Online => "online"@,
                RefreshStrategy::Offline => "offline"@,
                RefreshStrategy::OnlineIfUncached => "online_if_uncached"@,
            },
    {
        match self {
            RefreshStrategy::Online => "online",
            RefreshStrategy::Offline => "offline",
            RefreshStrategy::OnlineIfUncached => "online_if_uncached",
        }
    }
}

/// What a refresh does, given whether the remote catalog may be used.
#[derive(Debug, Clone, Copy, PartialEq, Eq, Structural)]
pub enum RefreshPlan {
    Nothing,
    LoadCache,
    LoadCacheElseFetch,
    Fetch,
}

/// The work a refresh does: without a remote catalog only a cache is loaded
/// (except for `Online`, which then does nothing); with one, `Offline` loads
/// the cache, `OnlineIfUncached` fetches only on a cache miss, `Online` fetches.
pub fn refresh_plan(strategy: RefreshStrategy, should_refresh: bool) -> (r: RefreshPlan)
    ensures
        r == if !should_refresh {
            match strategy {
                RefreshStrategy::Online => RefreshPlan::Nothing,
                _ => RefreshPlan::LoadCache,
            }
        } else {
            match strategy {
                RefreshStrategy::Offline => RefreshPlan::LoadCache,
                RefreshStrategy::OnlineIfUncached => RefreshPlan::LoadCacheElseFetch,
                RefreshStrategy::Online => RefreshPlan::Fetch,
            }
        },
{
    if !should_refresh {
        match strategy {
            RefreshStrategy::Online => RefreshPlan::Nothing,
            _ => RefreshPlan::LoadCache,
        }
    } else {
        match strategy {
            RefreshStrategy::Offline => RefreshPlan::LoadCache,
            RefreshStrategy::OnlineIfUncached => RefreshPlan::LoadCacheElseFetch,
            RefreshStrategy::Online => RefreshPlan::Fetch,
        }
    }
}

/// What to do when the server reports the catalog's tag.
#[derive(Debug, Clone, Copy, PartialEq, Eq, Structural)]
pub enum EtagAction {
    /// The cached catalog is current: only extend its lifetime.
    RenewCacheTtl,
    /// Fetch the catalog again.
    Refresh(RefreshStrategy),
}

/// A tag equal to the one held renews the cache; anything else refetches.
pub fn on_new_etag(current_etag: Option<&str>, etag: &str) -> (r: EtagAction)
    ensures
        r == match current_etag {
            Some(c) => if c@ == etag@ {
                EtagAction::RenewCacheTtl
            } else {
                EtagAction::Refresh(RefreshStrategy::Online)
            },
            None => EtagAction::Refresh(RefreshStrategy::Online),
        },
{
    match current_etag {
        Some(c) => {
            if str_eq(c, etag) {
                EtagAction::RenewCacheTtl
            } else {
                EtagAction::Refresh(RefreshStrategy::Online)
            }
        },
        None => EtagAction::Refresh(RefreshStrategy::Online),
    }
}

/// Index of the first preset marked default, or the length when none is.
pub open spec fn first_default(s: Seq<ModelPreset>) -> int
    decreases s.len(),
{
    if s.len() == 0 {
        0
    } else if first_default(s.drop_last()) < s.len() - 1 {
        first_default(s.drop_last())
    } else if s.last().is_default {
        s.len() - 1
    } else {
        s.len() as int
    }
}

proof fn lemma_first_default(s: Seq<ModelPreset>)
    ensures
        0 <= first_default(s) <= s.len(),
        first_default(s) < s.len() ==> s[first_default(s)].is_default,
        forall|j: int| 0 <= j < first_default(s) ==> !(#[trigger] s[j]).is_default,
    decreases s.len(),
{
    if s.len() > 0 {
        lemma_first_default(s.drop_last());
        assert forall|j: int| 0 <= j < first_default(s) implies !(#[trigger] s[j]).is_default by {
            if j < s.len() - 1 {
                assert(s.drop_last()[j] == s[j]);
            }
        }
        if first_default(s) < s.len() - 1 {
            assert(s.drop_last()[first_default(s)] == s[first_default(s)]);
        }
    }
}

/// The default model: the first preset marked default, else the first
/// preset, else none (empty).
pub open spec fn default_model_of(s: Seq<ModelPreset>) -> Seq<char> {
    if first_default(s) < s.len() {
        s[first_default(s)].model@
    } else if s.len() > 0 {
        s[0].model@
    } else {
        Seq::empty()
    }
}

/// The model a session uses when none is configured.
pub fn default_model_from_available(available: &Vec<ModelPreset>) -> (r: String)
    ensures
        r@ == default_model_of(available@),
{
    proof {
        lemma_first_default(available@);
    }
    let mut i: usize = 0;
    while i < available.len()
        invariant
            i <= available.len(),
            forall|j: int| 0 <= j < i ==> !(#[trigger] available@[j]).is_default,
            0 <= first_default(available@) <= available@.len(),
            first_default(available@) < available@.len() ==> available@[first_default(available@)].is_default,
            forall|j: int| 0 <= j < first_default(available@) ==> !(#[trigger] available@[j]).is_default,
        decreases available.len() - i,
    {
        if available[i].is_default {
            return available[i].model.clone();
        }
        i = i + 1;
    }
    if available.len() > 0 {
        available[0].model.clone()
    } else {
        String::new()
    }
}

/// Whether the catalog entry `c` names a prefix of `model`.
pub open spec fn slug_prefixes(model: Seq<char>, c: ModelInfo) -> bool {
    has_prefix(model, c.slug@)
}

/// Whether `i` is the entry chosen for `model`: the first of the entries
/// with the longest slug that is a prefix of `model`.
pub open spec fn is_longest_prefix(model: Seq<char>, cands: Seq<ModelInfo>, i: int) -> bool {
    &&& 0 <= i < cands.len()
    &&& slug_prefixes(model, cands[i])
    &&& forall|j: int|
        0 <= j < cands.len() && slug_prefixes(model, #[trigger] cands[j]) ==> cands[j].slug@.len()
            <= cands[i].slug@.len()
    &&& forall|j: int|
        0 <= j < i && slug_prefixes(model, #[trigger] cands[j]) ==> cands[j].slug@.len()
            < cands[i].slug@.len()
}

/// Whether no entry's slug is a prefix of `model`.
pub open spec fn no_prefix(model: Seq<char>, cands: Seq<ModelInfo>) -> bool {
    forall|j: int| 0 <= j < cands.len() ==> !slug_prefixes(model, #[trigger] cands[j])
}

/// The entry whose slug is the longest prefix of `model` (the first such).
pub fn find_model_by_longest_prefix(model: &str, candidates: &Vec<ModelInfo>) -> (r: Option<usize>)
    ensures
        r matches Some(i) ==> is_longest_prefix(model@, candidates@, i as int),
        r is None ==> no_prefix(model@, candidates@),
{
    let m = chars_of(model);
    let mut best: Option<usize> = None;
    let mut best_len: usize = 0;
    let mut k: usize = 0;
    while k < candidates.len()
        invariant
            k <= candidates.len(),
            m@ == model@,
            best is None ==> forall|j: int| 0 <= j < k ==> !slug_prefixes(model@, #[trigger] candidates@[j]),
            best matches Some(b) ==> b < k && best_len == candidates@[b as int].slug@.len()
                && is_longest_prefix(model@, candidates@.take(k as int), b as int),
        decreases candidates.len() - k,
    {
        let slug = chars_of(candidates[k].slug.as_str());
        let matches = starts_with_chars(&m, &slug);
        let ghost before = best;
        if matches {
            let better = match best {
                Some(_) => slug.len() > best_len,
                None => true,
            };
            if better {
                best = Some(k);
                best_len = slug.len();
            }
        }
        proof {
            let t = candidates@.take(k + 1);
            assert(t[k as int] == candidates@[k as int]);
            assert forall|j: int| 0 <= j < k implies #[trigger] t[j] == candidates@.take(k as int)[j] by {}
            match best {
                Some(b) => {
                    assert(is_longest_prefix(model@, t, b as int)) by {
                        assert forall|j: int| 0 <= j < t.len() && slug_prefixes(model@, #[trigger] t[j])
                            implies t[j].slug@.len() <= t[b as int].slug@.len() by {
                            if j < k {
                                assert(t[j] == candidates@.take(k as int)[j]);
                            }
                        }
                        assert forall|j: int| 0 <= j < b && slug_prefixes(model@, #[trigger] t[j])
                            implies t[j].slug@.len() < t[b as int].slug@.len() by {
                            assert(t[j] == candidates@.take(k as int)[j]);
                        }
                    }
                },
                None => {},
            }
        }
        k = k + 1;
    }
    proof {
        assert(candidates@.take(candidates@.len() as int) =~= candidates@);
    }
    best
}

/// Index of the first `c` in `s`, or the length when there is none.
pub open spec fn char_index(s: Seq<char>, c: char) -> int
    decreases s.len(),
{
    if s.len() == 0 {
        0
    } else if char_index(s.drop_last(), c) < s.len() - 1 {
        char_index(s.drop_last(), c)
    } else if s.last() == c {
        s.len() - 1
    } else {
        s.len() as int
    }
}

proof fn lemma_char_index(s: Seq<char>, c: char)
    ensures
        0 <= char_index(s, c) <= s.len(),
        char_index(s, c) < s.len() ==> s[char_index(s, c)] == c,
        forall|j: int| 0 <= j < char_index(s, c) ==> s[j] != c,
    decreases s.len(),
{
    if s.len() > 0 {
        lemma_char_index(s.drop_last(), c);
        assert forall|j: int| 0 <= j < char_index(s, c) implies s[j] != c by {
            if j < s.len() - 1 {
                assert(s.drop_last()[j] == s[j]);
            }
        }
        if char_index(s, c) < s.len() - 1 {
            assert(s.drop_last()[char_index(s, c)] == s[char_index(s, c)]);
        }
    }
}

/// The index of the first `c` in `v`, or its length when there is none.
pub fn first_char_index(v: &Vec<char>, c: char) -> (r: usize)
    ensures
        r == char_index(v@, c),
{
    proof {
        lemma_char_index(v@, c);
    }
    let mut i: usize = 0;
    while i < v.len()
        invariant
            i <= v.len(),
            forall|j: int| 0 <= j < i ==> v@[j] != c,
            0 <= char_index(v@, c) <= v@.len(),
            char_index(v@, c) < v@.len() ==> v@[char_index(v@, c)] == c,
            forall|j: int| 0 <= j < char_index(v@, c) ==> v@[j] != c,
        decreases v.len() - i,
    {
        if v[i] == c {
            return i;
        }
        i = i + 1;
    }
    i
}

/// Whether a character may appear in a model's namespace.
pub open spec fn namespace_char(c: char) -> bool {
    ('a' <= c <= 'z') || ('A' <= c <= 'Z') || ('0' <= c <= '9') || c == '_' || c == '-'
}

/// The model name after a namespace (`namespace/model`): nothing unless the
/// name has exactly one `/`, after a non-empty namespace of letters,
/// digits, `_` and `-`.
pub open spec fn namespaced_suffix(model: Seq<char>) -> Option<Seq<char>> {
    let k = char_index(model, '/');
    if k >= model.len() {
        None
    } else {
        let namespace = model.take(k);
        let suffix = model.skip(k + 1);
        if char_index(suffix, '/') < suffix.len() {
            None
        } else if namespace.len() == 0 || exists|j: int|
            0 <= j < namespace.len() && !namespace_char(#[trigger] namespace[j]) {
            None
        } else {
            Some(suffix)
        }
    }
}

fn is_namespace_char(c: char) -> (r: bool)
    ensures
        r == namespace_char(c),
{
    ('a' <= c && c <= 'z') || ('A' <= c && c <= 'Z') || ('0' <= c && c <= '9') || c == '_' || c
        == '-'
}

/// The part of a namespaced model name after its namespace.
pub fn split_namespaced_model(model: &str) -> (r: Option<String>)
    ensures
        namespaced_suffix(model@) matches Some(s) ==> (r matches Some(t) && t@ == s),
        namespaced_suffix(model@) is None ==> r is None,
{
    let m = chars_of(model);
    let n = m.len();
    let k = first_char_index(&m, '/');
    if k == n {
        return None;
    }
    let suffix = string_from_chars(&m, k + 1, n);
    let suffix_chars = chars_of(suffix.as_str());
    proof {
        assert(suffix@ =~= model@.skip(k + 1));
    }
    if first_char_index(&suffix_chars, '/') < suffix_chars.len() {
        return None;
    }
    if k == 0 {
        return None;
    }
    let mut i: usize = 0;
    while i < k
        invariant
            i <= k < n,
            n == m@.len(),
            m@ == model@,
            k == char_index(model@, '/'),
            forall|q: int| 0 <= q < i ==> namespace_char(#[trigger] m@[q]),
        decreases k - i,
    {
        if !is_namespace_char(m[i]) {
            proof {
                assert(model@.take(k as int)[i as int] == m@[i as int]);
            }
            return None;
        }
        i = i + 1;
    }
    proof {
        let namespace = model@.take(k as int);
        assert forall|q: int| 0 <= q < namespace.len() implies namespace_char(#[trigger] namespace[q]) by {
            assert(namespace[q] == model@[q]);
        }
    }
    Some(suffix)
}

/// Whether `r` is the entry that the part of `model` after its namespace
/// falls under: none when the name has no namespace.
pub open spec fn suffix_selection(model: Seq<char>, cands: Seq<ModelInfo>, r: Option<usize>) -> bool {
    match namespaced_suffix(model) {
        None => r is None,
        Some(s) => match r {
            Some(i) => is_longest_prefix(s, cands, i as int),
            None => no_prefix(s, cands),
        },
    }
}

/// The entry a namespaced model name falls under: the longest prefix of
/// its part after the namespace.
pub fn find_model_by_namespaced_suffix(model: &str, candidates: &Vec<ModelInfo>) -> (r: Option<usize>)
    ensures
        suffix_selection(model@, candidates@, r),
{
    match split_namespaced_model(model) {
        Some(suffix) => find_model_by_longest_prefix(suffix.as_str(), candidates),
        None => None,
    }
}

/// The catalog entry that `model` falls under, by longest slug prefix of
/// the whole name and, failing that, of the name after its namespace.
pub fn select_model_candidate(model: &str, candidates: &Vec<ModelInfo>) -> (r: Option<usize>)
    ensures
        if no_prefix(model@, candidates@) {
            suffix_selection(model@, candidates@, r)
        } else {
            r matches Some(i) && is_longest_prefix(model@, candidates@, i as int)
        },
{
    match find_model_by_longest_prefix(model, candidates) {
        Some(i) => Some(i),
        None => find_model_by_namespaced_suffix(model, candidates),
    }
}

/// Whether the remote catalog replaces the bundled one: it must be
/// non-empty, list a model in the picker, and the user must be signed in
/// with ChatGPT.
pub open spec fn remote_models_only(models: Seq<ModelInfo>, signed_in_with_chatgpt: bool) -> bool {
    models.len() > 0 && (exists|i: int|
        0 <= i < models.len() && (#[trigger] models[i]).visibility == ModelVisibility::List)
        && signed_in_with_chatgpt
}

/// Whether the remote catalog replaces the bundled one.
pub fn should_use_remote_models_only(models: &Vec<ModelInfo>, signed_in_with_chatgpt: bool) -> (r:
    bool)
    ensures
        r == remote_models_only(models@, signed_in_with_chatgpt),
{
    if models.len() == 0 || !signed_in_with_chatgpt {
        return false;
    }
    let mut i: usize = 0;
    while i < models.len()
        invariant
            i <= models.len(),
            models@.len() > 0,
            signed_in_with_chatgpt,
            forall|j: int| 0 <= j < i ==> (#[trigger] models@[j]).visibility != ModelVisibility::List,
        decreases models.len() - i,
    {
        if models[i].visibility == ModelVisibility::List {
            return true;
        }
        i = i + 1;
    }
    false
}

/// Index of the first entry with the slug `slug`, or the length when none has it.
pub open spec fn slug_index(s: Seq<ModelInfo>, slug: Seq<char>) -> int
    decreases s.len(),
{
    if s.len() == 0 {
        0
    } else if slug_index(s.drop_last(), slug) < s.len() - 1 {
        slug_index(s.drop_last(), slug)
    } else if s.last().slug@ == slug {
        s.len() - 1
    } else {
        s.len() as int
    }
}

/// `s` with `m` in place of its first entry of the same slug, or with `m`
/// added at the end.
pub open spec fn upserted(s: Seq<ModelInfo>, m: ModelInfo) -> Seq<ModelInfo> {
    if slug_index(s, m.slug@) < s.len() {
        s.update(slug_index(s, m.slug@), m)
    } else {
        s.push(m)
    }
}

/// The bundled entries with each remote entry put in, in order.
pub open spec fn merged_models(existing: Seq<ModelInfo>, remote: Seq<ModelInfo>) -> Seq<ModelInfo>
    decreases remote.len(),
{
    if remote.len() == 0 {
        existing
    } else {
        upserted(merged_models(existing, remote.drop_last()), remote.last())
    }
}

proof fn lemma_slug_index(s: Seq<ModelInfo>, slug: Seq<char>)
    ensures
        0 <= slug_index(s, slug) <= s.len(),
        slug_index(s, slug) < s.len() ==> s[slug_index(s, slug)].slug@ == slug,
        forall|j: int| 0 <= j < slug_index(s, slug) ==> (#[trigger] s[j]).slug@ != slug,
    decreases s.len(),
{
    if s.len() > 0 {
        lemma_slug_index(s.drop_last(), slug);
        assert forall|j: int| 0 <= j < slug_index(s, slug) implies (#[trigger] s[j]).slug@ != slug by {
            if j < s.len() - 1 {
                assert(s.drop_last()[j] == s[j]);
            }
        }
        if slug_index(s, slug) < s.len() - 1 {
            assert(s.drop_last()[slug_index(s, slug)] == s[slug_index(s, slug)]);
        }
    }
}

fn position_of_slug(models: &Vec<ModelInfo>, slug: &str) -> (r: usize)
    ensures
        r == slug_index(models@, slug@),
{
    proof {
        lemma_slug_index(models@, slug@);
    }
    let mut i: usize = 0;
    while i < models.len()
        invariant
            i <= models.len(),
            forall|j: int| 0 <= j < i ==> (#[trigger] models@[j]).slug@ != slug@,
            0 <= slug_index(models@, slug@) <= models@.len(),
            slug_index(models@, slug@) < models@.len() ==> models@[slug_index(models@, slug@)].slug@
                == slug@,
            forall|j: int| 0 <= j < slug_index(models@, slug@) ==> (#[trigger] models@[j]).slug@ != slug@,
        decreases models.len() - i,
    {
        if str_eq(models[i].slug.as_str(), slug) {
            return i;
        }
        i = i + 1;
    }
    i
}

/// The catalog after a remote update: the remote entries alone when they
/// replace the bundled ones, else the bundled entries with the remote ones
/// put in by slug.
pub fn apply_remote_models(
    remote: Vec<ModelInfo>,
    bundled: Vec<ModelInfo>,
    signed_in_with_chatgpt: bool,
) -> (r: Vec<ModelInfo>)
    ensures
        remote_models_only(remote@, signed_in_with_chatgpt) ==> r@ == remote@,
        !remote_models_only(remote@, signed_in_with_chatgpt) ==> r@ == merged_models(bundled@, remote@),
{
    if should_use_remote_models_only(&remote, signed_in_with_chatgpt) {
        return remote;
    }
    let ghost all = remote@;
    let mut existing = bundled;
    let ghost start = existing@;
    for model in it: remote
        invariant
            all == it.seq(),
            existing@ == merged_models(start, all.take(it.index() as int)),
    {
        let ghost i = it.index();
        proof {
            assert(all.take(i + 1).drop_last() =~= all.take(i as int));
            assert(all.take(i + 1).last() == all[i as int]);
        }
        let at = position_of_slug(&existing, model.slug.as_str());
        if at < existing.len() {
            existing.set(at, model);
        } else {
            existing.push(model);
        }
    }
    proof {
        assert(all.take(all.len() as int) =~= all);
    }
    existing
}

proof fn lemma_slug_index_is(s: Seq<ModelInfo>, x: Seq<char>, j: int)
    requires
        0 <= j <= s.len(),
        j < s.len() ==> s[j].slug@ == x,
        forall|i: int| 0 <= i < j ==> (#[trigger] s[i]).slug@ != x,
    ensures
        slug_index(s, x) == j,
{
    lemma_slug_index(s, x);
    let k = slug_index(s, x);
    if k < j {
        assert(s[k].slug@ == x);
    } else if k > j {
        assert(s[j].slug@ != x);
    }
}

proof fn lemma_upsert(s: Seq<ModelInfo>, m: ModelInfo, x: Seq<char>)
    ensures
        upserted(s, m).len() >= s.len(),
        slug_index(upserted(s, m), m.slug@) < upserted(s, m).len(),
        upserted(s, m)[slug_index(upserted(s, m), m.slug@)] == m,
        x != m.slug@ && slug_index(s, x) < s.len() ==> slug_index(upserted(s, m), x) == slug_index(s, x)
            && upserted(s, m)[slug_index(s, x)] == s[slug_index(s, x)],
{
    lemma_slug_index(s, m.slug@);
    lemma_slug_index(s, x);
    let t = upserted(s, m);
    let p = slug_index(s, m.slug@);
    if p < s.len() {
        assert forall|i: int| 0 <= i < p implies (#[trigger] t[i]).slug@ != m.slug@ by {
            assert(t[i] == s[i]);
        }
        lemma_slug_index_is(t, m.slug@, p);
    } else {
        assert forall|i: int| 0 <= i < s.len() implies (#[trigger] t[i]).slug@ != m.slug@ by {
            assert(t[i] == s[i]);
        }
        lemma_slug_index_is(t, m.slug@, s.len() as int);
    }
    if x != m.slug@ && slug_index(s, x) < s.len() {
        let q = slug_index(s, x);
        assert(q != p);
        assert forall|i: int| 0 <= i < q implies (#[trigger] t[i]).slug@ != x by {
            if i != p || p >= s.len() {
                assert(t[i] == s[i]);
            }
        }
        assert(t[q] == s[q]);
        lemma_slug_index_is(t, x, q);
    }
}

/// Whether `k` is the last position of `remote` with its slug.
pub open spec fn last_with_slug(remote: Seq<ModelInfo>, k: int) -> bool {
    0 <= k < remote.len() && forall|j: int| k < j < remote.len() ==> (#[trigger] remote[j]).slug@ != remote[k].slug@
}

/// A remote update overrides the catalog by slug: the merged catalog holds,
/// under the slug of each remote entry, the last remote entry of that slug,
/// and every slug of the bundled catalog is still there.
pub proof fn law_remote_models_override_by_slug(existing: Seq<ModelInfo>, remote: Seq<ModelInfo>, k: int)
    requires
        last_with_slug(remote, k),
    ensures
        slug_index(merged_models(existing, remote), remote[k].slug@) < merged_models(existing, remote).len(),
        merged_models(existing, remote)[slug_index(merged_models(existing, remote), remote[k].slug@)]
            == remote[k],
    decreases remote.len(),
{
    let prev = remote.drop_last();
    let last = remote.last();
    let x = remote[k].slug@;
    assert(merged_models(existing, remote) == upserted(merged_models(existing, prev), last));
    lemma_upsert(merged_models(existing, prev), last, x);
    if k < remote.len() - 1 {
        assert(prev[k] == remote[k]);
        assert forall|j: int| k < j < prev.len() implies (#[trigger] prev[j]).slug@ != prev[k].slug@ by {
            assert(prev[j] == remote[j]);
        }
        law_remote_models_override_by_slug(existing, prev, k);
        assert(last.slug@ != x);
    }
}

/// No slug of the bundled catalog is lost by a remote update.
pub proof fn law_merge_keeps_bundled_slugs(existing: Seq<ModelInfo>, remote: Seq<ModelInfo>, i: int)
    requires
        0 <= i < existing.len(),
    ensures
        slug_index(merged_models(existing, remote), existing[i].slug@) < merged_models(existing, remote).len(),
    decreases remote.len(),
{
    let x = existing[i].slug@;
    if remote.len() == 0 {
        assert(merged_models(existing, remote) == existing);
        lemma_slug_index(existing, x);
        if slug_index(existing, x) == existing.len() {
            assert(existing[i].slug@ != x);
        }
    } else {
        law_merge_keeps_bundled_slugs(existing, remote.drop_last(), i);
        assert(merged_models(existing, remote) == upserted(
            merged_models(existing, remote.drop_last()),
            remote.last(),
        ));
        lemma_upsert(merged_models(existing, remote.drop_last()), remote.last(), x);
    }
}

} // verus!
