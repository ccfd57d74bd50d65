//! Feature flags: the registry of known features, the resolved set of enabled
//! features, and the `[features]` table of a configuration file.
use vstd::prelude::*;
use crate::text::{lemma_text_lt_asymmetric, lemma_text_lt_total, lemma_text_lt_transitive, str_eq, str_lt, text_lt};

verus! {

/// A feature that can be switched on or off.
#[derive(Debug, Clone, Copy, PartialEq, Eq, Structural, PartialOrd, Ord, Hash)]
pub enum Feature {
    WebSearchRequest,
    WebSearchCached,
    ShellSnapshot,
    RuntimeMetrics,
    ImageGeneration,
    ResponsesWebsocketResponseProcessed,
}

/// Position of a feature in the declaration order, which is also its `Ord` order.
pub open spec fn rank(f: Feature) -> int {
    match f {
        Feature::WebSearchRequest => 0,
        Feature::WebSearchCached => 1,
        Feature::ShellSnapshot => 2,
        Feature::RuntimeMetrics => 3,
        Feature::ImageGeneration => 4,
        Feature::ResponsesWebsocketResponseProcessed => 5,
    }
}

/// The configuration key of a feature.
pub open spec fn spec_key(f: Feature) -> Seq<char> {
    match f {
        Feature::ShellSnapshot => "shell_snapshot"@,
        Feature::WebSearchRequest => "web_search_request"@,
        Feature::WebSearchCached => "web_search_cached"@,
        Feature::RuntimeMetrics => "runtime_metrics"@,
        Feature::ImageGeneration => "image_generation"@,
        Feature::ResponsesWebsocketResponseProcessed => "responses_websocket_response_processed"@,
    }
}

/// Whether a feature is on when nothing configures it.
pub open spec fn spec_default_enabled(f: Feature) -> bool {
    f == Feature::ShellSnapshot
}

/// The order in which the registry lists the features.
pub open spec fn registry() -> Seq<Feature> {
    seq![
        Feature::ShellSnapshot,
        Feature::WebSearchRequest,
        Feature::WebSearchCached,
        Feature::RuntimeMetrics,
        Feature::ImageGeneration,
        Feature::ResponsesWebsocketResponseProcessed,
    ]
}

/// Position of a feature in the registry.
pub open spec fn registry_index(f: Feature) -> int {
    match f {
        Feature::ShellSnapshot => 0,
        Feature::WebSearchRequest => 1,
        Feature::WebSearchCached => 2,
        Feature::RuntimeMetrics => 3,
        Feature::ImageGeneration => 4,
        Feature::ResponsesWebsocketResponseProcessed => 5,
    }
}

/// The feature whose key is `k`, if any.
pub open spec fn spec_feature_for_key(k: Seq<char>) -> Option<Feature> {
    if k == "shell_snapshot"@ {
        Some(Feature::ShellSnapshot)
    } else if k == "web_search_request"@ {
        Some(Feature::WebSearchRequest)
    } else if k == "web_search_cached"@ {
        Some(Feature::WebSearchCached)
    } else if k == "runtime_metrics"@ {
        Some(Feature::RuntimeMetrics)
    } else if k == "image_generation"@ {
        Some(Feature::ImageGeneration)
    } else if k == "responses_websocket_response_processed"@ {
        Some(Feature::ResponsesWebsocketResponseProcessed)
    } else {
        None
    }
}

/// The features enabled by default.
pub open spec fn default_set() -> Set<Feature> {
    Set::new(|f: Feature| spec_default_enabled(f))
}

/// `s` after applying the key/value pairs of `m`: a key that names a feature
/// switches that feature to the given value; other keys are ignored.
pub open spec fn spec_apply_map(s: Set<Feature>, m: Map<Seq<char>, bool>) -> Set<Feature> {
    Set::new(
        |f: Feature|
            if m.contains_key(spec_key(f)) {
                m[spec_key(f)]
            } else {
                s.contains(f)
            },
    )
}

/// Key/value pairs as plain values.
pub open spec fn entries_view(s: Seq<(String, bool)>) -> Seq<(Seq<char>, bool)> {
    s.map_values(|e: (String, bool)| (e.0@, e.1))
}

/// The value of the last pair whose key is `k`.
pub open spec fn last_value_for(s: Seq<(Seq<char>, bool)>, k: Seq<char>) -> Option<bool>
    decreases s.len(),
{
    if s.len() == 0 {
        None
    } else if s.last().0 == k {
        Some(s.last().1)
    } else {
        last_value_for(s.drop_last(), k)
    }
}

/// The map that a list of pairs describes, a later pair overriding an earlier one.
pub open spec fn map_of(s: Seq<(Seq<char>, bool)>) -> Map<Seq<char>, bool> {
    Map::new(|k: Seq<char>| last_value_for(s, k) is Some, |k: Seq<char>| last_value_for(s, k)->0)
}

/// No key occurs twice.
pub open spec fn keys_unique(s: Seq<(Seq<char>, bool)>) -> bool {
    forall|i: int, j: int| 0 <= i < j < s.len() ==> s[i].0 != s[j].0
}

/// Whether the keys come in ascending order.
pub open spec fn keys_ascending(s: Seq<(Seq<char>, bool)>) -> bool {
    forall|i: int, j: int| #![trigger s[i], s[j]] 0 <= i < j < s.len() ==> text_lt(s[i].0, s[j].0)
}

/// The keys of all features, mapped to whether `s` enables them.
pub open spec fn resolved_map(s: Set<Feature>) -> Map<Seq<char>, bool> {
    Map::new(
        |k: Seq<char>| spec_feature_for_key(k) is Some,
        |k: Seq<char>| s.contains(spec_feature_for_key(k)->0),
    )
}

/// Distinct features have distinct keys, and the key of a feature leads back to it.
pub proof fn lemma_key_round_trip(f: Feature)
    ensures
        spec_feature_for_key(spec_key(f)) == Some(f),
{
    reveal_strlit("shell_snapshot");
    reveal_strlit("web_search_request");
    reveal_strlit("web_search_cached");
    reveal_strlit("runtime_metrics");
    reveal_strlit("image_generation");
    reveal_strlit("responses_websocket_response_processed");
    let a = "shell_snapshot"@;
    let b = "web_search_request"@;
    let c = "web_search_cached"@;
    let d = "runtime_metrics"@;
    let e = "image_generation"@;
    let g = "responses_websocket_response_processed"@;
    assert(a[0] != b[0]);
    assert(a[0] != c[0]);
    assert(a[1] != d[1]);
    assert(a[0] != e[0]);
    assert(a[0] != g[0]);
    assert(b.len() != c.len());
    assert(b[0] != d[0]);
    assert(b[0] != e[0]);
    assert(b[0] != g[0]);
    assert(c[0] != d[0]);
    assert(c[0] != e[0]);
    assert(c[0] != g[0]);
    assert(d[0] != e[0]);
    assert(d[1] != g[1]);
    assert(e[0] != g[0]);
}

/// Every key that names a feature is that feature's key.
pub proof fn lemma_feature_for_key_inverse(k: Seq<char>)
    ensures
        (spec_feature_for_key(k) matches Some(f) ==> spec_key(f) == k),
{
}

/// `last_value_for` of a pushed pair.
proof fn lemma_last_value_push(s: Seq<(Seq<char>, bool)>, e: (Seq<char>, bool), k: Seq<char>)
    ensures
        last_value_for(s.push(e), k) == if e.0 == k {
            Some(e.1)
        } else {
            last_value_for(s, k)
        },
{
    assert(s.push(e).drop_last() =~= s);
}

/// With unique keys, the value for a key is the one at its only position.
proof fn lemma_last_value_unique(s: Seq<(Seq<char>, bool)>, i: int)
    requires
        keys_unique(s),
        0 <= i < s.len(),
    ensures
        last_value_for(s, s[i].0) == Some(s[i].1),
    decreases s.len(),
{
    if i != s.len() - 1 {
        assert(s.last().0 != s[i].0);
        assert(keys_unique(s.drop_last()));
        lemma_last_value_unique(s.drop_last(), i);
    }
}

/// A key with no pair has no value.
proof fn lemma_last_value_absent(s: Seq<(Seq<char>, bool)>, k: Seq<char>)
    requires
        forall|i: int| 0 <= i < s.len() ==> s[i].0 != k,
    ensures
        last_value_for(s, k) is None,
    decreases s.len(),
{
    if s.len() > 0 {
        lemma_last_value_absent(s.drop_last(), k);
    }
}

/// One entry of the feature registry.
#[derive(Debug, Clone, Copy)]
pub struct FeatureSpec {
    pub id: Feature,
    pub key: &'static str,
    pub default_enabled: bool,
}

impl FeatureSpec {
    /// The spec describes feature `f` faithfully.
    pub open spec fn describes(&self, f: Feature) -> bool {
        &&& self.id == f
        &&& self.key@ == spec_key(f)
        &&& self.default_enabled == spec_default_enabled(f)
    }
}

/// The registry of known features, in registry order.
pub fn feature_specs() -> (v: Vec<FeatureSpec>)
    ensures
        v.len() == registry().len(),
        forall|i: int| 0 <= i < v.len() ==> (#[trigger] v[i]).describes(registry()[i]),
{
    let mut v: Vec<FeatureSpec> = Vec::new();
    v.push(Feature::ShellSnapshot.info());
    v.push(Feature::WebSearchRequest.info());
    v.push(Feature::WebSearchCached.info());
    v.push(Feature::RuntimeMetrics.info());
    v.push(Feature::ImageGeneration.info());
    v.push(Feature::ResponsesWebsocketResponseProcessed.info());
    v
}

/// The feature at position `k` of the `Ord` order.
pub fn feature_of_rank(k: usize) -> (f: Feature)
    requires
        k < 6,
    ensures
        rank(f) == k,
{
    if k == 0 {
        Feature::WebSearchRequest
    } else if k == 1 {
        Feature::WebSearchCached
    } else if k == 2 {
        Feature::ShellSnapshot
    } else if k == 3 {
        Feature::RuntimeMetrics
    } else if k == 4 {
        Feature::ImageGeneration
    } else {
        Feature::ResponsesWebsocketResponseProcessed
    }
}

impl Feature {
    /// The configuration key of the feature.
    pub fn key(self) -> (r: &'static str)
        ensures
            r@ == spec_key(self),
    {
        self.info().key
    }

    /// Whether the feature is on by default.
    pub fn default_enabled(self) -> (r: bool)
        ensures
            r == spec_default_enabled(self),
    {
        self.info().default_enabled
    }

    /// The registry entry of the feature.
    pub fn info(self) -> (r: FeatureSpec)
        ensures
            r.describes(self),
    {
        match self {
            Feature::ShellSnapshot => FeatureSpec {
                id: Feature::ShellSnapshot,
                key: "shell_snapshot",
                default_enabled: true,
            },
            Feature::WebSearchRequest => FeatureSpec {
                id: Feature::WebSearchRequest,
                key: "web_search_request",
                default_enabled: false,
            },
            Feature::WebSearchCached => FeatureSpec {
                id: Feature::WebSearchCached,
                key: "web_search_cached",
                default_enabled: false,
            },
            Feature::RuntimeMetrics => FeatureSpec {
                id: Feature::RuntimeMetrics,
                key: "runtime_metrics",
                default_enabled: false,
            },
            Feature::ImageGeneration => FeatureSpec {
                id: Feature::ImageGeneration,
                key: "image_generation",
                default_enabled: false,
            },
            Feature::ResponsesWebsocketResponseProcessed => FeatureSpec {
                id: Feature::ResponsesWebsocketResponseProcessed,
                key: "responses_websocket_response_processed",
                default_enabled: false,
            },
        }
    }
}

/// The resolved set of enabled features.
#[derive(Debug, Clone, Copy, PartialEq, Eq, Structural)]
pub struct Features {
    web_search_request: bool,
    web_search_cached: bool,
    shell_snapshot: bool,
    runtime_metrics: bool,
    image_generation: bool,
    responses_websocket_response_processed: bool,
}

impl Features {
    /// Whether `f` is in the set.
    pub closed spec fn flag(self, f: Feature) -> bool {
        match f {
            Feature::WebSearchRequest => self.web_search_request,
            Feature::WebSearchCached => self.web_search_cached,
            Feature::ShellSnapshot => self.shell_snapshot,
            Feature::RuntimeMetrics => self.runtime_metrics,
            Feature::ImageGeneration => self.image_generation,
            Feature::ResponsesWebsocketResponseProcessed => self.responses_websocket_response_processed,
        }
    }

    fn set_flag(&mut self, f: Feature, on: bool)
        ensures
            final(self)@ == if on {
                old(self)@.insert(f)
            } else {
                old(self)@.remove(f)
            },
    {
        match f {
            Feature::WebSearchRequest => self.web_search_request = on,
            Feature::WebSearchCached => self.web_search_cached = on,
            Feature::ShellSnapshot => self.shell_snapshot = on,
            Feature::RuntimeMetrics => self.runtime_metrics = on,
            Feature::ImageGeneration => self.image_generation = on,
            Feature::ResponsesWebsocketResponseProcessed => self.responses_websocket_response_processed =
            on,
        }
        assert(final(self)@ =~= if on {
            old(self)@.insert(f)
        } else {
            old(self)@.remove(f)
        });
    }

    /// The empty set.
    pub fn empty() -> (r: Features)
        ensures
            r@ == Set::<Feature>::empty(),
    {
        let r = Features {
            web_search_request: false,
            web_search_cached: false,
            shell_snapshot: false,
            runtime_metrics: false,
            image_generation: false,
            responses_websocket_response_processed: false,
        };
        assert(r@ =~= Set::<Feature>::empty());
        r
    }

    /// The features that are on by default.
    pub fn with_defaults() -> (r: Features)
        ensures
            r@ == default_set(),
    {
        let mut set = Features::empty();
        let specs = feature_specs();
        let mut i: usize = 0;
        while i < specs.len()
            invariant
                specs.len() == registry().len(),
                forall|k: int| 0 <= k < specs.len() ==> (#[trigger] specs[k]).describes(registry()[k]),
                i <= specs.len(),
                set@ == Set::new(
                    |f: Feature| spec_default_enabled(f) && registry_index(f) < i,
                ),
            decreases specs.len() - i,
        {
            let spec = specs[i];
            let ghost before = set@;
            if spec.default_enabled {
                set.set_flag(spec.id, true);
            }
            assert(registry_index(registry()[i as int]) == i);
            assert(set@ =~= Set::new(
                |f: Feature| spec_default_enabled(f) && registry_index(f) < i + 1,
            ));
            i = i + 1;
        }
        assert(set@ =~= default_set());
        set
    }

    /// Whether `f` is enabled.
    pub fn enabled(&self, f: Feature) -> (r: bool)
        ensures
            r == self@.contains(f),
    {
        match f {
            Feature::WebSearchRequest => self.web_search_request,
            Feature::WebSearchCached => self.web_search_cached,
            Feature::ShellSnapshot => self.shell_snapshot,
            Feature::RuntimeMetrics => self.runtime_metrics,
            Feature::ImageGeneration => self.image_generation,
            Feature::ResponsesWebsocketResponseProcessed => self.responses_websocket_response_processed,
        }
    }

    /// Switches `f` on; the features come back for further changes.
    pub fn enable(&mut self, f: Feature) -> (r: &mut Self)
        ensures
            (*r)@ == old(self)@.insert(f),
            *final(self) == *final(r),
    {
        self.set_flag(f, true);
        self
    }

    /// Switches `f` off; the features come back for further changes.
    pub fn disable(&mut self, f: Feature) -> (r: &mut Self)
        ensures
            (*r)@ == old(self)@.remove(f),
            *final(self) == *final(r),
    {
        self.set_flag(f, false);
        self
    }

    /// Switches `f` on or off; the features come back for further changes.
    pub fn set_enabled(&mut self, f: Feature, enabled: bool) -> (r: &mut Self)
        ensures
            (*r)@ == if enabled {
                old(self)@.insert(f)
            } else {
                old(self)@.remove(f)
            },
            *final(self) == *final(r),
    {
        if enabled {
            self.enable(f)
        } else {
            self.disable(f)
        }
    }

    /// Applies key/value pairs in order: a key that names a feature switches it,
    /// an unknown key is skipped.
    pub fn apply_map(&mut self, m: &Vec<(String, bool)>)
        ensures
            final(self)@ == spec_apply_map(old(self)@, map_of(entries_view(m@))),
    {
        let ghost start = self@;
        let mut i: usize = 0;
        while i < m.len()
            invariant
                i <= m.len(),
                self@ == spec_apply_map(start, map_of(entries_view(m@.subrange(0, i as int)))),
            decreases m.len() - i,
        {
            let ghost before = self@;
            let (k, v) = (&m[i].0, m[i].1);
            let found = feature_for_key(k.as_str());
            match found {
                Some(feat) => {
                    if v {
                        self.enable(feat);
                    } else {
                        self.disable(feat);
                    }
                },
                None => {},
            }
            proof {
                let pre = entries_view(m@.subrange(0, i as int));
                let post = entries_view(m@.subrange(0, i + 1));
                assert(post =~= pre.push((m@[i as int].0@, m@[i as int].1)));
                assert forall|f: Feature| #[trigger] self@.contains(f) == spec_apply_map(
                    start,
                    map_of(post),
                ).contains(f) by {
                    lemma_last_value_push(pre, (m@[i as int].0@, m@[i as int].1), spec_key(f));
                    lemma_key_round_trip(f);
                    lemma_feature_for_key_inverse(m@[i as int].0@);
                }
                assert(self@ =~= spec_apply_map(start, map_of(post)));
            }
            i = i + 1;
        }
        assert(m@.subrange(0, m.len() as int) =~= m@);
    }

    /// Applies the `[features]` table of a configuration file.
    fn apply_toml(&mut self, features: &FeaturesToml)
        ensures
            final(self)@ == spec_apply_map(old(self)@, features@),
    {
        let entries = features.entries();
        self.apply_map(&entries);
    }

    /// Resolves the enabled features: the defaults, then the configuration file,
    /// then the explicit overrides.
    pub fn from_sources(base: FeatureConfigSource<'_>, overrides: FeatureOverrides) -> (r: Features)
        ensures
            r@ == overrides.spec_apply(
                match base.features {
                    Some(t) => spec_apply_map(default_set(), t@),
                    None => default_set(),
                },
            ),
    {
        let mut features = Features::with_defaults();
        match base.features {
            Some(feature_entries) => {
                features.apply_toml(feature_entries);
            },
            None => {},
        }
        overrides.apply(&mut features);
        features.normalize_dependencies();
        features
    }

    /// The enabled features in `Ord` order.
    pub fn enabled_features(&self) -> (r: Vec<Feature>)
        ensures
            r@.to_set() == self@,
            forall|i: int, j: int| 0 <= i < j < r.len() ==> rank(r[i]) < rank(r[j]),
    {
        let mut r: Vec<Feature> = Vec::new();
        let mut k: usize = 0;
        while k < 6
            invariant
                k <= 6,
                r@.to_set() == self@.filter(|f: Feature| rank(f) < k),
                forall|i: int, j: int| 0 <= i < j < r.len() ==> rank(r[i]) < rank(r[j]),
                forall|i: int| 0 <= i < r.len() ==> rank(#[trigger] r[i]) < k,
            decreases 6 - k,
        {
            let f = feature_of_rank(k);
            let ghost r0 = r@;
            if self.enabled(f) {
                r.push(f);
                proof {
                    r0.lemma_push_to_set_commute(f);
                }
            }
            assert(r@.to_set() =~= self@.filter(|g: Feature| rank(g) < k + 1));
            k = k + 1;
        }
        assert(self@.filter(|f: Feature| rank(f) < 6) =~= self@);
        r
    }

    /// Resolves implications between features; no feature currently implies another.
    pub fn normalize_dependencies(&mut self)
        ensures
            *final(self) == *old(self),
    {
    }

    /// The features whose state differs from their default, with their state:
    /// what is reported in metrics.
    pub fn non_default_states(&self) -> (r: Vec<(&'static str, bool)>)
        ensures
            forall|i: int|
                0 <= i < r.len() ==> {
                    let f = choose|f: Feature| spec_key(f) == r[i].0@;
                    &&& exists|f: Feature| spec_key(f) == (#[trigger] r[i]).0@
                    &&& r[i].1 == self@.contains(f)
                    &&& r[i].1 != spec_default_enabled(f)
                },
            forall|f: Feature|
                self@.contains(f) != spec_default_enabled(f) ==> exists|i: int|
                    0 <= i < r.len() && (#[trigger] r[i]).0@ == spec_key(f),
    {
        let specs = feature_specs();
        let mut r: Vec<(&'static str, bool)> = Vec::new();
        let mut i: usize = 0;
        while i < specs.len()
            invariant
                specs.len() == registry().len(),
                forall|k: int| 0 <= k < specs.len() ==> (#[trigger] specs[k]).describes(registry()[k]),
                i <= specs.len(),
                forall|j: int|
                    0 <= j < r.len() ==> {
                        let f = choose|f: Feature| spec_key(f) == r[j].0@;
                        &&& exists|f: Feature| spec_key(f) == (#[trigger] r[j]).0@
                        &&& r[j].1 == self@.contains(f)
                        &&& r[j].1 != spec_default_enabled(f)
                    },
                forall|f: Feature|
                    registry_index(f) < i && self@.contains(f) != spec_default_enabled(f)
                        ==> exists|j: int| 0 <= j < r.len() && (#[trigger] r[j]).0@ == spec_key(f),
            decreases specs.len() - i,
        {
            let spec = specs[i];
            let on = self.enabled(spec.id);
            let ghost r0 = r@;
            if on != spec.default_enabled {
                r.push((spec.key, on));
                proof {
                    let g = spec.id;
                    assert(spec_key(g) == r@[r.len() - 1].0@);
                    let f = choose|f: Feature| spec_key(f) == r@[r.len() - 1].0@;
                    lemma_key_round_trip(f);
                    lemma_key_round_trip(g);
                    assert(f == g);
                }
            }
            proof {
                assert(registry_index(registry()[i as int]) == i);
                assert forall|f: Feature|
                    registry_index(f) < i + 1 && self@.contains(f) != spec_default_enabled(f)
                        implies exists|j: int|
                    0 <= j < r.len() && (#[trigger] r[j]).0@ == spec_key(f) by {
                    if registry_index(f) == i {
                        assert(f == spec.id);
                        assert(r@[r.len() - 1].0@ == spec_key(f));
                    } else {
                        let j = choose|j: int| 0 <= j < r0.len() && (#[trigger] r0[j]).0@ == spec_key(f);
                        assert(r@[j] == r0[j]);
                    }
                }
            }
            i = i + 1;
        }
        r
    }
}

impl View for Features {
    type V = Set<Feature>;

    closed spec fn view(&self) -> Set<Feature> {
        Set::new(|f: Feature| self.flag(f))
    }
}

/// The empty set of features.
impl Default for Features {
    fn default() -> (r: Features)
        ensures
            r@ == Set::<Feature>::empty(),
    {
        Features::empty()
    }
}

/// Explicit overrides given on the command line.
#[derive(Debug, Clone, Default)]
pub struct FeatureOverrides {
    pub web_search_request: Option<bool>,
}

impl FeatureOverrides {
    /// `s` after the overrides.
    pub open spec fn spec_apply(self, s: Set<Feature>) -> Set<Feature> {
        match self.web_search_request {
            Some(true) => s.insert(Feature::WebSearchRequest),
            Some(false) => s.remove(Feature::WebSearchRequest),
            None => s,
        }
    }

    fn apply(self, features: &mut Features)
        ensures
            final(features)@ == self.spec_apply(old(features)@),
    {
        if let Some(enabled) = self.web_search_request {
            if enabled {
                features.enable(Feature::WebSearchRequest);
            } else {
                features.disable(Feature::WebSearchRequest);
            }
        }
    }
}

/// Where the configured feature table comes from.
#[derive(Debug, Clone, Copy, Default)]
pub struct FeatureConfigSource<'a> {
    pub features: Option<&'a FeaturesToml>,
}

/// The feature of a configuration key.
pub fn feature_for_key(key: &str) -> (r: Option<Feature>)
    ensures
        r == spec_feature_for_key(key@),
{
    if str_eq(key, "shell_snapshot") {
        Some(Feature::ShellSnapshot)
    } else if str_eq(key, "web_search_request") {
        Some(Feature::WebSearchRequest)
    } else if str_eq(key, "web_search_cached") {
        Some(Feature::WebSearchCached)
    } else if str_eq(key, "runtime_metrics") {
        Some(Feature::RuntimeMetrics)
    } else if str_eq(key, "image_generation") {
        Some(Feature::ImageGeneration)
    } else if str_eq(key, "responses_websocket_response_processed") {
        Some(Feature::ResponsesWebsocketResponseProcessed)
    } else {
        None
    }
}

/// The feature of a configuration key, looked up in the registry.
pub fn canonical_feature_for_key(key: &str) -> (r: Option<Feature>)
    ensures
        r == spec_feature_for_key(key@),
{
    let specs = feature_specs();
    let mut i: usize = 0;
    while i < specs.len()
        invariant
            specs.len() == registry().len(),
            forall|k: int| 0 <= k < specs.len() ==> (#[trigger] specs[k]).describes(registry()[k]),
            i <= specs.len(),
            forall|k: int| 0 <= k < i ==> spec_key(registry()[k]) != key@,
        decreases specs.len() - i,
    {
        if str_eq(specs[i].key, key) {
            proof {
                lemma_key_round_trip(specs[i as int].id);
            }
            return Some(specs[i].id);
        }
        i = i + 1;
    }
    proof {
        if let Some(f) = spec_feature_for_key(key@) {
            lemma_feature_for_key_inverse(key@);
            assert(registry()[registry_index(f)] == f);
        }
    }
    None
}

/// Whether `key` names a known feature.
pub fn is_known_feature_key(key: &str) -> (r: bool)
    ensures
        r == (spec_feature_for_key(key@) is Some),
{
    feature_for_key(key).is_some()
}

/// The `[features]` table of a configuration file: feature keys mapped to
/// whether they are on. Each key occurs once, and the keys are kept in
/// ascending order.
#[derive(Debug, PartialEq)]
pub struct FeaturesToml {
    entries: Vec<(String, bool)>,
}

impl View for FeaturesToml {
    type V = Map<Seq<char>, bool>;

    closed spec fn view(&self) -> Map<Seq<char>, bool> {
        map_of(entries_view(self.entries@))
    }
}

impl Clone for FeaturesToml {
    fn clone(&self) -> (r: FeaturesToml)
        ensures
            r@ == self@,
    {
        FeaturesToml { entries: self.entries() }
    }
}

/// The empty table.
impl Default for FeaturesToml {
    fn default() -> (r: FeaturesToml)
        ensures
            r@ == Map::<Seq<char>, bool>::empty(),
    {
        FeaturesToml::from_entries(Vec::new())
    }
}

impl FeaturesToml {
    #[verifier::type_invariant]
    closed spec fn wf(self) -> bool {
        keys_unique(entries_view(self.entries@)) && keys_ascending(entries_view(self.entries@))
    }

    /// A table holding the given pairs; a later pair for the same key wins.
    pub fn from_entries(entries: Vec<(String, bool)>) -> (r: FeaturesToml)
        ensures
            r@ == map_of(entries_view(entries@)),
    {
        let empty: Vec<(String, bool)> = Vec::new();
        assert(entries_view(empty@) =~= Seq::<(Seq<char>, bool)>::empty());
        let mut r = FeaturesToml { entries: empty };
        proof {
            assert(r@ =~= map_of(entries_view(entries@.subrange(0, 0))));
        }
        let mut i: usize = 0;
        while i < entries.len()
            invariant
                i <= entries.len(),
                r@ == map_of(entries_view(entries@.subrange(0, i as int))),
            decreases entries.len() - i,
        {
            let k = entries[i].0.clone();
            r.insert(k, entries[i].1);
            proof {
                let pre = entries_view(entries@.subrange(0, i as int));
                let post = entries_view(entries@.subrange(0, i + 1));
                let e = (entries@[i as int].0@, entries@[i as int].1);
                assert(post =~= pre.push(e));
                assert forall|k: Seq<char>| #[trigger] last_value_for(post, k) == (if e.0 == k {
                    Some(e.1)
                } else {
                    last_value_for(pre, k)
                }) by {
                    lemma_last_value_push(pre, e, k);
                }
                assert(r@ =~= map_of(post));
            }
            i = i + 1;
        }
        assert(entries@.subrange(0, entries.len() as int) =~= entries@);
        r
    }

    /// The pairs of the table, each key once, in ascending order of keys.
    pub fn entries(&self) -> (r: Vec<(String, bool)>)
        ensures
            keys_unique(entries_view(r@)),
            keys_ascending(entries_view(r@)),
            map_of(entries_view(r@)) == self@,
    {
        proof {
            use_type_invariant(self);
        }
        let mut r: Vec<(String, bool)> = Vec::new();
        let mut i: usize = 0;
        while i < self.entries.len()
            invariant
                i <= self.entries.len(),
                entries_view(r@) == entries_view(self.entries@.subrange(0, i as int)),
            decreases self.entries.len() - i,
        {
            let k = self.entries[i].0.clone();
            let ghost r0 = r@;
            r.push((k, self.entries[i].1));
            proof {
                assert(r@ == r0.push((k, self.entries@[i as int].1)));
                assert(entries_view(r@) =~= entries_view(r0).push((k@, self.entries@[i as int].1)));
                assert(entries_view(self.entries@.subrange(0, i + 1)) =~= entries_view(
                    self.entries@.subrange(0, i as int),
                ).push((self.entries@[i as int].0@, self.entries@[i as int].1)));
            }
            i = i + 1;
        }
        assert(self.entries@.subrange(0, self.entries.len() as int) =~= self.entries@);
        r
    }

    /// Sets `key` to `value`, adding the key if it is new.
    pub fn insert(&mut self, key: String, value: bool)
        ensures
            final(self)@ == old(self)@.insert(key@, value),
    {
        proof {
            use_type_invariant(&*self);
        }
        let ghost old_ev = entries_view(self.entries@);
        let ghost kv = key@;
        let mut i: usize = 0;
        while i < self.entries.len()
            invariant
                i <= self.entries.len(),
                kv == key@,
                *self == *old(self),
                old_ev == entries_view(self.entries@),
                keys_unique(old_ev),
                keys_ascending(old_ev),
                forall|k: int| 0 <= k < i ==> old_ev[k].0 != key@,
            decreases self.entries.len() - i,
        {
            if self.entries[i].0 == key {
                let mut entries: Vec<(String, bool)> = Vec::new();
                std::mem::swap(&mut entries, &mut self.entries);
                entries.set(i, (key, value));
                let ghost new_ev = entries_view(entries@);
                proof {
                    assert(new_ev =~= old_ev.update(i as int, (kv, value)));
                    assert(keys_ascending(new_ev)) by {
                        assert forall|a: int, b: int| 0 <= a < b < new_ev.len() implies text_lt(new_ev[a].0, new_ev[b].0) by {
                            assert(new_ev[a].0 == old_ev[a].0 && new_ev[b].0 == old_ev[b].0);
                        }
                    }
                    assert(keys_unique(new_ev)) by {
                        assert forall|a: int, b: int| 0 <= a < b < new_ev.len() implies new_ev[a].0
                            != new_ev[b].0 by {
                            if a == i {
                                assert(old_ev[b].0 != old_ev[a].0);
                            } else if b == i {
                                assert(old_ev[b].0 != old_ev[a].0);
                            }
                        }
                    }
                    assert forall|k: Seq<char>| #[trigger] last_value_for(new_ev, k) == (if k
                        == kv {
                        Some(value)
                    } else {
                        last_value_for(old_ev, k)
                    }) by {
                        if k == kv {
                            lemma_last_value_unique(new_ev, i as int);
                        } else {
                            if exists|j: int| 0 <= j < old_ev.len() && old_ev[j].0 == k {
                                let j = choose|j: int| 0 <= j < old_ev.len() && old_ev[j].0 == k;
                                lemma_last_value_unique(old_ev, j);
                                lemma_last_value_unique(new_ev, j);
                            } else {
                                lemma_last_value_absent(old_ev, k);
                                lemma_last_value_absent(new_ev, k);
                            }
                        }
                    }
                }
                self.entries = entries;
                assert(entries_view(self.entries@) == new_ev);
                assert(old(self)@ == map_of(old_ev));
                assert(self@ == map_of(new_ev));
                assert forall|k: Seq<char>| #[trigger] map_of(new_ev).contains_key(k) == map_of(old_ev).insert(kv, value).contains_key(k) by {
                    assert(last_value_for(new_ev, k) == (if k == kv { Some(value) } else { last_value_for(old_ev, k) }));
                }
                assert(map_of(new_ev) =~= map_of(old_ev).insert(kv, value));
                assert(self@ =~= old(self)@.insert(kv, value));
                return;
            }
            i = i + 1;
        }
        let ghost k2 = key@;
        let mut pos: usize = 0;
        while pos < self.entries.len() && !str_lt(key.as_str(), self.entries[pos].0.as_str())
            invariant
                pos <= self.entries.len(),
                kv == key@,
                old_ev == entries_view(self.entries@),
                keys_unique(old_ev),
                keys_ascending(old_ev),
                forall|k: int| 0 <= k < old_ev.len() ==> old_ev[k].0 != key@,
                forall|m: int| 0 <= m < pos ==> !text_lt(key@, #[trigger] old_ev[m].0),
            decreases self.entries.len() - pos,
        {
            pos = pos + 1;
        }
        let mut entries: Vec<(String, bool)> = Vec::new();
        std::mem::swap(&mut entries, &mut self.entries);
        entries.insert(pos, (key, value));
        proof {
            let new_ev = entries_view(entries@);
            assert(new_ev =~= old_ev.insert(pos as int, (k2, value)));
            assert forall|m: int| 0 <= m < old_ev.len() implies old_ev[m].0 != k2 by {}
            assert forall|a: int, b: int| 0 <= a < b < new_ev.len() implies new_ev[a].0 != new_ev[b].0
                && text_lt(new_ev[a].0, new_ev[b].0) by {
                if b < pos {
                    assert(new_ev[a] == old_ev[a] && new_ev[b] == old_ev[b]);
                } else if b == pos {
                    assert(new_ev[a] == old_ev[a]);
                    assert(!text_lt(k2, old_ev[a].0));
                    lemma_text_lt_total(old_ev[a].0, k2);
                } else if a == pos {
                    assert(new_ev[b] == old_ev[b - 1]);
                    assert(text_lt(k2, old_ev[pos as int].0));
                    if b - 1 > pos {
                        assert(text_lt(old_ev[pos as int].0, old_ev[b - 1].0));
                        lemma_text_lt_transitive(k2, old_ev[pos as int].0, old_ev[b - 1].0);
                    }
                    if new_ev[a].0 == new_ev[b].0 {
                        lemma_text_lt_asymmetric(k2, k2);
                    }
                } else if a < pos {
                    assert(new_ev[a] == old_ev[a] && new_ev[b] == old_ev[b - 1]);
                } else {
                    assert(new_ev[a] == old_ev[a - 1] && new_ev[b] == old_ev[b - 1]);
                }
            }
            assert(keys_unique(new_ev));
            assert(keys_ascending(new_ev));
            assert forall|k: Seq<char>| #[trigger] last_value_for(new_ev, k) == (if k == k2 {
                Some(value)
            } else {
                last_value_for(old_ev, k)
            }) by {
                if k == k2 {
                    lemma_last_value_unique(new_ev, pos as int);
                } else if exists|j: int| 0 <= j < old_ev.len() && old_ev[j].0 == k {
                    let j = choose|j: int| 0 <= j < old_ev.len() && old_ev[j].0 == k;
                    lemma_last_value_unique(old_ev, j);
                    if j < pos {
                        assert(new_ev[j] == old_ev[j]);
                        lemma_last_value_unique(new_ev, j);
                    } else {
                        assert(new_ev[j + 1] == old_ev[j]);
                        lemma_last_value_unique(new_ev, j + 1);
                    }
                } else {
                    lemma_last_value_absent(old_ev, k);
                    assert forall|i: int| 0 <= i < new_ev.len() implies new_ev[i].0 != k by {
                        if i < pos {
                            assert(new_ev[i] == old_ev[i]);
                        } else if i > pos {
                            assert(new_ev[i] == old_ev[i - 1]);
                        }
                    }
                    lemma_last_value_absent(new_ev, k);
                }
            }
        }
        self.entries = entries;
        proof {
            let new_ev = entries_view(self.entries@);
            assert(new_ev =~= old_ev.insert(pos as int, (k2, value)));
            assert forall|k: Seq<char>| #[trigger] map_of(new_ev).contains_key(k) == map_of(old_ev).insert(k2, value).contains_key(k) by {
                assert(last_value_for(new_ev, k) == (if k == k2 { Some(value) } else { last_value_for(old_ev, k) }));
            }
            assert(map_of(new_ev) =~= map_of(old_ev).insert(k2, value));
            assert(self@ =~= old(self)@.insert(k2, value));
        }
    }

    /// Records, for every known feature, whether `features` enables it.
    pub fn materialize_resolved_enabled(&mut self, features: &Features)
        ensures
            final(self)@ == old(self)@.union_prefer_right(resolved_map(features@)),
    {
        let specs = feature_specs();
        let ghost start = self@;
        let mut i: usize = 0;
        while i < specs.len()
            invariant
                specs.len() == registry().len(),
                forall|k: int| 0 <= k < specs.len() ==> (#[trigger] specs[k]).describes(registry()[k]),
                i <= specs.len(),
                self@ == start.union_prefer_right(
                    Map::new(
                        |k: Seq<char>|
                            spec_feature_for_key(k) is Some && registry_index(
                                spec_feature_for_key(k)->0,
                            ) < i,
                        |k: Seq<char>| features@.contains(spec_feature_for_key(k)->0),
                    ),
                ),
            decreases specs.len() - i,
        {
            let spec = specs[i];
            let enabled = features.enabled(spec.id);
            let key = crate::text::copy_str(spec.key);
            self.insert(key, enabled);
            proof {
                lemma_key_round_trip(spec.id);
                assert(registry_index(registry()[i as int]) == i);
                assert forall|k: Seq<char>|
                    spec_feature_for_key(k) is Some && registry_index(spec_feature_for_key(k)->0)
                        == i implies k == spec_key(spec.id) by {
                    lemma_feature_for_key_inverse(k);
                }
                assert(self@ =~= start.union_prefer_right(
                    Map::new(
                        |k: Seq<char>|
                            spec_feature_for_key(k) is Some && registry_index(
                                spec_feature_for_key(k)->0,
                            ) < i + 1,
                        |k: Seq<char>| features@.contains(spec_feature_for_key(k)->0),
                    ),
                ));
            }
            i = i + 1;
        }
        proof {
            assert(self@ =~= start.union_prefer_right(resolved_map(features@)));
        }
    }
}

/// `s` with each pinned feature set to its pinned state, in order.
pub open spec fn spec_pinned(s: Set<Feature>, pinned: Seq<(Feature, bool)>) -> Set<Feature>
    decreases pinned.len(),
{
    if pinned.len() == 0 {
        s
    } else {
        let (f, on) = pinned.last();
        let before = spec_pinned(s, pinned.drop_last());
        if on {
            before.insert(f)
        } else {
            before.remove(f)
        }
    }
}

/// A candidate feature set with the pinned features forced to their state,
/// then with implications between features resolved.
pub fn normalize_candidate(candidate: Features, pinned_features: &Vec<(Feature, bool)>) -> (r: Features)
    ensures
        r@ == spec_pinned(candidate@, pinned_features@),
{
    let mut candidate = candidate;
    let ghost start = candidate@;
    let mut i: usize = 0;
    while i < pinned_features.len()
        invariant
            i <= pinned_features.len(),
            candidate@ == spec_pinned(start, pinned_features@.take(i as int)),
        decreases pinned_features.len() - i,
    {
        let (feature, enabled) = pinned_features[i];
        proof {
            assert(pinned_features@.take(i + 1).drop_last() =~= pinned_features@.take(i as int));
        }
        candidate.set_enabled(feature, enabled);
        i = i + 1;
    }
    proof {
        assert(pinned_features@.take(pinned_features@.len() as int) =~= pinned_features@);
    }
    candidate.normalize_dependencies();
    candidate
}

/// A change to the `[features]` table of a configuration file, at the path
/// given by its segments.
#[derive(Debug, Clone, PartialEq, Eq)]
pub enum FeatureEdit {
    /// Set the value at the path.
    SetPath { segments: Vec<String>, value: bool },
    /// Remove the value at the path.
    ClearPath { segments: Vec<String> },
}

/// Whether switching the feature with key `key` to `enabled` removes its entry
/// instead of writing it: when a known feature that is off by default is
/// switched off.
pub open spec fn edit_clears(key: Seq<char>, enabled: bool) -> bool {
    !enabled && (spec_feature_for_key(key) matches Some(f) && !spec_default_enabled(f))
}

/// The path segments of a feature's entry.
pub open spec fn feature_path(key: Seq<char>) -> Seq<Seq<char>> {
    seq!["features"@, key]
}

/// The edit that switches the feature with key `key`: a feature that is off by
/// default and switched off loses its entry, so that it follows the default;
/// any other switch is written out.
pub fn feature_edit(key: &str, enabled: bool) -> (r: FeatureEdit)
    ensures
        edit_clears(key@, enabled) ==> (r matches FeatureEdit::ClearPath { segments }
            && segments@.map_values(|t: String| t@) == feature_path(key@)),
        !edit_clears(key@, enabled) ==> (r matches FeatureEdit::SetPath { segments, value }
            && value == enabled && segments@.map_values(|t: String| t@) == feature_path(key@)),
{
    let mut segments: Vec<String> = Vec::new();
    segments.push(String::from_str("features"));
    segments.push(crate::text::copy_str(key));
    proof {
        reveal_strlit("features");
        assert(segments@.map_values(|t: String| t@) =~= feature_path(key@));
    }
    let is_default_false_feature = match feature_for_key(key) {
        Some(f) => !f.default_enabled(),
        None => false,
    };
    if enabled || !is_default_false_feature {
        FeatureEdit::SetPath { segments, value: enabled }
    } else {
        FeatureEdit::ClearPath { segments }
    }
}

/// Switching a feature with its edit and resolving the table against the
/// defaults gives the requested state, whatever the table held.
pub proof fn law_feature_edit_takes_effect(m: Map<Seq<char>, bool>, f: Feature, enabled: bool)
    ensures
        ({
            let k = spec_key(f);
            let edited = if edit_clears(k, enabled) {
                m.remove(k)
            } else {
                m.insert(k, enabled)
            };
            spec_apply_map(default_set(), edited).contains(f) == enabled
        }),
{
    lemma_key_round_trip(f);
}

/// What the user wrote for a feature: a plain switch, or a table of settings
/// that may carry a switch of its own.
#[derive(Debug, Clone, PartialEq, Eq)]
pub enum FeatureToml<T> {
    Enabled(bool),
    Config(T),
}

/// Settings of a feature that carry an optional on/off switch.
pub trait FeatureConfig {
    fn enabled(&self) -> Option<bool>;

    fn set_enabled(&mut self, enabled: bool);
}

impl<T: FeatureConfig> FeatureToml<T> {
    /// The switch: the plain value, or the one the settings carry.
    pub fn enabled(&self) -> (r: Option<bool>)
        ensures
            (*self matches FeatureToml::Enabled(b) ==> r == Some(b)),
    {
        match self {
            FeatureToml::Enabled(enabled) => Some(*enabled),
            FeatureToml::Config(config) => config.enabled(),
        }
    }

    /// Sets the switch, in place of the plain value or inside the settings.
    pub fn set_enabled(&mut self, enabled: bool)
        ensures
            (*old(self) is Enabled ==> *final(self) == FeatureToml::<T>::Enabled(enabled)),
            (*old(self) is Config ==> *final(self) is Config),
    {
        match self {
            FeatureToml::Enabled(value) => *value = enabled,
            FeatureToml::Config(config) => config.set_enabled(enabled),
        }
    }
}

/// Writing out the resolved features and reading the table back gives the same
/// set of features, whatever the table held before.
pub proof fn law_materialize_then_resolve(before: FeaturesToml, after: FeaturesToml, features: Features)
    requires
        after@ == before@.union_prefer_right(resolved_map(features@)),
    ensures
        (FeatureOverrides { web_search_request: None }).spec_apply(
            spec_apply_map(default_set(), after@),
        ) == features@,
{
    assert forall|f: Feature| #[trigger] spec_apply_map(default_set(), after@).contains(f)
        == features@.contains(f) by {
        lemma_key_round_trip(f);
        assert(resolved_map(features@).contains_key(spec_key(f)));
    }
    assert(spec_apply_map(default_set(), after@) =~= features@);
}

/// The key of a feature names that feature, and a key that names a feature is
/// that feature's key.
pub proof fn law_key_lookup_round_trip(f: Feature, k: Seq<char>)
    ensures
        spec_feature_for_key(spec_key(f)) == Some(f),
        (spec_feature_for_key(k) matches Some(g) ==> spec_key(g) == k),
{
    lemma_key_round_trip(f);
}


/// Two feature sets that enable the same features are the same value.
pub proof fn law_features_equal_by_view(a: Features, b: Features)
    requires
        a@ == b@,
    ensures
        a == b,
{
    assert forall|f: Feature| a.flag(f) == b.flag(f) by {
        assert(a@.contains(f) == a.flag(f));
        assert(b@.contains(f) == b.flag(f));
    }
    assert(a.flag(Feature::WebSearchRequest) == b.flag(Feature::WebSearchRequest));
    assert(a.flag(Feature::WebSearchCached) == b.flag(Feature::WebSearchCached));
    assert(a.flag(Feature::ShellSnapshot) == b.flag(Feature::ShellSnapshot));
    assert(a.flag(Feature::RuntimeMetrics) == b.flag(Feature::RuntimeMetrics));
    assert(a.flag(Feature::ImageGeneration) == b.flag(Feature::ImageGeneration));
    assert(a.flag(Feature::ResponsesWebsocketResponseProcessed) == b.flag(
        Feature::ResponsesWebsocketResponseProcessed,
    ));
}

/// Enabling a feature twice gives the same value as enabling it once, and
/// the feature is then enabled: `y` is `x` with `f` enabled, `z` is `y` with
/// `f` enabled again.
pub proof fn law_enable_twice(x: Features, y: Features, z: Features, f: Feature)
    requires
        y@ == x@.insert(f),
        z@ == y@.insert(f),
    ensures
        z == y,
        y@.contains(f),
{
    assert(z@ =~= y@);
    law_features_equal_by_view(z, y);
}

/// Disabling a feature undoes enabling it when it was off: `y` is `x` with
/// `f` enabled, `z` is `y` with `f` disabled again.
pub proof fn law_disable_undoes_enable(x: Features, y: Features, z: Features, f: Feature)
    requires
        !x@.contains(f),
        y@ == x@.insert(f),
        z@ == y@.remove(f),
    ensures
        z == x,
        !z@.contains(f),
{
    assert(z@ =~= x@);
    law_features_equal_by_view(z, x);
}

/// Materializing a feature set into a `[features]` table and loading the
/// table back, with no overrides, gives the same feature set: `loaded` is
/// what `Features::from_sources` makes of the table.
pub proof fn law_materialize_then_load(before: FeaturesToml, after: FeaturesToml, features: Features, loaded: Features)
    requires
        after@ == before@.union_prefer_right(resolved_map(features@)),
        loaded@ == (FeatureOverrides { web_search_request: None }).spec_apply(
            spec_apply_map(default_set(), after@),
        ),
    ensures
        loaded == features,
{
    law_materialize_then_resolve(before, after, features);
    law_features_equal_by_view(loaded, features);
}

/// The command-line override of web search decides it: given `Some(b)`, the
/// feature is on exactly when `b` is, whatever the defaults and the
/// configuration table said; every other feature is left as it was, and
/// without an override nothing changes.
pub proof fn law_override_decides_web_search(o: FeatureOverrides, s: Set<Feature>)
    ensures
        o.web_search_request matches Some(b) ==> o.spec_apply(s).contains(Feature::WebSearchRequest) == b,
        forall|f: Feature| f != Feature::WebSearchRequest ==> #[trigger] o.spec_apply(s).contains(f) == s.contains(f),
        o.web_search_request is None ==> o.spec_apply(s) == s,
{
}

} // verus!
