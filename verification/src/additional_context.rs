//! Additional context a client attaches to a thread, keyed by name, and the
//! store that turns changes to it into messages for the model.
use vstd::prelude::*;
use crate::models::{ContentItem, ResponseInputItem};
use crate::protocol::{AdditionalContextEntry, AdditionalContextKind};
use crate::text::{
    lemma_text_lt_asymmetric, lemma_text_lt_irreflexive, lemma_text_lt_total,
    lemma_text_lt_transitive, str_eq, str_lt, text_lt,
};

verus! {

/// What an entry holds, as plain values.
pub open spec fn entry_view(e: AdditionalContextEntry) -> (Seq<char>, AdditionalContextKind) {
    (e.value@, e.kind)
}

/// Whether the keys of `s` are strictly increasing.
pub open spec fn keys_increasing(s: Seq<(String, AdditionalContextEntry)>) -> bool {
    forall|i: int, j: int| 0 <= i < j < s.len() ==> text_lt(#[trigger] s[i].0@, #[trigger] s[j].0@)
}

/// Whether `k` is the key of one of the entries of `s`.
pub open spec fn has_key(s: Seq<(String, AdditionalContextEntry)>, k: Seq<char>) -> bool {
    exists|i: int| 0 <= i < s.len() && #[trigger] s[i].0@ == k
}

/// The map that the entries of `s` describe.
pub open spec fn entries_map(s: Seq<(String, AdditionalContextEntry)>) -> Map<
    Seq<char>,
    (Seq<char>, AdditionalContextKind),
> {
    Map::new(
        |k: Seq<char>| has_key(s, k),
        |k: Seq<char>| entry_view(s[key_index(s, k)].1),
    )
}

/// An index at which `k` is a key of `s`, if there is one.
pub open spec fn key_index(s: Seq<(String, AdditionalContextEntry)>, k: Seq<char>) -> int {
    choose|i: int| 0 <= i < s.len() && #[trigger] s[i].0@ == k
}

/// In entries with increasing keys, the map gives each key the value stored with it.
pub proof fn lemma_entries_map_at(s: Seq<(String, AdditionalContextEntry)>, i: int)
    requires
        keys_increasing(s),
        0 <= i < s.len(),
    ensures
        entries_map(s).contains_key(s[i].0@),
        entries_map(s)[s[i].0@] == entry_view(s[i].1),
{
    let k = s[i].0@;
    assert(has_key(s, k));
    let j = key_index(s, k);
    if j < i {
        assert(text_lt(s[j].0@, s[i].0@));
        lemma_text_lt_irreflexive(k);
    } else if j > i {
        assert(text_lt(s[i].0@, s[j].0@));
        lemma_text_lt_irreflexive(k);
    }
    assert(j == i);
    assert(entries_map(s)[k] == entry_view(s[j].1));
}

/// The context values a client sends: entries kept in increasing order of key,
/// each key once, as a sorted map keeps them.
pub struct AdditionalContextValues {
    entries: Vec<(String, AdditionalContextEntry)>,
}

impl AdditionalContextValues {
    #[verifier::type_invariant]
    spec fn sorted(self) -> bool {
        keys_increasing(self.entries@)
    }

    /// The entries in increasing order of key.
    pub closed spec fn pairs(&self) -> Seq<(String, AdditionalContextEntry)> {
        self.entries@
    }

    /// An empty set of values.
    pub fn new() -> (r: AdditionalContextValues)
        ensures
            r.pairs().len() == 0,
    {
        AdditionalContextValues { entries: Vec::new() }
    }

    /// The number of entries.
    pub fn len(&self) -> (r: usize)
        ensures
            r == self.pairs().len(),
    {
        self.entries.len()
    }

    /// The entries in increasing order of key.
    pub fn entries(&self) -> (r: &Vec<(String, AdditionalContextEntry)>)
        ensures
            r@ == self.pairs(),
            keys_increasing(r@),
    {
        proof {
            use_type_invariant(self);
        }
        &self.entries
    }

    /// The value stored under `key`, if any.
    pub fn get(&self, key: &str) -> (r: Option<&AdditionalContextEntry>)
        ensures
            r matches Some(e) ==> entries_map(self.pairs()).contains_key(key@) && entries_map(
                self.pairs(),
            )[key@] == entry_view(*e),
            r is None ==> !entries_map(self.pairs()).contains_key(key@),
    {
        proof {
            use_type_invariant(self);
        }
        let mut i: usize = 0;
        while i < self.entries.len()
            invariant
                i <= self.entries.len(),
                keys_increasing(self.entries@),
                forall|j: int| 0 <= j < i ==> self.entries@[j].0@ != key@,
            decreases self.entries.len() - i,
        {
            if str_eq(self.entries[i].0.as_str(), key) {
                proof {
                    lemma_entries_map_at(self.entries@, i as int);
                }
                return Some(&self.entries[i].1);
            }
            i = i + 1;
        }
        None
    }

    /// Stores `entry` under `key`, replacing what was stored there.
    pub fn insert(&mut self, key: String, entry: AdditionalContextEntry)
        ensures
            entries_map(final(self).pairs()) == entries_map(old(self).pairs()).insert(
                key@,
                entry_view(entry),
            ),
    {
        proof {
            use_type_invariant(&*self);
        }
        let mut entries: Vec<(String, AdditionalContextEntry)> = Vec::new();
        std::mem::swap(&mut entries, &mut self.entries);
        let ghost before = entries@;
        let mut i: usize = 0;
        while i < entries.len() && str_lt(entries[i].0.as_str(), key.as_str())
            invariant
                i <= entries.len(),
                entries@ == before,
                keys_increasing(before),
                forall|j: int| 0 <= j < i ==> text_lt(#[trigger] before[j].0@, key@),
            decreases entries.len() - i,
        {
            i = i + 1;
        }
        let replace = i < entries.len() && str_eq(entries[i].0.as_str(), key.as_str());
        let ghost k = key@;
        let ghost ev = entry_view(entry);
        if replace {
            entries.set(i, (key, entry));
            proof {
                assert forall|a: int, b: int| 0 <= a < b < entries@.len() implies text_lt(
                    #[trigger] entries@[a].0@,
                    #[trigger] entries@[b].0@,
                ) by {
                    assert(text_lt(before[a].0@, before[b].0@));
                }
                assert forall|q: Seq<char>| #[trigger] has_key(entries@, q) == has_key(before, q)
                    by {
                    if has_key(before, q) {
                        let w = choose|w: int| 0 <= w < before.len() && #[trigger] before[w].0@ == q;
                        assert(entries@[w].0@ == q);
                    }
                    if has_key(entries@, q) {
                        let w = choose|w: int|
                            0 <= w < entries@.len() && #[trigger] entries@[w].0@ == q;
                        assert(before[w].0@ == q);
                    }
                }
                assert forall|q: Seq<char>|
                    #[trigger] entries_map(entries@).contains_key(q) implies entries_map(
                    entries@,
                )[q] == entries_map(before).insert(k, ev)[q] by {
                    let w = choose|w: int| 0 <= w < entries@.len() && #[trigger] entries@[w].0@ == q;
                    lemma_entries_map_at(entries@, w);
                    if w != i {
                        lemma_entries_map_at(before, w);
                    }
                }
                assert(entries_map(entries@) =~= entries_map(before).insert(k, ev));
            }
        } else {
            proof {
                if i < before.len() {
                    assert(!text_lt(before[i as int].0@, k));
                    assert(before[i as int].0@ != k);
                    lemma_text_lt_total(before[i as int].0@, k);
                }
            }
            entries.insert(i, (key, entry));
            proof {
                assert forall|a: int, b: int| 0 <= a < b < entries@.len() implies text_lt(
                    #[trigger] entries@[a].0@,
                    #[trigger] entries@[b].0@,
                ) by {
                    if b < i {
                        assert(text_lt(before[a].0@, before[b].0@));
                    } else if b == i {
                        assert(text_lt(before[a].0@, k));
                    } else if a < i {
                        assert(text_lt(before[a].0@, k));
                        assert(text_lt(k, before[i as int].0@));
                        if b - 1 > i {
                            assert(text_lt(before[i as int].0@, before[b - 1].0@));
                            lemma_text_lt_transitive(k, before[i as int].0@, before[b - 1].0@);
                        }
                        lemma_text_lt_transitive(before[a].0@, k, before[b - 1].0@);
                    } else if a == i {
                        assert(text_lt(k, before[i as int].0@));
                        if b - 1 > i {
                            assert(text_lt(before[i as int].0@, before[b - 1].0@));
                            lemma_text_lt_transitive(k, before[i as int].0@, before[b - 1].0@);
                        }
                    } else {
                        assert(text_lt(before[a - 1].0@, before[b - 1].0@));
                    }
                }
                assert forall|q: Seq<char>|
                    #[trigger] has_key(entries@, q) == (has_key(before, q) || q == k) by {
                    if has_key(before, q) {
                        let w = choose|w: int| 0 <= w < before.len() && #[trigger] before[w].0@ == q;
                        if w < i {
                            assert(entries@[w].0@ == q);
                        } else {
                            assert(entries@[w + 1].0@ == q);
                        }
                    }
                    if q == k {
                        assert(entries@[i as int].0@ == q);
                    }
                    if has_key(entries@, q) {
                        let w = choose|w: int|
                            0 <= w < entries@.len() && #[trigger] entries@[w].0@ == q;
                        if w < i {
                            assert(before[w].0@ == q);
                        } else if w > i {
                            assert(before[w - 1].0@ == q);
                        }
                    }
                }
                assert forall|q: Seq<char>|
                    #[trigger] entries_map(entries@).contains_key(q) implies entries_map(
                    entries@,
                )[q] == entries_map(before).insert(k, ev)[q] by {
                    let w = choose|w: int| 0 <= w < entries@.len() && #[trigger] entries@[w].0@ == q;
                    lemma_entries_map_at(entries@, w);
                    if w < i {
                        lemma_entries_map_at(before, w);
                        assert(text_lt(q, k));
                        if q == k {
                            lemma_text_lt_irreflexive(k);
                        }
                    } else if w > i {
                        lemma_entries_map_at(before, w - 1);
                        if w - 1 > i {
                            assert(text_lt(before[i as int].0@, before[w - 1].0@));
                            lemma_text_lt_transitive(k, before[i as int].0@, before[w - 1].0@);
                        }
                        assert(text_lt(k, q));
                        if q == k {
                            lemma_text_lt_irreflexive(k);
                        }
                    }
                }
                assert(entries_map(entries@) =~= entries_map(before).insert(k, ev));
            }
        }
        self.entries = entries;
    }

    /// Values built from `(key, entry)` pairs, inserted in order, so that a
    /// later pair wins over an earlier one with the same key.
    pub fn from_pairs(pairs: Vec<(String, AdditionalContextEntry)>) -> (r: AdditionalContextValues)
        ensures
            entries_map(r.pairs()) == pairs_map(pairs@),
    {
        let mut r = AdditionalContextValues::new();
        let ghost all = pairs@;
        proof {
            assert(entries_map(r.pairs()) =~= pairs_map(all.take(0)));
        }
        for p in it: pairs
            invariant
                all == it.seq(),
                entries_map(r.pairs()) == pairs_map(all.take(it.index() as int)),
        {
            let ghost i = it.index();
            let (key, entry) = p;
            r.insert(key, entry);
            proof {
                assert(all.take(i + 1).drop_last() =~= all.take(i as int));
            }
        }
        proof {
            assert(all.take(all.len() as int) =~= all);
        }
        r
    }
}

/// The map that `(key, entry)` pairs describe when inserted in order.
pub open spec fn pairs_map(s: Seq<(String, AdditionalContextEntry)>) -> Map<
    Seq<char>,
    (Seq<char>, AdditionalContextKind),
>
    decreases s.len(),
{
    if s.len() == 0 {
        Map::empty()
    } else {
        pairs_map(s.drop_last()).insert(s.last().0@, entry_view(s.last().1))
    }
}

impl Clone for AdditionalContextValues {
    fn clone(&self) -> (r: Self)
        ensures
            r.pairs().len() == self.pairs().len(),
            forall|i: int|
                0 <= i < self.pairs().len() ==> (#[trigger] r.pairs()[i]).0@ == self.pairs()[i].0@
                    && entry_view(r.pairs()[i].1) == entry_view(self.pairs()[i].1),
            entries_map(r.pairs()) == entries_map(self.pairs()),
    {
        proof {
            use_type_invariant(self);
        }
        let mut entries: Vec<(String, AdditionalContextEntry)> = Vec::new();
        let mut i: usize = 0;
        while i < self.entries.len()
            invariant
                i <= self.entries.len(),
                entries@.len() == i,
                keys_increasing(self.entries@),
                forall|j: int|
                    0 <= j < i ==> (#[trigger] entries@[j]).0@ == self.entries@[j].0@ && entry_view(
                        entries@[j].1,
                    ) == entry_view(self.entries@[j].1),
            decreases self.entries.len() - i,
        {
            let key = self.entries[i].0.clone();
            let value = self.entries[i].1.value.clone();
            entries.push((key, AdditionalContextEntry { value, kind: self.entries[i].1.kind }));
            i = i + 1;
        }
        proof {
            assert forall|a: int, b: int| 0 <= a < b < entries@.len() implies text_lt(
                #[trigger] entries@[a].0@,
                #[trigger] entries@[b].0@,
            ) by {
                assert(text_lt(self.entries@[a].0@, self.entries@[b].0@));
            }
            assert forall|q: Seq<char>| #[trigger] has_key(entries@, q) == has_key(self.entries@, q)
                by {
                if has_key(entries@, q) {
                    let w = choose|w: int| 0 <= w < entries@.len() && #[trigger] entries@[w].0@ == q;
                    assert(self.entries@[w].0@ == q);
                }
                if has_key(self.entries@, q) {
                    let w = choose|w: int|
                        0 <= w < self.entries@.len() && #[trigger] self.entries@[w].0@ == q;
                    assert(entries@[w].0@ == q);
                }
            }
            assert forall|q: Seq<char>| #[trigger]
                entries_map(entries@).contains_key(q) implies entries_map(entries@)[q]
                == entries_map(self.entries@)[q] by {
                let w = choose|w: int| 0 <= w < entries@.len() && #[trigger] entries@[w].0@ == q;
                lemma_entries_map_at(entries@, w);
                lemma_entries_map_at(self.entries@, w);
            }
            assert(entries_map(entries@) =~= entries_map(self.entries@));
        }
        AdditionalContextValues { entries }
    }
}

/// The role of the message that carries an entry of the given kind.
pub open spec fn fragment_role(kind: AdditionalContextKind) -> Seq<char> {
    match kind {
        AdditionalContextKind::Untrusted => "user"@,
        AdditionalContextKind::Application => "developer"@,
    }
}

/// The text of the message that carries an entry: its value wrapped in a
/// tag named after its key, prefixed with `external_` when the client's
/// content is not trusted.
pub open spec fn fragment_text(key: Seq<char>, value: Seq<char>, kind: AdditionalContextKind) -> Seq<
    char,
> {
    let tag = match kind {
        AdditionalContextKind::Untrusted => "external_"@ + key,
        AdditionalContextKind::Application => key,
    };
    "<"@ + tag + ">"@ + value + "</"@ + tag + ">"@
}

/// Whether `item` is a message of the given role with the given text as its
/// only content.
pub open spec fn is_text_message(item: ResponseInputItem, role: Seq<char>, text: Seq<char>) -> bool {
    item matches ResponseInputItem::Message { role: r, content } && r@ == role && content@.len()
        == 1 && (content@[0] matches ContentItem::InputText { text: t } && t@ == text)
}

/// The message that carries one entry.
pub fn render_fragment(key: &str, entry: &AdditionalContextEntry) -> (r: ResponseInputItem)
    ensures
        is_text_message(
            r,
            fragment_role(entry.kind),
            fragment_text(key@, entry.value@, entry.kind),
        ),
{
    let mut text = String::new();
    let role;
    match entry.kind {
        AdditionalContextKind::Untrusted => {
            role = String::from_str("user");
            text.append("<external_");
            text.append(key);
            text.append(">");
            text.append(entry.value.as_str());
            text.append("</external_");
            text.append(key);
            text.append(">");
        },
        AdditionalContextKind::Application => {
            role = String::from_str("developer");
            text.append("<");
            text.append(key);
            text.append(">");
            text.append(entry.value.as_str());
            text.append("</");
            text.append(key);
            text.append(">");
        },
    }
    proof {
        reveal_strlit("<");
        reveal_strlit(">");
        reveal_strlit("</");
        reveal_strlit("<external_");
        reveal_strlit("</external_");
        reveal_strlit("external_");
        assert(text@ =~= fragment_text(key@, entry.value@, entry.kind));
    }
    let mut content: Vec<ContentItem> = Vec::new();
    content.push(ContentItem::InputText { text });
    ResponseInputItem::Message { role, content }
}

/// Whether the store already holds `entry` under `key`.
pub open spec fn stored(store: Map<Seq<char>, (Seq<char>, AdditionalContextKind)>, key: Seq<char>, entry: AdditionalContextEntry) -> bool {
    store.contains_key(key) && store[key] == entry_view(entry)
}

/// The entries of `values` that `store` does not already hold as they are.
pub open spec fn changed_entries(
    store: Map<Seq<char>, (Seq<char>, AdditionalContextKind)>,
    values: Seq<(String, AdditionalContextEntry)>,
) -> Seq<(String, AdditionalContextEntry)> {
    values.filter(|p: (String, AdditionalContextEntry)| !stored(store, p.0@, p.1))
}

/// The context last sent to the model, by key.
pub struct AdditionalContextStore {
    values: AdditionalContextValues,
}

impl AdditionalContextStore {
    /// The entries the store holds, in increasing order of key.
    pub closed spec fn pairs(&self) -> Seq<(String, AdditionalContextEntry)> {
        self.values.pairs()
    }

    /// The values the store holds, by key.
    pub open spec fn view_map(&self) -> Map<Seq<char>, (Seq<char>, AdditionalContextKind)> {
        entries_map(self.pairs())
    }

    /// An empty store.
    pub fn new() -> (r: AdditionalContextStore)
        ensures
            r.pairs().len() == 0,
            r.view_map() == Map::<Seq<char>, (Seq<char>, AdditionalContextKind)>::empty(),
    {
        let r = AdditionalContextStore { values: AdditionalContextValues::new() };
        proof {
            assert(r.view_map() =~= Map::<Seq<char>, (Seq<char>, AdditionalContextKind)>::empty());
        }
        r
    }

    /// Replaces the stored values with `values` and returns a message for
    /// each entry, in order of key, that is new or differs from what was stored.
    pub fn merge(&mut self, values: AdditionalContextValues) -> (r: Vec<ResponseInputItem>)
        ensures
            final(self).pairs() == values.pairs(),
            r@.len() == changed_entries(old(self).view_map(), values.pairs()).len(),
            forall|i: int|
                0 <= i < r@.len() ==> {
                    let p = #[trigger] changed_entries(old(self).view_map(), values.pairs())[i];
                    is_text_message(r@[i], fragment_role(p.1.kind), fragment_text(p.0@, p.1.value@, p.1.kind))
                },
    {
        let ghost store = self.view_map();
        let ghost all = values.pairs();
        let ghost pred = |p: (String, AdditionalContextEntry)| !stored(store, p.0@, p.1);
        let mut fragments: Vec<ResponseInputItem> = Vec::new();
        let entries = values.entries();
        let mut i: usize = 0;
        while i < entries.len()
            invariant
                i <= entries.len(),
                entries@ == all,
                store == self.view_map(),
                pred == (|p: (String, AdditionalContextEntry)| !stored(store, p.0@, p.1)),
                fragments@.len() == all.take(i as int).filter(pred).len(),
                forall|j: int|
                    0 <= j < fragments@.len() ==> {
                        let p = #[trigger] all.take(i as int).filter(pred)[j];
                        is_text_message(fragments@[j], fragment_role(p.1.kind), fragment_text(p.0@, p.1.value@, p.1.kind))
                    },
            decreases entries.len() - i,
        {
            let key = entries[i].0.as_str();
            let entry = &entries[i].1;
            let same = match self.values.get(key) {
                Some(old_entry) => str_eq(old_entry.value.as_str(), entry.value.as_str())
                    && old_entry.kind == entry.kind,
                None => false,
            };
            assert(same == stored(store, all[i as int].0@, all[i as int].1));
            proof {
                assert(all.take(i + 1) =~= all.take(i as int).push(all[i as int]));
                all.take(i as int).lemma_filter_push(all[i as int], pred);
            }
            if !same {
                let item = render_fragment(key, entry);
                fragments.push(item);
            }
            i = i + 1;
        }
        proof {
            assert(all.take(all.len() as int) =~= all);
        }
        self.values = values;
        fragments
    }
}

impl Default for AdditionalContextStore {
    fn default() -> (r: Self)
        ensures
            r.pairs().len() == 0,
    {
        AdditionalContextStore::new()
    }
}

/// Merging the same values a second time sends nothing: every entry is then
/// stored as it is.
pub proof fn law_merge_same_values_again_sends_nothing(values: AdditionalContextValues)
    requires
        keys_increasing(values.pairs()),
    ensures
        changed_entries(entries_map(values.pairs()), values.pairs()).len() == 0,
{
    let s = values.pairs();
    let store = entries_map(s);
    let pred = |p: (String, AdditionalContextEntry)| !stored(store, p.0@, p.1);
    assert forall|i: int| 0 <= i < s.len() implies !pred(#[trigger] s[i]) by {
        lemma_entries_map_at(s, i);
    }
    lemma_filter_none(s, pred);
}

/// Merging into a store that holds none of the keys sends every entry, in order.
pub proof fn law_merge_into_empty_sends_all(values: AdditionalContextValues)
    ensures
        changed_entries(Map::empty(), values.pairs()) == values.pairs(),
{
    let s = values.pairs();
    let pred = |p: (String, AdditionalContextEntry)| !stored(Map::empty(), p.0@, p.1);
    lemma_filter_all(s, pred);
}

proof fn lemma_filter_none<A>(s: Seq<A>, pred: spec_fn(A) -> bool)
    requires
        forall|i: int| 0 <= i < s.len() ==> !pred(#[trigger] s[i]),
    ensures
        s.filter(pred).len() == 0,
    decreases s.len(),
{
    if s.len() > 0 {
        assert forall|i: int| 0 <= i < s.drop_last().len() implies !pred(
            #[trigger] s.drop_last()[i],
        ) by {
            assert(s.drop_last()[i] == s[i]);
        }
        lemma_filter_none(s.drop_last(), pred);
        assert(!pred(s[s.len() - 1]));
        s.drop_last().lemma_filter_push(s.last(), pred);
        assert(s.drop_last().push(s.last()) =~= s);
    } else {
        s.lemma_filter_len(pred);
    }
}

proof fn lemma_filter_all<A>(s: Seq<A>, pred: spec_fn(A) -> bool)
    requires
        forall|i: int| 0 <= i < s.len() ==> pred(#[trigger] s[i]),
    ensures
        s.filter(pred) == s,
    decreases s.len(),
{
    if s.len() > 0 {
        assert forall|i: int| 0 <= i < s.drop_last().len() implies pred(
            #[trigger] s.drop_last()[i],
        ) by {
            assert(s.drop_last()[i] == s[i]);
        }
        lemma_filter_all(s.drop_last(), pred);
        assert(pred(s[s.len() - 1]));
        s.drop_last().lemma_filter_push(s.last(), pred);
        assert(s.drop_last().push(s.last()) =~= s);
    } else {
        s.lemma_filter_len(pred);
        assert(s.filter(pred) =~= s);
    }
}

} // verus!
