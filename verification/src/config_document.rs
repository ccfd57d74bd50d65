//! Applying configuration edits to the text of a configuration file with
//! `toml_edit`, which keeps the file's layout and comments. The document is
//! seen through what it holds at each path of keys, each value with the text
//! written around it; each `toml_edit` step is one trusted call, and the
//! walks between them, and which decoration a written value keeps, are
//! verified here.
use vstd::prelude::*;
use crate::config_edit::{
    spec_table_step, spec_trust_level_text, table_step, ChangeView, ConfigEdit, ConfigValue,
    ConfigValueView, DocumentChange, ItemShape, TableStep, TraversalMode, TrustLevel, edit_plan, segs,
    project_needs_table, projects_step, ProjectsStep,
};
use crate::text::copy_str;

verus! {

#[verifier::external_type_specification]
#[verifier::external_body]
pub struct ExTomlDocument(toml_edit::DocumentMut);

#[verifier::external_type_specification]
#[verifier::external_body]
pub struct ExTomlTable(toml_edit::Table);

#[verifier::external_type_specification]
#[verifier::external_body]
pub struct ExTomlValue(toml_edit::Value);

/// The text written before and after a value, each when the value has its own.
pub type ValueDecor = (Option<Seq<char>>, Option<Seq<char>>);

/// What stands at a path of a TOML document. A key that holds nothing is
/// not listed, as `toml_edit` hides such keys from lookups and iteration.
/// Each value carries its decoration.
pub enum TomlItemView {
    /// A table; whether it is implicit, written only through its children.
    Table(bool),
    InlineTable(ValueDecor),
    /// A boolean, an integer or a string.
    Scalar(ConfigValueView, ValueDecor),
    /// Any other value: a float, a date or time, an array.
    OtherValue(ValueDecor),
    ArrayOfTables,
}

/// No decoration of its own: `toml_edit` writes its default spacing.
pub open spec fn no_decor() -> ValueDecor {
    (None, None)
}

/// Whether an item is a value.
pub open spec fn is_value(i: TomlItemView) -> bool {
    i is InlineTable || i is Scalar || i is OtherValue
}

/// The decoration of a value (none for a table).
pub open spec fn decor_of(i: TomlItemView) -> ValueDecor {
    match i {
        TomlItemView::InlineTable(d) => d,
        TomlItemView::Scalar(_, d) => d,
        TomlItemView::OtherValue(d) => d,
        _ => no_decor(),
    }
}

/// A value with its decoration replaced by `d`; a table as it is.
pub open spec fn with_decor(i: TomlItemView, d: ValueDecor) -> TomlItemView {
    match i {
        TomlItemView::InlineTable(_) => TomlItemView::InlineTable(d),
        TomlItemView::Scalar(v, _) => TomlItemView::Scalar(v, d),
        TomlItemView::OtherValue(_) => TomlItemView::OtherValue(d),
        _ => i,
    }
}

/// A value with nothing written after it.
pub open spec fn suffix_cleared(i: TomlItemView) -> TomlItemView {
    with_decor(i, (decor_of(i).0, Some(Seq::empty())))
}

/// The decoration a value keeps when a boolean, integer or string is written
/// over what stands at `path`: that of the value there, if any.
pub open spec fn kept_decor(m: Map<KeyPath, TomlItemView>, path: KeyPath) -> ValueDecor {
    if m.dom().contains(path) && is_value(m[path]) {
        decor_of(m[path])
    } else {
        no_decor()
    }
}

/// A table holding `m` with the entries of the inline table at `k` as a
/// table's entries: an implicit table, each entry written without what
/// followed it on its line.
pub open spec fn inline_converted(m: Map<KeyPath, TomlItemView>, k: Seq<char>) -> Map<KeyPath, TomlItemView> {
    Map::new(
        |p: KeyPath| m.dom().contains(p),
        |p: KeyPath|
            if p == seq![k] {
                TomlItemView::Table(true)
            } else if p.len() == 2 && p[0] == k {
                suffix_cleared(m[p])
            } else {
                m[p]
            },
    )
}

/// What a new table holds when made of an inline table holding `c`: the
/// same, its own values without decoration.
pub open spec fn decor_top_cleared(c: Map<KeyPath, TomlItemView>) -> Map<KeyPath, TomlItemView> {
    Map::new(
        |p: KeyPath| c.dom().contains(p),
        |p: KeyPath|
            if p.len() == 1 {
                with_decor(c[p], no_decor())
            } else {
                c[p]
            },
    )
}

/// A path of keys.
pub type KeyPath = Seq<Seq<char>>;

/// What a table holds, by path of keys from the table: every key of the
/// table and of the tables and inline tables in it, down to their values.
/// The insides of arrays and arrays of tables are not listed.
pub uninterp spec fn table_items(t: toml_edit::Table) -> Map<KeyPath, TomlItemView>;

/// What a document holds, by path of keys from its root table.
pub uninterp spec fn document_items(d: toml_edit::DocumentMut) -> Map<KeyPath, TomlItemView>;

/// The text `toml_edit` writes for a document.
pub uninterp spec fn toml_text(d: toml_edit::DocumentMut) -> Seq<char>;

/// What the document parsed from a text holds, if the text is TOML.
pub uninterp spec fn parsed_toml(text: Seq<char>) -> Option<Map<KeyPath, TomlItemView>>;

/// Nothing at any path.
pub open spec fn no_items() -> Map<KeyPath, TomlItemView> {
    Map::empty()
}

/// Whether `p` lies at or under `prefix`.
pub open spec fn under(p: KeyPath, prefix: KeyPath) -> bool {
    prefix.len() <= p.len() && p.take(prefix.len() as int) == prefix
}

/// What is left when everything at or under `prefix` goes.
pub open spec fn remove_under(m: Map<KeyPath, TomlItemView>, prefix: KeyPath) -> Map<KeyPath, TomlItemView> {
    Map::new(|p: KeyPath| m.dom().contains(p) && !under(p, prefix), |p: KeyPath| m[p])
}

/// What stands under the key `k`, by path from there.
pub open spec fn items_under(m: Map<KeyPath, TomlItemView>, k: Seq<char>) -> Map<KeyPath, TomlItemView> {
    Map::new(|p: KeyPath| p.len() > 0 && m.dom().contains(seq![k] + p), |p: KeyPath| m[seq![k] + p])
}

/// `m` with what stands under the key `k` replaced by `child`.
pub open spec fn graft(m: Map<KeyPath, TomlItemView>, k: Seq<char>, child: Map<KeyPath, TomlItemView>) -> Map<
    KeyPath,
    TomlItemView,
> {
    Map::new(
        |p: KeyPath|
            if p.len() > 1 && p[0] == k {
                child.dom().contains(p.drop_first())
            } else {
                m.dom().contains(p)
            },
        |p: KeyPath|
            if p.len() > 1 && p[0] == k {
                child[p.drop_first()]
            } else {
                m[p]
            },
    )
}

/// The shape at the key `k` of a table holding `m`.
pub open spec fn shape_in(m: Map<KeyPath, TomlItemView>, k: Seq<char>) -> ItemShape {
    if !m.dom().contains(seq![k]) {
        ItemShape::Absent
    } else {
        match m[seq![k]] {
            TomlItemView::Table(_) => ItemShape::Table,
            TomlItemView::InlineTable(_) => ItemShape::InlineTable,
            TomlItemView::Scalar(_, _) => ItemShape::OtherValue,
            TomlItemView::OtherValue(_) => ItemShape::OtherValue,
            TomlItemView::ArrayOfTables => ItemShape::ArrayOfTables,
        }
    }
}

/// What a walk step makes of the table at the key `k`, before entering it;
/// nothing when the walk stops there.
pub open spec fn stepped(m: Map<KeyPath, TomlItemView>, k: Seq<char>, mode: TraversalMode) -> Option<
    Map<KeyPath, TomlItemView>,
> {
    match spec_table_step(shape_in(m, k), mode) {
        TableStep::Enter => Some(m),
        TableStep::ConvertInlineTable => Some(inline_converted(m, k)),
        TableStep::InsertImplicitTable => Some(remove_under(m, seq![k]).insert(seq![k], TomlItemView::Table(true))),
        TableStep::ReplaceWithImplicitTable => Some(remove_under(m, seq![k]).insert(seq![k], TomlItemView::Table(true))),
        TableStep::Stop => None,
    }
}

/// Writing `v` at `path` of a table holding `m`: what the table then holds,
/// and whether the value was written. The walk creates the tables it misses
/// and stops at an array of tables, keeping what it did on the way.
pub open spec fn write_items(m: Map<KeyPath, TomlItemView>, path: KeyPath, v: ConfigValueView) -> (Map<
    KeyPath,
    TomlItemView,
>, bool)
    decreases path.len(),
{
    if path.len() == 0 {
        (m, false)
    } else if path.len() == 1 {
        (remove_under(m, path).insert(path, TomlItemView::Scalar(v, kept_decor(m, path))), true)
    } else {
        match stepped(m, path[0], TraversalMode::Create) {
            None => (m, false),
            Some(m1) => {
                let inner = write_items(items_under(m1, path[0]), path.drop_first(), v);
                (graft(m1, path[0], inner.0), inner.1)
            },
        }
    }
}

/// Writing over a value keeps the value's decoration, wherever the tables on
/// the way to it are tables already: a comment after a setting survives a
/// change of the setting.
pub proof fn law_write_keeps_decor(m: Map<KeyPath, TomlItemView>, path: KeyPath, v: ConfigValueView)
    requires
        path.len() > 0,
        m.dom().contains(path),
        is_value(m[path]),
        forall|i: int| 0 < i < path.len() ==> m.dom().contains(#[trigger] path.take(i)) && m[path.take(i)] is Table,
    ensures
        write_items(m, path, v).1,
        write_items(m, path, v).0.dom().contains(path),
        write_items(m, path, v).0[path] == TomlItemView::Scalar(v, decor_of(m[path])),
    decreases path.len(),
{
    if path.len() > 1 {
        let k = path[0];
        assert(path.take(1) =~= seq![k]);
        assert(m.dom().contains(path.take(1)));
        assert(shape_in(m, k) == ItemShape::Table);
        let c = items_under(m, k);
        let q = path.drop_first();
        assert(seq![k] + q =~= path);
        assert forall|i: int| 0 < i < q.len() implies c.dom().contains(#[trigger] q.take(i)) && c[q.take(i)] is Table by {
            assert(seq![k] + q.take(i) =~= path.take(i + 1));
        }
        law_write_keeps_decor(c, q, v);
    }
}

/// Removing what stands at `path` of a table holding `m`: what the table
/// then holds, and whether something was removed. The walk enters only
/// existing tables and inline tables, turning the latter into tables.
pub open spec fn remove_items(m: Map<KeyPath, TomlItemView>, path: KeyPath) -> (Map<KeyPath, TomlItemView>, bool)
    decreases path.len(),
{
    if path.len() == 0 {
        (m, false)
    } else if path.len() == 1 {
        (remove_under(m, path), m.dom().contains(path))
    } else {
        match stepped(m, path[0], TraversalMode::Existing) {
            None => (m, false),
            Some(m1) => {
                let inner = remove_items(items_under(m1, path[0]), path.drop_first());
                (graft(m1, path[0], inner.0), inner.1)
            },
        }
    }
}

/// The `projects` table made ready for a project's trust: kept when it is a
/// table, else a new implicit table holding the entries of an inline table
/// that are inline tables themselves, turned into tables with their own
/// header whose values lose their decoration.
pub open spec fn projects_ready(m: Map<KeyPath, TomlItemView>) -> Map<KeyPath, TomlItemView> {
    let pk = "projects"@;
    if shape_in(m, pk) == ItemShape::Table {
        m
    } else {
        let keep_inline = shape_in(m, pk) == ItemShape::InlineTable;
        Map::new(
            |p: KeyPath|
                if p.len() > 0 && p[0] == pk {
                    p.len() == 1 || (keep_inline && m.dom().contains(seq![pk, p[1]]) && m[seq![pk, p[1]]]
                        is InlineTable && m.dom().contains(p))
                } else {
                    m.dom().contains(p)
                },
            |p: KeyPath|
                if p.len() == 1 && p[0] == pk {
                    TomlItemView::Table(true)
                } else if p.len() == 2 && p[0] == pk {
                    TomlItemView::Table(false)
                } else if p.len() == 3 && p[0] == pk {
                    with_decor(m[p], no_decor())
                } else {
                    m[p]
                },
        )
    }
}

/// What a document holds after the project at `key` gets `level`: the
/// projects table made ready, the project's entry made a table unless it is
/// one, that table given its own header, and its `trust_level` set.
pub open spec fn trust_items(m: Map<KeyPath, TomlItemView>, key: Seq<char>, level: TrustLevel) -> Map<
    KeyPath,
    TomlItemView,
> {
    let pk = "projects"@;
    let m1 = projects_ready(m);
    let projects = items_under(m1, pk);
    let projects1 = if shape_in(projects, key) == ItemShape::Table {
        projects
    } else {
        remove_under(projects, seq![key]).insert(seq![key], TomlItemView::Table(false))
    };
    let entry = items_under(projects1, key);
    let entry1 = remove_under(entry, seq!["trust_level"@]).insert(
        seq!["trust_level"@],
        TomlItemView::Scalar(ConfigValueView::Text(spec_trust_level_text(level)), no_decor()),
    );
    graft(m1, pk, graft(projects1.insert(seq![key], TomlItemView::Table(false)), key, entry1))
}

/// Trusting a project: `projects` is a table, the project's entry a table
/// with its own header holding the trust level; nothing outside `projects`
/// changes, and when both were tables already, the project's other keys and
/// the other projects stay as they were.
pub proof fn law_trust_marks_project(m: Map<KeyPath, TomlItemView>, key: Seq<char>, level: TrustLevel)
    ensures
        ({
            let r = trust_items(m, key, level);
            let pk = "projects"@;
            &&& shape_in(r, pk) == ItemShape::Table
            &&& r.dom().contains(seq![pk, key]) && r[seq![pk, key]] == TomlItemView::Table(false)
            &&& r.dom().contains(seq![pk, key, "trust_level"@])
            &&& r[seq![pk, key, "trust_level"@]] == TomlItemView::Scalar(
                ConfigValueView::Text(spec_trust_level_text(level)),
                no_decor(),
            )
            &&& forall|p: KeyPath|
                !(p.len() > 0 && p[0] == pk) ==> (#[trigger] r.dom().contains(p) == m.dom().contains(p) && (
                m.dom().contains(p) ==> r[p] == m[p]))
            &&& (shape_in(m, pk) == ItemShape::Table && shape_in(items_under(m, pk), key) == ItemShape::Table)
                ==> forall|p: KeyPath|
                p.len() > 1 && p[0] == pk && !(p.len() == 2 && p[1] == key) && !(p.len() > 2 && p[1] == key && p[2]
                    == "trust_level"@) && #[trigger] m.dom().contains(p)
                    ==> r.dom().contains(p) && r[p] == m[p]
        }),
{
    let pk = "projects"@;
    let tl = "trust_level"@;
    let r = trust_items(m, key, level);
    let m1 = projects_ready(m);
    assert(m1.dom().contains(seq![pk]));
    let projects = items_under(m1, pk);
    let projects1 = if shape_in(projects, key) == ItemShape::Table {
        projects
    } else {
        remove_under(projects, seq![key]).insert(seq![key], TomlItemView::Table(false))
    };
    let entry = items_under(projects1, key);
    let entry1 = remove_under(entry, seq![tl]).insert(
        seq![tl],
        TomlItemView::Scalar(ConfigValueView::Text(spec_trust_level_text(level)), no_decor()),
    );
    let inner = graft(projects1.insert(seq![key], TomlItemView::Table(false)), key, entry1);
    assert(r == graft(m1, pk, inner));
    assert(seq![pk, key].drop_first() =~= seq![key]);
    assert(seq![pk, key, tl].drop_first() =~= seq![key, tl]);
    assert(seq![key, tl].drop_first() =~= seq![tl]);
    assert(inner.dom().contains(seq![key, tl]));
    assert forall|p: KeyPath| !(p.len() > 0 && p[0] == pk) implies #[trigger] r.dom().contains(p) == m.dom().contains(p) && (
        m.dom().contains(p) ==> r[p] == m[p]) by {
        if shape_in(m, pk) != ItemShape::Table {
            if p.len() == 1 {
                assert(p != seq![pk]);
            }
        }
    }
    if shape_in(m, pk) == ItemShape::Table && shape_in(items_under(m, pk), key) == ItemShape::Table {
        assert(m1 == m);
        assert forall|p: KeyPath|
            p.len() > 1 && p[0] == pk && !(p.len() == 2 && p[1] == key) && !(p.len() > 2 && p[1] == key && p[2] == tl)
                && #[trigger] m.dom().contains(p)
            implies r.dom().contains(p) && r[p] == m[p] by {
            let q = p.drop_first();
            assert(seq![pk] + q =~= p);
            assert(projects.dom().contains(q));
            if q.len() > 1 && q[0] == key {
                let e = q.drop_first();
                assert(seq![key] + e =~= q);
                assert(entry.dom().contains(e));
                lemma_under_single(e, tl);
            }
            if q.len() == 1 && q[0] == key {
                assert(q =~= seq![key]);
            }
        }
    }
}

/// What a document holds after one change, and whether the change took effect.
pub open spec fn change_items(m: Map<KeyPath, TomlItemView>, c: ChangeView) -> (Map<KeyPath, TomlItemView>, bool) {
    match c {
        ChangeView::Write(path, v) => write_items(m, path, v),
        ChangeView::Remove(path) => remove_items(m, path),
        ChangeView::TrustProject(path, level) => (trust_items(m, path, level), true),
    }
}

/// What a document holds after the changes, in order, and whether any took effect.
pub open spec fn changes_items(m: Map<KeyPath, TomlItemView>, cs: Seq<ChangeView>) -> (Map<KeyPath, TomlItemView>, bool)
    decreases cs.len(),
{
    if cs.len() == 0 {
        (m, false)
    } else {
        let first = change_items(m, cs[0]);
        let rest = changes_items(first.0, cs.drop_first());
        (rest.0, first.1 || rest.1)
    }
}

/// The changes of the edits, in order.
pub open spec fn edits_plan(edits: Seq<ConfigEdit>) -> Seq<ChangeView>
    decreases edits.len(),
{
    if edits.len() == 0 {
        Seq::empty()
    } else {
        edit_plan(edits[0]) + edits_plan(edits.drop_first())
    }
}

// ---- the trusted steps ----

/// Whether a table is implicit: written only through its children, without a header of its own.
pub uninterp spec fn table_is_implicit(t: toml_edit::Table) -> bool;

/// What a value holds: its own kind at the empty path, and for an inline
/// table what it holds below, by path of keys from the value.
pub uninterp spec fn value_items(v: toml_edit::Value) -> Map<KeyPath, TomlItemView>;

/// `DocumentMut::new`: an empty document, which an empty file stands for.
#[verifier::external_body]
fn new_document() -> (r: toml_edit::DocumentMut)
    ensures
        document_items(r) == no_items(),
{
    toml_edit::DocumentMut::new()
}

/// `text.parse::<DocumentMut>()`: the document the text holds, or the parse
/// error's message.
#[verifier::external_body]
fn parse_document(text: &str) -> (r: Result<toml_edit::DocumentMut, String>)
    ensures
        match r {
            Ok(d) => parsed_toml(text@) == Some(document_items(d)),
            Err(_) => parsed_toml(text@) is None,
        },
{
    text.parse::<toml_edit::DocumentMut>().map_err(|e| e.to_string())
}

/// `DocumentMut::to_string`: the document's text.
#[verifier::external_body]
fn document_text(d: &toml_edit::DocumentMut) -> (r: String)
    ensures
        r@ == toml_text(*d),
{
    d.to_string()
}

/// `DocumentMut::as_table_mut`: the document's root table.
#[verifier::external_body]
fn root_table(d: &mut toml_edit::DocumentMut) -> (r: &mut toml_edit::Table)
    ensures
        table_items(*r) == document_items(*old(d)),
        document_items(*final(d)) == table_items(*final(r)),
{
    d.as_table_mut()
}

/// `Table::get` and the kind of item found: the shape at a key. A key that
/// holds nothing is not found by `Table::get`.
#[verifier::external_body]
fn key_shape(t: &toml_edit::Table, key: &str) -> (r: ItemShape)
    ensures
        r == shape_in(table_items(*t), key@),
{
    match t.get(key) {
        None => ItemShape::Absent,
        Some(toml_edit::Item::None) => ItemShape::Absent,
        Some(toml_edit::Item::Table(_)) => ItemShape::Table,
        Some(toml_edit::Item::ArrayOfTables(_)) => ItemShape::ArrayOfTables,
        Some(toml_edit::Item::Value(v)) => match v {
            toml_edit::Value::InlineTable(_) => ItemShape::InlineTable,
            _ => ItemShape::OtherValue,
        },
    }
}

/// `Table::new`, `set_implicit` and `Table::insert` of that empty table at a
/// key; whatever stood there goes.
#[verifier::external_body]
fn insert_empty_table(t: &mut toml_edit::Table, key: &str, implicit: bool)
    ensures
        table_items(*final(t)) == remove_under(table_items(*old(t)), seq![key@]).insert(
            seq![key@],
            TomlItemView::Table(implicit),
        ),
        table_is_implicit(*final(t)) == table_is_implicit(*old(t)),
{
    let mut table = toml_edit::Table::new();
    table.set_implicit(implicit);
    t.insert(key, toml_edit::Item::Table(table));
}

/// `Table::get_mut` and `Item::as_table_mut`: the table at a key, changed in place.
#[verifier::external_body]
fn child_table<'a>(t: &'a mut toml_edit::Table, key: &str) -> (r: &'a mut toml_edit::Table)
    requires
        shape_in(table_items(*old(t)), key@) == ItemShape::Table,
    ensures
        table_items(*r) == items_under(table_items(*old(t)), key@),
        table_items(*old(t))[seq![key@]] == TomlItemView::Table(table_is_implicit(*r)),
        table_items(*final(t)) == graft(
            table_items(*old(t)).insert(seq![key@], TomlItemView::Table(table_is_implicit(*final(r)))),
            key@,
            table_items(*final(r)),
        ),
        table_is_implicit(*final(t)) == table_is_implicit(*old(t)),
{
    t.get_mut(key).and_then(toml_edit::Item::as_table_mut).unwrap()
}

/// `toml_edit::Value::from` of a boolean, an integer or a string: a value of
/// that kind, holding nothing below.
#[verifier::external_body]
fn scalar_value(v: &ConfigValue) -> (r: toml_edit::Value)
    ensures
        value_items(r) == no_items().insert(Seq::empty(), TomlItemView::Scalar(v@, no_decor())),
{
    match v {
        ConfigValue::Bool(b) => toml_edit::Value::from(*b),
        ConfigValue::Integer(i) => toml_edit::Value::from(*i),
        ConfigValue::Text(s) => toml_edit::Value::from(s.as_str()),
    }
}

/// `Value::decor_mut().clone_from(..)` with the decoration of the value at a
/// key: the value takes that decoration; what it holds does not change.
#[verifier::external_body]
fn take_decor_of(t: &toml_edit::Table, key: &str, v: &mut toml_edit::Value)
    requires
        shape_in(table_items(*t), key@) == ItemShape::InlineTable || shape_in(table_items(*t), key@)
            == ItemShape::OtherValue,
        value_items(*old(v)).dom().contains(Seq::empty()),
    ensures
        value_items(*final(v)) == value_items(*old(v)).insert(
            Seq::empty(),
            with_decor(value_items(*old(v))[Seq::empty()], decor_of(table_items(*t)[seq![key@]])),
        ),
{
    if let Some(toml_edit::Item::Value(old)) = t.get(key) {
        v.decor_mut().clone_from(old.decor());
    }
}

/// `Value::decor_mut().set_suffix("")`: nothing is written after the value;
/// what it holds and what is written before it do not change.
#[verifier::external_body]
fn clear_suffix(v: &mut toml_edit::Value)
    requires
        value_items(*old(v)).dom().contains(Seq::empty()),
    ensures
        value_items(*final(v)) == value_items(*old(v)).insert(
            Seq::empty(),
            suffix_cleared(value_items(*old(v))[Seq::empty()]),
        ),
{
    v.decor_mut().set_suffix("");
}

/// Assignment through `IndexMut` on `Table` of a value at a key; whatever
/// stood there goes, and the key keeps its own decoration.
#[verifier::external_body]
fn put_value(t: &mut toml_edit::Table, key: &str, v: toml_edit::Value)
    requires
        value_items(v).dom().contains(Seq::empty()),
    ensures
        table_items(*final(t)) == graft(
            remove_under(table_items(*old(t)), seq![key@]).insert(seq![key@], value_items(v)[Seq::empty()]),
            key@,
            value_items(v),
        ),
        table_is_implicit(*final(t)) == table_is_implicit(*old(t)),
{
    t[key] = toml_edit::Item::Value(v);
}

/// `Table::remove`: whether the key held something; it is gone with all under it.
#[verifier::external_body]
fn remove_key(t: &mut toml_edit::Table, key: &str) -> (r: bool)
    ensures
        r == table_items(*old(t)).dom().contains(seq![key@]),
        table_items(*final(t)) == remove_under(table_items(*old(t)), seq![key@]),
        table_is_implicit(*final(t)) == table_is_implicit(*old(t)),
{
    match t.remove(key) {
        None | Some(toml_edit::Item::None) => false,
        Some(_) => true,
    }
}

/// `Table::set_implicit(false)`: the table is written with its own header;
/// what it holds does not change.
#[verifier::external_body]
fn make_explicit(t: &mut toml_edit::Table)
    ensures
        table_items(*final(t)) == table_items(*old(t)),
        !table_is_implicit(*final(t)),
{
    t.set_implicit(false);
}

/// The keys of the inline table at a key (`InlineTable::iter`, which skips
/// keys that hold nothing), each once.
#[verifier::external_body]
fn inline_table_keys(t: &toml_edit::Table, key: &str) -> (r: Vec<String>)
    requires
        shape_in(table_items(*t), key@) == ItemShape::InlineTable,
    ensures
        forall|i: int, j: int| 0 <= i < j < r@.len() ==> r@[i]@ != r@[j]@,
        forall|k: Seq<char>|
            table_items(*t).dom().contains(seq![key@, k]) <==> exists|i: int| 0 <= i < r@.len() && #[trigger] r@[i]@ == k,
        forall|p: KeyPath|
            p.len() > 0 && #[trigger] table_items(*t).dom().contains(seq![key@] + p) ==> exists|i: int|
                0 <= i < r@.len() && r@[i]@ == p[0],
{
    t.get(key).and_then(toml_edit::Item::as_inline_table).map(|i| i.iter().map(|(k, _)| k.to_string()).collect()).unwrap_or_default()
}

/// A copy of the value at `entry` of the inline table at `key`
/// (`InlineTable::get` and `Clone`).
#[verifier::external_body]
fn inline_value(t: &toml_edit::Table, key: &str, entry: &str) -> (r: toml_edit::Value)
    requires
        shape_in(table_items(*t), key@) == ItemShape::InlineTable,
        table_items(*t).dom().contains(seq![key@, entry@]),
    ensures
        value_items(r) == rerooted(table_items(*t), seq![key@, entry@]),
{
    t.get(key).and_then(toml_edit::Item::as_inline_table).and_then(|i| i.get(entry)).unwrap().clone()
}

/// Whether the entry `entry` of the inline table at `key` is an inline table itself.
#[verifier::external_body]
fn inline_entry_is_inline_table(t: &toml_edit::Table, key: &str, entry: &str) -> (r: bool)
    requires
        shape_in(table_items(*t), key@) == ItemShape::InlineTable,
    ensures
        r == (table_items(*t).dom().contains(seq![key@, entry@]) && table_items(*t)[seq![key@, entry@]]
            is InlineTable),
{
    t.get(key).and_then(toml_edit::Item::as_inline_table).and_then(|i| i.get(entry)).is_some_and(
        toml_edit::Value::is_inline_table,
    )
}

/// `Table::new` with `set_implicit(true)`: an empty table written only through its children.
#[verifier::external_body]
fn new_implicit_table() -> (r: toml_edit::Table)
    ensures
        table_items(r) == no_items(),
        table_is_implicit(r),
{
    let mut table = toml_edit::Table::new();
    table.set_implicit(true);
    table
}

/// Inserts into `dst` at `entry` a table (`InlineTable::into_table`, which
/// gives the table its own header and clears the decoration of its values)
/// made of the inline table that the inline table at `key` of `src` holds at
/// `entry`.
#[verifier::external_body]
fn copy_inline_entry_into(src: &toml_edit::Table, key: &str, entry: &str, dst: &mut toml_edit::Table)
    requires
        shape_in(table_items(*src), key@) == ItemShape::InlineTable,
        table_items(*src).dom().contains(seq![key@, entry@]),
        table_items(*src)[seq![key@, entry@]] is InlineTable,
    ensures
        table_items(*final(dst)) == graft(
            remove_under(table_items(*old(dst)), seq![entry@]).insert(seq![entry@], TomlItemView::Table(false)),
            entry@,
            decor_top_cleared(items_under(items_under(table_items(*src), key@), entry@)),
        ),
        table_is_implicit(*final(dst)) == table_is_implicit(*old(dst)),
{
    let inner = src.get(key).and_then(toml_edit::Item::as_inline_table).and_then(|i| i.get(entry)).and_then(
        toml_edit::Value::as_inline_table,
    ).cloned();
    if let Some(inner) = inner {
        dst.insert(entry, toml_edit::Item::Table(inner.into_table()));
    }
}

/// `Table::insert` of a table at a key; whatever stood there goes.
#[verifier::external_body]
fn insert_table(t: &mut toml_edit::Table, key: &str, table: toml_edit::Table)
    ensures
        table_items(*final(t)) == graft(
            remove_under(table_items(*old(t)), seq![key@]).insert(
                seq![key@],
                TomlItemView::Table(table_is_implicit(table)),
            ),
            key@,
            table_items(table),
        ),
        table_is_implicit(*final(t)) == table_is_implicit(*old(t)),
{
    t.insert(key, toml_edit::Item::Table(table));
}

// ---- the walks ----

/// What stands under `prefix`, by path from there (the empty path for what is at `prefix`).
pub open spec fn rerooted(m: Map<KeyPath, TomlItemView>, prefix: KeyPath) -> Map<KeyPath, TomlItemView> {
    Map::new(|p: KeyPath| m.dom().contains(prefix + p), |p: KeyPath| m[prefix + p])
}

/// The entries among `keys` of the inline table at `key`, as a table holds
/// them once converted: each entry without what followed it on its line.
pub open spec fn inline_entries(m: Map<KeyPath, TomlItemView>, key: Seq<char>, keys: Seq<Seq<char>>) -> Map<KeyPath, TomlItemView> {
    Map::new(
        |p: KeyPath| p.len() > 0 && keys.contains(p[0]) && m.dom().contains(seq![key] + p),
        |p: KeyPath|
            if p.len() == 1 {
                suffix_cleared(m[seq![key] + p])
            } else {
                m[seq![key] + p]
            },
    )
}

proof fn lemma_push_contains(before: Seq<Seq<char>>, k: Seq<char>)
    ensures
        forall|x: Seq<char>| #[trigger] before.push(k).contains(x) == (before.contains(x) || x == k),
{
    let after = before.push(k);
    assert forall|x: Seq<char>| #[trigger] after.contains(x) == (before.contains(x) || x == k) by {
        if after.contains(x) && x != k {
            let j = choose|j: int| 0 <= j < after.len() && after[j] == x;
            assert(before[j] == x);
        }
        if before.contains(x) {
            let j = choose|j: int| 0 <= j < before.len() && before[j] == x;
            assert(after[j] == x);
        }
        if x == k {
            assert(after[before.len() as int] == k);
        }
    }
}

proof fn lemma_inline_step(m: Map<KeyPath, TomlItemView>, key: Seq<char>, before: Seq<Seq<char>>, k: Seq<char>)
    requires
        !before.contains(k),
        m.dom().contains(seq![key, k]),
    ensures
        graft(
            remove_under(inline_entries(m, key, before), seq![k]).insert(
                seq![k],
                suffix_cleared(rerooted(m, seq![key, k])[Seq::empty()]),
            ),
            k,
            rerooted(m, seq![key, k]).insert(
                Seq::empty(),
                suffix_cleared(rerooted(m, seq![key, k])[Seq::empty()]),
            ),
        ) == inline_entries(m, key, before.push(k)),
{
    lemma_push_contains(before, k);
    let r0 = inline_entries(m, key, before);
    let r1 = inline_entries(m, key, before.push(k));
    let v0 = rerooted(m, seq![key, k]);
    let v = v0.insert(Seq::empty(), suffix_cleared(v0[Seq::empty()]));
    assert(seq![key, k] + Seq::<Seq<char>>::empty() =~= seq![key, k]);
    let g = graft(remove_under(r0, seq![k]).insert(seq![k], v[Seq::empty()]), k, v);
    assert forall|p: KeyPath|
        #![trigger g.dom().contains(p)]
        #![trigger r1.dom().contains(p)]
        g.dom().contains(p) == r1.dom().contains(p) && (g.dom().contains(p) ==> g[p] == r1[p]) by {
        lemma_under_single(p, k);
        if p.len() > 1 && p[0] == k {
            assert(seq![k] + p.drop_first() =~= p);
            assert(seq![key, k] + p.drop_first() =~= seq![key] + p);
        }
        if p.len() == 1 && p[0] == k {
            assert(p =~= seq![k]);
            assert(seq![key] + p =~= seq![key, k]);
        }
    }
    assert(g.dom() =~= r1.dom());
    assert(g =~= r1);
}

proof fn lemma_inline_done(m: Map<KeyPath, TomlItemView>, key: Seq<char>, keys: Seq<Seq<char>>)
    requires
        forall|p: KeyPath| p.len() > 0 && #[trigger] m.dom().contains(seq![key] + p) ==> keys.contains(p[0]),
        shape_in(m, key) == ItemShape::InlineTable,
    ensures
        graft(
            remove_under(m, seq![key]).insert(seq![key], TomlItemView::Table(true)),
            key,
            inline_entries(m, key, keys),
        ) == inline_converted(m, key),
{
    let c = inline_entries(m, key, keys);
    let g = graft(remove_under(m, seq![key]).insert(seq![key], TomlItemView::Table(true)), key, c);
    let r = inline_converted(m, key);
    assert forall|p: KeyPath|
        #![trigger g.dom().contains(p)]
        #![trigger r.dom().contains(p)]
        g.dom().contains(p) == r.dom().contains(p) && (g.dom().contains(p) ==> g[p] == r[p]) by {
        lemma_under_single(p, key);
        if p.len() == 1 && p[0] == key {
            assert(p =~= seq![key]);
        }
        if p.len() > 1 && p[0] == key {
            let q = p.drop_first();
            assert(seq![key] + q =~= p);
            if m.dom().contains(p) {
                assert(m.dom().contains(seq![key] + q));
                assert(q[0] == p[1]);
            }
        }
    }
    assert(g.dom() =~= r.dom());
    assert(g =~= r);
}

/// Turns the inline table at a key into an implicit table holding the same
/// entries, each value written without what followed it on its line.
fn convert_inline_table(t: &mut toml_edit::Table, key: &str)
    requires
        shape_in(table_items(*old(t)), key@) == ItemShape::InlineTable,
    ensures
        table_items(*final(t)) == inline_converted(table_items(*old(t)), key@),
        table_is_implicit(*final(t)) == table_is_implicit(*old(t)),
{
    let ghost m = table_items(*t);
    let keys = inline_table_keys(t, key);
    let mut fresh = new_implicit_table();
    let mut i: usize = 0;
    proof {
        assert(inline_entries(m, key@, keys@.take(0).map_values(|k: String| k@)) =~= no_items());
    }
    while i < keys.len()
        invariant
            i <= keys.len(),
            table_items(*t) == m,
            shape_in(m, key@) == ItemShape::InlineTable,
            forall|a: int, b: int| 0 <= a < b < keys@.len() ==> keys@[a]@ != keys@[b]@,
            forall|k: Seq<char>|
                m.dom().contains(seq![key@, k]) <==> exists|j: int| 0 <= j < keys@.len() && #[trigger] keys@[j]@ == k,
            forall|p: KeyPath|
                p.len() > 0 && #[trigger] m.dom().contains(seq![key@] + p) ==> exists|j: int|
                    0 <= j < keys@.len() && keys@[j]@ == p[0],
            table_is_implicit(fresh),
            table_items(fresh) == inline_entries(m, key@, keys@.take(i as int).map_values(|k: String| k@)),
        decreases keys.len() - i,
    {
        let k = keys[i].as_str();
        let ghost before = keys@.take(i as int).map_values(|k: String| k@);
        let ghost after = keys@.take(i + 1).map_values(|k: String| k@);
        assert(after =~= before.push(k@));
        assert(!before.contains(k@)) by {
            if before.contains(k@) {
                let j = choose|j: int| 0 <= j < before.len() && before[j] == k@;
                assert(keys@[j]@ == keys@[i as int]@);
            }
        }
        assert(m.dom().contains(seq![key@, k@]));
        let mut v = inline_value(t, key, k);
        assert(value_items(v).dom().contains(Seq::empty())) by {
            assert(seq![key@, k@] + Seq::<Seq<char>>::empty() =~= seq![key@, k@]);
        }
        clear_suffix(&mut v);
        put_value(&mut fresh, k, v);
        proof {
            lemma_inline_step(m, key@, before, k@);
        }
        i = i + 1;
    }
    proof {
        let all = keys@.map_values(|k: String| k@);
        assert(keys@.take(keys@.len() as int) =~= keys@);
        assert forall|p: KeyPath| p.len() > 0 && #[trigger] m.dom().contains(seq![key@] + p) implies all.contains(p[0]) by {
            let j = choose|j: int| 0 <= j < keys@.len() && keys@[j]@ == p[0];
            assert(all[j] == p[0]);
        }
        lemma_inline_done(m, key@, all);
    }
    insert_table(t, key, fresh);
}

/// Sets a boolean, integer or string at a key. When asked to, and when a
/// value stood there, the new value keeps the old one's decoration.
fn set_scalar(t: &mut toml_edit::Table, key: &str, v: &ConfigValue, keep_decor: bool)
    ensures
        table_items(*final(t)) == remove_under(table_items(*old(t)), seq![key@]).insert(
            seq![key@],
            TomlItemView::Scalar(
                v@,
                if keep_decor {
                    kept_decor(table_items(*old(t)), seq![key@])
                } else {
                    no_decor()
                },
            ),
        ),
        table_is_implicit(*final(t)) == table_is_implicit(*old(t)),
{
    let shape = key_shape(t, key);
    let mut value = scalar_value(v);
    if keep_decor && (shape == ItemShape::InlineTable || shape == ItemShape::OtherValue) {
        take_decor_of(t, key, &mut value);
    }
    let ghost m = table_items(*t);
    let ghost vi = value_items(value);
    let ghost d = if keep_decor {
        kept_decor(m, seq![key@])
    } else {
        no_decor()
    };
    assert(vi == no_items().insert(Seq::empty(), TomlItemView::Scalar(v@, d)));
    put_value(t, key, value);
    proof {
        let want = remove_under(m, seq![key@]).insert(seq![key@], TomlItemView::Scalar(v@, d));
        let got = table_items(*t);
        assert forall|p: KeyPath| #![trigger got.dom().contains(p)] #![trigger want.dom().contains(p)]
            got.dom().contains(p) == want.dom().contains(p) && (got.dom().contains(p) ==> got[p] == want[p]) by {
            if p.len() > 1 && p[0] == key@ {
                lemma_under_single(p, key@);
                assert(!vi.dom().contains(p.drop_first()));
            }
        }
        assert(got.dom() =~= want.dom());
        assert(got =~= want);
    }
}

fn enter_step(t: &mut toml_edit::Table, key: &str, mode: TraversalMode) -> (r: bool)
    ensures
        r == (stepped(table_items(*old(t)), key@, mode) is Some),
        r ==> table_items(*final(t)) == stepped(table_items(*old(t)), key@, mode)->0,
        r ==> shape_in(table_items(*final(t)), key@) == ItemShape::Table,
        !r ==> table_items(*final(t)) == table_items(*old(t)),
        table_is_implicit(*final(t)) == table_is_implicit(*old(t)),
{
    match table_step(key_shape(t, key), mode) {
        TableStep::Stop => false,
        TableStep::Enter => true,
        TableStep::ConvertInlineTable => {
            convert_inline_table(t, key);
            true
        },
        TableStep::InsertImplicitTable | TableStep::ReplaceWithImplicitTable => {
            insert_empty_table(t, key, true);
            true
        },
    }
}

proof fn lemma_reinsert_same(m: Map<KeyPath, TomlItemView>, k: KeyPath)
    requires
        m.dom().contains(k),
    ensures
        m.insert(k, m[k]) == m,
{
    assert(m.insert(k, m[k]) =~= m);
}

/// Writes `v` at the keys `path[i..]` below table `t`.
fn write_from(t: &mut toml_edit::Table, path: &Vec<String>, i: usize, v: &ConfigValue) -> (r: bool)
    requires
        i < path@.len(),
    ensures
        (table_items(*final(t)), r) == write_items(table_items(*old(t)), segs(*path).skip(i as int), v@),
        table_is_implicit(*final(t)) == table_is_implicit(*old(t)),
    decreases path@.len() - i,
{
    let ghost rest = segs(*path).skip(i as int);
    assert(rest[0] == path@[i as int]@);
    assert(rest.drop_first() =~= segs(*path).skip(i + 1));
    let key = path[i].as_str();
    if i == path.len() - 1 {
        assert(rest =~= seq![key@]);
        set_scalar(t, key, v, true);
        return true;
    }
    if !enter_step(t, key, TraversalMode::Create) {
        return false;
    }
    let ghost m1 = table_items(*t);
    let child = child_table(t, key);
    let r = write_from(child, path, i + 1, v);
    proof {
        lemma_reinsert_same(m1, seq![key@]);
    }
    r
}

/// Removes what stands at the keys `path[i..]` below table `t`.
fn remove_from(t: &mut toml_edit::Table, path: &Vec<String>, i: usize) -> (r: bool)
    requires
        i < path@.len(),
    ensures
        (table_items(*final(t)), r) == remove_items(table_items(*old(t)), segs(*path).skip(i as int)),
        table_is_implicit(*final(t)) == table_is_implicit(*old(t)),
    decreases path@.len() - i,
{
    let ghost rest = segs(*path).skip(i as int);
    assert(rest[0] == path@[i as int]@);
    assert(rest.drop_first() =~= segs(*path).skip(i + 1));
    let key = path[i].as_str();
    if i == path.len() - 1 {
        assert(rest =~= seq![key@]);
        return remove_key(t, key);
    }
    if !enter_step(t, key, TraversalMode::Existing) {
        return false;
    }
    let ghost m1 = table_items(*t);
    let child = child_table(t, key);
    let r = remove_from(child, path, i + 1);
    proof {
        lemma_reinsert_same(m1, seq![key@]);
    }
    r
}


/// The projects table rebuilt from an inline one: each entry of the inline
/// table among `keys` that is itself an inline table, as a table whose values
/// lose their decoration.
pub open spec fn rebuilt_projects(m: Map<KeyPath, TomlItemView>, keys: Seq<Seq<char>>) -> Map<KeyPath, TomlItemView> {
    let pk = "projects"@;
    Map::new(
        |p: KeyPath|
            p.len() > 0 && keys.contains(p[0]) && m.dom().contains(seq![pk, p[0]]) && m[seq![pk, p[0]]]
                is InlineTable && m.dom().contains(seq![pk] + p),
        |p: KeyPath|
            if p.len() == 1 {
                TomlItemView::Table(false)
            } else if p.len() == 2 {
                with_decor(m[seq![pk] + p], no_decor())
            } else {
                m[seq![pk] + p]
            },
    )
}

/// The path of a project's entry.
pub open spec fn project_path(k: Seq<char>) -> KeyPath {
    seq!["projects"@, k]
}

proof fn lemma_under_single(p: KeyPath, k: Seq<char>)
    ensures
        under(p, seq![k]) == (p.len() > 0 && p[0] == k),
{
    if p.len() > 0 && p[0] == k {
        assert(p.take(1) =~= seq![k]);
    }
    if under(p, seq![k]) {
        assert(p.take(1)[0] == p[0]);
    }
}

proof fn lemma_rebuild_step(m: Map<KeyPath, TomlItemView>, before: Seq<Seq<char>>, k: Seq<char>)
    requires
        !before.contains(k),
    ensures
        (m.dom().contains(seq!["projects"@, k]) && m[seq!["projects"@, k]] is InlineTable)
            ==> graft(
            remove_under(rebuilt_projects(m, before), seq![k]).insert(seq![k], TomlItemView::Table(false)),
            k,
            decor_top_cleared(items_under(items_under(m, "projects"@), k)),
        ) == rebuilt_projects(m, before.push(k)),
        !(m.dom().contains(seq!["projects"@, k]) && m[seq!["projects"@, k]] is InlineTable)
            ==> rebuilt_projects(m, before) == rebuilt_projects(m, before.push(k)),
{
    let pk = "projects"@;
    let after = before.push(k);
    assert forall|x: Seq<char>| after.contains(x) == (before.contains(x) || x == k) by {
        if after.contains(x) && x != k {
            let j = choose|j: int| 0 <= j < after.len() && after[j] == x;
            assert(before[j] == x);
        }
        if before.contains(x) {
            let j = choose|j: int| 0 <= j < before.len() && before[j] == x;
            assert(after[j] == x);
        }
        if x == k {
            assert(after[before.len() as int] == k);
        }
    }
    let r0 = rebuilt_projects(m, before);
    let r1 = rebuilt_projects(m, after);
    if m.dom().contains(seq![pk, k]) && m[seq![pk, k]] is InlineTable {
        let a = remove_under(r0, seq![k]).insert(seq![k], TomlItemView::Table(false));
        let c = decor_top_cleared(items_under(items_under(m, pk), k));
        let g = graft(a, k, c);
        assert forall|p: KeyPath|
            #![trigger g.dom().contains(p)]
            #![trigger r1.dom().contains(p)]
            g.dom().contains(p) == r1.dom().contains(p) && (g.dom().contains(p) ==> g[p] == r1[p]) by {
            lemma_under_single(p, k);
            if p.len() > 0 {
                assert(seq![pk, p[0]] == seq![pk] + seq![p[0]]);
            }
            if p.len() > 1 && p[0] == k {
                assert(seq![k] + p.drop_first() =~= p);
                assert(seq![pk] + (seq![k] + p.drop_first()) =~= seq![pk] + p);
            }
            if p.len() == 1 && p[0] == k {
                assert(p =~= seq![k]);
                assert(seq![pk] + p =~= seq![pk, k]);
            }
        }
        assert(g.dom() =~= r1.dom());
        assert(g =~= r1);
    } else {
        assert forall|p: KeyPath|
            #![trigger r0.dom().contains(p)]
            #![trigger r1.dom().contains(p)]
            r0.dom().contains(p) == r1.dom().contains(p) by {
            if p.len() > 0 && p[0] == k {
                assert(seq![pk, p[0]] =~= seq![pk, k]);
            }
        }
        assert(r0.dom() =~= r1.dom());
        assert(r0 =~= r1);
    }
}

proof fn lemma_projects_ready(m: Map<KeyPath, TomlItemView>, keys: Seq<Seq<char>>, fresh: Map<KeyPath, TomlItemView>)
    requires
        shape_in(m, "projects"@) != ItemShape::Table,
        shape_in(m, "projects"@) == ItemShape::InlineTable ==> fresh == rebuilt_projects(m, keys) && forall|k: Seq<
            char,
        >| #[trigger] m.dom().contains(project_path(k)) ==> keys.contains(k),
        shape_in(m, "projects"@) != ItemShape::InlineTable ==> fresh == no_items(),
    ensures
        graft(
            remove_under(m, seq!["projects"@]).insert(seq!["projects"@], TomlItemView::Table(true)),
            "projects"@,
            fresh,
        ) == projects_ready(m),
{
    let pk = "projects"@;
    let a = remove_under(m, seq![pk]).insert(seq![pk], TomlItemView::Table(true));
    let g = graft(a, pk, fresh);
    let r = projects_ready(m);
    assert forall|p: KeyPath|
        #![trigger g.dom().contains(p)]
        #![trigger r.dom().contains(p)]
        g.dom().contains(p) == r.dom().contains(p) && (g.dom().contains(p) ==> g[p] == r[p]) by {
        lemma_under_single(p, pk);
        if p.len() == 1 && p[0] == pk {
            assert(p =~= seq![pk]);
        }
        if p.len() > 1 && p[0] == pk {
            let q = p.drop_first();
            assert(seq![pk] + q =~= p);
            assert(seq![pk, q[0]] =~= seq![pk, p[1]]);
            if shape_in(m, pk) == ItemShape::InlineTable && m.dom().contains(seq![pk, p[1]]) {
                assert(m.dom().contains(project_path(p[1])));
                assert(keys.contains(p[1]));
            }
        }
    }
    assert(g.dom() =~= r.dom());
    assert(g =~= r);
}

/// Records how far the project at `project_key` is trusted, as a table
/// under `projects` with an explicit header.
fn set_project_trust(root: &mut toml_edit::Table, project_key: &str, level: TrustLevel)
    ensures
        table_items(*final(root)) == trust_items(table_items(*old(root)), project_key@, level),
{
    let ghost m = table_items(*root);
    let shape = key_shape(root, "projects");
    let ghost mut keys_seen: Seq<Seq<char>> = Seq::empty();
    if let ProjectsStep::Rebuild { copy_inline_entries } = projects_step(shape) {
        let mut fresh = new_implicit_table();
        if copy_inline_entries {
            let keys = inline_table_keys(root, "projects");
            let mut i: usize = 0;
            while i < keys.len()
                invariant
                    i <= keys.len(),
                    table_items(*root) == m,
                    shape_in(m, "projects"@) == ItemShape::InlineTable,
                    forall|a: int, b: int| 0 <= a < b < keys@.len() ==> keys@[a]@ != keys@[b]@,
                    table_items(fresh) == rebuilt_projects(m, keys@.take(i as int).map_values(|k: String| k@)),
                    table_is_implicit(fresh),
                decreases keys.len() - i,
            {
                let k = keys[i].as_str();
                let ghost before = keys@.take(i as int).map_values(|k: String| k@);
                let ghost after = keys@.take(i + 1).map_values(|k: String| k@);
                assert(after =~= before.push(k@));
                assert(!before.contains(k@)) by {
                    if before.contains(k@) {
                        let j = choose|j: int| 0 <= j < before.len() && before[j] == k@;
                        assert(keys@[j]@ == keys@[i as int]@);
                    }
                }
                if inline_entry_is_inline_table(root, "projects", k) {
                    let ghost old_fresh = table_items(fresh);
                    copy_inline_entry_into(root, "projects", k, &mut fresh);
                    proof {
                        lemma_rebuild_step(m, before, k@);
                        assert(old_fresh == rebuilt_projects(m, before));
                        assert(table_items(*root) == m);
                        assert(table_items(fresh) == graft(
                            remove_under(old_fresh, seq![k@]).insert(seq![k@], TomlItemView::Table(false)),
                            k@,
                            decor_top_cleared(items_under(items_under(m, "projects"@), k@)),
                        ));
                        assert(m.dom().contains(seq!["projects"@, k@]) && m[seq!["projects"@, k@]] is InlineTable);
                        assert(table_items(fresh) == rebuilt_projects(m, before.push(k@)));
                        assert(table_items(fresh) == rebuilt_projects(m, after));
                    }
                } else {
                    proof {
                        lemma_rebuild_step(m, before, k@);
                    }
                }
                i = i + 1;
            }
            proof {
                assert(keys@.take(keys@.len() as int) =~= keys@);
                keys_seen = keys@.map_values(|k: String| k@);
                assert forall|k: Seq<char>| #[trigger] m.dom().contains(project_path(k)) implies keys_seen.contains(k) by {
                    let j = choose|j: int| 0 <= j < keys@.len() && #[trigger] keys@[j]@ == k;
                    assert(keys_seen[j] == k);
                }
            }
        }
        let ghost f = table_items(fresh);
        insert_table(root, "projects", fresh);
        proof {
            lemma_projects_ready(m, keys_seen, f);
        }
    }
    assert(table_items(*root) == projects_ready(m));
    let ghost m1 = table_items(*root);
    assert(shape_in(m1, "projects"@) == ItemShape::Table);
    let projects = child_table(root, "projects");
    if project_needs_table(key_shape(projects, project_key)) {
        insert_empty_table(projects, project_key, false);
    }
    let ghost p1 = table_items(*projects);
    assert(shape_in(p1, project_key@) == ItemShape::Table);
    let entry = child_table(projects, project_key);
    make_explicit(entry);
    let v = ConfigValue::Text(String::from_str(level.as_str()));
    set_scalar(entry, "trust_level", &v, false);
    proof {
        lemma_reinsert_same(m1, seq!["projects"@]);
    }

}

proof fn lemma_changes_push(m: Map<KeyPath, TomlItemView>, cs: Seq<ChangeView>, c: ChangeView)
    ensures
        changes_items(m, cs.push(c)) == (
            change_items(changes_items(m, cs).0, c).0,
            changes_items(m, cs).1 || change_items(changes_items(m, cs).0, c).1,
        ),
    decreases cs.len(),
{
    if cs.len() == 0 {
        let ch = change_items(m, c);
        assert(cs.push(c)[0] == c);
        assert(cs.push(c).drop_first() =~= Seq::<ChangeView>::empty());
        assert(changes_items(ch.0, Seq::<ChangeView>::empty()) == (ch.0, false));
        assert(changes_items(m, cs) == (m, false));
        assert(changes_items(m, cs.push(c)) == (ch.0, ch.1 || false));
    } else {
        let first = change_items(m, cs[0]);
        lemma_changes_push(first.0, cs.drop_first(), c);
        assert(cs.push(c)[0] == cs[0]);
        assert(cs.push(c).drop_first() =~= cs.drop_first().push(c));
        let rest = changes_items(first.0, cs.drop_first());
        assert(changes_items(m, cs) == (rest.0, first.1 || rest.1));
        let tail = changes_items(first.0, cs.drop_first().push(c));
        assert(changes_items(m, cs.push(c)) == (tail.0, first.1 || tail.1));
    }
}

proof fn lemma_edits_plan_push(edits: Seq<ConfigEdit>, e: ConfigEdit)
    ensures
        edits_plan(edits.push(e)) == edits_plan(edits) + edit_plan(e),
    decreases edits.len(),
{
    if edits.len() == 0 {
        assert(edits.push(e).drop_first() =~= Seq::<ConfigEdit>::empty());
        assert(edits_plan(edits.push(e)) =~= edit_plan(e) + edits_plan(Seq::<ConfigEdit>::empty()));
        assert(edits_plan(edits.push(e)) =~= edits_plan(edits) + edit_plan(e));
    } else {
        lemma_edits_plan_push(edits.drop_first(), e);
        assert(edits.push(e).drop_first() =~= edits.drop_first().push(e));
        assert(edits_plan(edits.push(e)) =~= edits_plan(edits) + edit_plan(e));
    }
}

/// Applies one change to the document's root table; whether it took effect.
fn apply_change(root: &mut toml_edit::Table, change: &DocumentChange) -> (r: bool)
    ensures
        (table_items(*final(root)), r) == change_items(table_items(*old(root)), change@),
{
    match change {
        DocumentChange::Write { segments, value } => {
            if segments.len() == 0 {
                false
            } else {
                assert(segs(*segments).skip(0) =~= segs(*segments));
                write_from(root, segments, 0, value)
            }
        },
        DocumentChange::Remove { segments } => {
            if segments.len() == 0 {
                false
            } else {
                assert(segs(*segments).skip(0) =~= segs(*segments));
                remove_from(root, segments, 0)
            }
        },
        DocumentChange::TrustProject { path, level } => {
            set_project_trust(root, path.as_str(), *level);
            true
        },
    }
}

/// What the text of a configuration file holds before the edits: nothing for
/// an empty file, else what the text parses to.
pub open spec fn starting_items(serialized: Seq<char>) -> Option<Map<KeyPath, TomlItemView>> {
    if serialized.len() == 0 {
        Some(no_items())
    } else {
        parsed_toml(serialized)
    }
}

/// Applies the edits, in order, to the text of a configuration file. No
/// edits leave the file alone; a text that is not TOML is refused with the
/// parser's message. Otherwise the new text is given exactly when some change
/// of the edits took effect, and it is the text of a document holding what
/// the old text held with every change of every edit applied in order; a
/// value written over a value keeps the old one's decoration.
pub fn apply_edits_to_text(serialized: &str, edits: &Vec<ConfigEdit>) -> (r: Result<Option<String>, String>)
    ensures
        edits@.len() == 0 ==> r == Ok::<Option<String>, String>(None),
        edits@.len() > 0 ==> match starting_items(serialized@) {
            None => r is Err,
            Some(m) => {
                let out = changes_items(m, edits_plan(edits@));
                &&& out.1 ==> (r matches Ok(Some(t)) && exists|d: toml_edit::DocumentMut|
                    t@ == toml_text(d) && document_items(d) == out.0)
                &&& !out.1 ==> r == Ok::<Option<String>, String>(None)
            },
        },
{
    if edits.len() == 0 {
        return Ok(None);
    }
    proof {
        reveal_strlit("");
    }
    let mut doc = if crate::text::str_eq(serialized, "") {
        assert(serialized@ =~= ""@);
        new_document()
    } else {
        assert(serialized@.len() > 0) by {
            if serialized@.len() == 0 {
                assert(serialized@ =~= ""@);
            }
        }
        match parse_document(serialized) {
            Ok(d) => d,
            Err(e) => return Err(e),
        }
    };
    let ghost m = document_items(doc);
    let root = root_table(&mut doc);
    let mut mutated = false;
    let mut i: usize = 0;
    assert(edits@.take(0) =~= Seq::<ConfigEdit>::empty());
    while i < edits.len()
        invariant
            i <= edits.len(),
            (table_items(*root), mutated) == changes_items(m, edits_plan(edits@.take(i as int))),
        decreases edits.len() - i,
    {
        let changes = edits[i].changes();
        let ghost done = edits_plan(edits@.take(i as int));
        let ghost plan = edit_plan(edits@[i as int]);
        let mut j: usize = 0;
        assert(done + plan.take(0) =~= done);
        while j < changes.len()
            invariant
                j <= changes.len(),
                changes@.map_values(|c: DocumentChange| c@) == plan,
                (table_items(*root), mutated) == changes_items(m, done + plan.take(j as int)),
            decreases changes.len() - j,
        {
            let ghost before = done + plan.take(j as int);
            assert(changes@[j as int]@ == plan[j as int]);
            let took = apply_change(root, &changes[j]);
            proof {
                lemma_changes_push(m, before, plan[j as int]);
                assert(before.push(plan[j as int]) =~= done + plan.take(j + 1));
            }
            mutated = mutated || took;
            j = j + 1;
        }
        proof {
            assert(plan.take(plan.len() as int) =~= plan);
            lemma_edits_plan_push(edits@.take(i as int), edits@[i as int]);
            assert(edits@.take(i + 1) =~= edits@.take(i as int).push(edits@[i as int]));
        }
        i = i + 1;
    }
    proof {
        assert(edits@.take(edits@.len() as int) =~= edits@);
    }
    if !mutated {
        return Ok(None);
    }
    let text = document_text(&doc);
    Ok(Some(text))
}

} // verus!
