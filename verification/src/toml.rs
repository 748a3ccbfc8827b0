//! The TOML tables of the configuration files, kept in `toml_edit` tables.
//!
//! A table is opaque to Verus; its contents are described by `toml_entries`: the
//! sequence of its key/item pairs in the table's own order. Each operation that
//! the configuration logic performs on a table is a trusted item below whose
//! contract states, over that model, what `toml_edit` 0.14 does.
use vstd::prelude::*;

verus! {

#[verifier::external_type_specification]
#[verifier::external_body]
pub struct ExTomlTable(toml_edit::Table);

#[verifier::external_type_specification]
#[verifier::external_body]
pub struct ExTomlError(toml_edit::TomlError);

/// The model of an item of a TOML table.
pub enum TomlNode {
    /// A placeholder item (`Item::None`); the table treats it as absent.
    Empty,
    /// A string value.
    Str(Seq<char>),
    /// A boolean value.
    Bool(bool),
    /// A standard (non-inline) table, with its own entries.
    Table(Seq<(Seq<char>, TomlNode)>),
    /// Any other item: numbers, dates, arrays, inline tables, arrays of tables.
    Other,
}

/// The entries of a table, in order.
pub type Entries = Seq<(Seq<char>, TomlNode)>;

/// What a `toml_edit::Table` holds: its key/item pairs in the table's order.
pub uninterp spec fn toml_entries(t: toml_edit::Table) -> Seq<(Seq<char>, TomlNode)>;

/// What parsing `text` as a TOML document yields for the root table, if it parses.
pub uninterp spec fn toml_parse_result(text: Seq<char>) -> Option<Seq<(Seq<char>, TomlNode)>>;

/// The text of a TOML document whose root is `t`, as `toml_edit` renders it.
pub uninterp spec fn toml_text(t: toml_edit::Table) -> Seq<char>;

/// The text that `toml_edit` renders for the item stored under `key` in `t`.
pub uninterp spec fn toml_item_text(t: toml_edit::Table, key: Seq<char>) -> Seq<char>;

/// No two entries share a key.
pub open spec fn keys_distinct(es: Entries) -> bool {
    forall|i: int, j: int| 0 <= i < j < es.len() ==> es[i].0 != es[j].0
}

/// No two entries share a key, in the table and in every table nested in it.
pub open spec fn deep_distinct(es: Entries) -> bool
    decreases es,
{
    &&& keys_distinct(es)
    &&& forall|i: int| 0 <= i < es.len() && (#[trigger] es[i]).1 is Table ==> deep_distinct(es[i].1->0)
}

/// A table item nested in a table whose keys are distinct at every level has
/// distinct keys at every level too.
pub proof fn lemma_deep_node(es: Entries, k: Seq<char>)
    requires
        deep_distinct(es),
        node_of(es, k) is Table,
    ensures
        deep_distinct(node_of(es, k)->0),
{
    assert(has_key(es, k));
    let p = key_pos(es, k);
    assert(es[p].1 is Table);
}

/// Some entry has the key `k`.
pub open spec fn has_key(es: Entries, k: Seq<char>) -> bool {
    exists|i: int| 0 <= i < es.len() && es[i].0 == k
}

/// The position of the entry with key `k` (meaningful when `has_key`).
pub open spec fn key_pos(es: Entries, k: Seq<char>) -> int {
    choose|i: int| 0 <= i < es.len() && es[i].0 == k
}

/// The item under `k`, `Empty` when there is none.
pub open spec fn node_of(es: Entries, k: Seq<char>) -> TomlNode {
    if has_key(es, k) {
        es[key_pos(es, k)].1
    } else {
        TomlNode::Empty
    }
}

/// Inserting `n` under `k`: an existing entry keeps its place, a new one goes last.
pub open spec fn entries_insert(es: Entries, k: Seq<char>, n: TomlNode) -> Entries {
    if has_key(es, k) {
        es.update(key_pos(es, k), (k, n))
    } else {
        es.push((k, n))
    }
}

/// Removing the entry under `k`, keeping the order of the others.
pub open spec fn entries_remove(es: Entries, k: Seq<char>) -> Entries {
    if has_key(es, k) {
        es.remove(key_pos(es, k))
    } else {
        es
    }
}

/// The keys of the entries that are not placeholders, in order.
pub open spec fn visible_keys(es: Entries) -> Seq<Seq<char>>
    decreases es.len(),
{
    if es.len() == 0 {
        Seq::empty()
    } else if es.last().1 is Empty {
        visible_keys(es.drop_last())
    } else {
        visible_keys(es.drop_last()).push(es.last().0)
    }
}

/// Inserting under `k` keeps the keys distinct and makes `n` the item under `k`;
/// the items under other keys stay as they were.
pub proof fn lemma_insert(es: Entries, k: Seq<char>, n: TomlNode)
    requires
        keys_distinct(es),
    ensures
        keys_distinct(entries_insert(es, k, n)),
        node_of(entries_insert(es, k, n), k) == n,
        forall|k2: Seq<char>| k2 != k ==> node_of(entries_insert(es, k, n), k2) == node_of(es, k2),
{
    let r = entries_insert(es, k, n);
    if has_key(es, k) {
        let p = key_pos(es, k);
        assert(r[p].0 == k);
        assert(has_key(r, k));
        assert(key_pos(r, k) == p);
        assert forall|k2: Seq<char>| k2 != k implies node_of(r, k2) == node_of(es, k2) by {
            if has_key(es, k2) {
                let q = key_pos(es, k2);
                assert(r[q].0 == k2);
                assert(key_pos(r, k2) == q);
            } else {
                if has_key(r, k2) {
                    let q = key_pos(r, k2);
                    assert(es[q].0 == k2);
                }
            }
        }
    } else {
        let p = es.len() as int;
        assert(r[p].0 == k);
        assert(has_key(r, k));
        assert(key_pos(r, k) == p);
        assert forall|k2: Seq<char>| k2 != k implies node_of(r, k2) == node_of(es, k2) by {
            if has_key(es, k2) {
                let q = key_pos(es, k2);
                assert(r[q].0 == k2);
                assert(key_pos(r, k2) == q);
            } else {
                if has_key(r, k2) {
                    let q = key_pos(r, k2);
                    assert(es[q].0 == k2);
                }
            }
        }
    }
}

/// Removing `k` keeps the keys distinct, leaves nothing under `k`, and leaves the
/// items under other keys as they were.
pub proof fn lemma_remove(es: Entries, k: Seq<char>)
    requires
        keys_distinct(es),
    ensures
        keys_distinct(entries_remove(es, k)),
        node_of(entries_remove(es, k), k) is Empty,
        forall|k2: Seq<char>| k2 != k ==> node_of(entries_remove(es, k), k2) == node_of(es, k2),
{
    let r = entries_remove(es, k);
    if has_key(es, k) {
        let p = key_pos(es, k);
        assert forall|i: int, j: int| 0 <= i < j < r.len() implies r[i].0 != r[j].0 by {
            let i2 = if i < p { i } else { i + 1 };
            let j2 = if j < p { j } else { j + 1 };
            assert(r[i] == es[i2]);
            assert(r[j] == es[j2]);
        }
        if has_key(r, k) {
            let q = key_pos(r, k);
            let q2 = if q < p { q } else { q + 1 };
            assert(r[q] == es[q2]);
        }
        assert forall|k2: Seq<char>| k2 != k implies node_of(r, k2) == node_of(es, k2) by {
            if has_key(es, k2) {
                let q = key_pos(es, k2);
                assert(q != p);
                let q1 = if q < p { q } else { q - 1 };
                assert(r[q1] == es[q]);
                assert(has_key(r, k2));
                let t = key_pos(r, k2);
                let t2 = if t < p { t } else { t + 1 };
                assert(r[t] == es[t2]);
            } else {
                if has_key(r, k2) {
                    let t = key_pos(r, k2);
                    let t2 = if t < p { t } else { t + 1 };
                    assert(r[t] == es[t2]);
                }
            }
        }
    }
}

/// Appending a real item under a new key appends the key to the visible keys.
pub proof fn lemma_visible_push(es: Entries, k: Seq<char>, n: TomlNode)
    requires
        !(n is Empty),
    ensures
        visible_keys(es.push((k, n))) == visible_keys(es).push(k),
{
    assert(es.push((k, n)).drop_last() =~= es);
}

/// Replacing a real item by another real item keeps the visible keys.
pub proof fn lemma_visible_update(es: Entries, p: int, n: TomlNode)
    requires
        0 <= p < es.len(),
        !(es[p].1 is Empty),
        !(n is Empty),
    ensures
        visible_keys(es.update(p, (es[p].0, n))) == visible_keys(es),
    decreases es.len(),
{
    let u = es.update(p, (es[p].0, n));
    if p == es.len() - 1 {
        assert(u.drop_last() =~= es.drop_last());
    } else {
        assert(u.drop_last() =~= es.drop_last().update(p, (es[p].0, n)));
        lemma_visible_update(es.drop_last(), p, n);
    }
}

/// A key is listed by `visible_keys` exactly when it holds a real item.
pub proof fn lemma_visible_keys(es: Entries, k: Seq<char>)
    requires
        keys_distinct(es),
    ensures
        visible_keys(es).contains(k) <==> !(node_of(es, k) is Empty),
    decreases es.len(),
{
    if es.len() == 0 {
    } else {
        let init = es.drop_last();
        assert(keys_distinct(init));
        lemma_visible_keys(init, k);
        if has_key(es, k) {
            let p = key_pos(es, k);
            if p == es.len() - 1 {
                assert(!has_key(init, k));
                if es.last().1 is Empty {
                    assert(!visible_keys(init).contains(k));
                } else {
                    assert(visible_keys(es).last() == k);
                }
            } else {
                assert(init[p].0 == k);
                assert(has_key(init, k));
                assert(key_pos(init, k) == p);
                assert(es.last().0 != k);
                if !(es.last().1 is Empty) {
                    if visible_keys(es).contains(k) {
                        let j = choose|j: int| 0 <= j < visible_keys(es).len() && visible_keys(es)[j] == k;
                        assert(visible_keys(init)[j] == k);
                    }
                    if visible_keys(init).contains(k) {
                        let j = choose|j: int| 0 <= j < visible_keys(init).len() && visible_keys(init)[j] == k;
                        assert(visible_keys(es)[j] == k);
                    }
                }
            }
        } else {
            assert(!has_key(init, k)) by {
                if has_key(init, k) {
                    let q = key_pos(init, k);
                    assert(es[q].0 == k);
                }
            }
            if !(es.last().1 is Empty) {
                assert(es.last().0 != k);
                if visible_keys(es).contains(k) {
                    let j = choose|j: int| 0 <= j < visible_keys(es).len() && visible_keys(es)[j] == k;
                    assert(visible_keys(init)[j] == k);
                }
            }
        }
    }
}

/// An item handed out of a table, or handed to one.
pub enum TomlValue {
    Missing,
    Str(String),
    Bool(bool),
    Table(toml_edit::Table),
    Other,
}

/// `v` is what the item model `n` describes.
pub open spec fn value_models(v: TomlValue, n: TomlNode) -> bool {
    match v {
        TomlValue::Missing => n is Empty,
        TomlValue::Str(s) => n == TomlNode::Str(s@),
        TomlValue::Bool(b) => n == TomlNode::Bool(b),
        TomlValue::Table(t) => n == TomlNode::Table(toml_entries(t)) && keys_distinct(toml_entries(t)),
        TomlValue::Other => n is Other,
    }
}

/// The item model of a value handed to a table.
pub open spec fn node_for(v: TomlValue) -> TomlNode {
    match v {
        TomlValue::Str(s) => TomlNode::Str(s@),
        TomlValue::Bool(b) => TomlNode::Bool(b),
        TomlValue::Table(t) => TomlNode::Table(toml_entries(t)),
        TomlValue::Missing => TomlNode::Empty,
        TomlValue::Other => TomlNode::Other,
    }
}

/// `toml_edit::Table::new`: an empty table.
#[verifier::external_body]
pub(crate) fn toml_table_new() -> (t: toml_edit::Table)
    ensures
        toml_entries(t) == Seq::<(Seq<char>, TomlNode)>::empty(),
{
    toml_edit::Table::new()
}

/// `Clone` of a table (derived): an identical table.
#[verifier::external_body]
pub(crate) fn toml_table_clone(t: &toml_edit::Table) -> (r: toml_edit::Table)
    ensures
        r == *t,
{
    t.clone()
}

/// `toml_edit::Table::get`: the item stored under `key`, told apart by kind; a
/// standard table comes out as a copy of it. `get` treats a placeholder as absent.
#[verifier::external_body]
pub(crate) fn toml_table_get(t: &toml_edit::Table, key: &str) -> (r: TomlValue)
    requires
        keys_distinct(toml_entries(*t)),
    ensures
        value_models(r, node_of(toml_entries(*t), key@)),
{
    match t.get(key) {
        None => TomlValue::Missing,
        Some(toml_edit::Item::Value(toml_edit::Value::String(s))) => TomlValue::Str(s.value().to_string()),
        Some(toml_edit::Item::Value(toml_edit::Value::Boolean(b))) => TomlValue::Bool(*b.value()),
        Some(toml_edit::Item::Table(sub)) => TomlValue::Table(sub.clone()),
        Some(_) => TomlValue::Other,
    }
}

/// `toml_edit::Table::insert`: stores a string, a boolean or a table under `key`.
/// The underlying `IndexMap` keeps an existing key in its place and appends a new one.
#[verifier::external_body]
pub(crate) fn toml_table_insert(t: &mut toml_edit::Table, key: &str, v: TomlValue)
    requires
        keys_distinct(toml_entries(*old(t))),
        v is Str || v is Bool || v is Table,
    ensures
        toml_entries(*final(t)) == entries_insert(toml_entries(*old(t)), key@, node_for(v)),
        keys_distinct(toml_entries(*final(t))),
{
    let item = match v {
        TomlValue::Str(s) => toml_edit::value(s),
        TomlValue::Bool(b) => toml_edit::value(b),
        TomlValue::Table(sub) => toml_edit::Item::Table(sub),
        TomlValue::Missing => toml_edit::Item::None,
        TomlValue::Other => toml_edit::Item::None,
    };
    t.insert(key, item);
}

/// `toml_edit::Table::remove_entry`: drops the entry under `key` (`IndexMap::shift_remove`,
/// which keeps the order of the others).
#[verifier::external_body]
pub(crate) fn toml_table_remove(t: &mut toml_edit::Table, key: &str)
    requires
        keys_distinct(toml_entries(*old(t))),
    ensures
        toml_entries(*final(t)) == entries_remove(toml_entries(*old(t)), key@),
        keys_distinct(toml_entries(*final(t))),
{
    t.remove_entry(key);
}

/// `toml_edit::Table::iter`: the keys of the non-placeholder entries, in order.
#[verifier::external_body]
pub(crate) fn toml_table_keys(t: &toml_edit::Table) -> (r: Vec<String>)
    ensures
        r@.len() == visible_keys(toml_entries(*t)).len(),
        forall|i: int| 0 <= i < r@.len() ==> #[trigger] r@[i]@ == visible_keys(toml_entries(*t))[i],
{
    t.iter().map(|(k, _)| k.to_string()).collect()
}

/// `toml_edit::Table::is_empty`: whether no entry is a non-placeholder item.
#[verifier::external_body]
pub(crate) fn toml_table_is_empty(t: &toml_edit::Table) -> (r: bool)
    ensures
        r == (visible_keys(toml_entries(*t)).len() == 0),
{
    t.is_empty()
}

/// `Document::from_str`: parses `text` and hands out the root table. `toml_edit`
/// keeps the items of each table in a map keyed by their keys, so no key occurs
/// twice in the root or in any table nested in it.
#[verifier::external_body]
pub(crate) fn toml_parse(text: &str) -> (r: Result<toml_edit::Table, toml_edit::TomlError>)
    ensures
        match r {
            Ok(t) => toml_parse_result(text@) == Some(toml_entries(t)) && deep_distinct(toml_entries(t)),
            Err(_) => toml_parse_result(text@) is None,
        },
{
    match text.parse::<toml_edit::Document>() {
        Ok(doc) => Ok(doc.as_table().clone()),
        Err(e) => Err(e),
    }
}

/// `Display` of a `Document` built from the table `t`.
#[verifier::external_body]
pub(crate) fn toml_render(t: &toml_edit::Table) -> (r: String)
    ensures
        r@ == toml_text(*t),
{
    let doc: toml_edit::Document = t.clone().into();
    doc.to_string()
}

/// `Display` of the item stored under `key` in `t`.
#[verifier::external_body]
pub(crate) fn toml_item_render(t: &toml_edit::Table, key: &str) -> (r: String)
    requires
        !(node_of(toml_entries(*t), key@) is Empty),
    ensures
        r@ == toml_item_text(*t, key@),
{
    match t.get(key) {
        Some(item) => item.to_string(),
        None => String::new(),
    }
}


/// The keys other than `k`.
pub open spec fn other_than(k: Seq<char>) -> spec_fn(Seq<char>) -> bool {
    |x: Seq<char>| x != k
}

proof fn lemma_visible_keys_absent(es: Entries, k: Seq<char>)
    requires
        !has_key(es, k),
    ensures
        visible_keys(es).filter(other_than(k)) == visible_keys(es),
    decreases es.len(),
{
    if es.len() > 0 {
        let init = es.drop_last();
        assert(!has_key(init, k)) by {
            if has_key(init, k) {
                let i = choose|i: int| 0 <= i < init.len() && init[i].0 == k;
                assert(es[i].0 == k);
            }
        }
        lemma_visible_keys_absent(init, k);
        assert(es.last().0 != k);
        let v = visible_keys(es);
        if es.last().1 is Empty {
        } else {
            visible_keys(init).lemma_filter_push(es.last().0, other_than(k));
        }
    } else {
        reveal(Seq::filter);
    }
}

proof fn lemma_visible_keys_remove_at(es: Entries, p: int)
    requires
        keys_distinct(es),
        0 <= p < es.len(),
    ensures
        visible_keys(es.remove(p)) == visible_keys(es).filter(other_than(es[p].0)),
    decreases es.len(),
{
    let k = es[p].0;
    let init = es.drop_last();
    let v = visible_keys(es);
    if p == es.len() - 1 {
        assert(es.remove(p) =~= init);
        assert(!has_key(init, k)) by {
            if has_key(init, k) {
                let i = choose|i: int| 0 <= i < init.len() && init[i].0 == k;
                assert(es[i].0 == k);
            }
        }
        lemma_visible_keys_absent(init, k);
        if es.last().1 is Empty {
        } else {
            visible_keys(init).lemma_filter_push(es.last().0, other_than(k));
        }
    } else {
        assert(keys_distinct(init));
        assert(init[p].0 == k);
        lemma_visible_keys_remove_at(init, p);
        let r = es.remove(p);
        assert(r.drop_last() =~= init.remove(p));
        assert(r.last() == es.last());
        assert(es.last().0 != k);
        if es.last().1 is Empty {
        } else {
            visible_keys(init).lemma_filter_push(es.last().0, other_than(k));
        }
    }
}

/// Removing the entry under `k` removes `k` from the visible keys and keeps the
/// others in their order.
pub proof fn lemma_visible_keys_remove(es: Entries, k: Seq<char>)
    requires
        keys_distinct(es),
    ensures
        visible_keys(entries_remove(es, k)) == visible_keys(es).filter(other_than(k)),
{
    if has_key(es, k) {
        lemma_visible_keys_remove_at(es, key_pos(es, k));
    } else {
        lemma_visible_keys_absent(es, k);
    }
}

} // verus!
