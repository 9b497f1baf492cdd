//! Argument values keyed by name, in the order in which they were first set.
//!
//! An `ArgEntry` list behaves as a map: setting a key that is present
//! replaces its value in place, setting a new key appends it.

use vstd::prelude::*;

use crate::text::{str_eq, views};

verus! {

broadcast use vstd::string::group_string_axioms;

/// The value given to a flag or positional.
pub enum ArgValue {
    Bool(bool),
    Text(String),
    List(Vec<String>),
}

/// The mathematical value of an `ArgValue`.
pub ghost enum ArgValueView {
    Bool(bool),
    Text(Seq<char>),
    List(Seq<Seq<char>>),
}

pub struct ArgEntry {
    pub key: String,
    pub value: ArgValue,
}

/// A key/value list, as the map that it stands for.
pub type ArgMap = Seq<(Seq<char>, ArgValueView)>;

pub open spec fn arg_view(v: ArgValue) -> ArgValueView {
    match v {
        ArgValue::Bool(b) => ArgValueView::Bool(b),
        ArgValue::Text(t) => ArgValueView::Text(t@),
        ArgValue::List(l) => ArgValueView::List(views(l@)),
    }
}

pub open spec fn entries_view(s: Seq<ArgEntry>) -> ArgMap {
    s.map_values(|e: ArgEntry| (e.key@, arg_view(e.value)))
}

/// The position of `key` in `m`, or -1.
pub open spec fn key_index(m: ArgMap, key: Seq<char>) -> int
    decreases m.len(),
{
    if m.len() == 0 {
        -1
    } else if m[0].0 == key {
        0
    } else {
        let k = key_index(m.drop_first(), key);
        if k < 0 {
            -1
        } else {
            k + 1
        }
    }
}

/// The value of `key` in `m`.
pub open spec fn get(m: ArgMap, key: Seq<char>) -> Option<ArgValueView> {
    let k = key_index(m, key);
    if k < 0 {
        None
    } else {
        Some(m[k].1)
    }
}

/// `m` with `key` set to `v`.
pub open spec fn put(m: ArgMap, key: Seq<char>, v: ArgValueView) -> ArgMap {
    let k = key_index(m, key);
    if k < 0 {
        m.push((key, v))
    } else {
        m.update(k, (key, v))
    }
}

/// `m` with `item` added to the list under `key`: a new one-item list when
/// the key is absent, unchanged when its value is not a list.
pub open spec fn push_item(m: ArgMap, key: Seq<char>, item: Seq<char>) -> ArgMap {
    match get(m, key) {
        None => put(m, key, ArgValueView::List(seq![item])),
        Some(ArgValueView::List(l)) => put(m, key, ArgValueView::List(l.push(item))),
        Some(_) => m,
    }
}

proof fn lemma_key_index_first(m: ArgMap, key: Seq<char>, i: int)
    requires
        0 <= i < m.len(),
        m[i].0 == key,
        forall|j: int| 0 <= j < i ==> m[j].0 != key,
    ensures
        key_index(m, key) == i,
    decreases i,
{
    if i > 0 {
        lemma_key_index_first(m.drop_first(), key, i - 1);
    }
}

proof fn lemma_key_index_absent(m: ArgMap, key: Seq<char>)
    requires
        forall|j: int| 0 <= j < m.len() ==> m[j].0 != key,
    ensures
        key_index(m, key) < 0,
    decreases m.len(),
{
    if m.len() > 0 {
        lemma_key_index_absent(m.drop_first(), key);
    }
}

/// The position of `key` among the entries.
pub fn find_key(entries: &Vec<ArgEntry>, key: &str) -> (r: Option<usize>)
    ensures
        match r {
            Some(k) => k == key_index(entries_view(entries@), key@) && k < entries.len(),
            None => key_index(entries_view(entries@), key@) < 0,
        },
{
    let ghost m = entries_view(entries@);
    let mut i: usize = 0;
    while i < entries.len()
        invariant
            i <= entries.len(),
            m == entries_view(entries@),
            forall|j: int| 0 <= j < i ==> m[j].0 != key@,
        decreases entries.len() - i,
    {
        assert(m[i as int].0 == entries@[i as int].key@);
        if str_eq(entries[i].key.as_str(), key) {
            proof {
                lemma_key_index_first(m, key@, i as int);
            }
            return Some(i);
        }
        i = i + 1;
    }
    proof {
        lemma_key_index_absent(m, key@);
    }
    None
}

/// Sets `key` to `value`.
pub fn set_entry(entries: &mut Vec<ArgEntry>, key: String, value: ArgValue)
    ensures
        entries_view(final(entries)@) == put(entries_view(old(entries)@), key@, arg_view(value)),
{
    let ghost before = entries_view(entries@);
    match find_key(entries, key.as_str()) {
        Some(k) => {
            let ghost key_view = key@;
            let ghost value_view = arg_view(value);
            entries.set(k, ArgEntry { key, value });
            assert(entries_view(entries@) =~= before.update(k as int, (key_view, value_view)));
        },
        None => {
            let ghost key_view = key@;
            let ghost value_view = arg_view(value);
            entries.push(ArgEntry { key, value });
            assert(entries_view(entries@) =~= before.push((key_view, value_view)));
        },
    }
}

/// Adds `item` to the list under `key` (see `push_item`).
pub fn push_entry_item(entries: &mut Vec<ArgEntry>, key: String, item: String)
    ensures
        entries_view(final(entries)@) == push_item(entries_view(old(entries)@), key@, item@),
{
    let ghost before = entries_view(entries@);
    match find_key(entries, key.as_str()) {
        None => {
            let mut l: Vec<String> = Vec::new();
            l.push(item);
            assert(views(l@) =~= seq![l@[0]@]);
            set_entry(entries, key, ArgValue::List(l));
        },
        Some(k) => {
            assert(before[k as int] == (entries@[k as int].key@, arg_view(entries@[k as int].value)));
            let is_list = match &entries[k].value {
                ArgValue::List(_) => true,
                _ => false,
            };
            if is_list {
                let mut l: Vec<String> = match &entries[k].value {
                    ArgValue::List(l) => {
                        let c = l.clone();
                        assert(c@ =~= l@);
                        c
                    },
                    _ => Vec::new(),
                };
                let ghost old_l = l@;
                l.push(item);
                assert(views(l@) =~= views(old_l).push(item@));
                set_entry(entries, key, ArgValue::List(l));
            }
        },
    }
}

/// `key_index` finds the first entry with the key, or reports none.
proof fn lemma_key_index_spec(m: ArgMap, key: Seq<char>)
    ensures
        key_index(m, key) < 0 ==> forall|j: int| 0 <= j < m.len() ==> m[j].0 != key,
        key_index(m, key) >= 0 ==> key_index(m, key) < m.len() && m[key_index(m, key)].0 == key && forall|j: int|
            0 <= j < key_index(m, key) ==> m[j].0 != key,
    decreases m.len(),
{
    if m.len() > 0 {
        lemma_key_index_spec(m.drop_first(), key);
        assert forall|j: int| 1 <= j < m.len() implies m[j] == m.drop_first()[j - 1] by {}
    }
}

/// Reading a key gives back what was last written under it, and writing
/// one key leaves every other key's value as it was.
pub proof fn law_get_after_put(m: ArgMap, key: Seq<char>, v: ArgValueView, other: Seq<char>)
    requires
        other != key,
    ensures
        get(put(m, key, v), key) == Some(v),
        get(put(m, key, v), other) == get(m, other),
{
    lemma_key_index_spec(m, key);
    lemma_key_index_spec(m, other);
    let n = put(m, key, v);
    let k = key_index(m, key);
    if k < 0 {
        lemma_key_index_first(n, key, m.len() as int);
    } else {
        lemma_key_index_first(n, key, k);
    }
    let o = key_index(m, other);
    if o < 0 {
        assert forall|j: int| 0 <= j < n.len() implies n[j].0 != other by {
            if j < m.len() && j != k {
                assert(n[j] == m[j]);
            }
        }
        lemma_key_index_absent(n, other);
    } else {
        assert forall|j: int| 0 <= j < o implies n[j].0 != other by {
            if j != k {
                assert(n[j] == m[j]);
            }
        }
        assert(n[o] == m[o]);
        lemma_key_index_first(n, other, o);
    }
}

} // verus!
