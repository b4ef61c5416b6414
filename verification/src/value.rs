//! Configuration values: the TOML data model that invoice configs are read
//! into before they are validated, overridden on the command line, and
//! completed after authorization.
use vstd::prelude::*;

use crate::text::str_eq;

verus! {

/// A TOML value. Floats are carried as the decimal text that denotes them
/// (text that `f64`'s parser accepts), datetimes as their TOML text.
/// A table is a list of entries; when a key occurs more than once, the last
/// entry is the one that counts.
#[derive(Debug, PartialEq)]
pub enum ConfigValue {
    String(String),
    Integer(i64),
    Float(String),
    Boolean(bool),
    Datetime(String),
    Array(Vec<ConfigValue>),
    Table(Vec<(String, ConfigValue)>),
}

/// The mathematical view of a `ConfigValue`: tables are maps from keys to
/// values.
pub enum Toml {
    Str(Seq<char>),
    Int(i64),
    Float(Seq<char>),
    Bool(bool),
    Datetime(Seq<char>),
    Arr(Seq<Toml>),
    Tab(Map<Seq<char>, Toml>),
}

pub open spec fn toml_of(v: ConfigValue) -> Toml
    decreases v,
{
    match v {
        ConfigValue::String(s) => Toml::Str(s@),
        ConfigValue::Integer(i) => Toml::Int(i),
        ConfigValue::Float(s) => Toml::Float(s@),
        ConfigValue::Boolean(b) => Toml::Bool(b),
        ConfigValue::Datetime(s) => Toml::Datetime(s@),
        ConfigValue::Array(a) => Toml::Arr(arr_of(a@)),
        ConfigValue::Table(t) => Toml::Tab(tab_of(t@)),
    }
}

/// The views of the elements of an array.
pub open spec fn arr_of(a: Seq<ConfigValue>) -> Seq<Toml>
    decreases a,
{
    if a.len() == 0 {
        seq![]
    } else {
        arr_of(a.drop_last()).push(toml_of(a.last()))
    }
}

/// The map that a list of table entries denotes (later entries win).
pub open spec fn tab_of(t: Seq<(String, ConfigValue)>) -> Map<Seq<char>, Toml>
    decreases t,
{
    if t.len() == 0 {
        Map::empty()
    } else {
        tab_of(t.drop_last()).insert(t.last().0@, toml_of(t.last().1))
    }
}

impl View for ConfigValue {
    type V = Toml;

    open spec fn view(&self) -> Toml {
        toml_of(*self)
    }
}

/// The entry `k` of a table (`Value::get`); `None` for a missing key or a
/// value that is not a table.
pub open spec fn get_key(v: Toml, k: Seq<char>) -> Option<Toml> {
    match v {
        Toml::Tab(m) => if m.contains_key(k) {
            Some(m[k])
        } else {
            None
        },
        _ => None,
    }
}

/// `v` with entry `k` set to `x` when `v` is a table; `v` itself otherwise.
pub open spec fn with_key(v: Toml, k: Seq<char>, x: Toml) -> Toml {
    match v {
        Toml::Tab(m) => Toml::Tab(m.insert(k, x)),
        _ => v,
    }
}

/// The position of the entry that counts for key `k`.
pub open spec fn last_key_index(t: Seq<(String, ConfigValue)>, k: Seq<char>) -> Option<int>
    decreases t.len(),
{
    if t.len() == 0 {
        None
    } else if t.last().0@ == k {
        Some(t.len() - 1)
    } else {
        last_key_index(t.drop_last(), k)
    }
}

pub proof fn lemma_arr_of(a: Seq<ConfigValue>)
    ensures
        arr_of(a).len() == a.len(),
        forall|i: int| 0 <= i < a.len() ==> #[trigger] arr_of(a)[i] == toml_of(a[i]),
    decreases a.len(),
{
    if a.len() > 0 {
        lemma_arr_of(a.drop_last());
        assert forall|i: int| 0 <= i < a.len() implies #[trigger] arr_of(a)[i] == toml_of(a[i]) by {
            if i < a.len() - 1 {
                assert(arr_of(a)[i] == arr_of(a.drop_last())[i]);
            }
        }
    }
}

pub proof fn lemma_tab_of(t: Seq<(String, ConfigValue)>, k: Seq<char>)
    ensures
        tab_of(t).contains_key(k) <==> last_key_index(t, k) is Some,
        last_key_index(t, k) matches Some(j) ==> {
            &&& 0 <= j < t.len()
            &&& t[j].0@ == k
            &&& tab_of(t)[k] == toml_of(t[j].1)
            &&& forall|l: int| j < l < t.len() ==> t[l].0@ != k
        },
        last_key_index(t, k) is None ==> forall|l: int| 0 <= l < t.len() ==> t[l].0@ != k,
    decreases t.len(),
{
    if t.len() > 0 {
        lemma_tab_of(t.drop_last(), k);
        if t.last().0@ != k {
            assert forall|l: int| 0 <= l < t.len() - 1 implies t[l].0@ == t.drop_last()[l].0@ by {}
        }
    }
}

proof fn lemma_last_key_index_at(t: Seq<(String, ConfigValue)>, k: Seq<char>, j: int)
    requires
        -1 <= j < t.len(),
        j >= 0 ==> t[j].0@ == k,
        forall|l: int| j < l < t.len() ==> t[l].0@ != k,
    ensures
        j >= 0 ==> last_key_index(t, k) == Some(j),
        j == -1 ==> last_key_index(t, k) is None,
    decreases t.len(),
{
    if t.len() > 0 && j < t.len() - 1 {
        assert(t.last().0@ != k);
        lemma_last_key_index_at(t.drop_last(), k, j);
    }
}

proof fn lemma_tab_of_update(t: Seq<(String, ConfigValue)>, j: int, e: (String, ConfigValue))
    requires
        last_key_index(t, e.0@) == Some(j),
    ensures
        tab_of(t.update(j, e)) == tab_of(t).insert(e.0@, toml_of(e.1)),
    decreases t.len(),
{
    lemma_tab_of(t, e.0@);
    let u = t.update(j, e);
    if j == t.len() - 1 {
        assert(u.drop_last() =~= t.drop_last());
        assert(tab_of(u) =~= tab_of(t).insert(e.0@, toml_of(e.1)));
    } else {
        assert(u.drop_last() =~= t.drop_last().update(j, e));
        lemma_tab_of_update(t.drop_last(), j, e);
        assert(tab_of(u) =~= tab_of(t).insert(e.0@, toml_of(e.1)));
    }
}

/// The position of the entry that counts for `key`.
pub fn table_find(t: &Vec<(String, ConfigValue)>, key: &str) -> (r: Option<usize>)
    ensures
        r matches Some(j) ==> last_key_index(t@, key@) == Some(j as int),
        r is None ==> last_key_index(t@, key@) is None,
{
    let mut i = t.len();
    while i > 0
        invariant
            i <= t@.len(),
            forall|l: int| i <= l < t@.len() ==> t@[l].0@ != key@,
        decreases i,
    {
        i = i - 1;
        if str_eq(t[i].0.as_str(), key) {
            proof {
                lemma_last_key_index_at(t@, key@, i as int);
            }
            return Some(i);
        }
    }
    proof {
        lemma_last_key_index_at(t@, key@, -1);
    }
    None
}

/// Sets entry `key` of a table to `v` (`Map::insert`).
pub fn table_insert(t: &mut Vec<(String, ConfigValue)>, key: String, v: ConfigValue)
    ensures
        tab_of(final(t)@) == tab_of(old(t)@).insert(key@, toml_of(v)),
{
    match table_find(t, key.as_str()) {
        Some(j) => {
            proof {
                lemma_tab_of(t@, key@);
            }
            let ghost before = t@;
            let ghost e = (key, v);
            let _ = t.remove(j);
            t.insert(j, (key, v));
            assert(t@ =~= before.update(j as int, e));
            proof {
                lemma_tab_of_update(before, j as int, e);
            }
        },
        None => {
            let ghost before = t@;
            t.push((key, v));
            assert(t@.drop_last() =~= before);
        },
    }
}

/// Replaces the value of entry `j` (keeping its key) and returns the old one.
pub fn table_replace(t: &mut Vec<(String, ConfigValue)>, j: usize, v: ConfigValue) -> (old_value:
    ConfigValue)
    requires
        j < old(t)@.len(),
        last_key_index(old(t)@, old(t)@[j as int].0@) == Some(j as int),
    ensures
        old_value == old(t)@[j as int].1,
        tab_of(final(t)@) == tab_of(old(t)@).insert(old(t)@[j as int].0@, toml_of(v)),
        final(t)@.len() == old(t)@.len(),
        final(t)@[j as int].0@ == old(t)@[j as int].0@,
        last_key_index(final(t)@, old(t)@[j as int].0@) == Some(j as int),
{
    proof {
        lemma_tab_of(t@, t@[j as int].0@);
    }
    let ghost before = t@;
    let (k, old_value) = t.remove(j);
    let ghost e = (k, v);
    t.insert(j, (k, v));
    assert(t@ =~= before.update(j as int, e));
    proof {
        lemma_tab_of_update(before, j as int, e);
        assert forall|l: int| j < l < t@.len() implies t@[l].0@ != e.0@ by {
            assert(t@[l] == before[l]);
        }
        lemma_last_key_index_at(t@, e.0@, j as int);
    }
    old_value
}

impl ConfigValue {
    /// The entry `key` of a table (`Value::get`).
    pub fn get(&self, key: &str) -> (r: Option<&ConfigValue>)
        ensures
            r matches Some(c) ==> get_key(self@, key@) == Some(c@),
            r is None ==> get_key(self@, key@) is None,
    {
        match self {
            ConfigValue::Table(t) => {
                proof {
                    lemma_tab_of(t@, key@);
                }
                match table_find(t, key) {
                    Some(j) => Some(&t[j].1),
                    None => None,
                }
            },
            _ => None,
        }
    }

    /// The text of a string value (`Value::as_str`).
    pub fn as_str(&self) -> (r: Option<&str>)
        ensures
            r matches Some(s) ==> self@ == Toml::Str(s@),
            r is None ==> !(self@ is Str),
    {
        match self {
            ConfigValue::String(s) => Some(s.as_str()),
            _ => None,
        }
    }

    /// The number of an integer value (`Value::as_integer`).
    pub fn as_integer(&self) -> (r: Option<i64>)
        ensures
            r matches Some(i) ==> self@ == Toml::Int(i),
            r is None ==> !(self@ is Int),
    {
        match self {
            ConfigValue::Integer(i) => Some(*i),
            _ => None,
        }
    }

    /// The decimal text of a float value (`Value::as_float`, before the
    /// text is read as an `f64`).
    pub fn as_float(&self) -> (r: Option<&str>)
        ensures
            r matches Some(s) ==> self@ == Toml::Float(s@),
            r is None ==> !(self@ is Float),
    {
        match self {
            ConfigValue::Float(s) => Some(s.as_str()),
            _ => None,
        }
    }

    /// The truth value of a boolean (`Value::as_bool`).
    pub fn as_bool(&self) -> (r: Option<bool>)
        ensures
            r matches Some(b) ==> self@ == Toml::Bool(b),
            r is None ==> !(self@ is Bool),
    {
        match self {
            ConfigValue::Boolean(b) => Some(*b),
            _ => None,
        }
    }

    /// The elements of an array (`Value::as_array`).
    pub fn as_array(&self) -> (r: Option<&Vec<ConfigValue>>)
        ensures
            r matches Some(a) ==> self@ == Toml::Arr(arr_of(a@)),
            r is None ==> !(self@ is Arr),
    {
        match self {
            ConfigValue::Array(a) => Some(a),
            _ => None,
        }
    }

    /// An empty table.
    pub fn empty_table() -> (r: ConfigValue)
        ensures
            r@ == Toml::Tab(Map::empty()),
    {
        ConfigValue::Table(Vec::new())
    }
}

} // verus!
