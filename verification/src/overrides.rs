//! Command-line overrides of configuration values: `KEY=VALUE`, where `KEY`
//! is a dotted path whose parts may index arrays (`items[0].qty`), and
//! `VALUE` is read with the type of the value it replaces.
use vstd::prelude::*;

use crate::text::{
    all_digits, ascii_lower, find_char, first_index, is_digit, lemma_first_index, lower_eq,
    lower_matches, parse_i64, parse_i64_spec, parse_unsigned, parse_usize, split_on, split_str,
    str_eq, string_of, views,
};
use crate::value::{
    arr_of, get_key, lemma_arr_of, lemma_tab_of, tab_of, table_find, table_insert, table_replace,
    toml_of, with_key, ConfigValue, Toml,
};

verus! {

/// The type of the value that an override replaces.
#[derive(Clone, Copy, Debug, PartialEq, Eq, Structural)]
pub enum ValueType {
    String,
    Integer,
    Float,
    Boolean,
    Unknown,
}

// ---------------------------------------------------------------------------
// Specification
// ---------------------------------------------------------------------------

/// `name[index]`: the text before the first `[` and the text between it and
/// the first `]`, when that text is not empty.
pub open spec fn array_access(s: Seq<char>) -> Option<(Seq<char>, Seq<char>)> {
    match (first_index(s, '['), first_index(s, ']')) {
        (Some(open), Some(close)) => if close > open + 1 {
            Some((s.take(open), s.subrange(open + 1, close)))
        } else {
            None
        },
        _ => None,
    }
}

/// The value found by following `parts` from `v`.
pub open spec fn lookup(v: Toml, parts: Seq<Seq<char>>) -> Option<Toml>
    decreases parts.len(),
{
    if parts.len() == 0 {
        Some(v)
    } else {
        match array_access(parts[0]) {
            Some((name, idx)) => match get_key(v, name) {
                Some(Toml::Arr(a)) => match parse_unsigned(idx, usize::MAX as nat) {
                    Some(i) => if i < a.len() {
                        lookup(a[i as int], parts.drop_first())
                    } else {
                        None
                    },
                    None => None,
                },
                _ => None,
            },
            None => match get_key(v, parts[0]) {
                Some(next) => lookup(next, parts.drop_first()),
                None => None,
            },
        }
    }
}

pub open spec fn type_of(o: Option<Toml>) -> ValueType {
    match o {
        Some(Toml::Str(_)) => ValueType::String,
        Some(Toml::Int(_)) => ValueType::Integer,
        Some(Toml::Float(_)) => ValueType::Float,
        Some(Toml::Bool(_)) => ValueType::Boolean,
        _ => ValueType::Unknown,
    }
}

pub open spec fn unsigned_part(s: Seq<char>) -> Seq<char> {
    if s.len() > 0 && (s[0] == '+' || s[0] == '-') {
        s.drop_first()
    } else {
        s
    }
}

pub open spec fn min_index(a: Option<int>, b: Option<int>) -> Option<int> {
    match (a, b) {
        (Some(x), Some(y)) => Some(if x < y { x } else { y }),
        (Some(x), None) => Some(x),
        (None, Some(y)) => Some(y),
        (None, None) => None,
    }
}

/// `Digit+ | Digit+ '.' Digit* | Digit* '.' Digit+`
pub open spec fn mantissa_ok(m: Seq<char>) -> bool {
    match first_index(m, '.') {
        None => m.len() > 0 && all_digits(m),
        Some(p) => all_digits(m.take(p)) && all_digits(m.skip(p + 1)) && (p > 0 || m.len() > p + 1),
    }
}

/// `Sign? Digit+`
pub open spec fn exponent_ok(e: Seq<char>) -> bool {
    unsigned_part(e).len() > 0 && all_digits(unsigned_part(e))
}

/// The text that `f64`'s parser accepts, as its documentation gives the
/// grammar (after lowercasing):
/// `Sign? ( 'inf' | 'infinity' | 'nan' | Number )`, where
/// `Number ::= Mantissa ( 'e' Sign? Digit+ )?`.
pub open spec fn float_text(s: Seq<char>) -> bool {
    let b = unsigned_part(s);
    ||| lower_eq(b, seq!['i', 'n', 'f'])
    ||| lower_eq(b, seq!['i', 'n', 'f', 'i', 'n', 'i', 't', 'y'])
    ||| lower_eq(b, seq!['n', 'a', 'n'])
    ||| match min_index(first_index(b, 'e'), first_index(b, 'E')) {
        None => mantissa_ok(b),
        Some(e) => mantissa_ok(b.take(e)) && exponent_ok(b.skip(e + 1)),
    }
}

/// How a value with no existing counterpart is read: booleans, then
/// integers and floats unless the text has a leading zero, else a string.
pub open spec fn auto_value(s: Seq<char>) -> Toml {
    if s == seq!['t', 'r', 'u', 'e'] {
        Toml::Bool(true)
    } else if s == seq!['f', 'a', 'l', 's', 'e'] {
        Toml::Bool(false)
    } else if !(s.len() > 0 && s[0] == '0') || s == seq!['0'] {
        match parse_i64_spec(s) {
            Some(i) => Toml::Int(i as i64),
            None => if float_text(s) {
                Toml::Float(s)
            } else {
                Toml::Str(s)
            },
        }
    } else {
        Toml::Str(s)
    }
}

/// How a value is read given the type of the value it replaces.
pub open spec fn hinted_value(s: Seq<char>, hint: ValueType) -> Toml {
    match hint {
        ValueType::String => Toml::Str(s),
        ValueType::Integer => match parse_i64_spec(s) {
            Some(i) => Toml::Int(i as i64),
            None => Toml::Str(s),
        },
        ValueType::Float => if float_text(s) {
            Toml::Float(s)
        } else {
            Toml::Str(s)
        },
        ValueType::Boolean => if s == seq!['t', 'r', 'u', 'e'] || s == seq!['1'] {
            Toml::Bool(true)
        } else if s == seq!['f', 'a', 'l', 's', 'e'] || s == seq!['0'] {
            Toml::Bool(false)
        } else {
            Toml::Str(s)
        },
        ValueType::Unknown => auto_value(s),
    }
}

pub open spec fn msg_invalid_index(idx: Seq<char>) -> Seq<char> {
    "Invalid array index: "@ + idx
}

pub open spec fn msg_key_not_found(k: Seq<char>) -> Seq<char> {
    "Key '"@ + k + "' not found"@
}

pub open spec fn msg_not_array(k: Seq<char>) -> Seq<char> {
    "'"@ + k + "' is not an array"@
}

pub open spec fn msg_not_table(k: Seq<char>) -> Seq<char> {
    "Cannot set '"@ + k + "': parent is not a table"@
}

pub open spec fn msg_bad_format(s: Seq<char>) -> Seq<char> {
    "Invalid override format: '"@ + s + "'. Expected KEY=VALUE"@
}

/// `a` extended with empty tables up to position `i` when it is too short.
pub open spec fn grown(a: Seq<Toml>, i: nat) -> Seq<Toml> {
    if a.len() <= i {
        a + Seq::new((i + 1 - a.len()) as nat, |j: int| Toml::Tab(Map::empty()))
    } else {
        a
    }
}

/// Setting the value at `parts` below `v` to `val`: the resulting value and
/// the error, if any. Arrays grown on the way stay grown when a later part
/// fails.
pub open spec fn set_path(v: Toml, parts: Seq<Seq<char>>, val: Toml) -> (Toml, Option<Seq<char>>)
    decreases parts.len(),
{
    if parts.len() == 0 {
        (v, None)
    } else {
        let part = parts[0];
        let last = parts.len() == 1;
        match array_access(part) {
            Some((name, idx)) => match parse_unsigned(idx, usize::MAX as nat) {
                None => (v, Some(msg_invalid_index(idx))),
                Some(i) => match get_key(v, name) {
                    Some(Toml::Arr(a)) => {
                        let g = grown(a, i);
                        if last {
                            (with_key(v, name, Toml::Arr(g.update(i as int, val))), None)
                        } else {
                            let (child, err) = set_path(g[i as int], parts.drop_first(), val);
                            (with_key(v, name, Toml::Arr(g.update(i as int, child))), err)
                        }
                    },
                    Some(_) => (v, Some(msg_not_array(name))),
                    None => (v, Some(msg_key_not_found(name))),
                },
            },
            None => if last {
                match v {
                    Toml::Tab(m) => (Toml::Tab(m.insert(part, val)), None),
                    _ => (v, Some(msg_not_table(part))),
                }
            } else {
                match get_key(v, part) {
                    Some(child) => {
                        let (c2, err) = set_path(child, parts.drop_first(), val);
                        (with_key(v, part, c2), err)
                    },
                    None => (v, Some(msg_key_not_found(part))),
                }
            },
        }
    }
}

// ---------------------------------------------------------------------------
// Laws
// ---------------------------------------------------------------------------

/// The entry of the config that a path part names: the array's name for
/// `name[index]`, the part itself otherwise.
pub open spec fn head_key(part: Seq<char>) -> Seq<char> {
    match array_access(part) {
        Some((name, _)) => name,
        None => part,
    }
}

/// An override touches only the entry its path starts with: every other
/// entry of the config reads as before, whether the override succeeded or
/// not.
pub proof fn law_set_keeps_other_keys(v: Toml, parts: Seq<Seq<char>>, val: Toml, k: Seq<char>)
    requires
        parts.len() >= 1,
        k != head_key(parts[0]),
    ensures
        get_key(set_path(v, parts, val).0, k) == get_key(v, k),
{
}

/// For a boolean field the override text is read by its meaning: `true`
/// and `1` give true, `false` and `0` give false, and any other text is
/// kept as a string.
pub proof fn law_boolean_texts(s: Seq<char>)
    ensures
        hinted_value(s, ValueType::Boolean) == Toml::Bool(true) <==> (s == seq!['t', 'r', 'u', 'e']
            || s == seq!['1']),
        hinted_value(s, ValueType::Boolean) == Toml::Bool(false) <==> (s == seq![
            'f',
            'a',
            'l',
            's',
            'e',
        ] || s == seq!['0']),
        !(s == seq!['t', 'r', 'u', 'e'] || s == seq!['1'] || s == seq!['f', 'a', 'l', 's', 'e'] || s
            == seq!['0']) ==> hinted_value(s, ValueType::Boolean) == Toml::Str(s),
{
}

/// Overriding a boolean field with `1` or `true` makes it true, and with `0`
/// or `false` makes it false: the field then reads back as that truth value.
pub proof fn law_boolean_override(v: Toml, parts: Seq<Seq<char>>, s: Seq<char>)
    requires
        parts.len() >= 1,
        lookup(v, parts) matches Some(Toml::Bool(_)),
        set_path(v, parts, hinted_value(s, type_of(lookup(v, parts)))).1 is None,
    ensures
        lookup(set_path(v, parts, hinted_value(s, type_of(lookup(v, parts)))).0, parts) == Some(
            Toml::Bool(true),
        ) <==> (s == seq!['t', 'r', 'u', 'e'] || s == seq!['1']),
        lookup(set_path(v, parts, hinted_value(s, type_of(lookup(v, parts)))).0, parts) == Some(
            Toml::Bool(false),
        ) <==> (s == seq!['f', 'a', 'l', 's', 'e'] || s == seq!['0']),
{
    law_set_then_lookup(v, parts, hinted_value(s, type_of(lookup(v, parts))));
    law_boolean_texts(s);
}

/// A successful set is read back: following the same path gives the value
/// that was set.
pub proof fn law_set_then_lookup(v: Toml, parts: Seq<Seq<char>>, val: Toml)
    requires
        parts.len() >= 1,
        set_path(v, parts, val).1 is None,
    ensures
        lookup(set_path(v, parts, val).0, parts) == Some(val),
    decreases parts.len(),
{
    let part = parts[0];
    let rest = parts.drop_first();
    match array_access(part) {
        Some((name, idx)) => {
            let i = parse_unsigned(idx, usize::MAX as nat)->0;
            let a = get_key(v, name)->0->Arr_0;
            let g = grown(a, i);
            assert(g.len() > i);
            let m = v->Tab_0;
            if parts.len() > 1 {
                let (child, err) = set_path(g[i as int], rest, val);
                law_set_then_lookup(g[i as int], rest, val);
                let newv = with_key(v, name, Toml::Arr(g.update(i as int, child)));
                assert(get_key(newv, name) == Some(Toml::Arr(g.update(i as int, child))));
                assert(g.update(i as int, child)[i as int] == child);
                assert(lookup(newv, parts) == lookup(child, rest));
            } else {
                let newv = with_key(v, name, Toml::Arr(g.update(i as int, val)));
                assert(get_key(newv, name) == Some(Toml::Arr(g.update(i as int, val))));
                assert(g.update(i as int, val)[i as int] == val);
                assert(rest.len() == 0);
                assert(lookup(val, rest) == Some(val));
                assert(lookup(newv, parts) == lookup(val, rest));
            }
        },
        None => {
            if parts.len() > 1 {
                let child = get_key(v, part)->0;
                let (c2, err) = set_path(child, rest, val);
                law_set_then_lookup(child, rest, val);
                let newv = with_key(v, part, c2);
                assert(get_key(newv, part) == Some(c2));
                assert(lookup(newv, parts) == lookup(c2, rest));
            } else {
                let m = v->Tab_0;
                let newv = Toml::Tab(m.insert(part, val));
                assert(get_key(newv, part) == Some(val));
                assert(rest.len() == 0);
                assert(lookup(val, rest) == Some(val));
                assert(lookup(newv, parts) == lookup(val, rest));
            }
        },
    }
}

/// An override never changes the type of an existing string field: the new
/// value is the override text itself.
pub proof fn law_string_fields_stay_strings(v: Toml, parts: Seq<Seq<char>>, s: Seq<char>)
    requires
        parts.len() >= 1,
        lookup(v, parts) matches Some(Toml::Str(_)),
        set_path(v, parts, hinted_value(s, type_of(lookup(v, parts)))).1 is None,
    ensures
        lookup(set_path(v, parts, hinted_value(s, type_of(lookup(v, parts)))).0, parts) == Some(
            Toml::Str(s),
        ),
{
    law_set_then_lookup(v, parts, hinted_value(s, type_of(lookup(v, parts))));
}

/// An override of an existing integer, float or boolean field that reads as
/// that type keeps the field's type.
pub proof fn law_scalar_types_kept(s: Seq<char>, hint: ValueType)
    ensures
        hint == ValueType::Integer && parse_i64_spec(s) is Some ==> hinted_value(s, hint) is Int,
        hint == ValueType::Float && float_text(s) ==> hinted_value(s, hint) is Float,
        hint == ValueType::Boolean && (s == seq!['t', 'r', 'u', 'e'] || s == seq!['1'] || s
            == seq!['f', 'a', 'l', 's', 'e'] || s == seq!['0']) ==> hinted_value(s, hint) is Bool,
{
}

/// Text with a leading zero (other than `"0"` itself) that is not a boolean
/// is kept as a string, so identifiers like `00000123` keep their zeros.
pub proof fn law_leading_zeros_stay_strings(s: Seq<char>)
    requires
        s.len() > 1,
        s[0] == '0',
    ensures
        auto_value(s) == Toml::Str(s),
{
    assert(s != seq!['0']);
    assert(s != seq!['t', 'r', 'u', 'e']);
    assert(s != seq!['f', 'a', 'l', 's', 'e']);
}

// ---------------------------------------------------------------------------
// Implementation
// ---------------------------------------------------------------------------

/// Splits `name[index]` into `name` and `index`.
pub fn parse_array_access(s: &str) -> (r: Option<(&str, &str)>)
    ensures
        r matches Some((name, idx)) ==> array_access(s@) == Some((name@, idx@)),
        r is None ==> array_access(s@) is None,
{
    let n = s.unicode_len();
    let open = match find_char(s, '[') {
        Some(o) => o,
        None => return None,
    };
    let close = match find_char(s, ']') {
        Some(c) => c,
        None => return None,
    };
    proof {
        lemma_first_index(s@, '[');
        lemma_first_index(s@, ']');
    }
    if close > open + 1 {
        let name = s.substring_char(0, open);
        let idx = s.substring_char(open + 1, close);
        assert(name@ =~= s@.take(open as int));
        Some((name, idx))
    } else {
        None
    }
}

/// The type of the value at `key`, `Unknown` when there is none.
pub fn get_value_type(config: &ConfigValue, key: &str) -> (r: ValueType)
    ensures
        r == type_of(lookup(config@, split_on(key@, '.'))),
{
    let parts = split_str(key, '.');
    let ghost all = views(parts@);
    let mut current = config;
    let mut i: usize = 0;
    assert(all.skip(0) =~= all);
    while i < parts.len()
        invariant
            i <= parts@.len(),
            all == views(parts@),
            all == split_on(key@, '.'),
            lookup(config@, all) == lookup(current@, all.skip(i as int)),
        decreases parts@.len() - i,
    {
        let part = parts[i].as_str();
        let ghost rest = all.skip(i as int);
        assert(rest[0] == part@);
        assert(rest.drop_first() =~= all.skip(i + 1));
        match parse_array_access(part) {
            Some((name, idx_str)) => {
                match current.get(name) {
                    Some(ConfigValue::Array(arr)) => {
                        proof {
                            lemma_arr_of(arr@);
                        }
                        match parse_usize(idx_str) {
                            Some(idx) => {
                                if idx < arr.len() {
                                    current = &arr[idx];
                                    i = i + 1;
                                    continue ;
                                }
                            },
                            None => {},
                        }
                    },
                    _ => {},
                }
                return ValueType::Unknown;
            },
            None => {
                match current.get(part) {
                    Some(next) => {
                        current = next;
                    },
                    None => {
                        return ValueType::Unknown;
                    },
                }
            },
        }
        i = i + 1;
    }
    assert(all.skip(i as int) =~= Seq::<Seq<char>>::empty());
    match current {
        ConfigValue::String(_) => ValueType::String,
        ConfigValue::Integer(_) => ValueType::Integer,
        ConfigValue::Float(_) => ValueType::Float,
        ConfigValue::Boolean(_) => ValueType::Boolean,
        _ => ValueType::Unknown,
    }
}

fn all_digits_str(s: &str) -> (r: bool)
    ensures
        r == all_digits(s@),
{
    let n = s.unicode_len();
    let mut i: usize = 0;
    while i < n
        invariant
            n == s@.len(),
            i <= n,
            forall|j: int| 0 <= j < i ==> is_digit(#[trigger] s@[j]),
        decreases n - i,
    {
        let c = s.get_char(i);
        if !('0' <= c && c <= '9') {
            assert(!is_digit(s@[i as int]));
            return false;
        }
        i = i + 1;
    }
    true
}

fn mantissa_ok_str(m: &str) -> (r: bool)
    ensures
        r == mantissa_ok(m@),
{
    let n = m.unicode_len();
    match find_char(m, '.') {
        None => n > 0 && all_digits_str(m),
        Some(p) => {
            proof {
                lemma_first_index(m@, '.');
            }
            let left = m.substring_char(0, p);
            let right = m.substring_char(p + 1, n);
            assert(left@ =~= m@.take(p as int));
            assert(right@ =~= m@.skip(p + 1));
            all_digits_str(left) && all_digits_str(right) && (p > 0 || n > p + 1)
        },
    }
}

fn exponent_ok_str(e: &str) -> (r: bool)
    ensures
        r == exponent_ok(e@),
{
    let n = e.unicode_len();
    let body = if n > 0 && (e.get_char(0) == '+' || e.get_char(0) == '-') {
        e.substring_char(1, n)
    } else {
        e.substring_char(0, n)
    };
    assert(body@ =~= unsigned_part(e@));
    body.unicode_len() > 0 && all_digits_str(body)
}

/// Whether `f64`'s parser accepts `s`.
pub fn is_float_text(s: &str) -> (r: bool)
    ensures
        r == float_text(s@),
{
    let n = s.unicode_len();
    let b = if n > 0 && (s.get_char(0) == '+' || s.get_char(0) == '-') {
        s.substring_char(1, n)
    } else {
        s.substring_char(0, n)
    };
    assert(b@ =~= unsigned_part(s@));
    proof {
        reveal_strlit("inf");
        reveal_strlit("infinity");
        reveal_strlit("nan");
        assert("inf"@ =~= seq!['i', 'n', 'f']);
        assert("infinity"@ =~= seq!['i', 'n', 'f', 'i', 'n', 'i', 't', 'y']);
        assert("nan"@ =~= seq!['n', 'a', 'n']);
    }
    if lower_matches(b, "inf") || lower_matches(b, "infinity") || lower_matches(b, "nan") {
        return true;
    }
    let bn = b.unicode_len();
    let e1 = find_char(b, 'e');
    let e2 = find_char(b, 'E');
    let e = match (e1, e2) {
        (Some(x), Some(y)) => Some(if x < y { x } else { y }),
        (Some(x), None) => Some(x),
        (None, Some(y)) => Some(y),
        (None, None) => None,
    };
    match e {
        None => mantissa_ok_str(b),
        Some(k) => {
            proof {
                lemma_first_index(b@, 'e');
                lemma_first_index(b@, 'E');
            }
            let m = b.substring_char(0, k);
            let x = b.substring_char(k + 1, bn);
            assert(m@ =~= b@.take(k as int));
            assert(x@ =~= b@.skip(k + 1));
            mantissa_ok_str(m) && exponent_ok_str(x)
        },
    }
}

/// Reads a value with no existing counterpart.
pub fn parse_value_auto(s: &str) -> (r: ConfigValue)
    ensures
        r@ == auto_value(s@),
{
    proof {
        reveal_strlit("true");
        reveal_strlit("false");
        reveal_strlit("0");
        assert("true"@ =~= seq!['t', 'r', 'u', 'e']);
        assert("false"@ =~= seq!['f', 'a', 'l', 's', 'e']);
        assert("0"@ =~= seq!['0']);
    }
    if str_eq(s, "true") {
        return ConfigValue::Boolean(true);
    }
    if str_eq(s, "false") {
        return ConfigValue::Boolean(false);
    }
    let n = s.unicode_len();
    let leading_zero = n > 0 && s.get_char(0) == '0';
    if !leading_zero || str_eq(s, "0") {
        if let Some(i) = parse_i64(s) {
            return ConfigValue::Integer(i);
        }
        if is_float_text(s) {
            return ConfigValue::Float(string_of(s));
        }
    }
    ConfigValue::String(string_of(s))
}

/// Reads a value given the type of the value it replaces.
pub fn parse_value_with_hint(s: &str, hint: ValueType) -> (r: ConfigValue)
    ensures
        r@ == hinted_value(s@, hint),
{
    proof {
        reveal_strlit("true");
        reveal_strlit("false");
        reveal_strlit("1");
        reveal_strlit("0");
        assert("true"@ =~= seq!['t', 'r', 'u', 'e']);
        assert("false"@ =~= seq!['f', 'a', 'l', 's', 'e']);
        assert("1"@ =~= seq!['1']);
        assert("0"@ =~= seq!['0']);
    }
    match hint {
        ValueType::String => ConfigValue::String(string_of(s)),
        ValueType::Integer => match parse_i64(s) {
            Some(i) => ConfigValue::Integer(i),
            None => ConfigValue::String(string_of(s)),
        },
        ValueType::Float => if is_float_text(s) {
            ConfigValue::Float(string_of(s))
        } else {
            ConfigValue::String(string_of(s))
        },
        ValueType::Boolean => {
            if str_eq(s, "true") || str_eq(s, "1") {
                ConfigValue::Boolean(true)
            } else if str_eq(s, "false") || str_eq(s, "0") {
                ConfigValue::Boolean(false)
            } else {
                ConfigValue::String(string_of(s))
            }
        },
        ValueType::Unknown => parse_value_auto(s),
    }
}

fn message(prefix: &str, middle: &str, suffix: &str) -> (r: String)
    ensures
        r@ == prefix@ + middle@ + suffix@,
{
    let mut r = string_of(prefix);
    r.append(middle);
    r.append(suffix);
    r
}

/// Extends `arr` with empty tables until position `idx` exists.
fn grow(arr: &mut Vec<ConfigValue>, idx: usize)
    ensures
        arr_of(final(arr)@) == grown(arr_of(old(arr)@), idx as nat),
        final(arr)@.len() > idx,
{
    let ghost a0 = arr@;
    while arr.len() <= idx
        invariant
            arr@.len() >= a0.len(),
            arr@.subrange(0, a0.len() as int) == a0,
            forall|k: int| a0.len() <= k < arr@.len() ==> #[trigger] toml_of(arr@[k]) == Toml::Tab(
                Map::empty(),
            ),
            arr@.len() == a0.len() || arr@.len() <= idx + 1,
        decreases idx + 1 - arr@.len(),
    {
        let ghost before = arr@;
        arr.push(ConfigValue::empty_table());
        assert(arr@.subrange(0, a0.len() as int) =~= before.subrange(0, a0.len() as int));
    }
    proof {
        lemma_arr_of(arr@);
        lemma_arr_of(a0);
        let g = grown(arr_of(a0), idx as nat);
        assert forall|k: int| 0 <= k < arr@.len() implies #[trigger] arr_of(arr@)[k] == g[k] by {
            if k < a0.len() {
                assert(arr@[k] == arr@.subrange(0, a0.len() as int)[k]);
            }
        }
        assert(arr_of(arr@) =~= g);
    }
}

/// Sets the value at `parts[i..]` below `cur`.
fn set_at(cur: &mut ConfigValue, parts: &Vec<String>, i: usize, value: ConfigValue) -> (r: Result<
    (),
    String,
>)
    requires
        i < parts@.len(),
    ensures
        ({
            let (t, e) = set_path(old(cur)@, views(parts@).skip(i as int), value@);
            &&& final(cur)@ == t
            &&& r is Ok <==> e is None
            &&& r matches Err(m) ==> e == Some(m@)
        }),
    decreases parts@.len() - i,
{
    let ghost ps = views(parts@).skip(i as int);
    let ghost v0 = cur@;
    let part = parts[i].as_str();
    let n = parts.len();
    let is_last = i + 1 == n;
    assert(ps[0] == part@);
    assert(ps.drop_first() =~= views(parts@).skip(i + 1));
    let mut owned = ConfigValue::Boolean(false);
    std::mem::swap(cur, &mut owned);
    match parse_array_access(part) {
        Some((name, idx_str)) => {
            let idx = match parse_usize(idx_str) {
                Some(x) => x,
                None => {
                    *cur = owned;
                    proof {
                        reveal_strlit("");
                        assert(msg_invalid_index(idx_str@) =~= "Invalid array index: "@ + idx_str@
                            + ""@);
                    }
                    return Err(message("Invalid array index: ", idx_str, ""));
                },
            };
            match owned {
                ConfigValue::Table(mut entries) => {
                    proof {
                        lemma_tab_of(entries@, name@);
                    }
                    match table_find(&entries, name) {
                        None => {
                            *cur = ConfigValue::Table(entries);
                            Err(message("Key '", name, "' not found"))
                        },
                        Some(j) => {
                            let ghost m0 = tab_of(entries@);
                            let ghost e0 = entries@[j as int];
                            let child = table_replace(&mut entries, j, ConfigValue::Boolean(false));
                            match child {
                                ConfigValue::Array(mut arr) => {
                                    let ghost a = arr_of(arr@);
                                    grow(&mut arr, idx);
                                    let ghost g = arr_of(arr@);
                                    proof {
                                        lemma_arr_of(arr@);
                                    }
                                    let r = if is_last {
                                        let ghost before = arr@;
                                        let _ = arr.remove(idx);
                                        arr.insert(idx, value);
                                        proof {
                                            assert(arr@ =~= before.update(idx as int, value));
                                            lemma_arr_of(arr@);
                                            assert(arr_of(arr@) =~= g.update(idx as int, value@));
                                        }
                                        Ok(())
                                    } else {
                                        let ghost before = arr@;
                                        let mut elem = arr.remove(idx);
                                        assert(elem@ == g[idx as int]);
                                        let r = set_at(&mut elem, parts, i + 1, value);
                                        let ghost e2 = elem;
                                        arr.insert(idx, elem);
                                        proof {
                                            assert(arr@ =~= before.update(idx as int, e2));
                                            lemma_arr_of(arr@);
                                            assert(arr_of(arr@) =~= g.update(
                                                idx as int,
                                                toml_of(e2),
                                            ));
                                        }
                                        r
                                    };
                                    let ghost av = Toml::Arr(arr_of(arr@));
                                    let _ = table_replace(&mut entries, j, ConfigValue::Array(arr));
                                    assert(tab_of(entries@) =~= m0.insert(name@, av));
                                    *cur = ConfigValue::Table(entries);
                                    r
                                },
                                other => {
                                    let _ = table_replace(&mut entries, j, other);
                                    *cur = ConfigValue::Table(entries);
                                    proof {
                                        assert(e0.0@ == name@);
                                        assert(toml_of(other) == m0[name@]);
                                        assert(tab_of(entries@) =~= m0);
                                    }
                                    Err(message("'", name, "' is not an array"))
                                },
                            }
                        },
                    }
                },
                other => {
                    *cur = other;
                    Err(message("Key '", name, "' not found"))
                },
            }
        },
        None => {
            if is_last {
                match owned {
                    ConfigValue::Table(mut entries) => {
                        table_insert(&mut entries, string_of(part), value);
                        *cur = ConfigValue::Table(entries);
                        Ok(())
                    },
                    other => {
                        *cur = other;
                        Err(message("Cannot set '", part, "': parent is not a table"))
                    },
                }
            } else {
                match owned {
                    ConfigValue::Table(mut entries) => {
                        proof {
                            lemma_tab_of(entries@, part@);
                        }
                        match table_find(&entries, part) {
                            None => {
                                *cur = ConfigValue::Table(entries);
                                Err(message("Key '", part, "' not found"))
                            },
                            Some(j) => {
                                let ghost m0 = tab_of(entries@);
                                let mut child = table_replace(
                                    &mut entries,
                                    j,
                                    ConfigValue::Boolean(false),
                                );
                                let r = set_at(&mut child, parts, i + 1, value);
                                let ghost cv = child@;
                                let _ = table_replace(&mut entries, j, child);
                                assert(tab_of(entries@) =~= m0.insert(part@, cv));
                                *cur = ConfigValue::Table(entries);
                                r
                            },
                        }
                    },
                    other => {
                        *cur = other;
                        Err(message("Key '", part, "' not found"))
                    },
                }
            }
        },
    }
}

/// Sets the value at the dotted path `key`.
pub fn set_nested_value(config: &mut ConfigValue, key: &str, value: ConfigValue) -> (r: Result<
    (),
    String,
>)
    ensures
        ({
            let (t, e) = set_path(old(config)@, split_on(key@, '.'), value@);
            &&& final(config)@ == t
            &&& r is Ok <==> e is None
            &&& r matches Err(m) ==> e == Some(m@)
        }),
{
    let parts = split_str(key, '.');
    assert(views(parts@).skip(0) =~= views(parts@));
    set_at(config, &parts, 0, value)
}

/// Applies one `KEY=VALUE` override to `config`.
pub fn apply(config: &mut ConfigValue, override_str: &str) -> (r: Result<(), String>)
    ensures
        match first_index(override_str@, '=') {
            None => {
                &&& final(config)@ == old(config)@
                &&& r matches Err(m) && m@ == msg_bad_format(override_str@)
            },
            Some(eq) => {
                let key = override_str@.take(eq);
                let text = override_str@.skip(eq + 1);
                let parts = split_on(key, '.');
                let (t, e) = set_path(
                    old(config)@,
                    parts,
                    hinted_value(text, type_of(lookup(old(config)@, parts))),
                );
                &&& final(config)@ == t
                &&& r is Ok <==> e is None
                &&& r matches Err(m) ==> e == Some(m@)
            },
        },
{
    let eq = match find_char(override_str, '=') {
        Some(e) => e,
        None => {
            return Err(message("Invalid override format: '", override_str, "'. Expected KEY=VALUE"));
        },
    };
    proof {
        lemma_first_index(override_str@, '=');
    }
    let n = override_str.unicode_len();
    let key = override_str.substring_char(0, eq);
    let value = override_str.substring_char(eq + 1, n);
    assert(key@ =~= override_str@.take(eq as int));
    assert(value@ =~= override_str@.skip(eq + 1));
    let existing_type = get_value_type(config, key);
    let parsed_value = parse_value_with_hint(value, existing_type);
    set_nested_value(config, key, parsed_value)
}

} // verus!
