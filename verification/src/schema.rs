//! Field listings of the invoice formats, read off their JSON Schema: every
//! leaf field with its dotted path (`[]` marks the items of an array), its
//! type name, and whether it may be left out.
//!
//! References (`$ref`) are followed into the schema's definitions. A schema
//! whose references run in a circle has no finite listing; the functions here
//! take only schemas on which the walk ends, which is stated with a bound on
//! the depth of the walk (`fuel`): a spec function returns `None` exactly when
//! the walk needs more than `fuel` nested steps.
use vstd::prelude::*;

use crate::commands::{pad_right, push_padded_right};
use crate::text::{push_char, str_eq, string_of};

verus! {

/// A JSON value. An object lists its members in order.
pub enum Json {
    Null,
    Bool(bool),
    Number(String),
    Str(String),
    Array(Vec<Json>),
    Object(Vec<(String, Json)>),
}

/// The value of the first member named `k`.
pub open spec fn member(m: Seq<(String, Json)>, k: Seq<char>) -> Option<Json>
    decreases m.len(),
{
    if m.len() == 0 {
        None
    } else if m[0].0@ == k {
        Some(m[0].1)
    } else {
        member(m.drop_first(), k)
    }
}

/// `Value::get`: the member `k` of an object, `None` for anything else.
pub open spec fn get(v: Json, k: Seq<char>) -> Option<Json> {
    match v {
        Json::Object(m) => member(m@, k),
        _ => None,
    }
}

/// The text of a string value.
pub open spec fn str_of(v: Option<Json>) -> Option<Seq<char>> {
    match v {
        Some(Json::Str(s)) => Some(s@),
        _ => None,
    }
}

pub open spec fn defs_prefix() -> Seq<char> {
    "#/$defs/"@
}

/// The definition that a reference names: the reference without its
/// `#/$defs/` prefix.
pub open spec fn ref_name(r: Seq<char>) -> Seq<char> {
    if r.len() >= 8 && r.take(8) == defs_prefix() {
        r.skip(8)
    } else {
        r
    }
}

/// The definition that the `$ref` member of an object points to, if it
/// names one that exists.
pub open spec fn ref_target(m: Seq<(String, Json)>, defs: Json) -> Option<Json> {
    match str_of(member(m, "$ref"@)) {
        Some(r) => get(defs, ref_name(r)),
        None => None,
    }
}

/// JSON Schema type names as listed: `integer` is listed as `number`.
pub open spec fn normalize(t: Seq<char>) -> Seq<char> {
    if t == "integer"@ {
        "number"@
    } else {
        t
    }
}

/// The first string in `ts` other than `null`.
pub open spec fn first_non_null(ts: Seq<Json>) -> Option<Seq<char>>
    decreases ts.len(),
{
    if ts.len() == 0 {
        None
    } else {
        match ts[0] {
            Json::Str(s) => if s@ != "null"@ {
                Some(s@)
            } else {
                first_non_null(ts.drop_first())
            },
            _ => first_non_null(ts.drop_first()),
        }
    }
}

/// Whether the string `t` occurs in `ts`.
pub open spec fn has_str(ts: Seq<Json>, t: Seq<char>) -> bool {
    exists|i: int| 0 <= i < ts.len() && (#[trigger] ts[i] matches Json::Str(s) && s@ == t)
}

/// Whether an object lists `name` among its `required` members.
pub open spec fn is_required(m: Seq<(String, Json)>, name: Seq<char>) -> bool {
    match member(m, "required"@) {
        Some(Json::Array(a)) => has_str(a@, name),
        _ => false,
    }
}

/// The path of member `name` below `prefix`.
pub open spec fn joined_path(prefix: Seq<char>, name: Seq<char>) -> Seq<char> {
    if prefix.len() == 0 {
        name
    } else {
        prefix + "."@ + name
    }
}

proof fn lemma_member_skip(m: Seq<(String, Json)>, k: Seq<char>, i: int)
    requires
        0 <= i < m.len(),
    ensures
        member(m.skip(i), k) == if m[i].0@ == k {
            Some(m[i].1)
        } else {
            member(m.skip(i + 1), k)
        },
{
    assert(m.skip(i).drop_first() =~= m.skip(i + 1));
}

fn find_member<'a>(m: &'a Vec<(String, Json)>, k: &str) -> (r: Option<&'a Json>)
    ensures
        match r {
            Some(x) => member(m@, k@) == Some(*x),
            None => member(m@, k@) is None,
        },
{
    let mut i: usize = 0;
    assert(m@.skip(0) =~= m@);
    while i < m.len()
        invariant
            i <= m@.len(),
            member(m@, k@) == member(m@.skip(i as int), k@),
        decreases m@.len() - i,
    {
        proof {
            lemma_member_skip(m@, k@, i as int);
        }
        if str_eq(m[i].0.as_str(), k) {
            return Some(&m[i].1);
        }
        i = i + 1;
    }
    assert(m@.skip(i as int).len() == 0);
    None
}

fn json_get<'a>(v: &'a Json, k: &str) -> (r: Option<&'a Json>)
    ensures
        match r {
            Some(x) => get(*v, k@) == Some(*x),
            None => get(*v, k@) is None,
        },
{
    match v {
        Json::Object(m) => find_member(m, k),
        _ => None,
    }
}

fn as_text<'a>(v: Option<&'a Json>) -> (r: Option<&'a str>)
    ensures
        match r {
            Some(s) => v matches Some(x) && str_of(Some(*x)) == Some(s@),
            None => v matches Some(x) ==> str_of(Some(*x)) is None,
        },
{
    match v {
        Some(Json::Str(s)) => Some(s.as_str()),
        _ => None,
    }
}

fn ref_name_of<'a>(r: &'a str) -> (n: &'a str)
    ensures
        n@ == ref_name(r@),
{
    let len = r.unicode_len();
    if len >= 8 {
        let head = r.substring_char(0, 8);
        proof {
            reveal_strlit("#/$defs/");
        }
        if str_eq(head, "#/$defs/") {
            assert(r@.take(8) =~= head@);
            let tail = r.substring_char(8, len);
            assert(tail@ =~= r@.skip(8));
            return tail;
        }
        assert(r@.take(8) =~= head@);
    }
    r
}

/// The definition that the `$ref` member of object `m` points to.
fn follow_ref<'a>(m: &'a Vec<(String, Json)>, defs: &'a Json) -> (r: Option<&'a Json>)
    ensures
        match r {
            Some(d) => ref_target(m@, *defs) == Some(*d),
            None => ref_target(m@, *defs) is None,
        },
{
    match as_text(find_member(m, "$ref")) {
        Some(name) => json_get(defs, ref_name_of(name)),
        None => None,
    }
}

/// Follows the references from `s`: `Some(Some(m))` with the members of the
/// object reached, `Some(None)` when the walk ends on something other than
/// an object or on a reference to a missing definition, and `None` when it
/// takes more than `fuel` steps.
pub open spec fn resolve(fuel: nat, s: Json, defs: Json) -> Option<Option<Seq<(String, Json)>>>
    decreases fuel,
{
    if fuel == 0 {
        None
    } else {
        match s {
            Json::Object(m) => match str_of(member(m@, "$ref"@)) {
                Some(r) => match get(defs, ref_name(r)) {
                    Some(d) => resolve((fuel - 1) as nat, d, defs),
                    None => Some(None),
                },
                None => Some(Some(m@)),
            },
            _ => Some(None),
        }
    }
}

/// `is_nested_object`: whether `s`, references followed, is an object
/// schema with `properties`.
pub open spec fn nested_spec(fuel: nat, s: Json, defs: Json) -> Option<bool> {
    match resolve(fuel, s, defs) {
        None => None,
        Some(None) => Some(false),
        Some(Some(m)) => Some(member(m, "properties"@) is Some),
    }
}

/// `is_array`: whether `s`, references followed, has type `array`.
pub open spec fn array_spec(fuel: nat, s: Json, defs: Json) -> Option<bool> {
    match resolve(fuel, s, defs) {
        None => None,
        Some(None) => Some(false),
        Some(Some(m)) => Some(str_of(member(m, "type"@)) == Some("array"@)),
    }
}

/// Whether one of the variants `vs`, tried in order, is an array.
pub open spec fn any_array(fuel: nat, vs: Seq<Json>, defs: Json) -> Option<bool>
    decreases vs.len(),
{
    if vs.len() == 0 {
        Some(false)
    } else {
        match array_spec(fuel, vs[0], defs) {
            None => None,
            Some(true) => Some(true),
            Some(false) => any_array(fuel, vs.drop_first(), defs),
        }
    }
}

/// `is_optional_array`: type `["array", "null"]` (in any order, among
/// others), or an `anyOf` with an array variant.
pub open spec fn opt_array_spec(fuel: nat, s: Json, defs: Json) -> Option<bool> {
    match s {
        Json::Object(m) => if (member(m@, "type"@) matches Some(Json::Array(ts)) && has_str(
            ts@,
            "array"@,
        ) && has_str(ts@, "null"@)) {
            Some(true)
        } else {
            match member(m@, "anyOf"@) {
                Some(Json::Array(vs)) => any_array(fuel, vs@, defs),
                _ => Some(false),
            }
        },
        _ => Some(false),
    }
}

fn resolve_members<'a>(s: &'a Json, defs: &'a Json, Ghost(fuel): Ghost<nat>) -> (r: Option<
    &'a Vec<(String, Json)>,
>)
    requires
        resolve(fuel, *s, *defs) is Some,
    ensures
        match r {
            Some(m) => resolve(fuel, *s, *defs) == Some(Some(m@)),
            None => resolve(fuel, *s, *defs) == Some(None::<Seq<(String, Json)>>),
        },
    decreases fuel,
{
    match s {
        Json::Object(m) => match as_text(find_member(m, "$ref")) {
            Some(r) => match json_get(defs, ref_name_of(r)) {
                Some(d) => resolve_members(d, defs, Ghost((fuel - 1) as nat)),
                None => None,
            },
            None => Some(m),
        },
        _ => None,
    }
}

fn is_nested_object(s: &Json, defs: &Json, Ghost(fuel): Ghost<nat>) -> (r: bool)
    requires
        nested_spec(fuel, *s, *defs) is Some,
    ensures
        nested_spec(fuel, *s, *defs) == Some(r),
{
    match resolve_members(s, defs, Ghost(fuel)) {
        Some(m) => find_member(m, "properties").is_some(),
        None => false,
    }
}

fn is_array(s: &Json, defs: &Json, Ghost(fuel): Ghost<nat>) -> (r: bool)
    requires
        array_spec(fuel, *s, *defs) is Some,
    ensures
        array_spec(fuel, *s, *defs) == Some(r),
{
    proof {
        reveal_strlit("array");
    }
    match resolve_members(s, defs, Ghost(fuel)) {
        Some(m) => match as_text(find_member(m, "type")) {
            Some(t) => str_eq(t, "array"),
            None => false,
        },
        None => false,
    }
}

fn has_text(ts: &Vec<Json>, t: &str) -> (r: bool)
    ensures
        r == has_str(ts@, t@),
{
    let mut i: usize = 0;
    while i < ts.len()
        invariant
            i <= ts@.len(),
            forall|j: int| 0 <= j < i ==> !(#[trigger] ts@[j] matches Json::Str(s) && s@ == t@),
        decreases ts@.len() - i,
    {
        if let Json::Str(s) = &ts[i] {
            if str_eq(s.as_str(), t) {
                return true;
            }
        }
        i = i + 1;
    }
    false
}

fn is_optional_array(s: &Json, defs: &Json, Ghost(fuel): Ghost<nat>) -> (r: bool)
    requires
        opt_array_spec(fuel, *s, *defs) is Some,
    ensures
        opt_array_spec(fuel, *s, *defs) == Some(r),
{
    match s {
        Json::Object(m) => {
            if let Some(Json::Array(ts)) = find_member(m, "type") {
                if has_text(ts, "array") && has_text(ts, "null") {
                    return true;
                }
            }
            if let Some(Json::Array(vs)) = find_member(m, "anyOf") {
                let mut i: usize = 0;
                assert(vs@.skip(0) =~= vs@);
                while i < vs.len()
                    invariant
                        i <= vs@.len(),
                        any_array(fuel, vs@.skip(i as int), *defs) == any_array(fuel, vs@, *defs),
                        any_array(fuel, vs@, *defs) is Some,
                        *s == Json::Object(*m),
                        member(m@, "anyOf"@) == Some(Json::Array(*vs)),
                    decreases vs@.len() - i,
                {
                    assert(vs@.skip(i as int).drop_first() =~= vs@.skip(i + 1));
                    assert(vs@.skip(i as int)[0] == vs@[i as int]);
                    if is_array(&vs[i], defs, Ghost(fuel)) {
                        assert(any_array(fuel, vs@.skip(i as int), *defs) == Some(true));
                        return true;
                    }
                    i = i + 1;
                }
                assert(vs@.skip(i as int).len() == 0);
            }
            false
        },
        _ => false,
    }
}

/// The type named directly by an object schema: its `type` when that is a
/// string, else the first type other than `null` in its `type` list.
pub open spec fn direct_type(m: Seq<(String, Json)>) -> Seq<char> {
    match str_of(member(m, "type"@)) {
        Some(t) => normalize(t),
        None => match member(m, "type"@) {
            Some(Json::Array(ts)) => match first_non_null(ts@) {
                Some(t) => normalize(t),
                None => "unknown"@,
            },
            _ => "unknown"@,
        },
    }
}

/// `get_type_name`: the listed type of schema `s`. A reference to an
/// existing definition gives that definition's type; otherwise the first
/// `anyOf` variant that decides one, then the object's own `type`, then
/// `unknown`. `None` when that takes more than `fuel` nested steps.
pub open spec fn listed_type(fuel: nat, s: Json, defs: Json) -> Option<Seq<char>>
    decreases fuel, 0nat,
{
    if fuel == 0 {
        None
    } else {
        match s {
            Json::Object(m) => match ref_target(m@, defs) {
                Some(d) => listed_type((fuel - 1) as nat, d, defs),
                None => {
                    let via_variants = match member(m@, "anyOf"@) {
                        Some(Json::Array(vs)) => variants_type((fuel - 1) as nat, vs@, defs),
                        _ => Some(None),
                    };
                    match via_variants {
                        None => None,
                        Some(Some(t)) => Some(t),
                        Some(None) => Some(direct_type(m@)),
                    }
                },
            },
            _ => Some("unknown"@),
        }
    }
}

/// The type given by the first of the `anyOf` variants `vs` that gives one:
/// a variant whose `type` is a string other than `null` gives that type; one
/// with no string `type` and a reference to an existing definition gives
/// that definition's type. `Some(None)` when none gives one.
pub open spec fn variants_type(fuel: nat, vs: Seq<Json>, defs: Json) -> Option<Option<Seq<char>>>
    decreases fuel, vs.len() + 1,
{
    if vs.len() == 0 {
        Some(None)
    } else {
        let t = str_of(get(vs[0], "type"@));
        if t == Some("null"@) {
            variants_type(fuel, vs.drop_first(), defs)
        } else {
            match t {
                Some(name) => Some(Some(normalize(name))),
                None => match str_of(get(vs[0], "$ref"@)) {
                    Some(r) => match get(defs, ref_name(r)) {
                        Some(d) => match listed_type(fuel, d, defs) {
                            None => None,
                            Some(x) => Some(Some(x)),
                        },
                        None => variants_type(fuel, vs.drop_first(), defs),
                    },
                    None => variants_type(fuel, vs.drop_first(), defs),
                },
            }
        }
    }
}

fn first_text_other_than_null(ts: &Vec<Json>) -> (r: Option<&str>)
    ensures
        match r {
            Some(t) => first_non_null(ts@) == Some(t@),
            None => first_non_null(ts@) is None,
        },
{
    proof {
        reveal_strlit("null");
    }
    let mut i: usize = 0;
    assert(ts@.skip(0) =~= ts@);
    while i < ts.len()
        invariant
            i <= ts@.len(),
            first_non_null(ts@.skip(i as int)) == first_non_null(ts@),
        decreases ts@.len() - i,
    {
        assert(ts@.skip(i as int).drop_first() =~= ts@.skip(i + 1));
        assert(ts@.skip(i as int)[0] == ts@[i as int]);
        if let Json::Str(s) = &ts[i] {
            if !str_eq(s.as_str(), "null") {
                return Some(s.as_str());
            }
        }
        i = i + 1;
    }
    assert(ts@.skip(i as int).len() == 0);
    None
}

fn direct_type_name(m: &Vec<(String, Json)>) -> (r: String)
    ensures
        r@ == direct_type(m@),
{
    proof {
        reveal_strlit("unknown");
    }
    let ty = find_member(m, "type");
    match as_text(ty) {
        Some(t) => normalize_type(t),
        None => match ty {
            Some(Json::Array(ts)) => match first_text_other_than_null(ts) {
                Some(t) => normalize_type(t),
                None => string_of("unknown"),
            },
            _ => string_of("unknown"),
        },
    }
}

fn get_type_name(s: &Json, defs: &Json, Ghost(fuel): Ghost<nat>) -> (r: String)
    requires
        listed_type(fuel, *s, *defs) is Some,
    ensures
        listed_type(fuel, *s, *defs) == Some(r@),
    decreases fuel,
{
    proof {
        reveal_strlit("unknown");
        reveal_strlit("null");
    }
    let m = match s {
        Json::Object(m) => m,
        _ => {
            return string_of("unknown");
        },
    };
    if let Some(d) = follow_ref(m, defs) {
        return get_type_name(d, defs, Ghost((fuel - 1) as nat));
    }
    if let Some(Json::Array(vs)) = find_member(m, "anyOf") {
        let ghost f: nat = (fuel - 1) as nat;
        let mut i: usize = 0;
        assert(vs@.skip(0) =~= vs@);
        while i < vs.len()
            invariant
                i <= vs@.len(),
                fuel >= 1,
                f == fuel - 1,
                *s == Json::Object(*m),
                ref_target(m@, *defs) is None,
                member(m@, "anyOf"@) == Some(Json::Array(*vs)),
                listed_type(fuel, *s, *defs) is Some,
                variants_type(f, vs@.skip(i as int), *defs) == variants_type(f, vs@, *defs),
            decreases vs@.len() - i,
        {
            let ghost rest = vs@.skip(i as int);
            assert(rest.drop_first() =~= vs@.skip(i + 1));
            assert(rest[0] == vs@[i as int]);
            let v = &vs[i];
            let t = as_text(json_get(v, "type"));
            let is_null = match t {
                Some(tt) => str_eq(tt, "null"),
                None => false,
            };
            if !is_null {
                if let Some(tt) = t {
                    return normalize_type(tt);
                }
                if let Some(r) = as_text(json_get(v, "$ref")) {
                    if let Some(d) = json_get(defs, ref_name_of(r)) {
                        return get_type_name(d, defs, Ghost(f));
                    }
                }
            }
            i = i + 1;
        }
        assert(vs@.skip(i as int).len() == 0);
    }
    direct_type_name(m)
}

/// One leaf field of a format: its path, its listed type, and whether it
/// may be left out.
pub struct FieldInfo {
    pub path: String,
    pub typ: String,
    pub optional: bool,
}

impl View for FieldInfo {
    type V = (Seq<char>, Seq<char>, bool);

    open spec fn view(&self) -> (Seq<char>, Seq<char>, bool) {
        (self.path@, self.typ@, self.optional)
    }
}

pub open spec fn field_views(v: Seq<FieldInfo>) -> Seq<(Seq<char>, Seq<char>, bool)> {
    Seq::new(v.len(), |i: int| v[i]@)
}

/// `extract_fields`: the leaf fields of schema `s` below path `prefix`. A
/// reference is replaced by the definition it names (nothing when that is
/// missing); an object schema lists its `properties` in order: nested
/// objects and arrays are walked (array items below `path[]`), and every
/// other property is a leaf, optional unless it is `required`. `None` when
/// the walk takes more than `fuel` nested steps.
pub open spec fn fields_of(fuel: nat, s: Json, defs: Json, prefix: Seq<char>) -> Option<
    Seq<(Seq<char>, Seq<char>, bool)>,
>
    decreases fuel, 0nat,
{
    if fuel == 0 {
        None
    } else {
        match s {
            Json::Object(m) => match str_of(member(m@, "$ref"@)) {
                Some(r) => match get(defs, ref_name(r)) {
                    Some(d) => fields_of((fuel - 1) as nat, d, defs, prefix),
                    None => Some(seq![]),
                },
                None => match member(m@, "properties"@) {
                    Some(Json::Object(props)) => props_fields(
                        (fuel - 1) as nat,
                        props@,
                        m@,
                        defs,
                        prefix,
                    ),
                    _ => Some(seq![]),
                },
            },
            _ => Some(seq![]),
        }
    }
}

/// The fields of the properties `props` of the object schema with members
/// `m`, in order.
pub open spec fn props_fields(
    fuel: nat,
    props: Seq<(String, Json)>,
    m: Seq<(String, Json)>,
    defs: Json,
    prefix: Seq<char>,
) -> Option<Seq<(Seq<char>, Seq<char>, bool)>>
    decreases fuel, props.len() + 1,
{
    if props.len() == 0 {
        Some(seq![])
    } else {
        match props_fields(fuel, props.drop_last(), m, defs, prefix) {
            None => None,
            Some(front) => {
                let name = props.last().0@;
                let p = props.last().1;
                let path = joined_path(prefix, name);
                let one = match nested_spec(fuel, p, defs) {
                    None => None,
                    Some(true) => fields_of(fuel, p, defs, path),
                    Some(false) => match array_spec(fuel, p, defs) {
                        None => None,
                        Some(true) => array_fields(fuel, p, defs, path),
                        Some(false) => match opt_array_spec(fuel, p, defs) {
                            None => None,
                            Some(true) => opt_array_fields(fuel, p, defs, path),
                            Some(false) => match listed_type(fuel, p, defs) {
                                None => None,
                                Some(t) => Some(seq![(path, t, !is_required(m, name))]),
                            },
                        },
                    },
                };
                match one {
                    None => None,
                    Some(x) => Some(front + x),
                }
            },
        }
    }
}

/// `extract_array_fields`: references followed, the fields of the array's
/// `items` below `prefix[]`.
pub open spec fn array_fields(fuel: nat, s: Json, defs: Json, prefix: Seq<char>) -> Option<
    Seq<(Seq<char>, Seq<char>, bool)>,
>
    decreases fuel, 0nat,
{
    if fuel == 0 {
        None
    } else {
        match s {
            Json::Object(m) => match str_of(member(m@, "$ref"@)) {
                Some(r) => match get(defs, ref_name(r)) {
                    Some(d) => array_fields((fuel - 1) as nat, d, defs, prefix),
                    None => Some(seq![]),
                },
                None => match member(m@, "items"@) {
                    Some(items) => fields_of((fuel - 1) as nat, items, defs, prefix + "[]"@),
                    None => Some(seq![]),
                },
            },
            _ => Some(seq![]),
        }
    }
}

/// `extract_optional_array_fields`: the fields of the schema's own `items`
/// below `prefix[]`.
pub open spec fn opt_array_fields(fuel: nat, s: Json, defs: Json, prefix: Seq<char>) -> Option<
    Seq<(Seq<char>, Seq<char>, bool)>,
>
    decreases fuel, 0nat,
{
    if fuel == 0 {
        None
    } else {
        match s {
            Json::Object(m) => match member(m@, "items"@) {
                Some(items) => fields_of((fuel - 1) as nat, items, defs, prefix + "[]"@),
                None => Some(seq![]),
            },
            _ => Some(seq![]),
        }
    }
}

/// A property whose schema is an optional array (`type` listing `array`
/// and `null`, with `items`) contributes the fields of its items, exactly
/// and in order, below `name[]`: for an object schema whose one property is
/// such an array, the listing is the listing of the items.
pub proof fn law_optional_array_items(
    fuel: nat,
    s: Json,
    defs: Json,
    prefix: Seq<char>,
    name: Seq<char>,
    it: Json,
)
    requires
        fuel >= 2,
        s matches Json::Object(m) && str_of(member(m@, "$ref"@)) is None && (member(
            m@,
            "properties"@,
        ) matches Some(Json::Object(props)) && props@.len() == 1 && props@[0].0@ == name && (
        props@[0].1 matches Json::Object(qm) && member(qm@, "$ref"@) is None && member(
            qm@,
            "properties"@,
        ) is None && (member(qm@, "type"@) matches Some(Json::Array(ts)) && has_str(
            ts@,
            "array"@,
        ) && has_str(ts@, "null"@)) && member(qm@, "items"@) == Some(it))),
    ensures
        fields_of(fuel, s, defs, prefix) == fields_of(
            (fuel - 2) as nat,
            it,
            defs,
            joined_path(prefix, name) + "[]"@,
        ),
{
    let m = s->Object_0;
    let props = member(m@, "properties"@)->0->Object_0;
    let q = props@[0].1;
    let qm = q->Object_0;
    let f = (fuel - 1) as nat;
    let path = joined_path(prefix, name);
    assert(props@.drop_last().len() == 0);
    assert(props@.last() == props@[0]);
    assert(resolve(f, q, defs) == Some(Some(qm@)));
    assert(nested_spec(f, q, defs) == Some(false));
    assert(array_spec(f, q, defs) == Some(false));
    assert(opt_array_spec(f, q, defs) == Some(true));
    assert(opt_array_fields(f, q, defs, path) == fields_of((fuel - 2) as nat, it, defs, path
        + "[]"@));
    let x = fields_of((fuel - 2) as nat, it, defs, path + "[]"@);
    if x is Some {
        assert(seq![] + x->0 =~= x->0);
    }
    assert(props_fields(f, props@.drop_last(), m@, defs, prefix) == Some(
        Seq::<(Seq<char>, Seq<char>, bool)>::empty(),
    ));
    assert(props@.last().0@ == name);
    assert(props@.last().1 == q);
    assert(props_fields(f, props@, m@, defs, prefix) == x);
    assert(fields_of(fuel, s, defs, prefix) == props_fields(f, props@, m@, defs, prefix));
}

proof fn lemma_props_prefix(
    fuel: nat,
    props: Seq<(String, Json)>,
    m: Seq<(String, Json)>,
    defs: Json,
    prefix: Seq<char>,
    i: int,
)
    requires
        props_fields(fuel, props, m, defs, prefix) is Some,
        0 <= i <= props.len(),
    ensures
        props_fields(fuel, props.take(i), m, defs, prefix) is Some,
    decreases props.len(),
{
    if i == props.len() {
        assert(props.take(i) =~= props);
    } else {
        lemma_props_prefix(fuel, props.drop_last(), m, defs, prefix, i);
        assert(props.drop_last().take(i) =~= props.take(i));
    }
}

fn push_field(out: &mut Vec<FieldInfo>, f: FieldInfo)
    ensures
        field_views(final(out)@) == field_views(old(out)@).push(f@),
{
    out.push(f);
    assert(field_views(out@) =~= field_views(old(out)@).push(f@));
}

fn required_name(m: &Vec<(String, Json)>, name: &str) -> (r: bool)
    ensures
        r == is_required(m@, name@),
{
    match find_member(m, "required") {
        Some(Json::Array(a)) => has_text(a, name),
        _ => false,
    }
}

fn path_below(prefix: &str, name: &str) -> (r: String)
    ensures
        r@ == joined_path(prefix@, name@),
{
    let mut out = string_of(prefix);
    if prefix.unicode_len() == 0 {
        string_of(name)
    } else {
        out.append(".");
        out.append(name);
        out
    }
}

fn items_prefix(prefix: &str) -> (r: String)
    ensures
        r@ == prefix@ + "[]"@,
{
    let mut out = string_of(prefix);
    out.append("[]");
    out
}

fn extract_into(
    s: &Json,
    defs: &Json,
    prefix: &str,
    out: &mut Vec<FieldInfo>,
    Ghost(fuel): Ghost<nat>,
)
    requires
        fields_of(fuel, *s, *defs, prefix@) is Some,
    ensures
        field_views(final(out)@) == field_views(old(out)@) + fields_of(
            fuel,
            *s,
            *defs,
            prefix@,
        ).unwrap(),
    decreases fuel,
{
    let ghost start = field_views(out@);
    let m = match s {
        Json::Object(m) => m,
        _ => {
            assert(field_views(out@) =~= start + seq![]);
            return;
        },
    };
    if let Some(r) = as_text(find_member(m, "$ref")) {
        if let Some(d) = json_get(defs, ref_name_of(r)) {
            extract_into(d, defs, prefix, out, Ghost((fuel - 1) as nat));
        } else {
            assert(field_views(out@) =~= start + seq![]);
        }
        return;
    }
    let props = match find_member(m, "properties") {
        Some(Json::Object(props)) => props,
        _ => {
            assert(field_views(out@) =~= start + seq![]);
            return;
        },
    };
    let ghost f: nat = (fuel - 1) as nat;
    let ghost ps = props@;
    let mut i: usize = 0;
    proof {
        lemma_props_prefix(f, ps, m@, *defs, prefix@, 0);
        assert(ps.take(0) =~= seq![]);
        assert(field_views(out@) =~= start + seq![]);
    }
    while i < props.len()
        invariant
            i <= ps.len(),
            ps == props@,
            fuel >= 1,
            f == fuel - 1,
            *s == Json::Object(*m),
            str_of(member(m@, "$ref"@)) is None,
            member(m@, "properties"@) == Some(Json::Object(*props)),
            props_fields(f, ps, m@, *defs, prefix@) is Some,
            props_fields(f, ps.take(i as int), m@, *defs, prefix@) is Some,
            field_views(out@) == start + props_fields(f, ps.take(i as int), m@, *defs, prefix@).unwrap(),
        decreases ps.len() - i,
    {
        proof {
            lemma_props_prefix(f, ps, m@, *defs, prefix@, i + 1);
            assert(ps.take(i + 1).drop_last() =~= ps.take(i as int));
            assert(ps.take(i + 1).last() == ps[i as int]);
        }
        let ghost before = field_views(out@);
        let ghost front = props_fields(f, ps.take(i as int), m@, *defs, prefix@).unwrap();
        let name = props[i].0.as_str();
        let p = &props[i].1;
        let path = path_below(prefix, name);
        let ghost one = props_fields(f, ps.take(i + 1), m@, *defs, prefix@).unwrap().skip(
            front.len() as int,
        );
        assert(props_fields(f, ps.take(i + 1), m@, *defs, prefix@).unwrap() =~= front + one);
        if is_nested_object(p, defs, Ghost(f)) {
            extract_into(p, defs, path.as_str(), out, Ghost(f));
        } else if is_array(p, defs, Ghost(f)) {
            extract_array_into(p, defs, path.as_str(), out, Ghost(f));
        } else if is_optional_array(p, defs, Ghost(f)) {
            extract_opt_array_into(p, defs, path.as_str(), out, Ghost(f));
        } else {
            let typ = get_type_name(p, defs, Ghost(f));
            let optional = !required_name(m, name);
            push_field(out, FieldInfo { path, typ, optional });
        }
        assert(field_views(out@) =~= start + props_fields(
            f,
            ps.take(i + 1),
            m@,
            *defs,
            prefix@,
        ).unwrap());
        i = i + 1;
    }
    assert(ps.take(i as int) =~= ps);
}

fn extract_array_into(
    s: &Json,
    defs: &Json,
    prefix: &str,
    out: &mut Vec<FieldInfo>,
    Ghost(fuel): Ghost<nat>,
)
    requires
        array_fields(fuel, *s, *defs, prefix@) is Some,
    ensures
        field_views(final(out)@) == field_views(old(out)@) + array_fields(
            fuel,
            *s,
            *defs,
            prefix@,
        ).unwrap(),
    decreases fuel,
{
    let ghost start = field_views(out@);
    match s {
        Json::Object(m) => {
            if let Some(r) = as_text(find_member(m, "$ref")) {
                if let Some(d) = json_get(defs, ref_name_of(r)) {
                    extract_array_into(d, defs, prefix, out, Ghost((fuel - 1) as nat));
                } else {
                    assert(field_views(out@) =~= start + seq![]);
                }
                return;
            }
            if let Some(items) = find_member(m, "items") {
                let p = items_prefix(prefix);
                extract_into(items, defs, p.as_str(), out, Ghost((fuel - 1) as nat));
            } else {
                assert(field_views(out@) =~= start + seq![]);
            }
        },
        _ => {
            assert(field_views(out@) =~= start + seq![]);
        },
    }
}

fn extract_opt_array_into(
    s: &Json,
    defs: &Json,
    prefix: &str,
    out: &mut Vec<FieldInfo>,
    Ghost(fuel): Ghost<nat>,
)
    requires
        opt_array_fields(fuel, *s, *defs, prefix@) is Some,
    ensures
        field_views(final(out)@) == field_views(old(out)@) + opt_array_fields(
            fuel,
            *s,
            *defs,
            prefix@,
        ).unwrap(),
    decreases fuel,
{
    let ghost start = field_views(out@);
    match s {
        Json::Object(m) => {
            if let Some(items) = find_member(m, "items") {
                let p = items_prefix(prefix);
                extract_into(items, defs, p.as_str(), out, Ghost((fuel - 1) as nat));
            } else {
                assert(field_views(out@) =~= start + seq![]);
            }
        },
        _ => {
            assert(field_views(out@) =~= start + seq![]);
        },
    }
}

/// Whether the walk of `extract_fields` ends on schema `s`: no chain of
/// references runs in a circle along it.
pub open spec fn walk_ends(s: Json, defs: Json, prefix: Seq<char>) -> bool {
    exists|k: nat| (#[trigger] fields_of(k, s, defs, prefix)) is Some
}

/// The leaf fields of schema `s` below `prefix` (see `fields_of`).
pub open spec fn schema_fields(s: Json, defs: Json, prefix: Seq<char>) -> Seq<
    (Seq<char>, Seq<char>, bool),
> {
    fields_of(choose|k: nat| (#[trigger] fields_of(k, s, defs, prefix)) is Some, s, defs, prefix).unwrap()
}

/// Appends the leaf fields of `schema` below `prefix` to `fields`,
/// references resolved in `definitions`.
pub fn extract_fields(schema: &Json, definitions: &Json, prefix: &str, fields: &mut Vec<FieldInfo>)
    requires
        walk_ends(*schema, *definitions, prefix@),
    ensures
        field_views(final(fields)@) == field_views(old(fields)@) + schema_fields(
            *schema,
            *definitions,
            prefix@,
        ),
{
    let ghost k = choose|k: nat| (#[trigger] fields_of(k, *schema, *definitions, prefix@)) is Some;
    extract_into(schema, definitions, prefix, fields, Ghost(k));
}

/// The width of the path column: the longest path, in bytes of UTF-8.
pub open spec fn path_width(fs: Seq<(Seq<char>, Seq<char>, bool)>) -> nat
    decreases fs.len(),
{
    if fs.len() == 0 {
        0
    } else {
        let a = path_width(fs.drop_last());
        let b = vstd::utf8::encode_utf8(fs.last().0).len();
        if a >= b {
            a
        } else {
            b
        }
    }
}

/// One line of the listing: the path left-aligned in `w` characters, the
/// type, and ` (optional)` for a field that may be left out.
pub open spec fn field_line(f: (Seq<char>, Seq<char>, bool), w: nat) -> Seq<char> {
    "  "@ + pad_right(f.0, w) + "  "@ + f.1 + (if f.2 {
        " (optional)"@
    } else {
        seq![]
    }) + "\n"@
}

pub open spec fn field_lines(fs: Seq<(Seq<char>, Seq<char>, bool)>, w: nat) -> Seq<char>
    decreases fs.len(),
{
    if fs.len() == 0 {
        seq![]
    } else {
        field_lines(fs.drop_last(), w) + field_line(fs.last(), w)
    }
}

/// The text that `invoicy schema <format>` prints.
pub open spec fn listing(name: Seq<char>, fs: Seq<(Seq<char>, Seq<char>, bool)>) -> Seq<char> {
    "Format: "@ + name + "\n\n"@ + field_lines(fs, path_width(fs))
}

/// The listing of format `format_name` with fields `fields`.
pub fn schema_listing(format_name: &str, fields: &Vec<FieldInfo>) -> (r: String)
    requires
        forall|i: int|
            0 <= i < fields@.len() ==> vstd::utf8::encode_utf8(#[trigger] fields@[i].path@).len()
                <= usize::MAX,
    ensures
        r@ == listing(format_name@, field_views(fields@)),
{
    let ghost fs = field_views(fields@);
    let mut width: usize = 0;
    let mut i: usize = 0;
    while i < fields.len()
        invariant
            i <= fields@.len(),
            fs == field_views(fields@),
            width == path_width(fs.take(i as int)),
            forall|j: int|
                0 <= j < fields@.len() ==> vstd::utf8::encode_utf8(#[trigger] fields@[j].path@).len()
                    <= usize::MAX,
        decreases fields@.len() - i,
    {
        assert(fs.take(i + 1).drop_last() =~= fs.take(i as int));
        assert(fs.take(i + 1).last() == fields@[i as int]@);
        let n = fields[i].path.as_str().len();
        if n > width {
            width = n;
        }
        i = i + 1;
    }
    assert(fs.take(i as int) =~= fs);
    let mut out = string_of("Format: ");
    out.append(format_name);
    out.append("\n\n");
    let ghost head = out@;
    let mut i: usize = 0;
    assert(fs.take(0) =~= seq![]);
    while i < fields.len()
        invariant
            i <= fields@.len(),
            fs == field_views(fields@),
            width == path_width(fs),
            out@ == head + field_lines(fs.take(i as int), width as nat),
        decreases fields@.len() - i,
    {
        assert(fs.take(i + 1).drop_last() =~= fs.take(i as int));
        assert(fs.take(i + 1).last() == fields@[i as int]@);
        let ghost before = out@;
        let f = &fields[i];
        out.append("  ");
        push_padded_right(&mut out, f.path.as_str(), width);
        out.append("  ");
        out.append(f.typ.as_str());
        if f.optional {
            out.append(" (optional)");
        }
        push_char(&mut out, '\n');
        proof {
            reveal_strlit("\n");
        }
        assert(out@ =~= before + field_line(fs[i as int], width as nat));
        i = i + 1;
    }
    assert(fs.take(i as int) =~= fs);
    out
}

/// `normalize_type`: the listed name of a JSON Schema type.
pub fn normalize_type(typ: &str) -> (r: String)
    ensures
        r@ == normalize(typ@),
{
    proof {
        reveal_strlit("integer");
        reveal_strlit("number");
    }
    if str_eq(typ, "integer") {
        string_of("number")
    } else {
        string_of(typ)
    }
}

} // verus!
