use vstd::prelude::*;
use vstd::string::*;

verus! {

#[verifier::external_type_specification]
#[verifier::external_body]
pub struct ExValue(serde_json::Value);

#[verifier::external_type_specification]
#[verifier::external_body]
pub struct ExNumber(serde_json::Number);

/// A JSON document as a tree. Objects keep their members in order; a key that
/// occurs twice is read from its last occurrence.
pub enum Json {
    Null,
    Bool(bool),
    /// A number, carried through as `serde_json` read it.
    Number(serde_json::Number),
    Str(String),
    Array(Vec<Json>),
    Object(Vec<(String, Json)>),
}

/// Whether `serde_json` accepts the text as one JSON document.
pub uninterp spec fn json_accepts(s: Seq<char>) -> bool;

/// The tree `serde_json` reads from an accepted text.
pub uninterp spec fn json_tree(s: Seq<char>) -> Json;

/// The compact text `serde_json` writes for a tree.
pub uninterp spec fn json_text(j: Json) -> Seq<char>;

/// The value of the last member named `k` among `es`.
pub open spec fn lookup(es: Seq<(String, Json)>, k: Seq<char>) -> Option<Json>
    decreases es.len(),
{
    if es.len() == 0 {
        None
    } else if es.last().0@ == k {
        Some(es.last().1)
    } else {
        lookup(es.drop_last(), k)
    }
}

/// The member `k` of an object; `None` for a missing member or a non-object.
pub open spec fn field(j: Json, k: Seq<char>) -> Option<Json> {
    match j {
        Json::Object(es) => lookup(es@, k),
        _ => None,
    }
}

/// The member `k` of an object, where it is a string.
pub open spec fn str_field(j: Json, k: Seq<char>) -> Option<Seq<char>> {
    match field(j, k) {
        Some(Json::Str(s)) => Some(s@),
        _ => None,
    }
}

/// The member `k` of an object, where it is a boolean.
pub open spec fn bool_field(j: Json, k: Seq<char>) -> Option<bool> {
    match field(j, k) {
        Some(Json::Bool(b)) => Some(b),
        _ => None,
    }
}

/// Character-wise equality of two strings.
pub fn str_eq(a: &str, b: &str) -> (r: bool)
    ensures
        r == (a@ == b@),
{
    let n = a.unicode_len();
    if n != b.unicode_len() {
        return false;
    }
    let mut i: usize = 0;
    while i < n
        invariant
            n == a@.len(),
            n == b@.len(),
            i <= n,
            a@.subrange(0, i as int) == b@.subrange(0, i as int),
        decreases n - i,
    {
        if a.get_char(i) != b.get_char(i) {
            return false;
        }
        assert(a@.subrange(0, i + 1) == a@.subrange(0, i as int).push(a@[i as int]));
        assert(b@.subrange(0, i + 1) == b@.subrange(0, i as int).push(b@[i as int]));
        i = i + 1;
    }
    assert(a@ == a@.subrange(0, n as int));
    assert(b@ == b@.subrange(0, n as int));
    true
}

/// The member `k` of `j`, where `j` is an object that has one.
pub fn get_field<'a>(j: &'a Json, k: &str) -> (r: Option<&'a Json>)
    ensures
        match r {
            Some(v) => field(*j, k@) == Some(*v),
            None => field(*j, k@) is None,
        },
{
    match j {
        Json::Object(es) => {
            let mut i: usize = es.len();
            assert(es@.subrange(0, i as int) == es@);
            while i > 0
                invariant
                    i <= es@.len(),
                    field(*j, k@) == lookup(es@, k@),
                    lookup(es@, k@) == lookup(es@.subrange(0, i as int), k@),
                decreases i,
            {
                let e = &es[i - 1];
                assert(es@.subrange(0, i - 1) == es@.subrange(0, i as int).drop_last());
                assert(es@.subrange(0, i as int).last() == es@[i - 1]);
                if str_eq(e.0.as_str(), k) {
                    assert(e.0@ == k@);
                    assert(lookup(es@.subrange(0, i as int), k@) == Some(e.1));
                    return Some(&e.1);
                }
                i = i - 1;
            }
            assert(es@.subrange(0, 0) =~= Seq::<(String, Json)>::empty());
            None
        },
        _ => None,
    }
}

/// The string member `k` of `j`, copied.
pub fn get_str(j: &Json, k: &str) -> (r: Option<String>)
    ensures
        match r {
            Some(s) => str_field(*j, k@) == Some(s@),
            None => str_field(*j, k@) is None,
        },
{
    match get_field(j, k) {
        Some(Json::Str(s)) => Some(s.clone()),
        _ => None,
    }
}

/// The boolean member `k` of `j`.
pub fn get_bool(j: &Json, k: &str) -> (r: Option<bool>)
    ensures
        r == bool_field(*j, k@),
{
    match get_field(j, k) {
        Some(Json::Bool(b)) => Some(*b),
        _ => None,
    }
}

/// Turns a parsed `serde_json::Value` into a tree, member for member; the
/// conversion behind `parse_json`.
#[verifier::external_body]
fn tree_of_value(v: serde_json::Value) -> Json {
    match v {
        serde_json::Value::Null => Json::Null,
        serde_json::Value::Bool(b) => Json::Bool(b),
        serde_json::Value::Number(n) => Json::Number(n),
        serde_json::Value::String(s) => Json::Str(s),
        serde_json::Value::Array(a) => Json::Array(a.into_iter().map(tree_of_value).collect()),
        serde_json::Value::Object(m) => Json::Object(m.into_iter().map(|(k, x)| (k, tree_of_value(x))).collect()),
    }
}

/// Turns a tree into a `serde_json::Value`, member for member; the
/// conversion behind `to_json_text`.
#[verifier::external_body]
fn value_of_tree(j: &Json) -> serde_json::Value {
    match j {
        Json::Null => serde_json::Value::Null,
        Json::Bool(b) => serde_json::Value::Bool(*b),
        Json::Number(n) => serde_json::Value::Number(n.clone()),
        Json::Str(s) => serde_json::Value::String(s.clone()),
        Json::Array(a) => serde_json::Value::Array(a.iter().map(value_of_tree).collect()),
        Json::Object(m) => serde_json::Value::Object(m.iter().map(|(k, x)| (k.clone(), value_of_tree(x))).collect()),
    }
}

/// Relies on `serde_json::from_str::<serde_json::Value>`: it accepts exactly
/// the JSON texts and reads each into one tree.
#[verifier::external_body]
pub(crate) fn parse_json(s: &str) -> (r: Option<Json>)
    ensures
        r is Some <==> json_accepts(s@),
        r matches Some(j) ==> j == json_tree(s@),
{
    serde_json::from_str::<serde_json::Value>(s).ok().map(tree_of_value)
}

/// Relies on `serde_json::Value`'s `Display`, which writes compact JSON.
#[verifier::external_body]
pub(crate) fn to_json_text(j: &Json) -> (r: String)
    ensures
        r@ == json_text(*j),
{
    value_of_tree(j).to_string()
}

} // verus!
