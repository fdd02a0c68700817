//! A parsed document, reduced to plain values.
//!
//! The textual grammar itself (a JSON superset with unquoted keys and
//! trailing commas) is the business of the `json5` crate; this module
//! brings each parsed document into the library as a `JsonValue` tree of
//! plain values, on which the message schema is then checked by verified
//! code.  An object that repeats a key letter for letter keeps the last
//! occurrence, as the carrier's map does; the schema still rejects a
//! field that is given under two different spellings.

use vstd::prelude::*;

use crate::text::str_eq;

verus! {

/// A document value: the plain-value form of one parsed JSON5 text.
#[derive(Debug, PartialEq)]
pub enum JsonValue {
    Null,
    Bool(bool),
    /// A number written as an integer literal.
    Int(i64),
    /// Any other number: a float, or an integer out of `i64` range.
    /// No schema shape accepts it.
    OtherNumber,
    Str(String),
    Arr(Vec<JsonValue>),
    Obj(Vec<(String, JsonValue)>),
}

/// Spec-level view of a document value.
#[verifier::ext_equal]
pub enum JsonRep {
    Null,
    Bool(bool),
    Int(i64),
    OtherNumber,
    Str(Seq<char>),
    Arr(Seq<JsonRep>),
    Obj(Seq<(Seq<char>, JsonRep)>),
}

impl View for JsonValue {
    type V = JsonRep;

    open spec fn view(&self) -> JsonRep
        decreases self,
    {
        match self {
            JsonValue::Null => JsonRep::Null,
            JsonValue::Bool(b) => JsonRep::Bool(*b),
            JsonValue::Int(i) => JsonRep::Int(*i),
            JsonValue::OtherNumber => JsonRep::OtherNumber,
            JsonValue::Str(s) => JsonRep::Str(s@),
            JsonValue::Arr(a) => JsonRep::Arr(items_view(a@)),
            JsonValue::Obj(o) => JsonRep::Obj(entries_view(o@)),
        }
    }
}

/// The view of an array's item list.
pub open spec fn items_view(a: Seq<JsonValue>) -> Seq<JsonRep>
    decreases a,
{
    Seq::new(a.len(), |i: int| if 0 <= i < a.len() { a[i]@ } else { JsonRep::Null })
}

/// The view of an object's entry list.
pub open spec fn entries_view(o: Seq<(String, JsonValue)>) -> Seq<(Seq<char>, JsonRep)>
    decreases o,
{
    Seq::new(
        o.len(),
        |i: int| if 0 <= i < o.len() { (o[i].0@, o[i].1@) } else { (Seq::empty(), JsonRep::Null) },
    )
}

/// The set of key spellings that address one logical schema field: one
/// canonical name and up to three aliases.
pub open spec fn alias_keys(
    k0: Seq<char>,
    k1: Option<Seq<char>>,
    k2: Option<Seq<char>>,
    k3: Option<Seq<char>>,
) -> Set<Seq<char>> {
    let s = set![k0];
    let s = match k1 {
        Some(k) => s.insert(k),
        None => s,
    };
    let s = match k2 {
        Some(k) => s.insert(k),
        None => s,
    };
    match k3 {
        Some(k) => s.insert(k),
        None => s,
    }
}

/// The view of an optional key spelling.
pub open spec fn opt_key_view(k: Option<&str>) -> Option<Seq<char>> {
    match k {
        Some(s) => Some(s@),
        None => None,
    }
}

/// Scans the entries of an object from position `i` on for keys in `keys`:
/// no such entry, exactly one (and its value), or more than one.
pub open spec fn entry_search(
    o: Seq<(Seq<char>, JsonRep)>,
    keys: Set<Seq<char>>,
    i: int,
) -> Result<Option<JsonRep>, ()>
    decreases o.len() - i,
{
    if i < 0 || i >= o.len() {
        Ok(None)
    } else {
        let rest = entry_search(o, keys, i + 1);
        if keys.contains(o[i].0) {
            match rest {
                Ok(None) => Ok(Some(o[i].1)),
                _ => Err(()),
            }
        } else {
            rest
        }
    }
}

/// The value of the one entry of `o` whose key is in `keys`: `Ok(None)`
/// where there is no such entry, `Err` where the field is given twice.
pub open spec fn entry_lookup(
    o: Seq<(Seq<char>, JsonRep)>,
    keys: Set<Seq<char>>,
) -> Result<Option<JsonRep>, ()> {
    entry_search(o, keys, 0)
}

/// Whether `key` is one of the given spellings.
fn key_matches(key: &String, k0: &str, k1: Option<&str>, k2: Option<&str>, k3: Option<&str>) -> (r:
    bool)
    ensures
        r == alias_keys(k0@, opt_key_view(k1), opt_key_view(k2), opt_key_view(k3)).contains(key@),
{
    if str_eq(key.as_str(), k0) {
        return true;
    }
    if let Some(k) = k1 {
        if str_eq(key.as_str(), k) {
            return true;
        }
    }
    if let Some(k) = k2 {
        if str_eq(key.as_str(), k) {
            return true;
        }
    }
    if let Some(k) = k3 {
        if str_eq(key.as_str(), k) {
            return true;
        }
    }
    false
}

/// Finds the value of the logical field addressed by the given key
/// spellings, or reports that the field is absent or given more than once.
#[verifier::loop_isolation(false)]
pub fn get_entry<'a>(
    obj: &'a Vec<(String, JsonValue)>,
    k0: &str,
    k1: Option<&str>,
    k2: Option<&str>,
    k3: Option<&str>,
) -> (r: Result<Option<&'a JsonValue>, ()>)
    ensures
        ({
            let lk = entry_lookup(
                entries_view(obj@),
                alias_keys(k0@, opt_key_view(k1), opt_key_view(k2), opt_key_view(k3)),
            );
            match r {
                Ok(None) => lk == Ok::<Option<JsonRep>, ()>(None),
                Ok(Some(v)) => lk == Ok::<Option<JsonRep>, ()>(Some(v@)),
                Err(_) => lk is Err,
            }
        }),
{
    let ghost es = entries_view(obj@);
    let ghost keys = alias_keys(k0@, opt_key_view(k1), opt_key_view(k2), opt_key_view(k3));
    let mut r: Result<Option<&'a JsonValue>, ()> = Ok(None);
    let mut i: usize = obj.len();
    while i > 0
        invariant
            i <= obj.len(),
            match r {
                Ok(None) => entry_search(es, keys, i as int) == Ok::<Option<JsonRep>, ()>(None),
                Ok(Some(v)) => entry_search(es, keys, i as int) == Ok::<Option<JsonRep>, ()>(
                    Some(v@),
                ),
                Err(_) => entry_search(es, keys, i as int) is Err,
            },
        decreases i,
    {
        i -= 1;
        let kv = &obj[i];
        proof {
            assert(es[i as int] == (obj@[i as int].0@, obj@[i as int].1@));
        }
        if key_matches(&kv.0, k0, k1, k2, k3) {
            match r {
                Ok(None) => {
                    r = Ok(Some(&kv.1));
                },
                _ => {
                    r = Err(());
                },
            }
        }
    }
    r
}

#[verifier::external_type_specification]
#[verifier::external_body]
pub struct ExSerdeValue(serde_json::Value);

/// The document carried by one raw `serde_json::Value`.  The raw value is
/// opaque to the verifier; this name stands for its contents, and the two
/// trusted items below say how the contents relate to texts and to
/// `JsonValue` trees.
pub uninterp spec fn raw_value_rep(v: serde_json::Value) -> JsonRep;

/// The document that a given text parses to, or `None` where the text is
/// rejected by the grammar.
pub uninterp spec fn json5_document(s: Seq<char>) -> Option<JsonRep>;

/// Relies on `json5::from_str::<serde_json::Value>`: whether a text parses,
/// and to which document, depends on the text alone.  On failure the
/// diagnostic text is returned.
#[verifier::external_body]
fn parse_raw_document(s: &str) -> (r: Result<serde_json::Value, String>)
    ensures
        match r {
            Ok(v) => json5_document(s@) == Some(raw_value_rep(v)),
            Err(_) => json5_document(s@) is None,
        },
{
    json5::from_str::<serde_json::Value>(s).map_err(|e| e.to_string())
}

/// Relies on the public variants of `serde_json::Value` and on
/// `serde_json::Number::as_i64`: each raw value is brought over to the
/// plain-value tree variant for variant, with every number that was read
/// from an integer literal kept exactly.
#[verifier::external_body]
fn plain_of_raw(v: &serde_json::Value) -> (r: JsonValue)
    ensures
        r@ == raw_value_rep(*v),
{
    match v {
        serde_json::Value::Null => JsonValue::Null,
        serde_json::Value::Bool(b) => JsonValue::Bool(*b),
        serde_json::Value::Number(n) => match n.as_i64() {
            Some(i) => JsonValue::Int(i),
            None => JsonValue::OtherNumber,
        },
        serde_json::Value::String(s) => JsonValue::Str(s.clone()),
        serde_json::Value::Array(a) => JsonValue::Arr(a.iter().map(plain_of_raw).collect()),
        serde_json::Value::Object(o) => JsonValue::Obj(
            o.iter().map(|(k, x)| (k.clone(), plain_of_raw(x))).collect(),
        ),
    }
}

/// Parses a JSON5 text into a plain-value document tree, or returns the
/// grammar's diagnostic.
pub fn parse_json5(s: &str) -> (r: Result<JsonValue, String>)
    ensures
        match r {
            Ok(v) => json5_document(s@) == Some(v@),
            Err(_) => json5_document(s@) is None,
        },
{
    match parse_raw_document(s) {
        Ok(raw) => Ok(plain_of_raw(&raw)),
        Err(e) => Err(e),
    }
}

} // verus!
