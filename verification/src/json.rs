//! A JSON value as the library reads it from platform responses, and the
//! lookups (`get`, `as_str`, `as_i64`, ...) that the response handling uses.
use vstd::prelude::*;

use crate::text::{chars_eq, chars_of, opt_str_view};

verus! {

/// A JSON value. Numbers keep what integer lookups need: integers that fit
/// `i64`, larger unsigned integers, and numbers with a fraction or exponent
/// (whose value integer lookups never return).
pub enum Json {
    Null,
    Bool(bool),
    Int(i64),
    BigUInt(u64),
    Float,
    Str(String),
    Array(Vec<Json>),
    Object(Vec<(String, Json)>),
}

/// The value of the first entry named `key`.
pub open spec fn entries_get(entries: Seq<(String, Json)>, key: Seq<char>) -> Option<Json>
    decreases entries.len(),
{
    if entries.len() == 0 {
        None
    } else if entries[0].0@ == key {
        Some(entries[0].1)
    } else {
        entries_get(entries.drop_first(), key)
    }
}

/// `Value::get(key)`: the member `key` of an object; nothing for other values.
pub open spec fn json_get(j: Json, key: Seq<char>) -> Option<Json> {
    match j {
        Json::Object(entries) => entries_get(entries@, key),
        _ => None,
    }
}

/// `value[key]`: the member, or `Null` when absent.
pub open spec fn json_index(j: Json, key: Seq<char>) -> Json {
    match json_get(j, key) {
        Some(v) => v,
        None => Json::Null,
    }
}

/// `Value::as_i64`.
pub open spec fn json_as_i64(j: Json) -> Option<i64> {
    match j {
        Json::Int(i) => Some(i),
        _ => None,
    }
}

/// `Value::as_str`, as the characters of the string.
pub open spec fn json_as_str(j: Json) -> Option<Seq<char>> {
    match j {
        Json::Str(s) => Some(s@),
        _ => None,
    }
}

fn entries_get_exec<'a>(entries: &'a Vec<(String, Json)>, key: &str) -> (r: Option<&'a Json>)
    ensures
        match entries_get(entries@, key@) {
            Some(v) => r matches Some(x) && *x == v,
            None => r is None,
        },
{
    let k = chars_of(key);
    let n = entries.len();
    assert(entries@.skip(0) =~= entries@);
    for i in 0..n
        invariant
            n == entries@.len(),
            k@ == key@,
            entries_get(entries@, key@) == entries_get(entries@.skip(i as int), key@),
    {
        let name = chars_of(entries[i].0.as_str());
        assert(entries@.skip(i as int)[0] == entries@[i as int]);
        if chars_eq(&name, &k) {
            return Some(&entries[i].1);
        }
        assert(entries@.skip(i as int).drop_first() =~= entries@.skip(i + 1));
    }
    assert(entries@.skip(n as int).len() == 0);
    None
}

impl Json {
    /// `Value::get(key)`.
    pub fn get(&self, key: &str) -> (r: Option<&Json>)
        ensures
            match json_get(*self, key@) {
                Some(v) => r matches Some(x) && *x == v,
                None => r is None,
            },
    {
        match self {
            Json::Object(entries) => entries_get_exec(entries, key),
            _ => None,
        }
    }

    /// `Value::as_i64`.
    pub fn as_i64(&self) -> (r: Option<i64>)
        ensures
            r == json_as_i64(*self),
    {
        match self {
            Json::Int(i) => Some(*i),
            _ => None,
        }
    }

    /// `Value::as_str`.
    pub fn as_str(&self) -> (r: Option<&str>)
        ensures
            match json_as_str(*self) {
                Some(s) => r matches Some(x) && x@ == s,
                None => r is None,
            },
    {
        match self {
            Json::Str(s) => Some(s.as_str()),
            _ => None,
        }
    }

    /// `Value::is_object`.
    pub fn is_object(&self) -> (r: bool)
        ensures
            r == (*self is Object),
    {
        match self {
            Json::Object(_) => true,
            _ => false,
        }
    }
}

/// `value.get(key).and_then(as_i64)`.
pub open spec fn get_i64(j: Json, key: Seq<char>) -> Option<i64> {
    match json_get(j, key) {
        Some(v) => json_as_i64(v),
        None => None,
    }
}

/// An integer field, or 0 when absent or not an integer.
pub open spec fn int_or_zero(j: Json, key: Seq<char>) -> i64 {
    match get_i64(j, key) {
        Some(v) => v,
        None => 0,
    }
}

/// `value.get(key).and_then(as_i64).unwrap_or(0)`.
pub fn int_field(j: &Json, key: &str) -> (r: i64)
    ensures
        r == int_or_zero(*j, key@),
{
    match j.get(key) {
        Some(v) => match v.as_i64() {
            Some(i) => i,
            None => 0,
        },
        None => 0,
    }
}

/// `value[k1][k2]`, when both members exist.
pub open spec fn json_get2(j: Json, k1: Seq<char>, k2: Seq<char>) -> Option<Json> {
    match json_get(j, k1) {
        Some(x) => json_get(x, k2),
        None => None,
    }
}

/// `value[k1][k2][k3]`, when all three members exist.
pub open spec fn json_get3(j: Json, k1: Seq<char>, k2: Seq<char>, k3: Seq<char>) -> Option<Json> {
    match json_get2(j, k1, k2) {
        Some(x) => json_get(x, k3),
        None => None,
    }
}

/// `value[key].as_str()`.
pub open spec fn str_at(j: Json, key: Seq<char>) -> Option<Seq<char>> {
    match json_get(j, key) {
        Some(v) => json_as_str(v),
        None => None,
    }
}

/// `value[key].as_str().unwrap_or(default)`.
pub open spec fn str_or(j: Json, key: Seq<char>, default: Seq<char>) -> Seq<char> {
    match str_at(j, key) {
        Some(s) => s,
        None => default,
    }
}

/// The value of the first entry named `key` is that of entry `i` when
/// entry `i` is the first so named.
pub proof fn lemma_entries_get_at(entries: Seq<(String, Json)>, key: Seq<char>, i: int)
    requires
        0 <= i < entries.len(),
        entries[i].0@ == key,
        forall|k: int| 0 <= k < i ==> (#[trigger] entries[k]).0@ != key,
    ensures
        entries_get(entries, key) == Some(entries[i].1),
    decreases i,
{
    if i > 0 {
        assert(entries[0].0@ != key);
        lemma_entries_get_at(entries.drop_first(), key, i - 1);
    }
}

/// No entry is named `key`: there is no value for it.
pub proof fn lemma_entries_get_absent(entries: Seq<(String, Json)>, key: Seq<char>)
    requires
        forall|k: int| 0 <= k < entries.len() ==> (#[trigger] entries[k]).0@ != key,
    ensures
        entries_get(entries, key) is None,
    decreases entries.len(),
{
    if entries.len() > 0 {
        assert(entries[0].0@ != key);
        assert forall|k: int| 0 <= k < entries.drop_first().len() implies (
        #[trigger] entries.drop_first()[k]).0@ != key by {
            assert(entries.drop_first()[k] == entries[k + 1]);
        }
        lemma_entries_get_absent(entries.drop_first(), key);
    }
}

/// Appending an entry keeps every value found before and adds the new one
/// under its name when that name had none.
pub proof fn lemma_entries_get_push(e: Seq<(String, Json)>, p: (String, Json), key: Seq<char>)
    ensures
        entries_get(e.push(p), key) == match entries_get(e, key) {
            Some(v) => Some(v),
            None => if p.0@ == key {
                Some(p.1)
            } else {
                None
            },
        },
    decreases e.len(),
{
    if e.len() > 0 {
        assert(e.push(p)[0] == e[0]);
        assert(e.push(p).drop_first() =~= e.drop_first().push(p));
        lemma_entries_get_push(e.drop_first(), p, key);
    } else {
        assert(e.push(p)[0] == p);
        assert(e.push(p).drop_first() =~= Seq::<(String, Json)>::empty());
        assert(entries_get(Seq::<(String, Json)>::empty(), key) is None);
    }
}

/// Appends the member `key: v` to the entries of an object under
/// construction.
pub fn push_member(f: &mut Vec<(String, Json)>, key: &str, v: Json)
    ensures
        final(f)@.map_values(|p: (String, Json)| p.0@) == old(f)@.map_values(
            |p: (String, Json)| p.0@,
        ).push(key@),
        forall|k: Seq<char>| #[trigger]
            entries_get(final(f)@, k) == match entries_get(old(f)@, k) {
                Some(x) => Some(x),
                None => if k == key@ {
                    Some(v)
                } else {
                    None
                },
            },
{
    let ghost before = f@;
    f.push((key.to_owned(), v));
    proof {
        assert(f@ == before.push(f@.last()));
        assert forall|k: Seq<char>| #[trigger]
            entries_get(f@, k) == match entries_get(before, k) {
                Some(x) => Some(x),
                None => if k == key@ {
                    Some(v)
                } else {
                    None
                },
            } by {
            lemma_entries_get_push(before, f@.last(), k);
        }
        assert(f@.map_values(|p: (String, Json)| p.0@) =~= before.map_values(
            |p: (String, Json)| p.0@,
        ).push(key@));
    }
}

/// The member names of an object, in order; none for other values.
pub open spec fn keys_of(j: Json) -> Seq<Seq<char>> {
    match j {
        Json::Object(entries) => entries@.map_values(|p: (String, Json)| p.0@),
        _ => seq![],
    }
}

/// `value[key].as_array()`.
pub open spec fn array_at(j: Json, key: Seq<char>) -> Option<Seq<Json>> {
    match json_get(j, key) {
        Some(Json::Array(items)) => Some(items@),
        _ => None,
    }
}

/// `value[key].is_null()`: the member is absent or `null`.
pub open spec fn null_at(j: Json, key: Seq<char>) -> bool {
    match json_get(j, key) {
        Some(Json::Null) => true,
        None => true,
        _ => false,
    }
}

impl Json {
    /// `value[k1][k2]`, when both members exist.
    pub fn get2(&self, k1: &str, k2: &str) -> (r: Option<&Json>)
        ensures
            match json_get2(*self, k1@, k2@) {
                Some(v) => r matches Some(x) && *x == v,
                None => r is None,
            },
    {
        match self.get(k1) {
            Some(x) => x.get(k2),
            None => None,
        }
    }

    /// `value[k1][k2][k3]`, when all three members exist.
    pub fn get3(&self, k1: &str, k2: &str, k3: &str) -> (r: Option<&Json>)
        ensures
            match json_get3(*self, k1@, k2@, k3@) {
                Some(v) => r matches Some(x) && *x == v,
                None => r is None,
            },
    {
        match self.get2(k1, k2) {
            Some(x) => x.get(k3),
            None => None,
        }
    }

    /// `value[key].as_str()`.
    pub fn str_at(&self, key: &str) -> (r: Option<&str>)
        ensures
            match str_at(*self, key@) {
                Some(s) => r matches Some(x) && x@ == s,
                None => r is None,
            },
    {
        match self.get(key) {
            Some(v) => v.as_str(),
            None => None,
        }
    }

    /// `value[key].as_array()`.
    pub fn array_at(&self, key: &str) -> (r: Option<&Vec<Json>>)
        ensures
            match array_at(*self, key@) {
                Some(items) => r matches Some(x) && x@ == items,
                None => r is None,
            },
    {
        match self.get(key) {
            Some(Json::Array(items)) => Some(items),
            _ => None,
        }
    }

    /// `value[key].is_null()`.
    pub fn null_at(&self, key: &str) -> (r: bool)
        ensures
            r == null_at(*self, key@),
    {
        match self.get(key) {
            Some(Json::Null) => true,
            None => true,
            _ => false,
        }
    }
}

/// An owned copy of an optional string slice.
pub fn own_opt(o: Option<&str>) -> (r: Option<String>)
    ensures
        opt_str_view(r) == match o {
            Some(s) => Some(s@),
            None => None::<Seq<char>>,
        },
{
    match o {
        Some(s) => Some(s.to_owned()),
        None => None,
    }
}

/// `value[key].as_str().unwrap_or(default).to_string()`.
pub fn str_or_owned(j: &Json, key: &str, default: &str) -> (r: String)
    ensures
        r@ == str_or(*j, key@, default@),
{
    match j.str_at(key) {
        Some(s) => s.to_owned(),
        None => default.to_owned(),
    }
}

/// `Value::as_u64`: non-negative integers.
pub open spec fn json_as_u64(j: Json) -> Option<u64> {
    match j {
        Json::Int(i) => if i >= 0 {
            Some(i as u64)
        } else {
            None
        },
        Json::BigUInt(u) => Some(u),
        _ => None,
    }
}

/// `Value::as_bool`.
pub open spec fn json_as_bool(j: Json) -> Option<bool> {
    match j {
        Json::Bool(b) => Some(b),
        _ => None,
    }
}

impl Json {
    /// `Value::as_u64`.
    pub fn as_u64(&self) -> (r: Option<u64>)
        ensures
            r == json_as_u64(*self),
    {
        match self {
            Json::Int(i) => if *i >= 0 {
                Some(*i as u64)
            } else {
                None
            },
            Json::BigUInt(u) => Some(*u),
            _ => None,
        }
    }

    /// `Value::as_bool`.
    pub fn as_bool(&self) -> (r: Option<bool>)
        ensures
            r == json_as_bool(*self),
    {
        match self {
            Json::Bool(b) => Some(*b),
            _ => None,
        }
    }
}

} // verus!
