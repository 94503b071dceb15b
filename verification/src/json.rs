//! JSON text read through serde_json.
use vstd::prelude::*;

verus! {

/// The views of a list of strings.
pub open spec fn string_views(v: Seq<String>) -> Seq<Seq<char>> {
    v.map_values(|s: String| s@)
}

/// The list of strings a JSON text denotes when it is an array of strings,
/// as serde_json reads it; `None` for any other text.
pub uninterp spec fn json_string_list(text: Seq<char>) -> Option<Seq<Seq<char>>>;

/// serde_json: `from_str::<Vec<String>>(text).ok()`.
#[verifier::external_body]
pub(crate) fn parse_string_list(text: &str) -> (r: Option<Vec<String>>)
    ensures
        match r {
            Some(v) => json_string_list(text@) == Some(string_views(v@)),
            None => json_string_list(text@) is None,
        },
{
    serde_json::from_str::<Vec<String>>(text).ok()
}

} // verus!

verus! {

/// A parsed JSON value. Objects keep their entries in order; numbers are
/// held as integers when they fit, else by their decimal text.
#[derive(Debug)]
pub enum Json {
    Null,
    Bool(bool),
    Int(i64),
    UInt(u64),
    Float(String),
    Str(String),
    Array(Vec<Json>),
    Object(Vec<(String, Json)>),
}

/// The value an optional reference points to.
pub open spec fn deref_json(o: Option<&Json>) -> Option<Json> {
    match o {
        Some(v) => Some(*v),
        None => None,
    }
}

/// The value of the first entry named `key`.
pub open spec fn find_key(entries: Seq<(String, Json)>, key: Seq<char>) -> Option<Json>
    decreases entries.len(),
{
    if entries.len() == 0 {
        None
    } else if entries[0].0@ == key {
        Some(entries[0].1)
    } else {
        find_key(entries.drop_first(), key)
    }
}

/// `v[key]` when `v` is an object holding `key`.
pub open spec fn json_get(v: Json, key: Seq<char>) -> Option<Json> {
    match v {
        Json::Object(entries) => find_key(entries@, key),
        _ => None,
    }
}

/// The text of a string value.
pub open spec fn json_text(v: Json) -> Option<Seq<char>> {
    match v {
        Json::Str(s) => Some(s@),
        _ => None,
    }
}

/// The string at `v[key]`, if that is a string.
pub open spec fn get_text(v: Json, key: Seq<char>) -> Option<Seq<char>> {
    match json_get(v, key) {
        Some(x) => json_text(x),
        None => None,
    }
}

/// The value as a signed integer, as serde_json's `as_i64` reads it.
pub open spec fn json_i64(v: Json) -> Option<i64> {
    match v {
        Json::Int(n) => Some(n),
        Json::UInt(n) => if n <= i64::MAX {
            Some(n as i64)
        } else {
            None
        },
        _ => None,
    }
}

/// The value as an unsigned integer, as serde_json's `as_u64` reads it.
pub open spec fn json_u64(v: Json) -> Option<u64> {
    match v {
        Json::Int(n) => if n >= 0 {
            Some(n as u64)
        } else {
            None
        },
        Json::UInt(n) => Some(n),
        _ => None,
    }
}

proof fn lemma_find_key_skip(entries: Seq<(String, Json)>, key: Seq<char>, i: int)
    requires
        0 <= i < entries.len(),
        entries[i].0@ != key,
    ensures
        find_key(entries.skip(i), key) == find_key(entries.skip(i + 1), key),
{
    assert(entries.skip(i).drop_first() =~= entries.skip(i + 1));
}

impl Json {
    /// The value stored under `key`, when this is an object holding it.
    pub fn get(&self, key: &str) -> (r: Option<&Json>)
        ensures
            match r {
                Some(x) => json_get(*self, key@) == Some(*x),
                None => json_get(*self, key@) is None,
            },
    {
        match self {
            Json::Object(entries) => {
                let mut i: usize = 0;
                assert(entries@.skip(0) =~= entries@);
                assert(json_get(*self, key@) == find_key(entries@, key@));
                while i < entries.len()
                    invariant
                        i <= entries@.len(),
                        json_get(*self, key@) == find_key(entries@, key@),
                        find_key(entries@, key@) == find_key(entries@.skip(i as int), key@),
                    decreases entries@.len() - i,
                {
                    if crate::text::str_eq(entries[i].0.as_str(), key) {
                        assert(entries@.skip(i as int)[0] == entries@[i as int]);
                        assert(find_key(entries@.skip(i as int), key@) == Some(entries@[i as int].1));
                        return Some(&entries[i].1);
                    }
                    proof {
                        lemma_find_key_skip(entries@, key@, i as int);
                    }
                    i += 1;
                }
                assert(entries@.skip(i as int).len() == 0);
                None
            },
            _ => None,
        }
    }

    /// The value under `key`, taken out of an object; `Null` when absent.
    pub fn into_field(self, key: &str) -> (r: Json)
        ensures
            r == match json_get(self, key@) {
                Some(v) => v,
                None => Json::Null,
            },
    {
        let ghost whole = self;
        match self {
            Json::Object(entries) => {
                let mut entries = entries;
                let ghost all = entries@;
                let mut i: usize = 0;
                assert(all.skip(0) =~= all);
                assert(json_get(whole, key@) == find_key(all, key@));
                while i < entries.len()
                    invariant
                        entries@ == all,
                        whole == self,
                        json_get(whole, key@) == find_key(all, key@),
                        i <= all.len(),
                        find_key(all, key@) == find_key(all.skip(i as int), key@),
                    decreases all.len() - i,
                {
                    if crate::text::str_eq(entries[i].0.as_str(), key) {
                        assert(all.skip(i as int)[0] == all[i as int]);
                        assert(find_key(all.skip(i as int), key@) == Some(all[i as int].1));
                        let entry = entries.remove(i);
                        assert(entry == all[i as int]);
                        return entry.1;
                    }
                    proof {
                        lemma_find_key_skip(all, key@, i as int);
                    }
                    i += 1;
                }
                assert(all.skip(i as int).len() == 0);
                Json::Null
            },
            _ => Json::Null,
        }
    }

    /// The text of a string value.
    pub fn as_str(&self) -> (r: Option<&String>)
        ensures
            match r {
                Some(s) => json_text(*self) == Some(s@),
                None => json_text(*self) is None,
            },
    {
        match self {
            Json::Str(s) => Some(s),
            _ => None,
        }
    }

    /// The value as a signed integer.
    pub fn as_i64(&self) -> (r: Option<i64>)
        ensures
            r == json_i64(*self),
    {
        match self {
            Json::Int(n) => Some(*n),
            Json::UInt(n) => if *n <= 9223372036854775807u64 {
                Some(*n as i64)
            } else {
                None
            },
            _ => None,
        }
    }

    /// The value as an unsigned integer.
    pub fn as_u64(&self) -> (r: Option<u64>)
        ensures
            r == json_u64(*self),
    {
        match self {
            Json::Int(n) => if *n >= 0 {
                Some(*n as u64)
            } else {
                None
            },
            Json::UInt(n) => Some(*n),
            _ => None,
        }
    }

    /// The elements of an array value.
    pub fn as_array(&self) -> (r: Option<&Vec<Json>>)
        ensures
            match r {
                Some(a) => *self == Json::Array(*a),
                None => !(*self is Array),
            },
    {
        match self {
            Json::Array(a) => Some(a),
            _ => None,
        }
    }

    /// Whether this is an object.
    pub fn is_object(&self) -> (r: bool)
        ensures
            r == (*self is Object),
    {
        match self {
            Json::Object(_) => true,
            _ => false,
        }
    }

    /// The string stored under `key`, when there is one.
    pub fn get_str(&self, key: &str) -> (r: Option<&String>)
        ensures
            match r {
                Some(s) => get_text(*self, key@) == Some(s@),
                None => get_text(*self, key@) is None,
            },
    {
        match self.get(key) {
            Some(v) => v.as_str(),
            None => None,
        }
    }
}

} // verus!
