use vstd::prelude::*;

verus! {

/// The shape of a decoded tool response: the parts of a JSON document that
/// the operations read. Numbers are held as integers.
pub enum JsonValue {
    Null,
    Bool(bool),
    Num(i64),
    Str(String),
    Arr(Vec<JsonValue>),
    Obj(Vec<(String, JsonValue)>),
}

/// The first binding of a key in an object's field list, scanning from `i`.
pub open spec fn spec_lookup_from(fields: Seq<(String, JsonValue)>, key: Seq<char>, i: int) -> Option<
    JsonValue,
>
    decreases fields.len() - i,
{
    if i < 0 || i >= fields.len() {
        None
    } else if fields[i].0@ == key {
        Some(fields[i].1)
    } else {
        spec_lookup_from(fields, key, i + 1)
    }
}

/// The value bound to a key in an object's field list.
pub open spec fn spec_lookup(fields: Seq<(String, JsonValue)>, key: Seq<char>) -> Option<JsonValue> {
    spec_lookup_from(fields, key, 0)
}

/// The field of an object under a key; `None` on any other kind of value.
pub open spec fn spec_get(v: JsonValue, key: Seq<char>) -> Option<JsonValue> {
    match v {
        JsonValue::Obj(fields) => spec_lookup(fields@, key),
        _ => None,
    }
}

/// A string field's characters, or a default where the field is missing or
/// not a string.
pub open spec fn str_field_or(v: JsonValue, key: Seq<char>, dflt: Seq<char>) -> Seq<char> {
    match spec_get(v, key) {
        Some(JsonValue::Str(s)) => s@,
        _ => dflt,
    }
}

/// A numeric field, or a default where the field is missing or not a number.
pub open spec fn num_field_or(v: JsonValue, key: Seq<char>, dflt: i64) -> i64 {
    match spec_get(v, key) {
        Some(JsonValue::Num(n)) => n,
        _ => dflt,
    }
}

/// A string field's characters, where the field is present and a string.
pub open spec fn opt_str_field(v: JsonValue, key: Seq<char>) -> Option<Seq<char>> {
    match spec_get(v, key) {
        Some(JsonValue::Str(s)) => Some(s@),
        _ => None,
    }
}

/// A numeric field, where the field is present and a number.
pub open spec fn opt_num_field(v: JsonValue, key: Seq<char>) -> Option<i64> {
    match spec_get(v, key) {
        Some(JsonValue::Num(n)) => Some(n),
        _ => None,
    }
}

/// Whether the value has a string field under the key.
pub open spec fn has_str_field(v: JsonValue, key: Seq<char>) -> bool {
    opt_str_field(v, key) is Some
}

/// Whether an optional owned string carries the given optional characters.
pub open spec fn opt_views_match(a: Option<String>, b: Option<Seq<char>>) -> bool {
    match (a, b) {
        (Some(x), Some(y)) => x@ == y,
        (None, None) => true,
        _ => false,
    }
}

/// The index of the first binding of a key in a field list.
pub(crate) fn find_key(fields: &Vec<(String, JsonValue)>, key: &str) -> (r: Option<usize>)
    ensures
        match r {
            Some(i) => i < fields@.len() && spec_lookup(fields@, key@) == Some(fields@[i as int].1)
                && fields@[i as int].0@ == key@,
            None => spec_lookup(fields@, key@) is None,
        },
{
    let n = fields.len();
    let mut i: usize = 0;
    while i < n
        invariant
            i <= n,
            n == fields@.len(),
            spec_lookup(fields@, key@) == spec_lookup_from(fields@, key@, i as int),
        decreases n - i,
    {
        if crate::strings::str_eq(fields[i].0.as_str(), key) {
            return Some(i);
        }
        i += 1;
    }
    None
}

impl JsonValue {
    /// The field under a key, as the original object holds it.
    pub fn get<'a>(&'a self, key: &str) -> (r: Option<&'a JsonValue>)
        ensures
            match r {
                Some(j) => spec_get(*self, key@) == Some(*j),
                None => spec_get(*self, key@) is None,
            },
    {
        match self {
            JsonValue::Obj(fields) => match find_key(fields, key) {
                Some(i) => Some(&fields[i].1),
                None => None,
            },
            _ => None,
        }
    }

    /// A string field, or the default where it is missing or of another kind.
    pub fn get_str_or(&self, key: &str, dflt: &str) -> (r: String)
        ensures
            r@ == str_field_or(*self, key@, dflt@),
    {
        match self.get(key) {
            Some(JsonValue::Str(s)) => s.clone(),
            _ => dflt.to_owned(),
        }
    }

    /// A numeric field, or the default where it is missing or of another kind.
    pub fn get_num_or(&self, key: &str, dflt: i64) -> (r: i64)
        ensures
            r == num_field_or(*self, key@, dflt),
    {
        match self.get(key) {
            Some(JsonValue::Num(n)) => *n,
            _ => dflt,
        }
    }

    /// A string field, where one is present.
    pub fn get_opt_str(&self, key: &str) -> (r: Option<String>)
        ensures
            opt_views_match(r, opt_str_field(*self, key@)),
    {
        match self.get(key) {
            Some(JsonValue::Str(s)) => Some(s.clone()),
            _ => None,
        }
    }

    /// A numeric field, where one is present.
    pub fn get_opt_num(&self, key: &str) -> (r: Option<i64>)
        ensures
            r == opt_num_field(*self, key@),
    {
        match self.get(key) {
            Some(JsonValue::Num(n)) => Some(*n),
            _ => None,
        }
    }
}

} // verus!
