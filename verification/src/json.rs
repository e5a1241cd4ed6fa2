use vstd::prelude::*;
use crate::text::str_eq;

verus! {

/// A JSON number: what `as_u64` reads from it, and its decimal text (which `as_f64` reads).
#[derive(Debug)]
pub struct JsonNumber {
    pub as_u64: Option<u64>,
    pub text: String,
}

/// A JSON value. An object keeps its members in order, each key once.
#[derive(Debug)]
pub enum Json {
    Null,
    Bool(bool),
    Number(JsonNumber),
    Str(String),
    Array(Vec<Json>),
    Object(Vec<(String, Json)>),
}

/// The value of the first member named `key`.
pub open spec fn lookup(members: Seq<(String, Json)>, key: Seq<char>) -> Option<Json>
    decreases members.len(),
{
    if members.len() == 0 {
        None
    } else if members[0].0@ == key {
        Some(members[0].1)
    } else {
        lookup(members.drop_first(), key)
    }
}

impl Json {
    /// The member named `key` of an object; `None` for anything else (`Value::get`).
    pub open spec fn get_spec(self, key: Seq<char>) -> Option<Json> {
        match self {
            Json::Object(members) => lookup(members@, key),
            _ => None,
        }
    }

    /// The text of a string (`Value::as_str`).
    pub open spec fn str_spec(self) -> Option<Seq<char>> {
        match self {
            Json::Str(s) => Some(s@),
            _ => None,
        }
    }

    /// An unsigned integer (`Value::as_u64`).
    pub open spec fn u64_spec(self) -> Option<u64> {
        match self {
            Json::Number(n) => n.as_u64,
            _ => None,
        }
    }

    /// A number (`Value::as_f64` succeeds exactly on numbers).
    pub open spec fn number_spec(self) -> Option<JsonNumber> {
        match self {
            Json::Number(n) => Some(n),
            _ => None,
        }
    }

    /// A boolean (`Value::as_bool`).
    pub open spec fn bool_spec(self) -> Option<bool> {
        match self {
            Json::Bool(b) => Some(b),
            _ => None,
        }
    }

    /// The elements of an array (`Value::as_array`).
    pub open spec fn array_spec(self) -> Option<Seq<Json>> {
        match self {
            Json::Array(v) => Some(v@),
            _ => None,
        }
    }

    /// The members of an object (`Value::as_object`).
    pub open spec fn object_spec(self) -> Option<Seq<(String, Json)>> {
        match self {
            Json::Object(m) => Some(m@),
            _ => None,
        }
    }

    /// Whether this is an object.
    pub open spec fn is_object(self) -> bool {
        self is Object
    }

    pub fn get<'a>(&'a self, key: &str) -> (r: Option<&'a Json>)
        ensures
            match r {
                Some(v) => self.get_spec(key@) == Some(*v),
                None => self.get_spec(key@) is None,
            },
    {
        match self {
            Json::Object(members) => {
                let mut i: usize = 0;
                proof {
                    assert(members@.skip(0) =~= members@);
                }
                while i < members.len()
                    invariant
                        i <= members@.len(),
                        self.get_spec(key@) == lookup(members@.skip(i as int), key@),
                    decreases members@.len() - i,
                {
                    let ghost rest = members@.skip(i as int);
                    assert(rest[0] == members@[i as int]);
                    if str_eq(members[i].0.as_str(), key) {
                        proof {
                            assert(rest.len() > 0);
                            assert(lookup(rest, key@) == Some(rest[0].1));
                        }
                        return Some(&members[i].1);
                    }
                    proof {
                        assert(rest.drop_first() =~= members@.skip(i + 1));
                    }
                    i += 1;
                }
                None
            },
            _ => None,
        }
    }

    pub fn as_str(&self) -> (r: Option<&str>)
        ensures
            match r {
                Some(s) => self.str_spec() == Some(s@),
                None => self.str_spec() is None,
            },
    {
        match self {
            Json::Str(s) => Some(s.as_str()),
            _ => None,
        }
    }

    pub fn as_u64(&self) -> (r: Option<u64>)
        ensures
            r == self.u64_spec(),
    {
        match self {
            Json::Number(n) => n.as_u64,
            _ => None,
        }
    }

    pub fn as_number(&self) -> (r: Option<&JsonNumber>)
        ensures
            match r {
                Some(n) => self.number_spec() == Some(*n),
                None => self.number_spec() is None,
            },
    {
        match self {
            Json::Number(n) => Some(n),
            _ => None,
        }
    }

    pub fn as_bool(&self) -> (r: Option<bool>)
        ensures
            r == self.bool_spec(),
    {
        match self {
            Json::Bool(b) => Some(*b),
            _ => None,
        }
    }

    pub fn as_array(&self) -> (r: Option<&Vec<Json>>)
        ensures
            match r {
                Some(v) => self.array_spec() == Some(v@),
                None => self.array_spec() is None,
            },
    {
        match self {
            Json::Array(v) => Some(v),
            _ => None,
        }
    }

    pub fn as_object(&self) -> (r: Option<&Vec<(String, Json)>>)
        ensures
            match r {
                Some(m) => self.object_spec() == Some(m@),
                None => self.object_spec() is None,
            },
    {
        match self {
            Json::Object(m) => Some(m),
            _ => None,
        }
    }
}

} // verus!
