//! JSON values, as far as the application reads them.

use crate::text::same_text;
use vstd::prelude::*;
use vstd::string::*;

verus! {

/// A JSON value. Numbers with a fraction or outside the 64-bit ranges, and the
/// elements of arrays, are never read and not kept.
#[derive(Debug)]
pub enum Json {
    Null,
    Bool(bool),
    /// A non-negative integer.
    Unsigned(u64),
    /// A negative integer.
    Negative(i64),
    Float,
    Text(String),
    Array,
    /// The members of an object, by name.
    Object(Vec<(String, Json)>),
}

/// The first member with the given name.
pub open spec fn member(members: Seq<(String, Json)>, key: Seq<char>) -> Option<Json>
    decreases members.len(),
{
    if members.len() == 0 {
        None
    } else if members[0].0@ == key {
        Some(members[0].1)
    } else {
        member(members.skip(1), key)
    }
}

impl Json {
    /// The member of an object with the given name.
    pub open spec fn get_spec(self, key: Seq<char>) -> Option<Json> {
        match self {
            Json::Object(members) => member(members@, key),
            _ => None,
        }
    }

    /// The value of a non-negative integer.
    pub open spec fn u64_spec(self) -> Option<u64> {
        match self {
            Json::Unsigned(n) => Some(n),
            _ => None,
        }
    }

    /// The value of an integer that an `i64` can hold.
    pub open spec fn i64_spec(self) -> Option<i64> {
        match self {
            Json::Unsigned(n) => if n <= i64::MAX {
                Some(n as i64)
            } else {
                None
            },
            Json::Negative(n) => Some(n),
            _ => None,
        }
    }

    /// The value of a boolean.
    pub open spec fn bool_spec(self) -> Option<bool> {
        match self {
            Json::Bool(b) => Some(b),
            _ => None,
        }
    }

    /// The characters of a string.
    pub open spec fn text_spec(self) -> Option<Seq<char>> {
        match self {
            Json::Text(s) => Some(s@),
            _ => None,
        }
    }

    /// The value of a member that is a non-negative integer.
    pub open spec fn u64_at(self, key: Seq<char>) -> Option<u64> {
        match self.get_spec(key) {
            Some(v) => v.u64_spec(),
            None => None,
        }
    }

    /// The value of a member that is an integer.
    pub open spec fn i64_at(self, key: Seq<char>) -> Option<i64> {
        match self.get_spec(key) {
            Some(v) => v.i64_spec(),
            None => None,
        }
    }

    /// The value of a member that is a boolean.
    pub open spec fn bool_at(self, key: Seq<char>) -> Option<bool> {
        match self.get_spec(key) {
            Some(v) => v.bool_spec(),
            None => None,
        }
    }

    /// The characters of a member that is a string.
    pub open spec fn text_at(self, key: Seq<char>) -> Option<Seq<char>> {
        match self.get_spec(key) {
            Some(v) => v.text_spec(),
            None => None,
        }
    }

    /// True for an object.
    pub fn is_object(&self) -> (r: bool)
        ensures
            r == (self is Object),
    {
        match self {
            Json::Object(_) => true,
            _ => false,
        }
    }

    /// The member of an object with the given name.
    pub fn get(&self, key: &str) -> (r: Option<&Json>)
        ensures
            match r {
                Some(v) => self.get_spec(key@) == Some(*v),
                None => self.get_spec(key@) is None,
            },
    {
        match self {
            Json::Object(members) => {
                let mut i: usize = 0;
                assert(members@.skip(0) == members@);
                while i < members.len()
                    invariant
                        *self == Json::Object(*members),
                        i <= members@.len(),
                        member(members@, key@) == member(members@.skip(i as int), key@),
                    decreases members@.len() - i,
                {
                    assert(members@.skip(i as int)[0] == members@[i as int]);
                    if same_text(members[i].0.as_str(), key) {
                        return Some(&members[i].1);
                    }
                    assert(members@.skip(i as int).skip(1) == members@.skip(i + 1));
                    i = i + 1;
                }
                None
            },
            _ => None,
        }
    }

    /// The value of a member that is a non-negative integer.
    pub fn get_u64(&self, key: &str) -> (r: Option<u64>)
        ensures
            r == self.u64_at(key@),
    {
        match self.get(key) {
            Some(Json::Unsigned(n)) => Some(*n),
            _ => None,
        }
    }

    /// The value of a member that is an integer.
    pub fn get_i64(&self, key: &str) -> (r: Option<i64>)
        ensures
            r == self.i64_at(key@),
    {
        match self.get(key) {
            Some(Json::Unsigned(n)) => if *n <= i64::MAX as u64 {
                Some(*n as i64)
            } else {
                None
            },
            Some(Json::Negative(n)) => Some(*n),
            _ => None,
        }
    }

    /// The value of a member that is a boolean.
    pub fn get_bool(&self, key: &str) -> (r: Option<bool>)
        ensures
            r == self.bool_at(key@),
    {
        match self.get(key) {
            Some(Json::Bool(b)) => Some(*b),
            _ => None,
        }
    }

    /// A member that is a string.
    pub fn get_text(&self, key: &str) -> (r: Option<&str>)
        ensures
            match r {
                Some(s) => self.text_at(key@) == Some(s@),
                None => self.text_at(key@) is None,
            },
    {
        match self.get(key) {
            Some(Json::Text(s)) => Some(s.as_str()),
            _ => None,
        }
    }
}

// ---------------------------------------------------------------------------
// Laws
// ---------------------------------------------------------------------------

/// A member is found under its name: the first one of several. A name that no
/// member has gives nothing, and neither does any name in a value that is no
/// object.
pub proof fn members_are_found_by_name(v: Json, key: Seq<char>, i: int)
    ensures
        v !is Object ==> v.get_spec(key) is None,
        v matches Json::Object(members) ==> {
            &&& (0 <= i < members@.len() && members@[i].0@ == key && (forall|j: int|
                0 <= j < i ==> (#[trigger] members@[j]).0@ != key)) ==> v.get_spec(key) == Some(
                members@[i].1,
            )
            &&& (forall|j: int| 0 <= j < members@.len() ==> (#[trigger] members@[j]).0@ != key)
                ==> v.get_spec(key) is None
        },
{
    if let Json::Object(members) = v {
        if 0 <= i < members@.len() && members@[i].0@ == key && (forall|j: int|
            0 <= j < i ==> (#[trigger] members@[j]).0@ != key) {
            lemma_member(members@, key, i);
        }
        if forall|j: int| 0 <= j < members@.len() ==> (#[trigger] members@[j]).0@ != key {
            lemma_member(members@, key, members@.len() as int);
        }
    }
}

proof fn lemma_member(members: Seq<(String, Json)>, key: Seq<char>, i: int)
    requires
        0 <= i <= members.len(),
        i < members.len() ==> members[i].0@ == key,
        forall|j: int| 0 <= j < i ==> (#[trigger] members[j]).0@ != key,
    ensures
        member(members, key) == if i < members.len() {
            Some(members[i].1)
        } else {
            None
        },
    decreases i,
{
    if i > 0 {
        assert(members[0].0@ != key);
        let rest = members.skip(1);
        assert forall|j: int| 0 <= j < i - 1 implies (#[trigger] rest[j]).0@ != key by {
            assert(rest[j] == members[j + 1]);
        }
        lemma_member(rest, key, i - 1);
    }
}

/// A value is read as what it is, and as nothing else: a number as its value, a
/// text as its characters, a truth value as itself.
pub proof fn values_are_read_as_they_are(n: u64, m: i64, b: bool, s: String)
    ensures
        Json::Unsigned(n).u64_spec() == Some(n),
        n <= i64::MAX ==> Json::Unsigned(n).i64_spec() == Some(n as i64),
        n > i64::MAX ==> Json::Unsigned(n).i64_spec() is None,
        Json::Negative(m).i64_spec() == Some(m),
        Json::Bool(b).bool_spec() == Some(b),
        Json::Text(s).text_spec() == Some(s@),
        Json::Negative(m).u64_spec() is None,
        Json::Bool(b).u64_spec() is None && Json::Text(s).u64_spec() is None,
        Json::Null.u64_spec() is None && Json::Float.u64_spec() is None,
        Json::Null.text_spec() is None && Json::Unsigned(n).text_spec() is None,
        Json::Null.bool_spec() is None && Json::Text(s).bool_spec() is None,
        Json::Float.i64_spec() is None && Json::Text(s).i64_spec() is None,
{
}

/// What is read under a name is the member of that name, read as what it is.
pub proof fn members_are_read_under_their_names(v: Json, key: Seq<char>)
    ensures
        v.u64_at(key) is Some <==> v.get_spec(key) matches Some(Json::Unsigned(_)),
        v.u64_at(key) matches Some(n) ==> v.get_spec(key) == Some(Json::Unsigned(n)),
        v.bool_at(key) is Some <==> v.get_spec(key) matches Some(Json::Bool(_)),
        v.bool_at(key) matches Some(b) ==> v.get_spec(key) == Some(Json::Bool(b)),
        v.text_at(key) is Some <==> v.get_spec(key) matches Some(Json::Text(_)),
        v.get_spec(key) matches Some(Json::Text(s)) ==> v.text_at(key) == Some(s@),
        v.get_spec(key) matches Some(Json::Negative(n)) ==> v.i64_at(key) == Some(n),
{
}

} // verus!
