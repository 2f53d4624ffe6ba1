use vstd::prelude::*;
use crate::text::str_eq;

verus! {

#[verifier::external_type_specification]
#[verifier::external_body]
pub struct ExJsonValue(serde_json::Value);

/// A parsed JSON document. Numbers keep their text (as serde_json prints
/// them), so that no floating-point value is held here; object members
/// keep the order in which serde_json yields them.
#[derive(Debug)]
pub enum Json {
    Null,
    Bool(bool),
    Number(String),
    Str(String),
    Array(Vec<Json>),
    Object(Vec<(String, Json)>),
}

/// What `serde_json::from_str::<serde_json::Value>` makes of `text`:
/// `None` when it is not JSON.
pub uninterp spec fn json_parse(text: Seq<char>) -> Option<Json>;

/// Carries a serde_json value over into `Json`, one variant for one variant.
#[verifier::external_body]
fn json_from_value(v: serde_json::Value) -> Json {
    match v {
        serde_json::Value::Null => Json::Null,
        serde_json::Value::Bool(b) => Json::Bool(b),
        serde_json::Value::Number(n) => Json::Number(n.to_string()),
        serde_json::Value::String(s) => Json::Str(s),
        serde_json::Value::Array(a) => Json::Array(a.into_iter().map(json_from_value).collect()),
        serde_json::Value::Object(m) => Json::Object(m.into_iter().map(|(k, v)| (k, json_from_value(v))).collect()),
    }
}

/// `serde_json::from_str::<serde_json::Value>`: parses JSON text; the
/// result is named `json_parse`, with a parse error as `None`.
#[verifier::external_body]
pub fn parse_json(text: &str) -> (r: Option<Json>)
    ensures
        r == json_parse(text@),
{
    serde_json::from_str::<serde_json::Value>(text).ok().map(json_from_value)
}

/// Index of the first member of `members` named `key`, if any.
pub open spec fn member_index(members: Seq<(String, Json)>, key: Seq<char>) -> Option<int>
    decreases members.len(),
{
    if members.len() == 0 {
        None
    } else if members[0].0@ == key {
        Some(0)
    } else {
        match member_index(members.drop_first(), key) {
            Some(i) => Some(i + 1),
            None => None,
        }
    }
}

proof fn lemma_member_index(members: Seq<(String, Json)>, key: Seq<char>)
    ensures
        forall|i: int| 0 <= i < members.len() && members[i].0@ == key
            && (forall|j: int| 0 <= j < i ==> members[j].0@ != key)
            ==> member_index(members, key) == Some(i),
        (forall|j: int| 0 <= j < members.len() ==> members[j].0@ != key) ==> member_index(members, key) is None,
    decreases members.len(),
{
    if members.len() > 0 {
        lemma_member_index(members.drop_first(), key);
        assert forall|i: int| 0 <= i < members.len() && members[i].0@ == key
            && (forall|j: int| 0 <= j < i ==> members[j].0@ != key)
            implies member_index(members, key) == Some(i) by {
            if i > 0 {
                assert(members[0].0@ != key);
                assert(members.drop_first()[i - 1] == members[i]);
                assert forall|j: int| 0 <= j < i - 1 implies members.drop_first()[j].0@ != key by {
                    assert(members.drop_first()[j] == members[j + 1]);
                }
            }
        }
        if forall|j: int| 0 <= j < members.len() ==> members[j].0@ != key {
            assert forall|j: int| 0 <= j < members.drop_first().len() implies members.drop_first()[j].0@ != key by {
                assert(members.drop_first()[j] == members[j + 1]);
            }
        }
    }
}

/// The member `key` of an object: `None` for a missing key or a value that
/// is not an object (as `serde_json::Value::get` with a string key).
pub open spec fn json_get(v: Json, key: Seq<char>) -> Option<Json> {
    match v {
        Json::Object(members) => match member_index(members@, key) {
            Some(i) => Some(members@[i].1),
            None => None,
        },
        _ => None,
    }
}

/// The string held by `v`, if it is one (as `serde_json::Value::as_str`).
pub open spec fn json_str(v: Option<Json>) -> Option<Seq<char>> {
    match v {
        Some(Json::Str(s)) => Some(s@),
        _ => None,
    }
}

impl Json {
    /// The member `key` of an object.
    #[verifier::loop_isolation(false)]
    pub fn get<'a>(&'a self, key: &str) -> (r: Option<&'a Json>)
        ensures
            match r {
                Some(x) => json_get(*self, key@) == Some(*x),
                None => json_get(*self, key@) is None,
            },
    {
        match self {
            Json::Object(members) => {
                proof {
                    lemma_member_index(members@, key@);
                }
                let mut i: usize = 0;
                while i < members.len()
                    invariant
                        i <= members@.len(),
                        forall|j: int| 0 <= j < i ==> members@[j].0@ != key@,
                    decreases members.len() - i,
                {
                    if str_eq(members[i].0.as_str(), key) {
                        proof {
                            lemma_member_index(members@, key@);
                        }
                        assert(members@[i as int].0@ == key@);
                        assert(member_index(members@, key@) == Some(i as int));
                        return Some(&members[i].1);
                    }
                    i = i + 1;
                }
                None
            },
            _ => None,
        }
    }

    /// The string held by this value, if it is one.
    pub fn as_str(&self) -> (r: Option<&str>)
        ensures
            match self {
                Json::Str(s) => r matches Some(t) && t@ == s@,
                _ => r is None,
            },
    {
        match self {
            Json::Str(s) => Some(s.as_str()),
            _ => None,
        }
    }
}

} // verus!
