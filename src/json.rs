//! JSON values as the protocol layer sees them, and the two trusted
//! crossings to the `json` crate: decoding text and encoding a value.

use vstd::prelude::*;

verus! {

#[verifier::external_type_specification]
#[verifier::external_body]
pub struct ExJsonValue(json::JsonValue);

/// A JSON value. A number is kept as the `json` crate keeps it: a sign,
/// a mantissa and a decimal exponent.
#[derive(Debug, PartialEq)]
pub enum Json {
    Null,
    Bool(bool),
    Number(bool, u64, i16),
    Str(String),
    List(Vec<Json>),
    /// Members in their order of appearance.
    Object(Vec<(String, Json)>),
}

/// The value that the `json` crate decodes from `text`, if it is JSON.
pub uninterp spec fn parsed(text: Seq<char>) -> Option<Json>;

/// The text that the `json` crate writes for `value`.
pub uninterp spec fn dumped(value: Json) -> Seq<char>;

/// The value of the first member named `key`.
pub open spec fn lookup(members: Seq<(String, Json)>, key: Seq<char>) -> Option<Json>
    decreases members.len(),
{
    if members.len() == 0 {
        None
    } else if members[0].0@ == key {
        Some(members[0].1)
    } else {
        lookup(members.subrange(1, members.len() as int), key)
    }
}

/// The first member named `key` is the one at `i`.
pub proof fn lemma_lookup_at(members: Seq<(String, Json)>, key: Seq<char>, i: int)
    requires
        0 <= i < members.len(),
        members[i].0@ == key,
        forall|k: int| 0 <= k < i ==> (#[trigger] members[k]).0@ != key,
    ensures
        lookup(members, key) == Some(members[i].1),
    decreases i,
{
    if i > 0 {
        let rest = members.subrange(1, members.len() as int);
        assert(members[0].0@ != key);
        assert forall|k: int| 0 <= k < i - 1 implies (#[trigger] rest[k]).0@ != key by {
            assert(rest[k] == members[k + 1]);
        }
        assert(rest[i - 1] == members[i]);
        lemma_lookup_at(rest, key, i - 1);
    }
}

/// No member is named `key`.
pub proof fn lemma_lookup_absent(members: Seq<(String, Json)>, key: Seq<char>)
    requires
        forall|k: int| 0 <= k < members.len() ==> (#[trigger] members[k]).0@ != key,
    ensures
        lookup(members, key) is None,
    decreases members.len(),
{
    if members.len() > 0 {
        let rest = members.subrange(1, members.len() as int);
        assert(members[0].0@ != key);
        assert forall|k: int| 0 <= k < rest.len() implies (#[trigger] rest[k]).0@ != key by {
            assert(rest[k] == members[k + 1]);
        }
        lemma_lookup_absent(rest, key);
    }
}

/// The member `key` of an object; nothing for any other value.
pub open spec fn field(j: Json, key: Seq<char>) -> Option<Json> {
    match j {
        Json::Object(members) => lookup(members@, key),
        _ => None,
    }
}

/// The member `key` of `j`, read as `null` where there is none.
pub open spec fn member(j: Json, key: Seq<char>) -> Json {
    match field(j, key) {
        Some(x) => x,
        None => Json::Null,
    }
}

/// The names of the members of an object, in order; none for another value.
pub open spec fn keys(j: Json) -> Seq<Seq<char>> {
    match j {
        Json::Object(members) => members@.map_values(|m: (String, Json)| m.0@),
        _ => Seq::empty(),
    }
}

/// `j` is a string that reads `s`.
pub open spec fn is_text(j: Json, s: Seq<char>) -> bool {
    j is Str && j->Str_0@ == s
}

/// `j` is a whole number that fits in a `u64`: its value.
pub open spec fn whole(j: Json) -> Option<u64> {
    match j {
        Json::Number(positive, mantissa, exponent) => if positive && exponent == 0 {
            Some(mantissa)
        } else {
            None
        },
        _ => None,
    }
}

/// Relies on `json::parse`, with each `json::JsonValue` taken over variant for
/// variant: the outcome depends on the text alone.
#[verifier::external_body]
pub fn decode(text: &str) -> (r: Option<Json>)
    ensures
        r == parsed(text@),
{
    json::parse(text).ok().map(lift)
}

/// Relies on `json::short::Short::as_str`, `json::number::Number::as_parts` and
/// `json::object::Object::iter` to take a `json::JsonValue` over variant for variant.
#[verifier::external_body]
fn lift(v: json::JsonValue) -> Json {
    match v {
        json::JsonValue::Null => Json::Null,
        json::JsonValue::Short(s) => Json::Str(s.as_str().to_owned()),
        json::JsonValue::String(s) => Json::Str(s),
        json::JsonValue::Number(n) => {
            let (p, m, e) = n.as_parts();
            Json::Number(p, m, e)
        },
        json::JsonValue::Boolean(b) => Json::Bool(b),
        json::JsonValue::Object(o) => Json::Object(o.iter().map(|(k, x)| (k.to_owned(), lift(x.clone()))).collect()),
        json::JsonValue::Array(a) => Json::List(a.into_iter().map(lift).collect()),
    }
}

/// Relies on `json::JsonValue::dump`: the text depends on the value alone.
#[verifier::external_body]
pub fn encode(value: &Json) -> (r: String)
    ensures
        r@ == dumped(*value),
{
    lower(value).dump()
}

/// Relies on `json::number::Number::from_parts` and `json::object::Object`'s
/// `FromIterator` to build the `json::JsonValue` for a `Json`, variant for variant.
#[verifier::external_body]
fn lower(value: &Json) -> json::JsonValue {
    match value {
        Json::Null => json::JsonValue::Null,
        Json::Bool(b) => json::JsonValue::Boolean(*b),
        Json::Number(p, m, e) => json::JsonValue::Number(json::number::Number::from_parts(*p, *m, *e)),
        Json::Str(s) => json::JsonValue::String(s.clone()),
        Json::List(items) => json::JsonValue::Array(items.iter().map(lower).collect()),
        Json::Object(ms) => json::JsonValue::Object(ms.iter().map(|(k, x)| (k.as_str(), lower(x))).collect()),
    }
}

impl Json {
    /// The member `key` of this value, if it is an object that has one.
    pub fn get(&self, key: &str) -> (r: Option<&Json>)
        ensures
            match r {
                Some(x) => field(*self, key@) == Some(*x),
                None => field(*self, key@) is None,
            },
    {
        match self {
            Json::Object(members) => {
                let mut i: usize = 0;
                assert(members@.subrange(0, members@.len() as int) =~= members@);
                while i < members.len()
                    invariant
                        i <= members@.len(),
                        field(*self, key@) == lookup(members@, key@),
                        lookup(members@, key@) == lookup(
                            members@.subrange(i as int, members@.len() as int),
                            key@,
                        ),
                    decreases members@.len() - i,
                {
                    let ghost rest = members@.subrange(i as int, members@.len() as int);
                    assert(rest.len() > 0 && rest[0] == members@[i as int]);
                    if same_name(&members[i].0, key) {
                        assert(lookup(rest, key@) == Some(members@[i as int].1));
                        let found = &members[i].1;
                        return Some(found);
                    }
                    assert(rest.subrange(1, rest.len() as int) =~= members@.subrange(
                        i + 1,
                        members@.len() as int,
                    ));
                    i = i + 1;
                }
                None
            },
            _ => None,
        }
    }

    /// The value of this JSON number, if it is a whole number that fits in a `u64`.
    pub fn as_whole(&self) -> (r: Option<u64>)
        ensures
            r == whole(*self),
    {
        match self {
            Json::Number(positive, mantissa, exponent) => if *positive && *exponent == 0 {
                Some(*mantissa)
            } else {
                None
            },
            _ => None,
        }
    }

    /// A string value.
    pub fn text(s: &str) -> (r: Json)
        ensures
            is_text(r, s@),
    {
        Json::Str(s.to_owned())
    }
}

fn same_name(a: &String, b: &str) -> (r: bool)
    ensures
        r == (a@ == b@),
{
    let y = b.to_owned();
    *a == y
}

} // verus!
