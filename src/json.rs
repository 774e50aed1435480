use crate::error::ClientError;
use vstd::prelude::*;

verus! {

/// A JSON value as plain data. A number keeps the text it was written with;
/// an object keeps its members in order, each key once.
#[derive(Debug)]
pub enum Json {
    Null,
    Bool(bool),
    Number(String),
    Str(String),
    Array(Vec<Json>),
    Object(Vec<(String, Json)>),
}

/// The value of the first member named `key`, if any.
pub open spec fn lookup(members: Seq<(String, Json)>, key: Seq<char>) -> Option<Json>
    decreases members.len(),
{
    if members.len() == 0 {
        None
    } else if members[0].0@ == key {
        Some(members[0].1)
    } else {
        lookup(members.drop_first(), key)
    }
}

/// The member `key` of `j`, when `j` is an object that has one.
pub open spec fn member(j: Json, key: Seq<char>) -> Option<Json> {
    match j {
        Json::Object(members) => lookup(members@, key),
        _ => None,
    }
}

/// The text of the member `key` of `j`, when it is a JSON string.
pub open spec fn text_member(j: Json, key: Seq<char>) -> Option<Seq<char>> {
    match member(j, key) {
        Some(Json::Str(s)) => Some(s@),
        _ => None,
    }
}

/// The member `key` of `j`, when it is a JSON boolean.
pub open spec fn bool_member(j: Json, key: Seq<char>) -> Option<bool> {
    match member(j, key) {
        Some(Json::Bool(b)) => Some(b),
        _ => None,
    }
}

proof fn lemma_lookup_skip(members: Seq<(String, Json)>, i: int, key: Seq<char>)
    requires
        0 <= i < members.len(),
        members[i].0@ != key,
    ensures
        lookup(members.subrange(i, members.len() as int), key) == lookup(
            members.subrange(i + 1, members.len() as int),
            key,
        ),
{
    let rest = members.subrange(i, members.len() as int);
    assert(rest.drop_first() =~= members.subrange(i + 1, members.len() as int));
}

/// The member `key` of `j`, when `j` is an object that has one.
pub fn get_member<'a>(j: &'a Json, key: &str) -> (r: Option<&'a Json>)
    ensures
        match r {
            Some(v) => member(*j, key@) == Some(*v),
            None => member(*j, key@) is None,
        },
{
    match j {
        Json::Object(members) => {
            let wanted = String::from_str(key);
            let mut i: usize = 0;
            assert(members@.subrange(0, members@.len() as int) =~= members@);
            while i < members.len()
                invariant
                    0 <= i <= members@.len(),
                    wanted@ == key@,
                    member(*j, key@) == lookup(members@, key@),
                    lookup(members@, key@) == lookup(
                        members@.subrange(i as int, members@.len() as int),
                        key@,
                    ),
                decreases members@.len() - i,
            {
                let entry = &members[i];
                if entry.0.eq(&wanted) {
                    proof {
                        let rest = members@.subrange(i as int, members@.len() as int);
                        assert(rest[0] == members@[i as int]);
                    }
                    return Some(&entry.1);
                }
                proof {
                    lemma_lookup_skip(members@, i as int, key@);
                }
                i = i + 1;
            }
            None
        },
        _ => None,
    }
}

/// The text of the member `key` of `j`; a decoding error when there is no
/// such member or it is not a JSON string.
pub fn text_field(j: &Json, key: &str) -> (r: Result<String, ClientError>)
    ensures
        match text_member(*j, key@) {
            Some(t) => r matches Ok(s) && s@ == t,
            None => r matches Err(ClientError::Decode(_)),
        },
{
    match get_member(j, key) {
        Some(Json::Str(s)) => Ok(s.clone()),
        _ => Err(ClientError::Decode(String::from_str("expected a string member"))),
    }
}

/// The member `key` of `j` as a boolean; a decoding error when there is no
/// such member or it is not a JSON boolean.
pub fn bool_field(j: &Json, key: &str) -> (r: Result<bool, ClientError>)
    ensures
        match bool_member(*j, key@) {
            Some(b) => r == Ok::<bool, ClientError>(b),
            None => r matches Err(ClientError::Decode(_)),
        },
{
    match get_member(j, key) {
        Some(Json::Bool(b)) => Ok(*b),
        _ => Err(ClientError::Decode(String::from_str("expected a boolean member"))),
    }
}

/// The elements of `j`, when it is an array.
pub open spec fn array_items(j: Json) -> Option<Seq<Json>> {
    match j {
        Json::Array(items) => Some(items@),
        _ => None,
    }
}

/// The text of `j`, when it is a JSON string (empty otherwise).
pub open spec fn text_of(j: Json) -> Seq<char> {
    match j {
        Json::Str(s) => s@,
        _ => Seq::empty(),
    }
}

/// Whether every element of `items` is a JSON string.
pub open spec fn all_text(items: Seq<Json>) -> bool {
    forall|i: int| 0 <= i < items.len() ==> (#[trigger] items[i]) is Str
}

/// Whether `texts` holds, in order, the strings of `items`.
pub open spec fn texts_from(texts: Seq<String>, items: Seq<Json>) -> bool {
    texts.len() == items.len() && forall|i: int|
        0 <= i < texts.len() ==> (#[trigger] items[i]) is Str && text_of(items[i]) == texts[i]@
}

/// Whether `j` is an array of JSON strings.
pub open spec fn text_list_fits(j: Json) -> bool {
    match array_items(j) {
        Some(items) => all_text(items),
        None => false,
    }
}

/// Whether `texts` holds, in order, the strings of the array `j`.
pub open spec fn text_list_from(texts: Seq<String>, j: Json) -> bool {
    match array_items(j) {
        Some(items) => texts_from(texts, items),
        None => false,
    }
}

/// The strings of an array of JSON strings, in order; a decoding error when
/// `j` is not an array or one of its elements is not a string.
pub fn text_list(j: &Json) -> (r: Result<Vec<String>, ClientError>)
    ensures
        match r {
            Ok(texts) => text_list_from(texts@, *j),
            Err(e) => !text_list_fits(*j) && e is Decode,
        },
{
    match j {
        Json::Array(items) => {
            let mut texts: Vec<String> = Vec::new();
            let mut i: usize = 0;
            while i < items.len()
                invariant
                    0 <= i <= items@.len(),
                    array_items(*j) == Some(items@),
                    texts@.len() == i,
                    forall|k: int|
                        0 <= k < i ==> (#[trigger] items@[k]) is Str && text_of(items@[k])
                            == texts@[k]@,
                decreases items@.len() - i,
            {
                match &items[i] {
                    Json::Str(s) => texts.push(s.clone()),
                    _ => {
                        return Err(ClientError::Decode(String::from_str("expected a string")));
                    },
                }
                i = i + 1;
            }
            Ok(texts)
        },
        _ => Err(ClientError::Decode(String::from_str("expected an array"))),
    }
}

/// A value that may be null, read as an optional value: null is `None`.
pub open spec fn nullable(j: Json) -> Option<Json> {
    match j {
        Json::Null => None,
        _ => Some(j),
    }
}

/// The optional member `key` of `j`: absent or null is `None`.
pub open spec fn optional_member(j: Json, key: Seq<char>) -> Option<Json> {
    match member(j, key) {
        Some(v) => nullable(v),
        None => None,
    }
}

/// Removing a member whose key is not `key` leaves the lookup of `key` as it
/// was.
pub proof fn lemma_lookup_remove(members: Seq<(String, Json)>, i: int, key: Seq<char>)
    requires
        0 <= i < members.len(),
        members[i].0@ != key,
    ensures
        lookup(members.remove(i), key) == lookup(members, key),
    decreases members.len(),
{
    if i == 0 {
        assert(members.remove(0) =~= members.drop_first());
    } else {
        let rest = members.remove(i);
        assert(rest[0] == members[0]);
        if members[0].0@ != key {
            assert(rest.drop_first() =~= members.drop_first().remove(i - 1));
            lemma_lookup_remove(members.drop_first(), i - 1, key);
        }
    }
}

/// Moves the value of the first member named `key` out of `members`; the
/// lookup of every other key is unchanged.
pub fn take_member(members: &mut Vec<(String, Json)>, key: &str) -> (r: Option<Json>)
    ensures
        r == lookup(old(members)@, key@),
        forall|k: Seq<char>|
            k != key@ ==> #[trigger] lookup(final(members)@, k) == lookup(old(members)@, k),
{
    let wanted = String::from_str(key);
    let ghost start = members@;
    let mut i: usize = 0;
    assert(start.subrange(0, start.len() as int) =~= start);
    while i < members.len()
        invariant
            0 <= i <= members@.len(),
            members@ == start,
            old(members)@ == start,
            wanted@ == key@,
            lookup(start, key@) == lookup(start.subrange(i as int, start.len() as int), key@),
            forall|m: int| 0 <= m < i ==> (#[trigger] start[m]).0@ != key@,
        decreases members@.len() - i,
    {
        if members[i].0.eq(&wanted) {
            proof {
                let rest = start.subrange(i as int, start.len() as int);
                assert(rest[0] == start[i as int]);
                assert(lookup(rest, key@) == Some(rest[0].1));
                assert forall|k: Seq<char>| k != key@ implies #[trigger] lookup(
                    start.remove(i as int),
                    k,
                ) == lookup(start, k) by {
                    lemma_lookup_remove(start, i as int, k);
                }
            }
            let (_, value) = members.remove(i);
            return Some(value);
        }
        proof {
            lemma_lookup_skip(start, i as int, key@);
        }
        i = i + 1;
    }
    None
}

/// Whether `values` holds, in order, the elements of `items` read as
/// optional values.
pub open spec fn nullables_from(values: Seq<Option<Json>>, items: Seq<Json>) -> bool {
    values.len() == items.len() && forall|i: int|
        0 <= i < values.len() ==> #[trigger] values[i] == nullable(items[i])
}

/// Reads each element of an array as an optional value, in order: null is
/// `None`.
pub fn into_nullables(items: Vec<Json>) -> (r: Vec<Option<Json>>)
    ensures
        nullables_from(r@, items@),
{
    let mut rest = items;
    let mut out: Vec<Option<Json>> = Vec::new();
    while rest.len() > 0
        invariant
            out@.len() + rest@.len() == items@.len(),
            rest@ == items@.subrange(out@.len() as int, items@.len() as int),
            forall|i: int| 0 <= i < out@.len() ==> #[trigger] out@[i] == nullable(items@[i]),
        decreases rest@.len(),
    {
        let first = rest.remove(0);
        let value = match first {
            Json::Null => None,
            other => Some(other),
        };
        out.push(value);
    }
    out
}

} // verus!
