//! A plain JSON value as the library reads and builds it.
use vstd::prelude::*;
use crate::text::str_equal;
use vstd::string::StringExecFns;

verus! {

/// A JSON value. Numbers are kept as an unsigned integer, a negative integer,
/// or, for any other number, its text.
#[derive(Debug)]
pub enum Json {
    Null,
    Bool(bool),
    UInt(u64),
    NegInt(i64),
    Decimal(String),
    Str(String),
    Array(Vec<Json>),
    Object(Vec<(String, Json)>),
}

/// The value of the first member at or after index `i` whose key is `key`.
pub open spec fn field_from(fields: Seq<(String, Json)>, key: Seq<char>, i: int) -> Option<Json>
    decreases fields.len() - i,
{
    if i < 0 || i >= fields.len() {
        None
    } else if fields[i].0@ == key {
        Some(fields[i].1)
    } else {
        field_from(fields, key, i + 1)
    }
}

/// The value of the first member of an object whose key is `key`.
pub open spec fn field(fields: Seq<(String, Json)>, key: Seq<char>) -> Option<Json> {
    field_from(fields, key, 0)
}

/// Looks up the first member of an object whose key is `key`.
pub fn get_field<'a>(fields: &'a Vec<(String, Json)>, key: &str) -> (r: Option<&'a Json>)
    ensures
        r matches Some(v) ==> field(fields@, key@) == Some(*v),
        r is None ==> field(fields@, key@) is None,
{
    let mut i: usize = 0;
    while i < fields.len()
        invariant
            i <= fields@.len(),
            field(fields@, key@) == field_from(fields@, key@, i as int),
        decreases fields@.len() - i,
    {
        if str_equal(fields[i].0.as_str(), key) {
            return Some(&fields[i].1);
        }
        i = i + 1;
    }
    None
}

/// The keys of an object's members, in order.
pub open spec fn keys_of(fields: Seq<(String, Json)>) -> Seq<Seq<char>> {
    fields.map_values(|m: (String, Json)| m.0@)
}

/// Looking a key up after a member was appended finds an earlier member
/// first, else the new one if its key matches.
pub proof fn lemma_field_push(fields: Seq<(String, Json)>, member: (String, Json), key: Seq<char>, i: int)
    requires
        0 <= i <= fields.len(),
    ensures
        field_from(fields.push(member), key, i) == (if field_from(fields, key, i) is Some {
            field_from(fields, key, i)
        } else if member.0@ == key {
            Some(member.1)
        } else {
            None
        }),
    decreases fields.len() - i,
{
    let pushed = fields.push(member);
    if i < fields.len() {
        assert(pushed[i] == fields[i]);
        lemma_field_push(fields, member, key, i + 1);
    } else {
        assert(pushed[i] == member);
        assert(field_from(pushed, key, i + 1) is None);
    }
}

/// Appends a member to an object under construction.
pub fn push_member(fields: &mut Vec<(String, Json)>, key: &str, value: Json)
    ensures
        final(fields)@ == old(fields)@.push((final(fields)@.last().0, value)),
        final(fields)@.last().0@ == key@,
        keys_of(final(fields)@) == keys_of(old(fields)@).push(key@),
        forall|k: Seq<char>|
            #[trigger] field(final(fields)@, k) == (if field(old(fields)@, k) is Some {
                field(old(fields)@, k)
            } else if k == key@ {
                Some(value)
            } else {
                None
            }),
{
    let ghost before = fields@;
    fields.push((String::from_str(key), value));
    assert(keys_of(fields@) =~= keys_of(before).push(key@));
    proof {
        assert forall|k: Seq<char>|
            #[trigger] field(fields@, k) == (if field(before, k) is Some {
                field(before, k)
            } else if k == key@ {
                Some(value)
            } else {
                None
            }) by {
            lemma_field_push(before, fields@.last(), k, 0);
        }
    }
}

} // verus!
