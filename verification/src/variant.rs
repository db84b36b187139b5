//! Documents in the binary form that variant columns hold.

use vstd::prelude::*;

verus! {

/// The bytes of an object whose members are integers, in the encoding of the
/// `jsonb` crate.
pub uninterp spec fn jsonb_int_object(members: Map<Seq<char>, i64>) -> Seq<u8>;

/// The members that result from setting `first_key`, then `second_key`.
pub open spec fn two_members(
    first_key: Seq<char>,
    first: i64,
    second_key: Seq<char>,
    second: i64,
) -> Map<Seq<char>, i64> {
    Map::empty().insert(first_key, first).insert(second_key, second)
}

/// Calls `jsonb::Value::write_to_vec` on an object with two `Int64` members,
/// the second of which replaces the first where the keys are equal. Trusted:
/// the call leaves what the buffer already holds as it is, and appends bytes
/// that depend on the object's members alone. What those bytes are is named,
/// not spelled out.
#[verifier::external_body]
pub(crate) fn write_int_object(
    first_key: &str,
    first: i64,
    second_key: &str,
    second: i64,
    buf: &mut Vec<u8>,
)
    ensures
        final(buf)@ == old(buf)@ + jsonb_int_object(
            two_members(first_key@, first, second_key@, second),
        ),
{
    let mut object = jsonb::Object::new();
    object.insert(first_key.to_string(), jsonb::Value::Number(jsonb::Number::Int64(first)));
    object.insert(second_key.to_string(), jsonb::Value::Number(jsonb::Number::Int64(second)));
    jsonb::Value::Object(object).write_to_vec(buf);
}

} // verus!
