//! JSON values as the library holds them, and the calls into `serde_json`
//! that read and print them.

use vstd::prelude::*;

verus! {

#[verifier::external_type_specification]
#[verifier::external_body]
pub struct ExNumber(serde_json::Number);

#[verifier::external_type_specification]
#[verifier::external_body]
pub struct ExValue(serde_json::Value);

/// A JSON value. The members of an object are kept in the order in which
/// they were read or built.
#[derive(Debug, PartialEq)]
pub enum Json {
    Null,
    Bool(bool),
    Number(serde_json::Number),
    Text(String),
    Array(Vec<Json>),
    Object(Vec<Member>),
}

/// One member of a JSON object.
#[derive(Debug, PartialEq)]
pub struct Member {
    pub key: String,
    pub value: Json,
}

/// The mathematical value of a [`Json`].
pub enum JsonValue {
    Null,
    Bool(bool),
    Number(serde_json::Number),
    Text(Seq<char>),
    Array(Seq<JsonValue>),
    Object(Seq<(Seq<char>, JsonValue)>),
}

/// The mathematical value that a [`Json`] stands for.
pub open spec fn json_value(json: Json) -> JsonValue
    decreases json,
{
    match json {
        Json::Null => JsonValue::Null,
        Json::Bool(b) => JsonValue::Bool(b),
        Json::Number(n) => JsonValue::Number(n),
        Json::Text(s) => JsonValue::Text(s@),
        Json::Array(items) => JsonValue::Array(
            Seq::new(
                items@.len(),
                |i: int|
                    if 0 <= i < items@.len() {
                        json_value(items@[i])
                    } else {
                        JsonValue::Null
                    },
            ),
        ),
        Json::Object(members) => JsonValue::Object(
            Seq::new(
                members@.len(),
                |i: int|
                    if 0 <= i < members@.len() {
                        (members@[i].key@, json_value(members@[i].value))
                    } else {
                        (Seq::empty(), JsonValue::Null)
                    },
            ),
        ),
    }
}

impl View for Json {
    type V = JsonValue;

    open spec fn view(&self) -> JsonValue {
        json_value(*self)
    }
}

impl View for Member {
    type V = (Seq<char>, JsonValue);

    open spec fn view(&self) -> (Seq<char>, JsonValue) {
        (self.key@, self.value@)
    }
}

/// The values of a sequence of [`Json`].
pub open spec fn item_values(items: Seq<Json>) -> Seq<JsonValue> {
    Seq::new(items.len(), |i: int| items[i]@)
}

/// The keys and values of a sequence of object members.
pub open spec fn member_values(members: Seq<Member>) -> Seq<(Seq<char>, JsonValue)> {
    Seq::new(members.len(), |i: int| members[i]@)
}

/// The value of the first member of `members` whose key is `key`.
pub open spec fn member_of(members: Seq<(Seq<char>, JsonValue)>, key: Seq<char>) -> Option<
    JsonValue,
>
    decreases members.len(),
{
    if members.len() == 0 {
        None
    } else if members[0].0 == key {
        Some(members[0].1)
    } else {
        member_of(members.drop_first(), key)
    }
}

/// What `serde_json` reads from a text: the value, or nothing where it
/// rejects the text.
pub uninterp spec fn parsed_json(text: Seq<char>) -> Option<JsonValue>;

/// What `serde_json` prints for a value, in its compact form.
pub uninterp spec fn printed_json(value: JsonValue) -> Seq<char>;

/// What a `serde_json::Value` holds, the members of each object in the order
/// in which its map hands them out.
pub uninterp spec fn value_json(value: serde_json::Value) -> JsonValue;

/// Trusted: `serde_json::from_str` at `serde_json::Value`. The outcome depends
/// on the text alone; nothing else is claimed of it.
#[verifier::external_body]
fn value_from_text(text: &str) -> (r: Option<serde_json::Value>)
    ensures
        r is Some <==> parsed_json(text@) is Some,
        r matches Some(v) ==> parsed_json(text@) == Some(value_json(v)),
{
    serde_json::from_str::<serde_json::Value>(text).ok()
}

/// Trusted: takes a `serde_json::Value` apart, variant by variant, into the
/// library's own tree. Nothing is added, dropped or reordered.
#[verifier::external_body]
fn json_of_value(value: serde_json::Value) -> (r: Json)
    ensures
        r@ == value_json(value),
{
    match value {
        serde_json::Value::Null => Json::Null,
        serde_json::Value::Bool(b) => Json::Bool(b),
        serde_json::Value::Number(n) => Json::Number(n),
        serde_json::Value::String(s) => Json::Text(s),
        serde_json::Value::Array(a) => Json::Array(a.into_iter().map(json_of_value).collect()),
        serde_json::Value::Object(m) => Json::Object(
            m.into_iter().map(|(key, v)| Member { key, value: json_of_value(v) }).collect(),
        ),
    }
}

/// Trusted: builds the `serde_json::Value` for a tree, variant by variant.
/// `serde_json` keeps one member per key in an object, so the claim is only
/// that the value prints as the tree does.
#[verifier::external_body]
fn value_of_json(json: &Json) -> (r: serde_json::Value)
    ensures
        printed_json(value_json(r)) == printed_json(json@),
{
    match json {
        Json::Null => serde_json::Value::Null,
        Json::Bool(b) => serde_json::Value::Bool(*b),
        Json::Number(n) => serde_json::Value::Number(n.clone()),
        Json::Text(s) => serde_json::Value::String(s.clone()),
        Json::Array(a) => serde_json::Value::Array(a.iter().map(value_of_json).collect()),
        Json::Object(m) => serde_json::Value::Object(
            m.iter().map(|m| (m.key.clone(), value_of_json(&m.value))).collect(),
        ),
    }
}

/// Trusted: `Display` of `serde_json::Value`, its compact printer. The text
/// depends on the value alone, and its UTF-8 form holds no line break: the
/// printer writes no white space between tokens and escapes every control
/// character inside strings and keys.
#[verifier::external_body]
fn text_of_value(value: &serde_json::Value) -> (r: String)
    ensures
        r@ == printed_json(value_json(*value)),
        !crate::framing::has_break(vstd::utf8::encode_utf8(r@)),
{
    value.to_string()
}

/// Trusted: `Clone` of `serde_json::Number`. The copy is the same number.
pub assume_specification[ <serde_json::Number as Clone>::clone ](
    n: &serde_json::Number,
) -> (r: serde_json::Number)
    ensures
        r == *n,
;

impl Json {
    /// Reads a JSON text. Returns the value that `serde_json` reads, or `None`
    /// where it rejects the text.
    pub fn parse(text: &str) -> (r: Option<Json>)
        ensures
            r is Some <==> parsed_json(text@) is Some,
            r matches Some(j) ==> parsed_json(text@) == Some(j@),
    {
        match value_from_text(text) {
            Some(v) => Some(json_of_value(v)),
            None => None,
        }
    }

    /// Prints the value as `serde_json` does, compactly and on one line.
    pub fn print(&self) -> (r: String)
        ensures
            r@ == printed_json(self@),
            !crate::framing::has_break(vstd::utf8::encode_utf8(r@)),
    {
        let v = value_of_json(self);
        text_of_value(&v)
    }

    /// The value of the first member named `key`, if `members` has one.
    pub fn member<'a>(members: &'a Vec<Member>, key: &str) -> (r: Option<&'a Json>)
        ensures
            r is Some <==> member_of(member_values(members@), key@) is Some,
            r matches Some(j) ==> member_of(member_values(members@), key@) == Some(j@),
    {
        let mut i: usize = 0;
        assert(member_values(members@).subrange(0, members.len() as int) == member_values(
            members@,
        ));
        while i < members.len()
            invariant
                0 <= i <= members.len(),
                member_of(member_values(members@), key@) == member_of(
                    member_values(members@).subrange(i as int, members.len() as int),
                    key@,
                ),
            decreases members.len() - i,
        {
            let ghost rest = member_values(members@).subrange(i as int, members.len() as int);
            proof {
                assert(rest[0] == member_values(members@)[i as int]);
                assert(rest.drop_first() == member_values(members@).subrange(
                    i + 1,
                    members.len() as int,
                ));
            }
            if crate::text::same_text(members[i].key.as_str(), key) {
                return Some(&members[i].value);
            }
            i += 1;
        }
        None
    }
}

/// The view of an array is the sequence of its items' views.
pub proof fn lemma_array_view(items: Vec<Json>)
    ensures
        Json::Array(items)@ == JsonValue::Array(item_values(items@)),
{
    assert(Json::Array(items)@->Array_0 =~= item_values(items@));
}

/// The view of an object is the sequence of its members' keys and views.
pub proof fn lemma_object_view(members: Vec<Member>)
    ensures
        Json::Object(members)@ == JsonValue::Object(member_values(members@)),
{
    let a = Json::Object(members)@->Object_0;
    let b = member_values(members@);
    assert(b.len() == members@.len());
    assert(a.len() == b.len());
    assert forall|i: int| 0 <= i < a.len() implies a[i] == b[i] by {
        assert(a[i] == members@[i]@);
    }
    assert(a =~= b);
}

/// A member whose key occurs at no earlier position is the one that
/// [`member_of`] finds.
pub proof fn lemma_member_at(members: Seq<(Seq<char>, JsonValue)>, i: int, key: Seq<char>)
    requires
        0 <= i < members.len(),
        members[i].0 == key,
        forall|k: int| 0 <= k < i ==> (#[trigger] members[k]).0 != key,
    ensures
        member_of(members, key) == Some(members[i].1),
    decreases i,
{
    if i > 0 {
        let rest = members.drop_first();
        assert(members[0].0 != key);
        assert forall|k: int| 0 <= k < i - 1 implies (#[trigger] rest[k]).0 != key by {
            assert(rest[k] == members[k + 1]);
        }
        lemma_member_at(rest, i - 1, key);
    }
}

} // verus!
