//! JSON documents as plain data. Reading a document and escaping a string are
//! left to `serde_json`; walking a document is done here.

use crate::views::views;
use vstd::prelude::*;

verus! {

/// A decoded JSON document.
#[derive(Debug, PartialEq, Eq)]
pub enum Json {
    Null,
    Bool(bool),
    /// A number, kept as its decimal text.
    Number(String),
    Text(String),
    Array(Vec<Json>),
    /// The members of an object.
    Object(Vec<Member>),
}

/// One member of a JSON object.
#[derive(Debug, PartialEq, Eq)]
pub struct Member {
    pub name: String,
    pub value: Json,
}

/// The mathematical value of a [`Json`] document.
pub enum JsonValue {
    Null,
    Bool(bool),
    Number(Seq<char>),
    Text(Seq<char>),
    Array(Seq<JsonValue>),
    Object(Seq<MemberValue>),
}

/// The mathematical value of a [`Member`].
pub struct MemberValue {
    pub name: Seq<char>,
    pub value: JsonValue,
}

impl View for Json {
    type V = JsonValue;

    open spec fn view(&self) -> JsonValue
        decreases self,
    {
        match self {
            Json::Null => JsonValue::Null,
            Json::Bool(b) => JsonValue::Bool(*b),
            Json::Number(n) => JsonValue::Number(n@),
            Json::Text(t) => JsonValue::Text(t@),
            Json::Array(items) => JsonValue::Array(
                Seq::new(
                    items@.len(),
                    |i: int|
                        if 0 <= i < items@.len() {
                            items@[i]@
                        } else {
                            JsonValue::Null
                        },
                ),
            ),
            Json::Object(members) => JsonValue::Object(
                Seq::new(
                    members@.len(),
                    |i: int|
                        if 0 <= i < members@.len() {
                            MemberValue { name: members@[i].name@, value: members@[i].value@ }
                        } else {
                            MemberValue { name: Seq::empty(), value: JsonValue::Null }
                        },
                ),
            ),
        }
    }
}

impl View for Member {
    type V = MemberValue;

    open spec fn view(&self) -> MemberValue {
        MemberValue { name: self.name@, value: self.value@ }
    }
}

/// The value of the first of `members` that is named `key`.
pub open spec fn lookup(members: Seq<MemberValue>, key: Seq<char>) -> Option<JsonValue>
    decreases members.len(),
{
    if members.len() == 0 {
        None
    } else if members[0].name == key {
        Some(members[0].value)
    } else {
        lookup(members.drop_first(), key)
    }
}

impl JsonValue {
    /// The member named `key`, where this is an object that has one.
    pub open spec fn member(self, key: Seq<char>) -> Option<JsonValue> {
        match self {
            JsonValue::Object(members) => lookup(members, key),
            _ => None,
        }
    }

    /// The characters, where this is a string.
    pub open spec fn text(self) -> Option<Seq<char>> {
        match self {
            JsonValue::Text(t) => Some(t),
            _ => None,
        }
    }

    /// The elements, where this is an array.
    pub open spec fn items(self) -> Option<Seq<JsonValue>> {
        match self {
            JsonValue::Array(items) => Some(items),
            _ => None,
        }
    }

    /// The text of the member named `key`, where there is one and it is a
    /// string.
    pub open spec fn text_member(self, key: Seq<char>) -> Option<Seq<char>> {
        match self.member(key) {
            Some(value) => value.text(),
            None => None,
        }
    }

    /// The elements of the member named `key`, where there is one and it is
    /// an array.
    pub open spec fn array_member(self, key: Seq<char>) -> Option<Seq<JsonValue>> {
        match self.member(key) {
            Some(value) => value.items(),
            None => None,
        }
    }
}

impl Json {
    /// The member named `key`, where this is an object that has one.
    pub fn member(&self, key: &str) -> (r: Option<&Json>)
        ensures
            match r {
                Some(found) => self@.member(key@) == Some(found@),
                None => self@.member(key@) is None,
            },
    {
        match self {
            Json::Object(members) => {
                let name = String::from_str(key);
                let ghost all = self@->Object_0;
                assert(all.subrange(0, all.len() as int) =~= all);
                let mut i: usize = 0;
                while i < members.len()
                    invariant
                        i <= members.len(),
                        name@ == key@,
                        self@ == JsonValue::Object(all),
                        all.len() == members@.len(),
                        forall|k: int| 0 <= k < members@.len() ==> all[k] == members@[k]@,
                        lookup(all, key@) == lookup(
                            all.subrange(i as int, all.len() as int),
                            key@,
                        ),
                    decreases members.len() - i,
                {
                    let ghost rest = all.subrange(i as int, all.len() as int);
                    assert(rest[0] == all[i as int]);
                    assert(rest.drop_first() =~= all.subrange(i + 1, all.len() as int));
                    if members[i].name == name {
                        return Some(&members[i].value);
                    }
                    i += 1;
                }
                None
            },
            _ => None,
        }
    }

    /// The characters, where this is a string.
    pub fn text(&self) -> (r: Option<&str>)
        ensures
            match r {
                Some(t) => self@.text() == Some(t@),
                None => self@.text() is None,
            },
    {
        match self {
            Json::Text(t) => Some(t.as_str()),
            _ => None,
        }
    }

    /// The elements, where this is an array.
    pub fn items(&self) -> (r: Option<&Vec<Json>>)
        ensures
            match r {
                Some(items) => self@.items() == Some(views(items@)),
                None => self@.items() is None,
            },
    {
        match self {
            Json::Array(items) => {
                assert(self@->Array_0 =~= views(items@));
                Some(items)
            },
            _ => None,
        }
    }

    /// The text of the member named `key`, where there is one and it is a
    /// string.
    pub fn text_member(&self, key: &str) -> (r: Option<&str>)
        ensures
            match r {
                Some(t) => self@.text_member(key@) == Some(t@),
                None => self@.text_member(key@) is None,
            },
    {
        match self.member(key) {
            Some(value) => value.text(),
            None => None,
        }
    }

    /// The elements of the member named `key`, where there is one and it is
    /// an array.
    pub fn array_member(&self, key: &str) -> (r: Option<&Vec<Json>>)
        ensures
            match r {
                Some(items) => self@.array_member(key@) == Some(views(items@)),
                None => self@.array_member(key@) is None,
            },
    {
        match self.member(key) {
            Some(value) => value.items(),
            None => None,
        }
    }
}

#[verifier::external_type_specification]
#[verifier::external_body]
pub struct ExValue(serde_json::Value);

/// What `serde_json` makes of a text: the document that the text denotes, or
/// the message of the error that it reports.
pub uninterp spec fn json_decoding(text: Seq<char>) -> Result<JsonValue, Seq<char>>;

/// The document that a `serde_json::Value` holds.
pub uninterp spec fn value_content(value: serde_json::Value) -> JsonValue;

/// What `serde_json` writes for a string: the string between double quotes,
/// with the escapes that JSON asks for.
pub uninterp spec fn json_quoted(text: Seq<char>) -> Seq<char>;

/// Calls `serde_json::from_str` for a `serde_json::Value`. The result is a
/// function of the text alone: the value that was read, or the text of the
/// error as its `Display` gives it.
#[verifier::external_body]
fn value_from_str(text: &str) -> (r: Result<serde_json::Value, String>)
    ensures
        match r {
            Ok(value) => json_decoding(text@) == Ok::<JsonValue, Seq<char>>(value_content(value)),
            Err(message) => json_decoding(text@) == Err::<JsonValue, Seq<char>>(message@),
        },
{
    match serde_json::from_str::<serde_json::Value>(text) {
        Ok(value) => Ok(value),
        Err(e) => Err(e.to_string()),
    }
}

/// Takes a `serde_json::Value` apart, variant by variant, into a [`Json`]
/// that holds the same document. A number is kept as the text that
/// `serde_json::Number` displays, the members of an object in the order in
/// which its map hands them out.
#[verifier::external_body]
fn json_of_value(value: serde_json::Value) -> (json: Json)
    ensures
        json@ == value_content(value),
{
    match value {
        serde_json::Value::Null => Json::Null,
        serde_json::Value::Bool(b) => Json::Bool(b),
        serde_json::Value::Number(n) => Json::Number(n.to_string()),
        serde_json::Value::String(s) => Json::Text(s),
        serde_json::Value::Array(items) => Json::Array(
            items.into_iter().map(json_of_value).collect(),
        ),
        serde_json::Value::Object(members) => Json::Object(
            members.into_iter().map(|(k, v)| Member { name: k, value: json_of_value(v) }).collect(),
        ),
    }
}

/// Calls `serde_json::to_string` on a string, which cannot fail: the writer
/// is a vector and a string serialises as itself.
#[verifier::external_body]
pub(crate) fn quote(text: &str) -> (r: String)
    ensures
        r@ == json_quoted(text@),
{
    serde_json::to_string(text).unwrap_or_default()
}

/// Reads `text` as one JSON document.
pub fn decode_json(text: &str) -> (r: Result<Json, String>)
    ensures
        match r {
            Ok(json) => json_decoding(text@) == Ok::<JsonValue, Seq<char>>(json@),
            Err(message) => json_decoding(text@) == Err::<JsonValue, Seq<char>>(message@),
        },
{
    match value_from_str(text) {
        Ok(value) => Ok(json_of_value(value)),
        Err(message) => Err(message),
    }
}

/// A type that is read from a JSON document of one fixed shape.
pub trait FromJson: View + Sized {
    /// The value that `value` decodes to, where it has the shape.
    spec fn decoded(value: JsonValue) -> Option<Self::V>;

    /// Reads one value from `value`, or gives `None` where `value` has not
    /// the shape.
    fn from_json(value: &Json) -> (r: Option<Self>)
        ensures
            match r {
                Some(read) => Self::decoded(value@) == Some(read@),
                None => Self::decoded(value@) is None,
            },
    ;
}

/// What each of `items` decodes to, where every one of them has the shape.
pub open spec fn all_decoded<T: FromJson>(items: Seq<JsonValue>) -> Option<Seq<T::V>> {
    if forall|i: int| 0 <= i < items.len() ==> (#[trigger] T::decoded(items[i])) is Some {
        Some(Seq::new(items.len(), |i: int| T::decoded(items[i])->Some_0))
    } else {
        None
    }
}

/// Reads every element of `items`, or gives `None` where one of them has not
/// the shape.
pub fn all_from_json<T: FromJson>(items: &Vec<Json>) -> (r: Option<Vec<T>>)
    ensures
        match r {
            Some(read) => all_decoded::<T>(views(items@)) == Some(views(read@)),
            None => all_decoded::<T>(views(items@)) is None,
        },
{
    let ghost values = views(items@);
    let mut read: Vec<T> = Vec::new();
    let mut i: usize = 0;
    while i < items.len()
        invariant
            i <= items.len(),
            read.len() == i,
            values == views(items@),
            forall|k: int| 0 <= k < i ==> T::decoded(#[trigger] values[k]) == Some(read@[k]@),
        decreases items.len() - i,
    {
        match T::from_json(&items[i]) {
            Some(one) => {
                read.push(one);
            },
            None => {
                assert(T::decoded(values[i as int]) is None);
                return None;
            },
        }
        i += 1;
    }
    assert(all_decoded::<T>(values)->Some_0 =~= views(read@));
    Some(read)
}

/// What the member named `key` decodes to, where `value` has one and it has
/// the shape.
pub open spec fn decoded_member<T: FromJson>(value: JsonValue, key: Seq<char>) -> Option<T::V> {
    match value.member(key) {
        Some(inner) => T::decoded(inner),
        None => None,
    }
}

/// What the elements of the member named `key` decode to, where `value` has
/// one, it is an array and every element has the shape.
pub open spec fn decoded_array_member<T: FromJson>(value: JsonValue, key: Seq<char>) -> Option<
    Seq<T::V>,
> {
    match value.array_member(key) {
        Some(items) => all_decoded::<T>(items),
        None => None,
    }
}

/// Reads the member named `key`.
pub fn member_from_json<T: FromJson>(value: &Json, key: &str) -> (r: Option<T>)
    ensures
        match r {
            Some(read) => decoded_member::<T>(value@, key@) == Some(read@),
            None => decoded_member::<T>(value@, key@) is None,
        },
{
    match value.member(key) {
        Some(inner) => T::from_json(inner),
        None => None,
    }
}

/// Reads every element of the array that is the member named `key`.
pub fn array_member_from_json<T: FromJson>(value: &Json, key: &str) -> (r: Option<Vec<T>>)
    ensures
        match r {
            Some(read) => decoded_array_member::<T>(value@, key@) == Some(views(read@)),
            None => decoded_array_member::<T>(value@, key@) is None,
        },
{
    match value.array_member(key) {
        Some(items) => all_from_json::<T>(items),
        None => None,
    }
}

} // verus!
