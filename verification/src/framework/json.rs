//! JSON values as plain data, read and written by `serde_json`.

use vstd::prelude::*;

verus! {

/// `serde_json::Error`, which says why a text could not be read or a value
/// not be written. The library hands it on and looks at nothing in it.
#[verifier::external_type_specification]
#[verifier::external_body]
pub struct ExJsonError(::serde_json::Error);

/// `serde_json::Value`, the form in which `serde_json` reads and writes a
/// JSON value. It only passes between `serde_json` and the conversions below.
#[verifier::external_type_specification]
#[verifier::external_body]
pub struct ExOutsideValue(::serde_json::Value);

/// `serde_json::Number`, the number of a `serde_json::Value`.
#[verifier::external_type_specification]
#[verifier::external_body]
pub struct ExOutsideNumber(::serde_json::Number);

/// Why a text could not be read as JSON or a value not be written as JSON.
#[derive(Debug)]
pub enum JsonError {
    /// The text is not one JSON value.
    Syntax(::serde_json::Error),
    /// The value holds a number whose text is no JSON number.
    Number(::serde_json::Error),
}

/// A JSON number. Fractions and exponents are kept as the text of the number.
#[derive(Debug, PartialEq, Eq)]
pub enum JsonNumber {
    /// A whole number that is not negative.
    PosInt(u64),
    /// A whole number below zero.
    NegInt(i64),
    /// Any other number, as JSON writes it.
    Float(String),
}

/// A JSON value. An object keeps its members in a list; of two members with
/// one name the first is the one that is found.
#[derive(Debug, PartialEq, Eq)]
pub enum Json {
    Null,
    Bool(bool),
    Number(JsonNumber),
    String(String),
    Array(Vec<Json>),
    Object(Vec<(String, Json)>),
}

/// The mathematical value of a [`Json`].
pub enum JsonValue {
    Null,
    Bool(bool),
    Int(int),
    Float(Seq<char>),
    String(Seq<char>),
    Array(Seq<JsonValue>),
    Object(Seq<(Seq<char>, JsonValue)>),
}

impl View for JsonNumber {
    type V = JsonValue;

    open spec fn view(&self) -> JsonValue {
        match self {
            JsonNumber::PosInt(n) => JsonValue::Int(*n as int),
            JsonNumber::NegInt(n) => JsonValue::Int(*n as int),
            JsonNumber::Float(text) => JsonValue::Float(text@),
        }
    }
}

/// The value that a [`Json`] stands for.
pub open spec fn json_value(json: Json) -> JsonValue
    decreases json,
{
    match json {
        Json::Null => JsonValue::Null,
        Json::Bool(b) => JsonValue::Bool(b),
        Json::Number(number) => number@,
        Json::String(text) => JsonValue::String(text@),
        Json::Array(items) => JsonValue::Array(
            Seq::new(
                items@.len(),
                |i: int|
                    if 0 <= i < items@.len() {
                        json_value(items@[i])
                    } else {
                        JsonValue::Null
                    },
            ),
        ),
        Json::Object(members) => JsonValue::Object(
            Seq::new(
                members@.len(),
                |i: int|
                    if 0 <= i < members@.len() {
                        (members@[i].0@, json_value(members@[i].1))
                    } else {
                        (Seq::empty(), JsonValue::Null)
                    },
            ),
        ),
    }
}

impl View for Json {
    type V = JsonValue;

    open spec fn view(&self) -> JsonValue {
        json_value(*self)
    }
}

/// The value that `serde_json::from_str` reads from `text`, or `None` where
/// `text` is not one JSON value.
pub uninterp spec fn parsed_json(text: Seq<char>) -> Option<JsonValue>;

/// The text that `serde_json::to_string` writes for `json`, or `None` where
/// `json` holds a number that `serde_json` does not take.
pub uninterp spec fn json_text(json: JsonValue) -> Option<Seq<char>>;

/// Tells the three kinds of `serde_json::Number` apart with `as_u64` and
/// `as_i64`; a number that is neither is kept as `to_string` prints it.
#[verifier::external_body]
fn number_from_outside(number: &::serde_json::Number) -> JsonNumber {
    if let Some(n) = number.as_u64() {
        JsonNumber::PosInt(n)
    } else if let Some(n) = number.as_i64() {
        JsonNumber::NegInt(n)
    } else {
        JsonNumber::Float(number.to_string())
    }
}

/// Moves a `serde_json::Value` into a [`Json`], variant by variant; the
/// members of an object come in the order in which its map hands them out.
#[verifier::external_body]
fn json_from_outside(value: ::serde_json::Value) -> Json {
    match value {
        ::serde_json::Value::Null => Json::Null,
        ::serde_json::Value::Bool(b) => Json::Bool(b),
        ::serde_json::Value::Number(n) => Json::Number(number_from_outside(&n)),
        ::serde_json::Value::String(s) => Json::String(s),
        ::serde_json::Value::Array(a) => Json::Array(a.into_iter().map(json_from_outside).collect()),
        ::serde_json::Value::Object(o) => Json::Object(
            o.into_iter().map(|(k, v)| (k, json_from_outside(v))).collect(),
        ),
    }
}

/// Calls `serde_json::from_str` for a `serde_json::Value`. The contract only
/// gives the outcome its name, `parsed_json`.
#[verifier::external_body]
pub(crate) fn read_text(text: &str) -> (outcome: Result<Json, ::serde_json::Error>)
    ensures
        outcome is Ok <==> parsed_json(text@) is Some,
        outcome matches Ok(json) ==> parsed_json(text@) == Some(json@),
{
    ::serde_json::from_str::<::serde_json::Value>(text).map(json_from_outside)
}

/// Makes a `serde_json::Number` of a [`JsonNumber`]; the text of a `Float` is
/// read by `serde_json::from_str`, which may reject it.
#[verifier::external_body]
fn number_to_outside(number: &JsonNumber) -> Result<::serde_json::Number, ::serde_json::Error> {
    match number {
        JsonNumber::PosInt(n) => Ok(::serde_json::Number::from(*n)),
        JsonNumber::NegInt(n) => Ok(::serde_json::Number::from(*n)),
        JsonNumber::Float(text) => ::serde_json::from_str::<::serde_json::Number>(text),
    }
}

/// Copies a [`Json`] into a `serde_json::Value`, variant by variant.
#[verifier::external_body]
fn json_to_outside(json: &Json) -> Result<::serde_json::Value, ::serde_json::Error> {
    Ok(match json {
        Json::Null => ::serde_json::Value::Null,
        Json::Bool(b) => ::serde_json::Value::Bool(*b),
        Json::Number(n) => ::serde_json::Value::Number(number_to_outside(n)?),
        Json::String(s) => ::serde_json::Value::String(s.clone()),
        Json::Array(a) => ::serde_json::Value::Array(
            a.iter().map(json_to_outside).collect::<Result<_, _>>()?,
        ),
        Json::Object(o) => ::serde_json::Value::Object(
            o.iter().map(|(k, v)| Ok((k.clone(), json_to_outside(v)?))).collect::<Result<_, ::serde_json::Error>>()?,
        ),
    })
}

/// Calls `serde_json::to_string` on the `serde_json::Value` made of `json`.
/// The contract only gives the outcome its name, `json_text`.
#[verifier::external_body]
pub(crate) fn write_text(json: &Json) -> (outcome: Result<String, ::serde_json::Error>)
    ensures
        outcome is Ok <==> json_text(json@) is Some,
        outcome matches Ok(text) ==> json_text(json@) == Some(text@),
{
    ::serde_json::to_string(&json_to_outside(json)?)
}

/// The value of the first member called `name`.
pub open spec fn member(members: Seq<(Seq<char>, JsonValue)>, name: Seq<char>) -> Option<JsonValue>
    decreases members.len(),
{
    if members.len() == 0 {
        None
    } else if members[0].0 == name {
        Some(members[0].1)
    } else {
        member(members.drop_first(), name)
    }
}

impl JsonValue {
    /// The value of the member called `name`, where this is an object that has one.
    pub open spec fn get(self, name: Seq<char>) -> Option<JsonValue> {
        match self {
            JsonValue::Object(members) => member(members, name),
            _ => None,
        }
    }
}

/// The view of an array holds the views of its items, in their order.
pub proof fn lemma_array_view(items: Vec<Json>)
    ensures
        Json::Array(items)@ matches JsonValue::Array(values) && values.len() == items.len()
            && forall|i: int| 0 <= i < items.len() ==> values[i] == #[trigger] items@[i]@,
{
}

/// The view of an object holds the names and the views of its members, in their order.
pub proof fn lemma_object_view(members: Vec<(String, Json)>)
    ensures
        Json::Object(members)@ matches JsonValue::Object(pairs) && pairs.len() == members.len()
            && forall|i: int|
            0 <= i < members.len() ==> pairs[i] == (
                (#[trigger] members@[i]).0@,
                members@[i].1@,
            ),
{
}

impl Clone for JsonNumber {
    fn clone(&self) -> (copy: JsonNumber)
        ensures
            copy@ == self@,
    {
        match self {
            JsonNumber::PosInt(n) => JsonNumber::PosInt(*n),
            JsonNumber::NegInt(n) => JsonNumber::NegInt(*n),
            JsonNumber::Float(text) => JsonNumber::Float(text.clone()),
        }
    }
}

impl Clone for Json {
    fn clone(&self) -> (copy: Json)
        ensures
            copy@ == self@,
        decreases self,
    {
        match self {
            Json::Null => Json::Null,
            Json::Bool(b) => Json::Bool(*b),
            Json::Number(number) => Json::Number(number.clone()),
            Json::String(text) => Json::String(text.clone()),
            Json::Array(items) => {
                let mut copies: Vec<Json> = Vec::new();
                let mut i: usize = 0;
                while i < items.len()
                    invariant
                        i <= items.len(),
                        *self == Json::Array(*items),
                        copies.len() == i,
                        forall|k: int| 0 <= k < i ==> copies@[k]@ == items@[k]@,
                    decreases items.len() - i,
                {
                    proof {
                        assert(decreases_to!(*self => self->Array_0));
                    }
                    let copy = items[i].clone();
                    copies.push(copy);
                    i += 1;
                }
                let copy = Json::Array(copies);
                assert(copy@ == self@) by {
                    lemma_array_view(copies);
                    lemma_array_view(*items);
                    assert(copy@->Array_0 =~= self@->Array_0);
                }
                copy
            },
            Json::Object(members) => {
                let mut copies: Vec<(String, Json)> = Vec::new();
                let mut i: usize = 0;
                while i < members.len()
                    invariant
                        i <= members.len(),
                        *self == Json::Object(*members),
                        copies.len() == i,
                        forall|k: int|
                            0 <= k < i ==> copies@[k].0@ == members@[k].0@ && copies@[k].1@
                                == members@[k].1@,
                    decreases members.len() - i,
                {
                    proof {
                        assert(decreases_to!(*self => self->Object_0));
                    }
                    let name = members[i].0.clone();
                    let value = members[i].1.clone();
                    copies.push((name, value));
                    i += 1;
                }
                let copy = Json::Object(copies);
                assert(copy@ == self@) by {
                    lemma_object_view(copies);
                    lemma_object_view(*members);
                    assert(copy@->Object_0 =~= self@->Object_0);
                }
                copy
            },
        }
    }
}

impl Json {
    /// Reads one JSON value from `text`.
    pub fn parse(text: &str) -> (outcome: Result<Json, JsonError>)
        ensures
            outcome is Ok <==> parsed_json(text@) is Some,
            outcome matches Ok(json) ==> parsed_json(text@) == Some(json@),
            outcome matches Err(error) ==> error is Syntax,
    {
        match read_text(text) {
            Ok(json) => Ok(json),
            Err(error) => Err(JsonError::Syntax(error)),
        }
    }

    /// Writes this value as JSON text.
    pub fn to_text(&self) -> (outcome: Result<String, JsonError>)
        ensures
            outcome is Ok <==> json_text(self@) is Some,
            outcome matches Ok(text) ==> json_text(self@) == Some(text@),
            outcome matches Err(error) ==> error is Number,
    {
        match write_text(self) {
            Ok(text) => Ok(text),
            Err(error) => Err(JsonError::Number(error)),
        }
    }

    /// Looks up the member called `name` of an object.
    pub fn get(&self, name: &str) -> (found: Option<&Json>)
        ensures
            found is Some <==> self@.get(name@) is Some,
            found matches Some(value) ==> self@.get(name@) == Some(value@),
    {
        match self {
            Json::Object(members) => {
                let wanted = String::from_str(name);
                let mut i: usize = 0;
                proof {
                    lemma_object_view(*members);
                    assert(self@->Object_0.skip(0) =~= self@->Object_0);
                }
                while i < members.len()
                    invariant
                        i <= members.len(),
                        wanted@ == name@,
                        self@ matches JsonValue::Object(all) && all.len() == members.len(),
                        *self == Json::Object(*members),
                        member(self@->Object_0, name@) == member(
                            self@->Object_0.skip(i as int),
                            name@,
                        ),
                    decreases members.len() - i,
                {
                    let ghost rest = self@->Object_0.skip(i as int);
                    proof {
                        lemma_object_view(*members);
                    }
                    assert(rest[0] == self@->Object_0[i as int]);
                    assert(rest.drop_first() =~= self@->Object_0.skip(i + 1));
                    if members[i].0 == wanted {
                        return Some(&members[i].1);
                    }
                    i += 1;
                }
                None
            },
            _ => None,
        }
    }
}

} // verus!
