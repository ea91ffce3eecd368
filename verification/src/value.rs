//! JSON values.

use vstd::prelude::*;

verus! {

/// A JSON number: an integer that fits `u64` or `i64`, or a finite
/// floating-point number given by its IEEE 754 bits.
#[derive(Clone, Copy, Debug, PartialEq, Eq, Structural)]
pub enum Number {
    /// An integer from zero up.
    PosInt(u64),
    /// An integer below zero.
    NegInt(i64),
    /// The bits of a single-precision number.
    Single(u32),
    /// The bits of a double-precision number.
    Double(u64),
}

/// A JSON value. An object is the list of its entries, in the order in which
/// they were written; no key is written twice.
#[derive(Debug)]
pub enum Value {
    Null,
    Bool(bool),
    Number(Number),
    String(String),
    Array(Vec<Value>),
    Object(Vec<(String, Value)>),
}

/// What a JSON value is, mathematically.
#[verifier::ext_equal]
pub enum Json {
    Null,
    Bool(bool),
    Number(Number),
    String(Seq<char>),
    Array(Seq<Json>),
    Object(Seq<(Seq<char>, Json)>),
}

impl Value {
    /// The mathematical value.
    pub open spec fn json(self) -> Json
        decreases self,
    {
        match self {
            Value::Null => Json::Null,
            Value::Bool(b) => Json::Bool(b),
            Value::Number(n) => Json::Number(n),
            Value::String(s) => Json::String(s@),
            Value::Array(values) => Json::Array(
                Seq::new(
                    values@.len(),
                    |i: int|
                        if 0 <= i < values@.len() {
                            values@[i].json()
                        } else {
                            Json::Null
                        },
                ),
            ),
            Value::Object(entries) => Json::Object(
                Seq::new(
                    entries@.len(),
                    |i: int|
                        if 0 <= i < entries@.len() {
                            (entries@[i].0@, entries@[i].1.json())
                        } else {
                            (Seq::<char>::empty(), Json::Null)
                        },
                ),
            ),
        }
    }
}

impl View for Value {
    type V = Json;

    open spec fn view(&self) -> Json {
        self.json()
    }
}

/// The values of a sequence, taken by their views.
pub open spec fn jsons(values: Seq<Value>) -> Seq<Json> {
    Seq::new(values.len(), |i: int| values[i]@)
}

/// An array is the array of its elements' values.
pub proof fn array_json(values: Vec<Value>)
    ensures
        Value::Array(values)@ == Json::Array(jsons(values@)),
{
    let elements = Value::Array(values)@->Array_0;
    assert(elements =~= jsons(values@));
}

/// An object is the list of its entries' keys and values.
pub proof fn object_json(entries: Vec<(String, Value)>)
    ensures
        Value::Object(entries)@ == Json::Object(
            Seq::new(entries@.len(), |i: int| (entries@[i].0@, entries@[i].1@)),
        ),
{
    let pairs = Value::Object(entries)@->Object_0;
    assert(pairs =~= Seq::new(entries@.len(), |i: int| (entries@[i].0@, entries@[i].1@)));
}

impl Value {
    /// A copy of the value.
    pub fn copy(&self) -> (copy: Value)
        ensures
            copy@ == self@,
        decreases self,
    {
        match self {
            Value::Null => Value::Null,
            Value::Bool(b) => Value::Bool(*b),
            Value::Number(n) => Value::Number(*n),
            Value::String(s) => Value::String(s.clone()),
            Value::Array(values) => {
                let mut copies: Vec<Value> = Vec::new();
                let mut i: usize = 0;
                while i < values.len()
                    invariant
                        i <= values@.len(),
                        *self == Value::Array(*values),
                        copies@.len() == i,
                        forall|j: int| 0 <= j < i ==> (#[trigger] copies@[j])@ == values@[j]@,
                    decreases values@.len() - i,
                {
                    assert(decreases_to!(*values => values@[i as int]));
                    assert(decreases_to!(*self => self->Array_0));
                    copies.push(values[i].copy());
                    i = i + 1;
                }
                proof {
                    array_json(*values);
                    array_json(copies);
                    assert(jsons(copies@) =~= jsons(values@));
                }
                Value::Array(copies)
            },
            Value::Object(entries) => {
                let mut copies: Vec<(String, Value)> = Vec::new();
                let mut i: usize = 0;
                while i < entries.len()
                    invariant
                        i <= entries@.len(),
                        *self == Value::Object(*entries),
                        copies@.len() == i,
                        forall|j: int|
                            0 <= j < i ==> (#[trigger] copies@[j]).0@ == entries@[j].0@
                                && copies@[j].1@ == entries@[j].1@,
                    decreases entries@.len() - i,
                {
                    assert(decreases_to!(*entries => entries@[i as int]));
                    assert(decreases_to!(*self => self->Object_0));
                    copies.push((entries[i].0.clone(), entries[i].1.copy()));
                    i = i + 1;
                }
                proof {
                    object_json(*entries);
                    object_json(copies);
                    assert(Value::Object(copies)@->Object_0 =~= self@->Object_0);
                }
                Value::Object(copies)
            },
        }
    }
}

impl Clone for Value {
    fn clone(&self) -> (copy: Self)
        ensures
            copy@ == self@,
    {
        self.copy()
    }
}

/// An entry of an object.
pub fn entry(key: &str, value: Value) -> (pair: (String, Value))
    ensures
        pair.0@ == key@,
        pair.1 == value,
{
    (key.to_owned(), value)
}

/// A JSON string.
pub fn text_value(text: &str) -> (value: Value)
    ensures
        value@ == Json::String(text@),
{
    Value::String(text.to_owned())
}

/// A JSON number from an unsigned integer.
pub fn unsigned_value(n: u64) -> (value: Value)
    ensures
        value@ == Json::Number(Number::PosInt(n)),
{
    Value::Number(Number::PosInt(n))
}

/// The JSON number of a signed integer: `PosInt` from zero up, `NegInt` below.
pub open spec fn signed_number(n: int) -> Number {
    if n >= 0 {
        Number::PosInt(n as u64)
    } else {
        Number::NegInt(n as i64)
    }
}

/// A JSON number from a signed integer.
pub fn signed_value(n: i64) -> (value: Value)
    ensures
        value@ == Json::Number(signed_number(n as int)),
{
    if n >= 0 {
        Value::Number(Number::PosInt(n as u64))
    } else {
        Value::Number(Number::NegInt(n))
    }
}

/// The JSON number of an integer, where it fits `u64` or `i64`.
pub open spec fn integer_number(n: int) -> Option<Number> {
    if i64::MIN <= n <= u64::MAX {
        Some(signed_number(n))
    } else {
        None
    }
}

/// `serde_json::Number::from_i128`, without the feature `arbitrary_precision`: a
/// number exactly where the integer fits `u64` or `i64`, and then that integer.
#[verifier::external_body]
pub(crate) fn number_from_i128(n: i128) -> (number: Option<Number>)
    ensures
        number == integer_number(n as int),
{
    let number = serde_json::Number::from_i128(n)?;
    match number.as_u64() {
        Some(unsigned) => Some(Number::PosInt(unsigned)),
        None => number.as_i64().map(Number::NegInt),
    }
}

/// The entry of an object with that key, if it has one.
pub open spec fn field(object: Json, key: Seq<char>) -> Option<Json> {
    match object {
        Json::Object(entries) => if exists|i: int|
            0 <= i < entries.len() && (#[trigger] entries[i]).0 == key {
            let i = choose|i: int|
                {
                    &&& 0 <= i < entries.len()
                    &&& (#[trigger] entries[i]).0 == key
                };
            Some(entries[i].1)
        } else {
            None
        },
        _ => None,
    }
}

/// A key that is written once finds its value.
pub proof fn field_is(object: Json, i: int)
    requires
        object is Object,
        0 <= i < object->Object_0.len(),
        forall|j: int|
            0 <= j < object->Object_0.len() && j != i ==> (#[trigger] object->Object_0[j]).0
                != object->Object_0[i].0,
    ensures
        field(object, object->Object_0[i].0) == Some(object->Object_0[i].1),
{
    let entries = object->Object_0;
    let key = entries[i].0;
    assert(entries[i].0 == key);
    let k = choose|k: int|
        {
            &&& 0 <= k < entries.len()
            &&& (#[trigger] entries[k]).0 == key
        };
    assert(k == i);
}

/// The integer that a JSON number is, if it is one.
pub open spec fn number_value(number: Number) -> Option<int> {
    match number {
        Number::PosInt(n) => Some(n as int),
        Number::NegInt(n) => Some(n as int),
        _ => None,
    }
}

} // verus!
