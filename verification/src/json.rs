//! JSON values, and reading them from text.

use crate::error::{Key, Kind, LoadError, Part};
use crate::error::{missing, mistyped};
use crate::scalar::Real;
use vstd::prelude::*;

verus! {

/// `serde_json::Value`, of which nothing is known here but what
/// `value_model` names.
#[verifier::external_type_specification]
#[verifier::external_body]
pub struct ExValue(serde_json::Value);

/// `serde_json::Error`, of which nothing is known here.
#[verifier::external_type_specification]
#[verifier::external_body]
pub struct ExError(serde_json::Error);

/// A JSON number, as the two readings that are taken of it.
#[derive(Clone, Copy, Debug, PartialEq, Eq)]
pub struct Number {
    /// The number as an unsigned integer, where it was written as one that
    /// fits 64 bits.
    pub unsigned: Option<u64>,
    /// The number as a real.
    pub scalar: Option<Real>,
}

/// A JSON value. The entries of an object are in a list, and the entry of a
/// key is the first one that has it.
#[derive(Debug, PartialEq, Eq)]
pub enum Json {
    Null,
    Bool(bool),
    Number(Number),
    Text(String),
    Array(Vec<Json>),
    Object(Vec<(String, Json)>),
}

/// The value that `serde_json::from_str` reads from a text, if it reads one.
pub uninterp spec fn parsed_text(text: Seq<char>) -> Option<serde_json::Value>;

/// What a `serde_json::Value` holds.
pub uninterp spec fn value_model(value: serde_json::Value) -> Json;

/// `serde_json::from_str`, at the type `serde_json::Value`. It returns a
/// value for the texts that it can read, which `parsed_text` names, and an
/// error for every other text.
#[verifier::external_body]
fn parse_value(text: &str) -> (r: Result<serde_json::Value, serde_json::Error>)
    ensures
        r is Ok <==> parsed_text(text@) is Some,
        r is Ok ==> parsed_text(text@) == Some(r->Ok_0),
{
    serde_json::from_str::<serde_json::Value>(text)
}

/// Tells the variants of a `serde_json::Value` apart and moves what each
/// holds into a `Json`: of a number what `Number::as_u64` and
/// `Number::as_f64` return, the latter by `to_bits`; of an array its items in
/// their order; of an object its entries in the order in which
/// `Map::iter` goes through them.
#[verifier::external_body]
fn model_of(value: &serde_json::Value) -> (r: Json)
    ensures
        r == value_model(*value),
{
    match value {
        serde_json::Value::Null => Json::Null,
        serde_json::Value::Bool(b) => Json::Bool(*b),
        serde_json::Value::Number(n) => Json::Number(
            Number { unsigned: n.as_u64(), scalar: n.as_f64().map(|x| Real { bits: x.to_bits() }) },
        ),
        serde_json::Value::String(s) => Json::Text(s.clone()),
        serde_json::Value::Array(a) => Json::Array(a.iter().map(model_of).collect()),
        serde_json::Value::Object(m) => Json::Object(
            m.iter().map(|(k, v)| (k.clone(), model_of(v))).collect(),
        ),
    }
}

/// The JSON value that a text stands for, if it stands for one.
pub open spec fn document(text: Seq<char>) -> Option<Json> {
    match parsed_text(text) {
        Some(value) => Some(value_model(value)),
        None => None,
    }
}

/// Reads a JSON value from a text.
pub fn parse(text: &str) -> (r: Result<Json, LoadError>)
    ensures
        match document(text@) {
            Some(json) => r == Ok::<Json, LoadError>(json),
            None => r == Err::<Json, LoadError>(LoadError::Syntax),
        },
{
    match parse_value(text) {
        Ok(value) => Ok(model_of(&value)),
        Err(_) => Err(LoadError::Syntax),
    }
}

/// Whether two texts are the same.
pub fn same_text(a: &str, b: &str) -> (r: bool)
    ensures
        r == (a@ == b@),
{
    let left = a.to_owned();
    let right = b.to_owned();
    left == right
}

impl Json {
    /// The place in a list of entries of the first one with the given key;
    /// the length of the list where none has it.
    pub open spec fn position(entries: Seq<(String, Json)>, key: Seq<char>) -> int
        decreases entries.len(),
    {
        if entries.len() == 0 {
            0
        } else if entries[0].0@ == key {
            0
        } else {
            1 + Self::position(entries.skip(1), key)
        }
    }

    /// The value under a key of an object. Nothing but an object has one.
    pub open spec fn field(self, key: Seq<char>) -> Option<Json> {
        match self {
            Json::Object(entries) => {
                let at = Self::position(entries@, key);
                if 0 <= at < entries@.len() {
                    Some(entries@[at].1)
                } else {
                    None
                }
            },
            _ => None,
        }
    }

    /// The unsigned integer that a value is.
    pub open spec fn unsigned(self) -> Option<u64> {
        match self {
            Json::Number(n) => n.unsigned,
            _ => None,
        }
    }

    /// The real number that a value is.
    pub open spec fn number(self) -> Option<Real> {
        match self {
            Json::Number(n) => n.scalar,
            _ => None,
        }
    }

    /// The text that a value is.
    pub open spec fn text(self) -> Option<Seq<char>> {
        match self {
            Json::Text(s) => Some(s@),
            _ => None,
        }
    }

    /// The items of the array that a value is.
    pub open spec fn items(self) -> Option<Seq<Json>> {
        match self {
            Json::Array(items) => Some(items@),
            _ => None,
        }
    }

    /// Where no entry before `upto` has the key, the first entry with the key
    /// is at `upto` or later.
    pub proof fn lemma_position(entries: Seq<(String, Json)>, key: Seq<char>, upto: int)
        requires
            0 <= upto <= entries.len(),
            forall|j: int| 0 <= j < upto ==> (#[trigger] entries[j]).0@ != key,
        ensures
            upto <= Self::position(entries, key) <= entries.len(),
            upto < entries.len() && entries[upto].0@ == key ==> Self::position(entries, key)
                == upto,
        decreases upto,
    {
        if upto == 0 {
            Self::lemma_position_bound(entries, key);
        } else {
            let rest = entries.skip(1);
            assert forall|j: int| 0 <= j < upto - 1 implies (#[trigger] rest[j]).0@ != key by {
                assert(rest[j] == entries[j + 1]);
            }
            Self::lemma_position(rest, key, upto - 1);
            assert(entries[0].0@ != key);
            if upto < entries.len() {
                assert(rest[upto - 1] == entries[upto]);
            }
        }
    }

    /// The place of the first entry with a key lies within the list or at its
    /// end.
    pub proof fn lemma_position_bound(entries: Seq<(String, Json)>, key: Seq<char>)
        ensures
            0 <= Self::position(entries, key) <= entries.len(),
        decreases entries.len(),
    {
        if entries.len() != 0 && entries[0].0@ != key {
            Self::lemma_position_bound(entries.skip(1), key);
        }
    }

    /// The value under a key of an object.
    pub fn find(&self, key: &str) -> (r: Option<&Json>)
        ensures
            match r {
                Some(value) => self.field(key@) == Some(*value),
                None => self.field(key@) is None,
            },
    {
        match self {
            Json::Object(entries) => {
                let wanted = key.to_owned();
                let mut i: usize = 0;
                while i < entries.len()
                    invariant
                        self is Object,
                        self->Object_0 == *entries,
                        i <= entries.len(),
                        wanted@ == key@,
                        forall|j: int| 0 <= j < i ==> (#[trigger] entries@[j]).0@ != key@,
                    decreases entries.len() - i,
                {
                    if entries[i].0 == wanted {
                        proof {
                            Self::lemma_position(entries@, key@, i as int);
                        }
                        return Some(&entries[i].1);
                    }
                    i += 1;
                }
                proof {
                    Self::lemma_position(entries@, key@, i as int);
                }
                None
            },
            _ => None,
        }
    }

    /// The unsigned integer that the value is.
    pub fn as_u64(&self) -> (r: Option<u64>)
        ensures
            r == self.unsigned(),
    {
        match self {
            Json::Number(n) => n.unsigned,
            _ => None,
        }
    }

    /// The real number that the value is.
    pub fn as_real(&self) -> (r: Option<Real>)
        ensures
            r == self.number(),
    {
        match self {
            Json::Number(n) => n.scalar,
            _ => None,
        }
    }

    /// The text that the value is.
    pub fn as_string(&self) -> (r: Option<&str>)
        ensures
            match r {
                Some(s) => self.text() == Some(s@),
                None => self.text() is None,
            },
    {
        match self {
            Json::Text(s) => Some(s.as_str()),
            _ => None,
        }
    }

    /// The items of the array that the value is.
    pub fn as_array(&self) -> (r: Option<&Vec<Json>>)
        ensures
            match r {
                Some(items) => self.items() == Some(items@),
                None => self.items() is None,
            },
    {
        match self {
            Json::Array(items) => Some(items),
            _ => None,
        }
    }

    /// Whether the value is a number.
    pub fn is_number(&self) -> (r: bool)
        ensures
            r == (self is Number),
    {
        match self {
            Json::Number(_) => true,
            _ => false,
        }
    }

    /// Whether the value is an array.
    pub fn is_array(&self) -> (r: bool)
        ensures
            r == (self is Array),
    {
        match self {
            Json::Array(_) => true,
            _ => false,
        }
    }

    /// Whether the value is an object.
    pub fn is_object(&self) -> (r: bool)
        ensures
            r == (self is Object),
    {
        match self {
            Json::Object(_) => true,
            _ => false,
        }
    }
}

/// The value under a key that a part of the document must have.
pub open spec fn required(elem: Json, part: Part, key: Key) -> Result<Json, LoadError> {
    match elem.field(key.text()) {
        Some(value) => Ok(value),
        None => Err(missing(part, key)),
    }
}

/// The unsigned integer under a key that a part of the document must have.
pub open spec fn required_unsigned(elem: Json, part: Part, key: Key) -> Result<u64, LoadError> {
    match elem.field(key.text()) {
        Some(value) => match value.unsigned() {
            Some(n) => Ok(n),
            None => Err(mistyped(part, key)),
        },
        None => Err(missing(part, key)),
    }
}

/// The real number under a key that a part of the document must have.
pub open spec fn required_real(elem: Json, part: Part, key: Key) -> Result<Real, LoadError> {
    match elem.field(key.text()) {
        Some(value) => match value.number() {
            Some(x) => Ok(x),
            None => Err(mistyped(part, key)),
        },
        None => Err(missing(part, key)),
    }
}

/// The text under a key that a part of the document must have.
pub open spec fn required_text(elem: Json, part: Part, key: Key) -> Result<Seq<char>, LoadError> {
    match elem.field(key.text()) {
        Some(value) => match value.text() {
            Some(s) => Ok(s),
            None => Err(mistyped(part, key)),
        },
        None => Err(missing(part, key)),
    }
}

/// Reads the value under a key that a part of the document must have.
pub fn require<'a>(elem: &'a Json, part: Part, key: Key) -> (r: Result<&'a Json, LoadError>)
    ensures
        match r {
            Ok(value) => required(*elem, part, key) == Ok::<Json, LoadError>(*value),
            Err(e) => required(*elem, part, key) == Err::<Json, LoadError>(e),
        },
{
    match elem.find(key.name()) {
        Some(value) => Ok(value),
        None => Err(LoadError::at(part, key, Kind::Missing)),
    }
}

/// Reads the unsigned integer under a key that a part of the document must
/// have.
pub fn require_unsigned(elem: &Json, part: Part, key: Key) -> (r: Result<u64, LoadError>)
    ensures
        r == required_unsigned(*elem, part, key),
{
    match elem.find(key.name()) {
        Some(value) => match value.as_u64() {
            Some(n) => Ok(n),
            None => Err(LoadError::at(part, key, Kind::Mistyped)),
        },
        None => Err(LoadError::at(part, key, Kind::Missing)),
    }
}

/// Reads the real number under a key that a part of the document must have.
pub fn require_real(elem: &Json, part: Part, key: Key) -> (r: Result<Real, LoadError>)
    ensures
        r == required_real(*elem, part, key),
{
    match elem.find(key.name()) {
        Some(value) => match value.as_real() {
            Some(x) => Ok(x),
            None => Err(LoadError::at(part, key, Kind::Mistyped)),
        },
        None => Err(LoadError::at(part, key, Kind::Missing)),
    }
}

/// Reads the text under a key that a part of the document must have.
pub fn require_text<'a>(elem: &'a Json, part: Part, key: Key) -> (r: Result<&'a str, LoadError>)
    ensures
        match r {
            Ok(s) => required_text(*elem, part, key) == Ok::<Seq<char>, LoadError>(s@),
            Err(e) => required_text(*elem, part, key) == Err::<Seq<char>, LoadError>(e),
        },
{
    match elem.find(key.name()) {
        Some(value) => match value.as_string() {
            Some(s) => Ok(s),
            None => Err(LoadError::at(part, key, Kind::Mistyped)),
        },
        None => Err(LoadError::at(part, key, Kind::Missing)),
    }
}

} // verus!
