//! Decoding of values and of the members of an object.

use crate::error::{DecodeError, Fault, Shape};
use crate::json::{
    as_array, as_bool, as_i64, as_str, as_u64, is_null, json_of, jsons_of, member, Json,
};
use crate::time::Timestamp;
use serde_json::Value;
use vstd::prelude::*;

verus! {

/// A type with a schema: the documents it accepts, and what each accepted
/// document says of a value.
pub trait Deserialize: Sized {
    /// Why the schema refuses `j`; `None` where it accepts it.
    spec fn fault(j: Json) -> Option<Fault>;

    /// `self` holds what the accepted document `j` says.
    spec fn represents(&self, j: Json) -> bool;

    /// Decodes a value against the schema.
    fn deserialize(value: &Value) -> (r: Result<Self, DecodeError>)
        ensures
            match r {
                Ok(x) => Self::fault(json_of(*value)) is None && x.represents(json_of(*value)),
                Err(e) => Self::fault(json_of(*value)) == Some(e@),
            },
    ;
}

/// The fault of a value that must have the given shape.
pub open spec fn unless(fits: bool, shape: Shape) -> Option<Fault> {
    if fits {
        None
    } else {
        Some(Fault::Expected(shape))
    }
}

impl Deserialize for String {
    open spec fn fault(j: Json) -> Option<Fault> {
        unless(j is Str, Shape::Text)
    }

    open spec fn represents(&self, j: Json) -> bool {
        j == Json::Str(self@)
    }

    fn deserialize(value: &Value) -> (r: Result<Self, DecodeError>) {
        match as_str(value) {
            Some(s) => Ok(s.to_owned()),
            None => Err(DecodeError::Expected(Shape::Text)),
        }
    }
}

impl Deserialize for u64 {
    open spec fn fault(j: Json) -> Option<Fault> {
        unless(j is Int && 0 <= j->Int_0 <= u64::MAX, Shape::Unsigned)
    }

    open spec fn represents(&self, j: Json) -> bool {
        j == Json::Int(*self as int)
    }

    fn deserialize(value: &Value) -> (r: Result<Self, DecodeError>) {
        match as_u64(value) {
            Some(n) => Ok(n),
            None => Err(DecodeError::Expected(Shape::Unsigned)),
        }
    }
}

impl Deserialize for i64 {
    open spec fn fault(j: Json) -> Option<Fault> {
        unless(j is Int && i64::MIN <= j->Int_0 <= i64::MAX, Shape::Signed)
    }

    open spec fn represents(&self, j: Json) -> bool {
        j == Json::Int(*self as int)
    }

    fn deserialize(value: &Value) -> (r: Result<Self, DecodeError>) {
        match as_i64(value) {
            Some(n) => Ok(n),
            None => Err(DecodeError::Expected(Shape::Signed)),
        }
    }
}

impl Deserialize for bool {
    open spec fn fault(j: Json) -> Option<Fault> {
        unless(j is Bool, Shape::Flag)
    }

    open spec fn represents(&self, j: Json) -> bool {
        j == Json::Bool(*self)
    }

    fn deserialize(value: &Value) -> (r: Result<Self, DecodeError>) {
        match as_bool(value) {
            Some(b) => Ok(b),
            None => Err(DecodeError::Expected(Shape::Flag)),
        }
    }
}

impl Deserialize for Timestamp {
    open spec fn fault(j: Json) -> Option<Fault> {
        unless(j is Str && Timestamp::of(j->Str_0) is Some, Shape::Time)
    }

    open spec fn represents(&self, j: Json) -> bool {
        j is Str && Timestamp::of(j->Str_0) == Some(*self)
    }

    fn deserialize(value: &Value) -> (r: Result<Self, DecodeError>) {
        match as_str(value) {
            Some(s) => match Timestamp::parse(s) {
                Some(t) => Ok(t),
                None => Err(DecodeError::Expected(Shape::Time)),
            },
            None => Err(DecodeError::Expected(Shape::Time)),
        }
    }
}

/// `i` is the first index at which `T` refuses an element.
pub open spec fn first_refused<T: Deserialize>(items: Seq<Json>, i: int) -> bool {
    &&& 0 <= i < items.len()
    &&& T::fault(items[i]) is Some
    &&& forall|k: int| 0 <= k < i ==> T::fault(#[trigger] items[k]) is None
}

/// The fault of the first element that `T` refuses, with its index; `None`
/// where `T` accepts every element.
pub open spec fn elements_fault<T: Deserialize>(items: Seq<Json>) -> Option<Fault> {
    if exists|i: int| first_refused::<T>(items, i) {
        let i = choose|i: int| first_refused::<T>(items, i);
        Some(Fault::Element(i as nat, Box::new(T::fault(items[i])->0)))
    } else {
        None
    }
}

/// `records` holds what `items` say, element by element.
pub open spec fn elements_represent<T: Deserialize>(records: Seq<T>, items: Seq<Json>) -> bool {
    &&& records.len() == items.len()
    &&& forall|i: int| 0 <= i < records.len() ==> (#[trigger] records[i]).represents(items[i])
}

impl<T: Deserialize> Deserialize for Vec<T> {
    open spec fn fault(j: Json) -> Option<Fault> {
        if j is Array {
            elements_fault::<T>(j->Array_0)
        } else {
            Some(Fault::Expected(Shape::Array))
        }
    }

    open spec fn represents(&self, j: Json) -> bool {
        j is Array && elements_represent(self@, j->Array_0)
    }

    fn deserialize(value: &Value) -> (r: Result<Self, DecodeError>) {
        let items = match as_array(value) {
            Some(items) => items,
            None => {
                return Err(DecodeError::Expected(Shape::Array));
            },
        };
        let ghost elements = jsons_of(items@);
        let mut records: Vec<T> = Vec::new();
        let mut i: usize = 0;
        while i < items.len()
            invariant
                json_of(*value) == Json::Array(elements),
                elements == jsons_of(items@),
                i <= items.len(),
                records@.len() == i,
                forall|k: int| 0 <= k < i ==> T::fault(#[trigger] elements[k]) is None,
                forall|k: int| 0 <= k < i ==> (#[trigger] records@[k]).represents(elements[k]),
            decreases items.len() - i,
        {
            match T::deserialize(&items[i]) {
                Ok(x) => {
                    records.push(x);
                },
                Err(e) => {
                    proof {
                        assert(first_refused::<T>(elements, i as int));
                        let c = choose|c: int| first_refused::<T>(elements, c);
                        assert(c == i as int) by {
                            if c < i {
                                assert(T::fault(elements[c]) is None);
                            } else if c > i {
                                assert(T::fault(elements[i as int]) is None);
                            }
                        }
                    }
                    return Err(DecodeError::Element(i, Box::new(e)));
                },
            }
            i = i + 1;
        }
        proof {
            assert forall|c: int| !first_refused::<T>(elements, c) by {
                if 0 <= c < elements.len() {
                    assert(T::fault(elements[c]) is None);
                }
            }
        }
        Ok(records)
    }
}

/// The fault of a required member: it is missing, or `T` refuses it.
pub open spec fn refused<T: Deserialize>(j: Json, key: Seq<char>) -> Option<Fault> {
    if !j.has(key) {
        Some(Fault::Missing(key))
    } else {
        match T::fault(j.at(key)) {
            Some(f) => Some(Fault::In(key, Box::new(f))),
            None => None,
        }
    }
}

/// The fault of an optional member: it is there, not `null`, and `T` refuses
/// it.
pub open spec fn refused_optional<T: Deserialize>(j: Json, key: Seq<char>) -> Option<Fault> {
    if j.absent(key) {
        None
    } else {
        match T::fault(j.at(key)) {
            Some(f) => Some(Fault::In(key, Box::new(f))),
            None => None,
        }
    }
}

/// `x` holds what the member under `key` says.
pub open spec fn holds<T: Deserialize>(x: T, j: Json, key: Seq<char>) -> bool {
    j.has(key) && x.represents(j.at(key))
}

/// `x` holds what the member under `key` says, and is `None` exactly where
/// the member is missing or `null`.
pub open spec fn holds_optional<T: Deserialize>(x: Option<T>, j: Json, key: Seq<char>) -> bool {
    match x {
        Some(v) => !j.absent(key) && v.represents(j.at(key)),
        None => j.absent(key),
    }
}

/// Decodes the required member under `key`.
pub fn field<T: Deserialize>(value: &Value, key: &str) -> (r: Result<T, DecodeError>)
    ensures
        match r {
            Ok(x) => refused::<T>(json_of(*value), key@) is None && holds(x, json_of(*value), key@),
            Err(e) => refused::<T>(json_of(*value), key@) == Some(e@),
        },
{
    match member(value, key) {
        Some(m) => match T::deserialize(m) {
            Ok(x) => Ok(x),
            Err(e) => Err(DecodeError::In(key.to_owned(), Box::new(e))),
        },
        None => Err(DecodeError::Missing(key.to_owned())),
    }
}

/// Decodes the member under `key` if there is one that is not `null`.
pub fn optional<T: Deserialize>(value: &Value, key: &str) -> (r: Result<Option<T>, DecodeError>)
    ensures
        match r {
            Ok(x) => refused_optional::<T>(json_of(*value), key@) is None && holds_optional(
                x,
                json_of(*value),
                key@,
            ),
            Err(e) => refused_optional::<T>(json_of(*value), key@) == Some(e@),
        },
{
    match member(value, key) {
        Some(m) => {
            if is_null(m) {
                Ok(None)
            } else {
                match T::deserialize(m) {
                    Ok(x) => Ok(Some(x)),
                    Err(e) => Err(DecodeError::In(key.to_owned(), Box::new(e))),
                }
            }
        },
        None => Ok(None),
    }
}

} // verus!
