//! The two ways an operation fails: the transport, or the shape of what came
//! back.

use crate::http::{text_of, Response};
use crate::model::event::EventType;
use vstd::prelude::*;

verus! {

/// What a single value was expected to be.
#[derive(Clone, Copy, Debug, PartialEq, Eq, Structural)]
pub enum Shape {
    /// A string.
    Text,
    /// An integer from 0 to `u64::MAX`.
    Unsigned,
    /// An integer from `i64::MIN` to `i64::MAX`.
    Signed,
    /// `true` or `false`.
    Flag,
    /// A string that holds an instant.
    Time,
    /// An array.
    Array,
}

/// Why a document was refused, as a mathematical value.
pub enum Fault {
    /// The text is not a JSON document.
    Syntax,
    /// The `Link` header is malformed, or one of its entries has no relation.
    Link,
    /// The value is not of this shape.
    Expected(Shape),
    /// The document is not an object with a member of this name.
    Missing(Seq<char>),
    /// The record under this member was refused.
    In(Seq<char>, Box<Fault>),
    /// The element at this index of an array was refused.
    Element(nat, Box<Fault>),
    /// The payload of an event of this kind was refused.
    Payload(EventType, Box<Fault>),
}

/// A body, a header or a payload that does not match the expected schema.
#[derive(Debug)]
pub enum DecodeError {
    /// The text is not a JSON document.
    Syntax,
    /// The `Link` header is malformed, or one of its entries has no relation.
    Link,
    /// The value is not of this shape.
    Expected(Shape),
    /// The document is not an object with a member of this name.
    Missing(String),
    /// The record under this member was refused.
    In(String, Box<DecodeError>),
    /// The element at this index of an array was refused.
    Element(usize, Box<DecodeError>),
    /// The payload of an event of this kind was refused.
    Payload(EventType, Box<DecodeError>),
}

/// The mathematical value of a decode error.
pub open spec fn fault_of(error: DecodeError) -> Fault
    decreases error,
{
    match error {
        DecodeError::Syntax => Fault::Syntax,
        DecodeError::Link => Fault::Link,
        DecodeError::Expected(shape) => Fault::Expected(shape),
        DecodeError::Missing(name) => Fault::Missing(name@),
        DecodeError::In(name, cause) => Fault::In(name@, Box::new(fault_of(*cause))),
        DecodeError::Element(index, cause) => Fault::Element(
            index as nat,
            Box::new(fault_of(*cause)),
        ),
        DecodeError::Payload(kind, cause) => Fault::Payload(kind, Box::new(fault_of(*cause))),
    }
}

impl View for DecodeError {
    type V = Fault;

    open spec fn view(&self) -> Fault {
        fault_of(*self)
    }
}

/// A request that brought no usable response, as a mathematical value.
pub enum Outage {
    /// The report of the transport.
    Transport(Seq<char>),
    /// The status, the `Link` header and the body of the refused response.
    Status(u16, Option<Seq<char>>, Seq<u8>),
}

/// A request that brought no usable response.
#[derive(Debug)]
pub enum NetworkError {
    /// The transport failed before a response arrived; the text is its report.
    Transport(String),
    /// The response carried a status outside 200..=299; it is handed on as
    /// it came.
    Status(Response),
}

impl View for NetworkError {
    type V = Outage;

    open spec fn view(&self) -> Outage {
        match self {
            NetworkError::Transport(report) => Outage::Transport(report@),
            NetworkError::Status(response) => Outage::Status(
                response.status,
                text_of(response.link),
                response.body@,
            ),
        }
    }
}

/// Either kind of failure, as a mathematical value.
pub enum Failure {
    Network(Outage),
    Decode(Fault),
}

/// Either kind of failure.
#[derive(Debug)]
pub enum Error {
    Network(NetworkError),
    Decode(DecodeError),
}

impl View for Error {
    type V = Failure;

    open spec fn view(&self) -> Failure {
        match self {
            Error::Network(e) => Failure::Network(e@),
            Error::Decode(e) => Failure::Decode(e@),
        }
    }
}

/// The fault of a record: that of the first field, in order, that has one.
pub trait Otherwise {
    spec fn otherwise(self, next: Self) -> Self;
}

impl Otherwise for Option<Fault> {
    open spec fn otherwise(self, next: Option<Fault>) -> Option<Fault> {
        if self is Some {
            self
        } else {
            next
        }
    }
}

} // verus!
