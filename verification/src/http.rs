//! Requests and responses as plain values. The library never performs a
//! request: it says what to send and reads what came back.

use crate::decode::Deserialize;
use crate::error::{Error, Failure, Fault, NetworkError, Outage};
use crate::json::{json_of, json_parse, parse};
use vstd::prelude::*;
use vstd::string::StringExecFns;

verus! {

/// A GET request: where to, with which headers and which query parameters.
/// Parameters are held as written; whoever sends the request encodes them.
#[derive(Clone, Debug)]
pub struct Request {
    pub url: String,
    pub headers: Vec<(String, String)>,
    pub query: Vec<(String, String)>,
}

/// The mathematical content of a request.
pub struct RequestView {
    pub url: Seq<char>,
    pub headers: Seq<(Seq<char>, Seq<char>)>,
    pub query: Seq<(Seq<char>, Seq<char>)>,
}

/// The names and values of a list of headers or parameters, in order.
pub open spec fn pairs(list: Seq<(String, String)>) -> Seq<(Seq<char>, Seq<char>)> {
    Seq::new(list.len(), |i: int| (list[i].0@, list[i].1@))
}

impl View for Request {
    type V = RequestView;

    open spec fn view(&self) -> RequestView {
        RequestView { url: self.url@, headers: pairs(self.headers@), query: pairs(self.query@) }
    }
}

/// The request for `url` as it stands: no header, no parameter.
pub open spec fn plain_request(url: Seq<char>) -> RequestView {
    RequestView { url, headers: seq![], query: seq![] }
}

impl Request {
    /// The request for `url` as it stands: no header, no parameter.
    pub fn plain(url: String) -> (r: Request)
        ensures
            r@ == plain_request(url@),
    {
        let r = Request { url, headers: Vec::new(), query: Vec::new() };
        assert(pairs(r.headers@) =~= seq![]);
        assert(pairs(r.query@) =~= seq![]);
        r
    }
}

/// The text of an optional string.
pub open spec fn text_of(value: Option<String>) -> Option<Seq<char>> {
    match value {
        Some(text) => Some(text@),
        None => None,
    }
}

/// One header or parameter where a value is given, none where it is not.
pub open spec fn given(name: Seq<char>, value: Option<Seq<char>>) -> Seq<(Seq<char>, Seq<char>)> {
    match value {
        Some(text) => seq![(name, text)],
        None => seq![],
    }
}

/// The decimal digit for a number below ten.
pub open spec fn digit(d: nat) -> char {
    seq!['0', '1', '2', '3', '4', '5', '6', '7', '8', '9'][d as int]
}

/// A number in decimal, without sign or leading zeros.
pub open spec fn decimal(n: nat) -> Seq<char>
    decreases n,
{
    if n < 10 {
        seq![digit(n)]
    } else {
        decimal(n / 10).push(digit(n % 10))
    }
}

/// An optional number in decimal.
pub open spec fn decimal_of(value: Option<u8>) -> Option<Seq<char>> {
    match value {
        Some(n) => Some(decimal(n as nat)),
        None => None,
    }
}

/// The text of one decimal digit.
fn digit_text(d: u64) -> (r: &'static str)
    requires
        d < 10,
    ensures
        r@ == seq![digit(d as nat)],
{
    proof {
        reveal_strlit("0");
        reveal_strlit("1");
        reveal_strlit("2");
        reveal_strlit("3");
        reveal_strlit("4");
        reveal_strlit("5");
        reveal_strlit("6");
        reveal_strlit("7");
        reveal_strlit("8");
        reveal_strlit("9");
    }
    let r = if d == 0 {
        "0"
    } else if d == 1 {
        "1"
    } else if d == 2 {
        "2"
    } else if d == 3 {
        "3"
    } else if d == 4 {
        "4"
    } else if d == 5 {
        "5"
    } else if d == 6 {
        "6"
    } else if d == 7 {
        "7"
    } else if d == 8 {
        "8"
    } else {
        "9"
    };
    assert(r@ =~= seq![digit(d as nat)]);
    r
}

/// Writes a number in decimal.
pub(crate) fn to_decimal(n: u64) -> (r: String)
    ensures
        r@ == decimal(n as nat),
    decreases n,
{
    if n < 10 {
        digit_text(n).to_owned()
    } else {
        let mut text = to_decimal(n / 10);
        text.append(digit_text(n % 10));
        assert(text@ =~= decimal(n as nat / 10).push(digit(n as nat % 10)));
        text
    }
}

/// Appends the header or parameter `name` where a value is given.
pub(crate) fn push_text(list: &mut Vec<(String, String)>, name: &str, value: &Option<String>)
    ensures
        pairs(final(list)@) == pairs(old(list)@) + given(name@, text_of(*value)),
{
    let ghost before = pairs(list@);
    match value {
        Some(text) => {
            list.push((name.to_owned(), text.clone()));
            assert(pairs(list@) =~= before + seq![(name@, text@)]);
        },
        None => {
            assert(pairs(list@) =~= before + Seq::<(Seq<char>, Seq<char>)>::empty());
        },
    }
}

/// Appends the parameter `name` with a number where one is given.
pub(crate) fn push_number(list: &mut Vec<(String, String)>, name: &str, value: Option<u8>)
    ensures
        pairs(final(list)@) == pairs(old(list)@) + given(name@, decimal_of(value)),
{
    let ghost before = pairs(list@);
    match value {
        Some(n) => {
            let text = to_decimal(n as u64);
            list.push((name.to_owned(), text));
            assert(pairs(list@) =~= before + seq![(name@, decimal(n as nat))]);
        },
        None => {
            assert(pairs(list@) =~= before + Seq::<(Seq<char>, Seq<char>)>::empty());
        },
    }
}

/// What a transport brought back: the status code, the value of the `Link`
/// header if there is one, and the body.
#[derive(Clone, Debug)]
pub struct Response {
    pub status: u16,
    pub link: Option<String>,
    pub body: Vec<u8>,
}

impl Response {
    /// The status is one of success.
    pub open spec fn succeeded(&self) -> bool {
        200 <= self.status <= 299
    }

    /// The response as the content of a network error.
    pub open spec fn refused(&self) -> Outage {
        Outage::Status(self.status, text_of(self.link), self.body@)
    }

    /// Why the body is refused as one record of type `T`; `None` where it is
    /// accepted.
    pub open spec fn record_failure<T: Deserialize>(&self) -> Option<Failure> {
        if !self.succeeded() {
            Some(Failure::Network(self.refused()))
        } else {
            match json_parse(self.body@) {
                None => Some(Failure::Decode(Fault::Syntax)),
                Some(j) => match T::fault(j) {
                    Some(f) => Some(Failure::Decode(f)),
                    None => None,
                },
            }
        }
    }

    /// Refuses a response whose status is outside 200..=299. The error
    /// carries a copy of the whole response.
    pub fn success(&self) -> (r: Result<(), NetworkError>)
        ensures
            match r {
                Ok(_) => self.succeeded(),
                Err(e) => !self.succeeded() && e@ == self.refused(),
            },
    {
        if 200 <= self.status && self.status <= 299 {
            Ok(())
        } else {
            let link = match &self.link {
                Some(header) => Some(header.clone()),
                None => None,
            };
            let body = vstd::slice::slice_to_vec(self.body.as_slice());
            Err(NetworkError::Status(Response { status: self.status, link, body }))
        }
    }

    /// Decodes the body as one document of type `T`: a single record, or,
    /// with a `Vec`, a list of them.
    pub fn record<T: Deserialize>(&self) -> (r: Result<T, Error>)
        ensures
            match r {
                Ok(x) => self.record_failure::<T>() is None && x.represents(
                    json_parse(self.body@)->0,
                ),
                Err(e) => self.record_failure::<T>() == Some(e@),
            },
    {
        match self.success() {
            Ok(_) => {},
            Err(e) => {
                return Err(Error::Network(e));
            },
        }
        let document = match parse(self.body.as_slice()) {
            Ok(document) => document,
            Err(e) => {
                return Err(Error::Decode(e));
            },
        };
        match T::deserialize(&document) {
            Ok(x) => Ok(x),
            Err(e) => Err(Error::Decode(e)),
        }
    }
}

} // verus!
