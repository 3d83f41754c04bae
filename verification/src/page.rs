//! One fetched batch of a listing, with the cursors to its neighbours.

use crate::decode::{elements_represent, Deserialize};
use crate::error::{Error, Failure, Fault};
use crate::http::{plain_request, text_of, Request, Response};
use crate::json::{json_parse, Json};
use crate::link::{header_cursors, parse_cursors, Cursors};
use vstd::prelude::*;

verus! {

/// A page which enables to get prev/next pages.
///
/// A page is a value: fetching a neighbour makes a new page and leaves this
/// one as it is. Its items can be taken out once; the cursors stay.
#[derive(Debug)]
pub struct Page<T> {
    items: Vec<T>,
    prev: Option<String>,
    next: Option<String>,
}

/// The cursors of a response: none without a `Link` header, else those the
/// header names; `None` where the header is malformed.
pub open spec fn response_cursors(link: Option<String>) -> Option<
    (Option<Seq<char>>, Option<Seq<char>>),
> {
    match link {
        Some(header) => header_cursors(header@),
        None => Some((None, None)),
    }
}

/// Why a response is refused as a page of `T`; `None` where it is accepted.
/// The status is looked at first, then the `Link` header, then the body.
pub open spec fn page_failure<T: Deserialize>(response: Response) -> Option<Failure> {
    if !response.succeeded() {
        Some(Failure::Network(response.refused()))
    } else if response_cursors(response.link) is None {
        Some(Failure::Decode(Fault::Link))
    } else {
        response.record_failure::<Vec<T>>()
    }
}

impl<T> Page<T> {
    /// The items that the page still holds, in order.
    pub closed spec fn items(&self) -> Seq<T> {
        self.items@
    }

    /// The URL of the previous page, if there is one.
    pub closed spec fn prev(&self) -> Option<Seq<char>> {
        text_of(self.prev)
    }

    /// The URL of the next page, if there is one.
    pub closed spec fn next(&self) -> Option<Seq<char>> {
        text_of(self.next)
    }

    /// Taking the items out of `self` hands out `taken` and leaves `rest`:
    /// all items leave, in order, and the cursors stay.
    pub open spec fn takes(self, taken: Seq<T>, rest: Page<T>) -> bool {
        &&& taken == self.items()
        &&& rest.items() == Seq::<T>::empty()
        &&& rest.prev() == self.prev()
        &&& rest.next() == self.next()
    }

    /// Returns current items, and set an empty `Vec` instead.
    pub fn take_items(&mut self) -> (r: Vec<T>)
        ensures
            old(self).takes(r@, *final(self)),
    {
        let mut items: Vec<T> = Vec::new();
        std::mem::swap(&mut self.items, &mut items);
        items
    }

    /// The URL of the previous page, if there is one.
    pub fn get_prev(&self) -> (r: Option<String>)
        ensures
            text_of(r) == self.prev(),
    {
        self.prev.clone()
    }

    /// The URL of the next page, if there is one.
    pub fn get_next(&self) -> (r: Option<String>)
        ensures
            text_of(r) == self.next(),
    {
        self.next.clone()
    }

    /// The number of items that the page still holds.
    pub fn len(&self) -> (r: usize)
        ensures
            r == self.items().len(),
    {
        self.items.len()
    }

    /// Whether the page holds no item.
    pub fn is_empty(&self) -> (r: bool)
        ensures
            r == (self.items().len() == 0),
    {
        self.items.len() == 0
    }

    /// The request that fetches the next page: a GET of the recorded URL as
    /// it stands, with no header and no parameter. `None` where the page
    /// has no next page.
    pub fn next_request(&self) -> (r: Option<Request>)
        ensures
            match r {
                Some(request) => self.next() == Some(request@.url) && request@ == plain_request(
                    request@.url,
                ),
                None => self.next() is None,
            },
    {
        match &self.next {
            Some(url) => Some(Request::plain(url.clone())),
            None => None,
        }
    }

    /// The request that fetches the previous page, in the same way.
    pub fn prev_request(&self) -> (r: Option<Request>)
        ensures
            match r {
                Some(request) => self.prev() == Some(request@.url) && request@ == plain_request(
                    request@.url,
                ),
                None => self.prev() is None,
            },
    {
        match &self.prev {
            Some(url) => Some(Request::plain(url.clone())),
            None => None,
        }
    }
}

impl<T> IntoIterator for Page<T> {
    type Item = T;

    type IntoIter = std::vec::IntoIter<T>;

    /// An iterator over the items that the page still holds, in order.
    fn into_iter(self) -> (r: std::vec::IntoIter<T>)
        ensures
            vstd::std_specs::iter::IteratorSpec::remaining(&r) == self.items(),
    {
        self.items.into_iter()
    }
}

impl<T: Deserialize> Page<T> {
    /// `self` is the page that `response` describes: its cursors are those
    /// of the `Link` header, and its items hold what the elements of the
    /// body say, one for one.
    pub open spec fn reads(&self, response: Response) -> bool {
        &&& page_failure::<T>(response) is None
        &&& response_cursors(response.link) == Some((self.prev(), self.next()))
        &&& elements_represent(self.items(), json_parse(response.body@)->0->Array_0)
    }

    /// Create a [`Page`] from response.
    ///
    /// The body is read as a list of `T`. The cursors come from the `Link`
    /// header; without one the page has no neighbours, which is no error.
    pub fn from_response(response: &Response) -> (r: Result<Page<T>, Error>)
        ensures
            match r {
                Ok(page) => page.reads(*response),
                Err(e) => page_failure::<T>(*response) == Some(e@),
            },
    {
        match response.success() {
            Ok(_) => {},
            Err(e) => {
                return Err(Error::Network(e));
            },
        }
        let cursors = match &response.link {
            Some(header) => match parse_cursors(header.as_str()) {
                Ok(cursors) => cursors,
                Err(e) => {
                    return Err(Error::Decode(e));
                },
            },
            None => Cursors { prev: None, next: None },
        };
        let items: Vec<T> = response.record()?;
        Ok(Page { items, prev: cursors.prev, next: cursors.next })
    }
}

/// A page gives out as many items as the body of its response has elements.
pub proof fn page_gives_every_element<T: Deserialize>(
    response: Response,
    page: Page<T>,
    taken: Seq<T>,
    rest: Page<T>,
)
    requires
        page.reads(response),
        page.takes(taken, rest),
    ensures
        json_parse(response.body@) matches Some(Json::Array(elements)) && taken.len()
            == elements.len(),
{
}

/// The page of a response without a `Link` header has no next and no
/// previous page.
pub proof fn page_without_link_has_no_neighbours<T: Deserialize>(response: Response, page: Page<T>)
    requires
        page.reads(response),
        response.link is None,
    ensures
        page.next() is None,
        page.prev() is None,
{
}

/// Taking the items of a page twice gives all of them the first time and
/// none the second.
pub proof fn second_take_is_empty<T>(
    page: Page<T>,
    first: Seq<T>,
    then: Page<T>,
    second: Seq<T>,
    last: Page<T>,
)
    requires
        page.takes(first, then),
        then.takes(second, last),
    ensures
        first == page.items(),
        second == Seq::<T>::empty(),
        last.items() == Seq::<T>::empty(),
{
}

} // verus!
