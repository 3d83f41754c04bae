//! The Event API

use crate::client::Client;
use crate::http::{
    decimal_of, given, pairs, push_number, push_text, text_of, Request, RequestView,
};
use vstd::prelude::*;
use vstd::string::StringExecFns;

verus! {

/// A client for the Event API.
///
/// See <https://docs.github.com/en/rest/reference/activity#events>.
#[derive(Clone, Debug)]
pub struct EventsHandler<'a> {
    pub client: &'a Client,
}

impl<'a> EventsHandler<'a> {
    /// A handler for the events that `client` can see.
    pub fn new(client: &'a Client) -> (r: EventsHandler<'a>)
        ensures
            r.client == client,
    {
        EventsHandler { client }
    }

    /// List the events of a user.
    pub fn list_user_events(&'a self, user: &str) -> (r: ListUserEventsBuilder<'a>)
        ensures
            r.handler == self,
            r.user@ == user@,
            r.accept is None,
            r.per_page is None,
            r.page is None,
    {
        ListUserEventsBuilder::new(self, user)
    }
}

/// A builder for listing user events
#[derive(Clone, Debug)]
pub struct ListUserEventsBuilder<'a> {
    pub handler: &'a EventsHandler<'a>,
    pub user: String,
    pub accept: Option<String>,
    pub per_page: Option<u8>,
    pub page: Option<u8>,
}

impl<'a> ListUserEventsBuilder<'a> {
    /// A builder for the events of `user`, with nothing else set.
    pub fn new(handler: &'a EventsHandler<'a>, user: &str) -> (r: Self)
        ensures
            r.handler == handler,
            r.user@ == user@,
            r.accept is None,
            r.per_page is None,
            r.page is None,
    {
        ListUserEventsBuilder {
            handler,
            user: user.to_owned(),
            accept: None,
            per_page: None,
            page: None,
        }
    }

    /// What the request holds, as a mathematical value.
    pub open spec fn spec_request(&self) -> RequestView {
        RequestView {
            url: self.handler.client.base_url@ + "/users/"@ + self.user@ + "/events"@,
            headers: given("Authorization"@, self.handler.client.authorization())
                + given("Accept"@, text_of(self.accept)),
            query: given("per_page"@, decimal_of(self.per_page))
                + given("page"@, decimal_of(self.page)),
        }
    }

    /// The request that lists the events of the user.
    pub fn request(&self) -> (r: Request)
        ensures
            r@ == self.spec_request(),
    {
        let mut url = self.handler.client.base_url.clone();
        url.append("/users/");
        url.append(self.user.as_str());
        url.append("/events");
        let mut headers: Vec<(String, String)> = Vec::new();
        self.handler.client.authorize(&mut headers);
        push_text(&mut headers, "Accept", &self.accept);
        let mut query: Vec<(String, String)> = Vec::new();
        push_number(&mut query, "per_page", self.per_page);
        push_number(&mut query, "page", self.page);
        proof {
            assert(pairs(headers@) =~= self.spec_request().headers);
            assert(pairs(query@) =~= self.spec_request().query);
        }
        Request { url, headers, query }
    }

    /// Sets `accept`.
    pub fn accept(self, accept: &str) -> (r: Self)
        ensures
            r == (ListUserEventsBuilder { accept: r.accept, ..self }),
            text_of(r.accept) == Some(accept@),
    {
        ListUserEventsBuilder { accept: Some(accept.to_owned()), ..self }
    }

    /// Sets `per_page`.
    pub fn per_page(self, per_page: u8) -> (r: Self)
        ensures
            r == (ListUserEventsBuilder { per_page: Some(per_page), ..self }),
    {
        ListUserEventsBuilder { per_page: Some(per_page), ..self }
    }

    /// Sets `page`.
    pub fn page(self, page: u8) -> (r: Self)
        ensures
            r == (ListUserEventsBuilder { page: Some(page), ..self }),
    {
        ListUserEventsBuilder { page: Some(page), ..self }
    }
}

} // verus!
