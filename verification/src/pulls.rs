//! The Pull Request API

use crate::client::Client;
use crate::http::{
    decimal, decimal_of, given, pairs, push_number, push_text, text_of, to_decimal, Request,
    RequestView,
};
use vstd::prelude::*;
use vstd::string::StringExecFns;

verus! {

/// A client for the Pull Request API.
///
/// See <https://docs.github.com/en/rest/reference/pulls>.
#[derive(Clone, Debug)]
pub struct PullsHandler<'a> {
    pub client: &'a Client,
    pub owner: String,
    pub repo: String,
}

impl<'a> PullsHandler<'a> {
    /// A handler for the repository `owner`/`repo`.
    pub fn new(client: &'a Client, owner: &str, repo: &str) -> (r: PullsHandler<'a>)
        ensures
            r.client == client,
            r.owner@ == owner@,
            r.repo@ == repo@,
    {
        PullsHandler { client, owner: owner.to_owned(), repo: repo.to_owned() }
    }

    /// List pull requests.
    pub fn list(&'a self) -> (r: ListPullRequestsBuilder<'a>)
        ensures
            r == ListPullRequestsBuilder::blank(self),
    {
        ListPullRequestsBuilder::new(self)
    }

    /// Get one pull request by its number.
    pub fn get(&'a self, pull_number: u64) -> (r: GetPullRequestBuilder<'a>)
        ensures
            r == GetPullRequestBuilder::blank(self, pull_number),
    {
        GetPullRequestBuilder::new(self, pull_number)
    }
}

/// A builder for listing pull requests.
#[derive(Clone, Debug)]
pub struct ListPullRequestsBuilder<'a> {
    pub handler: &'a PullsHandler<'a>,
    pub accept: Option<String>,
    pub state: Option<String>,
    pub head: Option<String>,
    pub base: Option<String>,
    pub sort: Option<String>,
    pub direction: Option<String>,
    pub per_page: Option<u8>,
    pub page: Option<u8>,
}

impl<'a> ListPullRequestsBuilder<'a> {
    /// The builder with nothing set.
    pub open spec fn blank(handler: &'a PullsHandler<'a>) -> Self {
        ListPullRequestsBuilder {
            handler,
            accept: None,
            state: None,
            head: None,
            base: None,
            sort: None,
            direction: None,
            per_page: None,
            page: None,
        }
    }

    /// A builder with nothing set.
    pub fn new(handler: &'a PullsHandler<'a>) -> (r: Self)
        ensures
            r == Self::blank(handler),
    {
        ListPullRequestsBuilder {
            handler,
            accept: None,
            state: None,
            head: None,
            base: None,
            sort: None,
            direction: None,
            per_page: None,
            page: None,
        }
    }

    /// What the request holds, as a mathematical value.
    pub open spec fn spec_request(&self) -> RequestView {
        RequestView {
            url: self.handler.client.base_url@ + "/repos/"@ + self.handler.owner@ + "/"@
                + self.handler.repo@ + "/pulls"@,
            headers: given("Authorization"@, self.handler.client.authorization())
                + given("Accept"@, text_of(self.accept)),
            query: given("state"@, text_of(self.state))
                + given("head"@, text_of(self.head))
                + given("base"@, text_of(self.base))
                + given("sort"@, text_of(self.sort))
                + given("direction"@, text_of(self.direction))
                + given("per_page"@, decimal_of(self.per_page))
                + given("page"@, decimal_of(self.page)),
        }
    }

    /// The request that lists the pull requests of the repository. Each
    /// value that is set travels as one parameter, in the order of the
    /// fields.
    pub fn request(&self) -> (r: Request)
        ensures
            r@ == self.spec_request(),
    {
        let mut url = self.handler.client.base_url.clone();
        url.append("/repos/");
        url.append(self.handler.owner.as_str());
        url.append("/");
        url.append(self.handler.repo.as_str());
        url.append("/pulls");
        let mut headers: Vec<(String, String)> = Vec::new();
        self.handler.client.authorize(&mut headers);
        push_text(&mut headers, "Accept", &self.accept);
        let mut query: Vec<(String, String)> = Vec::new();
        push_text(&mut query, "state", &self.state);
        push_text(&mut query, "head", &self.head);
        push_text(&mut query, "base", &self.base);
        push_text(&mut query, "sort", &self.sort);
        push_text(&mut query, "direction", &self.direction);
        push_number(&mut query, "per_page", self.per_page);
        push_number(&mut query, "page", self.page);
        proof {
            assert(pairs(headers@) =~= self.spec_request().headers);
            assert(pairs(query@) =~= self.spec_request().query);
        }
        Request { url, headers, query }
    }

    /// Sets `accept`.
    pub fn accept(self, accept: &str) -> (r: Self)
        ensures
            r == (ListPullRequestsBuilder { accept: r.accept, ..self }),
            text_of(r.accept) == Some(accept@),
    {
        ListPullRequestsBuilder { accept: Some(accept.to_owned()), ..self }
    }

    /// Sets `state`.
    pub fn state(self, state: &str) -> (r: Self)
        ensures
            r == (ListPullRequestsBuilder { state: r.state, ..self }),
            text_of(r.state) == Some(state@),
    {
        ListPullRequestsBuilder { state: Some(state.to_owned()), ..self }
    }

    /// Sets `head`.
    pub fn head(self, head: &str) -> (r: Self)
        ensures
            r == (ListPullRequestsBuilder { head: r.head, ..self }),
            text_of(r.head) == Some(head@),
    {
        ListPullRequestsBuilder { head: Some(head.to_owned()), ..self }
    }

    /// Sets `base`.
    pub fn base(self, base: &str) -> (r: Self)
        ensures
            r == (ListPullRequestsBuilder { base: r.base, ..self }),
            text_of(r.base) == Some(base@),
    {
        ListPullRequestsBuilder { base: Some(base.to_owned()), ..self }
    }

    /// Sets `sort`.
    pub fn sort(self, sort: &str) -> (r: Self)
        ensures
            r == (ListPullRequestsBuilder { sort: r.sort, ..self }),
            text_of(r.sort) == Some(sort@),
    {
        ListPullRequestsBuilder { sort: Some(sort.to_owned()), ..self }
    }

    /// Sets `direction`.
    pub fn direction(self, direction: &str) -> (r: Self)
        ensures
            r == (ListPullRequestsBuilder { direction: r.direction, ..self }),
            text_of(r.direction) == Some(direction@),
    {
        ListPullRequestsBuilder { direction: Some(direction.to_owned()), ..self }
    }

    /// Sets `per_page`.
    pub fn per_page(self, per_page: u8) -> (r: Self)
        ensures
            r == (ListPullRequestsBuilder { per_page: Some(per_page), ..self }),
    {
        ListPullRequestsBuilder { per_page: Some(per_page), ..self }
    }

    /// Sets `page`.
    pub fn page(self, page: u8) -> (r: Self)
        ensures
            r == (ListPullRequestsBuilder { page: Some(page), ..self }),
    {
        ListPullRequestsBuilder { page: Some(page), ..self }
    }
}

/// A builder for getting a pull request.
#[derive(Clone, Debug)]
pub struct GetPullRequestBuilder<'a> {
    pub handler: &'a PullsHandler<'a>,
    pub pull_number: u64,
    pub accept: Option<String>,
}

impl<'a> GetPullRequestBuilder<'a> {
    /// The builder with nothing set.
    pub open spec fn blank(handler: &'a PullsHandler<'a>, pull_number: u64) -> Self {
        GetPullRequestBuilder { handler, pull_number, accept: None }
    }

    /// A builder with nothing set.
    pub fn new(handler: &'a PullsHandler<'a>, pull_number: u64) -> (r: Self)
        ensures
            r == Self::blank(handler, pull_number),
    {
        GetPullRequestBuilder { handler, pull_number, accept: None }
    }

    /// What the request holds, as a mathematical value.
    pub open spec fn spec_request(&self) -> RequestView {
        RequestView {
            url: self.handler.client.base_url@ + "/repos/"@ + self.handler.owner@ + "/"@
                + self.handler.repo@ + "/pulls/"@
                + decimal(self.pull_number as nat),
            headers: given("Authorization"@, self.handler.client.authorization())
                + given("Accept"@, text_of(self.accept)),
            query: seq![],
        }
    }

    /// The request that gets the pull request.
    pub fn request(&self) -> (r: Request)
        ensures
            r@ == self.spec_request(),
    {
        let mut url = self.handler.client.base_url.clone();
        url.append("/repos/");
        url.append(self.handler.owner.as_str());
        url.append("/");
        url.append(self.handler.repo.as_str());
        url.append("/pulls/");
        url.append(to_decimal(self.pull_number).as_str());
        let mut headers: Vec<(String, String)> = Vec::new();
        self.handler.client.authorize(&mut headers);
        push_text(&mut headers, "Accept", &self.accept);
        let query: Vec<(String, String)> = Vec::new();

        proof {
            assert(pairs(headers@) =~= self.spec_request().headers);
            assert(pairs(query@) =~= self.spec_request().query);
        }
        Request { url, headers, query }
    }

    /// Sets `accept`.
    pub fn accept(self, accept: &str) -> (r: Self)
        ensures
            r == (GetPullRequestBuilder { accept: r.accept, ..self }),
            text_of(r.accept) == Some(accept@),
    {
        GetPullRequestBuilder { accept: Some(accept.to_owned()), ..self }
    }
}

} // verus!
