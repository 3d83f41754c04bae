//! The Issue API

use crate::client::Client;
use crate::http::{
    decimal, decimal_of, given, pairs, push_number, push_text, text_of, to_decimal, Request,
    RequestView,
};
use vstd::prelude::*;
use vstd::string::StringExecFns;

verus! {

/// A client for the Issue API.
///
/// See <https://docs.github.com/en/rest/reference/issues>.
#[derive(Clone, Debug)]
pub struct IssuesHandler<'a> {
    pub client: &'a Client,
    pub owner: String,
    pub repo: String,
}

impl<'a> IssuesHandler<'a> {
    /// A handler for the repository `owner`/`repo`.
    pub fn new(client: &'a Client, owner: &str, repo: &str) -> (r: IssuesHandler<'a>)
        ensures
            r.client == client,
            r.owner@ == owner@,
            r.repo@ == repo@,
    {
        IssuesHandler { client, owner: owner.to_owned(), repo: repo.to_owned() }
    }

    /// List issues.
    pub fn list(&'a self) -> (r: ListIssuesBuilder<'a>)
        ensures
            r == ListIssuesBuilder::blank(self),
    {
        ListIssuesBuilder::new(self)
    }

    /// Get one issue by its number.
    pub fn get(&'a self, issue_number: u64) -> (r: GetIssueBuilder<'a>)
        ensures
            r == GetIssueBuilder::blank(self, issue_number),
    {
        GetIssueBuilder::new(self, issue_number)
    }
}

/// A builder for listing issues.
#[derive(Clone, Debug)]
pub struct ListIssuesBuilder<'a> {
    pub handler: &'a IssuesHandler<'a>,
    pub accept: Option<String>,
    pub milestone: Option<String>,
    pub state: Option<String>,
    pub assignee: Option<String>,
    pub creator: Option<String>,
    pub mentioned: Option<String>,
    pub labels: Option<String>,
    pub sort: Option<String>,
    pub direction: Option<String>,
    pub since: Option<String>,
    pub per_page: Option<u8>,
    pub page: Option<u8>,
}

impl<'a> ListIssuesBuilder<'a> {
    /// The builder with nothing set.
    pub open spec fn blank(handler: &'a IssuesHandler<'a>) -> Self {
        ListIssuesBuilder {
            handler,
            accept: None,
            milestone: None,
            state: None,
            assignee: None,
            creator: None,
            mentioned: None,
            labels: None,
            sort: None,
            direction: None,
            since: None,
            per_page: None,
            page: None,
        }
    }

    /// A builder with nothing set.
    pub fn new(handler: &'a IssuesHandler<'a>) -> (r: Self)
        ensures
            r == Self::blank(handler),
    {
        ListIssuesBuilder {
            handler,
            accept: None,
            milestone: None,
            state: None,
            assignee: None,
            creator: None,
            mentioned: None,
            labels: None,
            sort: None,
            direction: None,
            since: None,
            per_page: None,
            page: None,
        }
    }

    /// What the request holds, as a mathematical value.
    pub open spec fn spec_request(&self) -> RequestView {
        RequestView {
            url: self.handler.client.base_url@ + "/repos/"@ + self.handler.owner@ + "/"@
                + self.handler.repo@ + "/issues"@,
            headers: given("Authorization"@, self.handler.client.authorization())
                + given("Accept"@, text_of(self.accept)),
            query: given("milestone"@, text_of(self.milestone))
                + given("state"@, text_of(self.state))
                + given("assignee"@, text_of(self.assignee))
                + given("creator"@, text_of(self.creator))
                + given("mentioned"@, text_of(self.mentioned))
                + given("labels"@, text_of(self.labels))
                + given("sort"@, text_of(self.sort))
                + given("direction"@, text_of(self.direction))
                + given("milestone"@, text_of(self.since))
                + given("per_page"@, decimal_of(self.per_page))
                + given("page"@, decimal_of(self.page)),
        }
    }

    /// The request that lists the issues of the repository. Each value that
    /// is set travels as one parameter, in the order of the fields; `since`
    /// travels under the key `milestone`, after the milestone itself.
    pub fn request(&self) -> (r: Request)
        ensures
            r@ == self.spec_request(),
    {
        let mut url = self.handler.client.base_url.clone();
        url.append("/repos/");
        url.append(self.handler.owner.as_str());
        url.append("/");
        url.append(self.handler.repo.as_str());
        url.append("/issues");
        let mut headers: Vec<(String, String)> = Vec::new();
        self.handler.client.authorize(&mut headers);
        push_text(&mut headers, "Accept", &self.accept);
        let mut query: Vec<(String, String)> = Vec::new();
        push_text(&mut query, "milestone", &self.milestone);
        push_text(&mut query, "state", &self.state);
        push_text(&mut query, "assignee", &self.assignee);
        push_text(&mut query, "creator", &self.creator);
        push_text(&mut query, "mentioned", &self.mentioned);
        push_text(&mut query, "labels", &self.labels);
        push_text(&mut query, "sort", &self.sort);
        push_text(&mut query, "direction", &self.direction);
        push_text(&mut query, "milestone", &self.since);
        push_number(&mut query, "per_page", self.per_page);
        push_number(&mut query, "page", self.page);
        proof {
            assert(pairs(headers@) =~= self.spec_request().headers);
            assert(pairs(query@) =~= self.spec_request().query);
        }
        Request { url, headers, query }
    }

    /// Sets `accept`.
    pub fn accept(self, accept: &str) -> (r: Self)
        ensures
            r == (ListIssuesBuilder { accept: r.accept, ..self }),
            text_of(r.accept) == Some(accept@),
    {
        ListIssuesBuilder { accept: Some(accept.to_owned()), ..self }
    }

    /// Sets `milestone`.
    pub fn milestone(self, milestone: &str) -> (r: Self)
        ensures
            r == (ListIssuesBuilder { milestone: r.milestone, ..self }),
            text_of(r.milestone) == Some(milestone@),
    {
        ListIssuesBuilder { milestone: Some(milestone.to_owned()), ..self }
    }

    /// Sets `state`.
    pub fn state(self, state: &str) -> (r: Self)
        ensures
            r == (ListIssuesBuilder { state: r.state, ..self }),
            text_of(r.state) == Some(state@),
    {
        ListIssuesBuilder { state: Some(state.to_owned()), ..self }
    }

    /// Sets `assignee`.
    pub fn assignee(self, assignee: &str) -> (r: Self)
        ensures
            r == (ListIssuesBuilder { assignee: r.assignee, ..self }),
            text_of(r.assignee) == Some(assignee@),
    {
        ListIssuesBuilder { assignee: Some(assignee.to_owned()), ..self }
    }

    /// Sets `creator`.
    pub fn creator(self, creator: &str) -> (r: Self)
        ensures
            r == (ListIssuesBuilder { creator: r.creator, ..self }),
            text_of(r.creator) == Some(creator@),
    {
        ListIssuesBuilder { creator: Some(creator.to_owned()), ..self }
    }

    /// Sets `mentioned`.
    pub fn mentioned(self, mentioned: &str) -> (r: Self)
        ensures
            r == (ListIssuesBuilder { mentioned: r.mentioned, ..self }),
            text_of(r.mentioned) == Some(mentioned@),
    {
        ListIssuesBuilder { mentioned: Some(mentioned.to_owned()), ..self }
    }

    /// Sets `labels`.
    pub fn labels(self, labels: &str) -> (r: Self)
        ensures
            r == (ListIssuesBuilder { labels: r.labels, ..self }),
            text_of(r.labels) == Some(labels@),
    {
        ListIssuesBuilder { labels: Some(labels.to_owned()), ..self }
    }

    /// Sets `sort`.
    pub fn sort(self, sort: &str) -> (r: Self)
        ensures
            r == (ListIssuesBuilder { sort: r.sort, ..self }),
            text_of(r.sort) == Some(sort@),
    {
        ListIssuesBuilder { sort: Some(sort.to_owned()), ..self }
    }

    /// Sets `direction`.
    pub fn direction(self, direction: &str) -> (r: Self)
        ensures
            r == (ListIssuesBuilder { direction: r.direction, ..self }),
            text_of(r.direction) == Some(direction@),
    {
        ListIssuesBuilder { direction: Some(direction.to_owned()), ..self }
    }

    /// Sets `since`.
    pub fn since(self, since: &str) -> (r: Self)
        ensures
            r == (ListIssuesBuilder { since: r.since, ..self }),
            text_of(r.since) == Some(since@),
    {
        ListIssuesBuilder { since: Some(since.to_owned()), ..self }
    }

    /// Sets `per_page`.
    pub fn per_page(self, per_page: u8) -> (r: Self)
        ensures
            r == (ListIssuesBuilder { per_page: Some(per_page), ..self }),
    {
        ListIssuesBuilder { per_page: Some(per_page), ..self }
    }

    /// Sets `page`.
    pub fn page(self, page: u8) -> (r: Self)
        ensures
            r == (ListIssuesBuilder { page: Some(page), ..self }),
    {
        ListIssuesBuilder { page: Some(page), ..self }
    }
}

/// A builder for getting an issue.
#[derive(Clone, Debug)]
pub struct GetIssueBuilder<'a> {
    pub handler: &'a IssuesHandler<'a>,
    pub issue_number: u64,
    pub accept: Option<String>,
}

impl<'a> GetIssueBuilder<'a> {
    /// The builder with nothing set.
    pub open spec fn blank(handler: &'a IssuesHandler<'a>, issue_number: u64) -> Self {
        GetIssueBuilder { handler, issue_number, accept: None }
    }

    /// A builder with nothing set.
    pub fn new(handler: &'a IssuesHandler<'a>, issue_number: u64) -> (r: Self)
        ensures
            r == Self::blank(handler, issue_number),
    {
        GetIssueBuilder { handler, issue_number, accept: None }
    }

    /// What the request holds, as a mathematical value.
    pub open spec fn spec_request(&self) -> RequestView {
        RequestView {
            url: self.handler.client.base_url@ + "/repos/"@ + self.handler.owner@ + "/"@
                + self.handler.repo@ + "/issues/"@
                + decimal(self.issue_number as nat),
            headers: given("Authorization"@, self.handler.client.authorization())
                + given("Accept"@, text_of(self.accept)),
            query: seq![],
        }
    }

    /// The request that gets the issue.
    pub fn request(&self) -> (r: Request)
        ensures
            r@ == self.spec_request(),
    {
        let mut url = self.handler.client.base_url.clone();
        url.append("/repos/");
        url.append(self.handler.owner.as_str());
        url.append("/");
        url.append(self.handler.repo.as_str());
        url.append("/issues/");
        url.append(to_decimal(self.issue_number).as_str());
        let mut headers: Vec<(String, String)> = Vec::new();
        self.handler.client.authorize(&mut headers);
        push_text(&mut headers, "Accept", &self.accept);
        let query: Vec<(String, String)> = Vec::new();

        proof {
            assert(pairs(headers@) =~= self.spec_request().headers);
            assert(pairs(query@) =~= self.spec_request().query);
        }
        Request { url, headers, query }
    }

    /// Sets `accept`.
    pub fn accept(self, accept: &str) -> (r: Self)
        ensures
            r == (GetIssueBuilder { accept: r.accept, ..self }),
            text_of(r.accept) == Some(accept@),
    {
        GetIssueBuilder { accept: Some(accept.to_owned()), ..self }
    }
}

} // verus!
