//! The client: where the API lives and who asks.

use crate::events::EventsHandler;
use crate::http::{given, pairs, text_of};
use crate::issues::IssuesHandler;
use crate::pulls::PullsHandler;
use vstd::prelude::*;
use vstd::string::StringExecFns;

verus! {

/// A client for GitHub v3 API.
#[derive(Clone, Debug)]
pub struct Client {
    pub base_url: String,
    pub token: Option<String>,
}

impl Default for Client {
    fn default() -> (r: Self)
        ensures
            r.base_url@ == "https://api.github.com"@,
            r.token is None,
    {
        Self::new()
    }
}

impl Client {
    /// Create a `Client` for the public API, without a token.
    pub fn new() -> (r: Client)
        ensures
            r.base_url@ == "https://api.github.com"@,
            r.token is None,
    {
        Client { token: None, base_url: "https://api.github.com".to_owned() }
    }

    /// Set a personal access token.
    pub fn token(self, token: &str) -> (r: Self)
        ensures
            r.base_url == self.base_url,
            text_of(r.token) == Some(token@),
    {
        Client { token: Some(token.to_owned()), ..self }
    }

    /// Set a base URL, for an instance that is hosted elsewhere.
    pub fn base_url(self, base_url: &str) -> (r: Self)
        ensures
            r.base_url@ == base_url@,
            r.token == self.token,
    {
        Client { base_url: base_url.to_owned(), ..self }
    }

    /// Create a [`IssuesHandler`].
    pub fn issues(&self, owner: &str, repo: &str) -> (r: IssuesHandler<'_>)
        ensures
            r.client == self,
            r.owner@ == owner@,
            r.repo@ == repo@,
    {
        IssuesHandler::new(self, owner, repo)
    }

    /// Create a [`PullsHandler`].
    pub fn pulls(&self, owner: &str, repo: &str) -> (r: PullsHandler<'_>)
        ensures
            r.client == self,
            r.owner@ == owner@,
            r.repo@ == repo@,
    {
        PullsHandler::new(self, owner, repo)
    }

    /// Create a [`EventsHandler`].
    pub fn events(&self) -> (r: EventsHandler<'_>)
        ensures
            r.client == self,
    {
        EventsHandler::new(self)
    }

    /// The value of the `Authorization` header: the word `token`, a space
    /// and the token; `None` without a token.
    pub open spec fn authorization(&self) -> Option<Seq<char>> {
        match self.token {
            Some(token) => Some("token "@ + token@),
            None => None,
        }
    }

    /// Appends the `Authorization` header where the client has a token.
    pub(crate) fn authorize(&self, headers: &mut Vec<(String, String)>)
        ensures
            pairs(final(headers)@) == pairs(old(headers)@) + given(
                "Authorization"@,
                self.authorization(),
            ),
    {
        let ghost before = pairs(headers@);
        match &self.token {
            Some(token) => {
                let mut value = "token ".to_owned();
                value.append(token.as_str());
                headers.push(("Authorization".to_owned(), value));
                assert(pairs(headers@) =~= before + seq![("Authorization"@, "token "@ + token@)]);
            },
            None => {
                assert(pairs(headers@) =~= before + Seq::<(Seq<char>, Seq<char>)>::empty());
            },
        }
    }
}

} // verus!
