//! Records of the REST API, as its documents describe them.
//!
//! Each record decodes from a JSON object. A member that a record does not
//! name is ignored; a member it names must be there with a value of the
//! field's type, unless the field is an `Option`, which is `None` where the
//! member is missing or `null`. A record's fault is that of the first field,
//! in the order of declaration, whose member is refused.

pub mod event;
pub mod laws;

use crate::decode::{
    field, holds, holds_optional, optional, refused, refused_optional, Deserialize,
};
use crate::error::{DecodeError, Fault, Otherwise};
use crate::json::{is_null, json_of, member, Json};
use crate::time::Timestamp;
use serde_json::Value;
use vstd::prelude::*;

verus! {

/// A pull request.
#[derive(Clone, Debug)]
pub struct PullRequest {
    pub id: u64,
    pub url: String,
    pub html_url: String,
    pub diff_url: String,
    pub patch_url: String,
    pub issue_url: String,
    pub commits_url: String,
    pub review_comments_url: String,
    pub review_comment_url: String,
    pub comments_url: String,
    pub statuses_url: String,
    pub number: u64,
    pub state: String,
    pub title: String,
    pub body: String,
    pub labels: Vec<Label>,
    pub assignee: Option<User>,
    pub assignees: Vec<User>,
    pub requested_reviewers: Vec<User>,
    pub requested_teams: Vec<Team>,
    pub milestone: Option<Milestone>,
    pub locked: bool,
    pub active_lock_reason: Option<String>,
    pub created_at: Timestamp,
    pub updated_at: Option<Timestamp>,
    pub closed_at: Option<Timestamp>,
    pub merged_at: Option<Timestamp>,
    pub merge_commit_sha: Option<String>,
    pub head: Head,
    pub base: Base,
    pub links: Links,
    pub author_association: String,
    pub draft: bool,
    pub user: User,
}

impl Deserialize for PullRequest {
    open spec fn fault(j: Json) -> Option<Fault> {
        refused::<u64>(j, "id"@)
            .otherwise(refused::<String>(j, "url"@))
            .otherwise(refused::<String>(j, "html_url"@))
            .otherwise(refused::<String>(j, "diff_url"@))
            .otherwise(refused::<String>(j, "patch_url"@))
            .otherwise(refused::<String>(j, "issue_url"@))
            .otherwise(refused::<String>(j, "commits_url"@))
            .otherwise(refused::<String>(j, "review_comments_url"@))
            .otherwise(refused::<String>(j, "review_comment_url"@))
            .otherwise(refused::<String>(j, "comments_url"@))
            .otherwise(refused::<String>(j, "statuses_url"@))
            .otherwise(refused::<u64>(j, "number"@))
            .otherwise(refused::<String>(j, "state"@))
            .otherwise(refused::<String>(j, "title"@))
            .otherwise(refused::<String>(j, "body"@))
            .otherwise(refused::<Vec<Label>>(j, "labels"@))
            .otherwise(refused_optional::<User>(j, "assignee"@))
            .otherwise(refused::<Vec<User>>(j, "assignees"@))
            .otherwise(refused::<Vec<User>>(j, "requested_reviewers"@))
            .otherwise(refused::<Vec<Team>>(j, "requested_teams"@))
            .otherwise(refused_optional::<Milestone>(j, "milestone"@))
            .otherwise(refused::<bool>(j, "locked"@))
            .otherwise(refused_optional::<String>(j, "active_lock_reason"@))
            .otherwise(refused::<Timestamp>(j, "created_at"@))
            .otherwise(refused_optional::<Timestamp>(j, "updated_at"@))
            .otherwise(refused_optional::<Timestamp>(j, "closed_at"@))
            .otherwise(refused_optional::<Timestamp>(j, "merged_at"@))
            .otherwise(refused_optional::<String>(j, "merge_commit_sha"@))
            .otherwise(refused::<Head>(j, "head"@))
            .otherwise(refused::<Base>(j, "base"@))
            .otherwise(refused::<Links>(j, "_links"@))
            .otherwise(refused::<String>(j, "author_association"@))
            .otherwise(refused::<bool>(j, "draft"@))
            .otherwise(refused::<User>(j, "user"@))
    }

    open spec fn represents(&self, j: Json) -> bool {
        &&& holds(self.id, j, "id"@)
        &&& holds(self.url, j, "url"@)
        &&& holds(self.html_url, j, "html_url"@)
        &&& holds(self.diff_url, j, "diff_url"@)
        &&& holds(self.patch_url, j, "patch_url"@)
        &&& holds(self.issue_url, j, "issue_url"@)
        &&& holds(self.commits_url, j, "commits_url"@)
        &&& holds(self.review_comments_url, j, "review_comments_url"@)
        &&& holds(self.review_comment_url, j, "review_comment_url"@)
        &&& holds(self.comments_url, j, "comments_url"@)
        &&& holds(self.statuses_url, j, "statuses_url"@)
        &&& holds(self.number, j, "number"@)
        &&& holds(self.state, j, "state"@)
        &&& holds(self.title, j, "title"@)
        &&& holds(self.body, j, "body"@)
        &&& holds(self.labels, j, "labels"@)
        &&& holds_optional(self.assignee, j, "assignee"@)
        &&& holds(self.assignees, j, "assignees"@)
        &&& holds(self.requested_reviewers, j, "requested_reviewers"@)
        &&& holds(self.requested_teams, j, "requested_teams"@)
        &&& holds_optional(self.milestone, j, "milestone"@)
        &&& holds(self.locked, j, "locked"@)
        &&& holds_optional(self.active_lock_reason, j, "active_lock_reason"@)
        &&& holds(self.created_at, j, "created_at"@)
        &&& holds_optional(self.updated_at, j, "updated_at"@)
        &&& holds_optional(self.closed_at, j, "closed_at"@)
        &&& holds_optional(self.merged_at, j, "merged_at"@)
        &&& holds_optional(self.merge_commit_sha, j, "merge_commit_sha"@)
        &&& holds(self.head, j, "head"@)
        &&& holds(self.base, j, "base"@)
        &&& holds(self.links, j, "_links"@)
        &&& holds(self.author_association, j, "author_association"@)
        &&& holds(self.draft, j, "draft"@)
        &&& holds(self.user, j, "user"@)
    }

    fn deserialize(value: &Value) -> (r: Result<Self, DecodeError>) {
        Ok(
            PullRequest {
                id: field(value, "id")?,
                url: field(value, "url")?,
                html_url: field(value, "html_url")?,
                diff_url: field(value, "diff_url")?,
                patch_url: field(value, "patch_url")?,
                issue_url: field(value, "issue_url")?,
                commits_url: field(value, "commits_url")?,
                review_comments_url: field(value, "review_comments_url")?,
                review_comment_url: field(value, "review_comment_url")?,
                comments_url: field(value, "comments_url")?,
                statuses_url: field(value, "statuses_url")?,
                number: field(value, "number")?,
                state: field(value, "state")?,
                title: field(value, "title")?,
                body: field(value, "body")?,
                labels: field(value, "labels")?,
                assignee: optional(value, "assignee")?,
                assignees: field(value, "assignees")?,
                requested_reviewers: field(value, "requested_reviewers")?,
                requested_teams: field(value, "requested_teams")?,
                milestone: optional(value, "milestone")?,
                locked: field(value, "locked")?,
                active_lock_reason: optional(value, "active_lock_reason")?,
                created_at: field(value, "created_at")?,
                updated_at: optional(value, "updated_at")?,
                closed_at: optional(value, "closed_at")?,
                merged_at: optional(value, "merged_at")?,
                merge_commit_sha: optional(value, "merge_commit_sha")?,
                head: field(value, "head")?,
                base: field(value, "base")?,
                links: field(value, "_links")?,
                author_association: field(value, "author_association")?,
                draft: field(value, "draft")?,
                user: field(value, "user")?,
            },
        )
    }
}

/// An account.
#[derive(Clone, Debug)]
pub struct User {
    pub login: String,
    pub id: i64,
    pub node_id: String,
    pub avatar_url: String,
    pub gravatar_id: String,
    pub url: String,
    pub html_url: String,
    pub followers_url: String,
    pub following_url: String,
    pub gists_url: String,
    pub starred_url: String,
    pub subscriptions_url: String,
    pub organizations_url: String,
    pub repos_url: String,
    pub events_url: String,
    pub received_events_url: String,
    pub type_field: String,
    pub site_admin: bool,
}

impl Deserialize for User {
    open spec fn fault(j: Json) -> Option<Fault> {
        refused::<String>(j, "login"@)
            .otherwise(refused::<i64>(j, "id"@))
            .otherwise(refused::<String>(j, "node_id"@))
            .otherwise(refused::<String>(j, "avatar_url"@))
            .otherwise(refused::<String>(j, "gravatar_id"@))
            .otherwise(refused::<String>(j, "url"@))
            .otherwise(refused::<String>(j, "html_url"@))
            .otherwise(refused::<String>(j, "followers_url"@))
            .otherwise(refused::<String>(j, "following_url"@))
            .otherwise(refused::<String>(j, "gists_url"@))
            .otherwise(refused::<String>(j, "starred_url"@))
            .otherwise(refused::<String>(j, "subscriptions_url"@))
            .otherwise(refused::<String>(j, "organizations_url"@))
            .otherwise(refused::<String>(j, "repos_url"@))
            .otherwise(refused::<String>(j, "events_url"@))
            .otherwise(refused::<String>(j, "received_events_url"@))
            .otherwise(refused::<String>(j, "type"@))
            .otherwise(refused::<bool>(j, "site_admin"@))
    }

    open spec fn represents(&self, j: Json) -> bool {
        &&& holds(self.login, j, "login"@)
        &&& holds(self.id, j, "id"@)
        &&& holds(self.node_id, j, "node_id"@)
        &&& holds(self.avatar_url, j, "avatar_url"@)
        &&& holds(self.gravatar_id, j, "gravatar_id"@)
        &&& holds(self.url, j, "url"@)
        &&& holds(self.html_url, j, "html_url"@)
        &&& holds(self.followers_url, j, "followers_url"@)
        &&& holds(self.following_url, j, "following_url"@)
        &&& holds(self.gists_url, j, "gists_url"@)
        &&& holds(self.starred_url, j, "starred_url"@)
        &&& holds(self.subscriptions_url, j, "subscriptions_url"@)
        &&& holds(self.organizations_url, j, "organizations_url"@)
        &&& holds(self.repos_url, j, "repos_url"@)
        &&& holds(self.events_url, j, "events_url"@)
        &&& holds(self.received_events_url, j, "received_events_url"@)
        &&& holds(self.type_field, j, "type"@)
        &&& holds(self.site_admin, j, "site_admin"@)
    }

    fn deserialize(value: &Value) -> (r: Result<Self, DecodeError>) {
        Ok(
            User {
                login: field(value, "login")?,
                id: field(value, "id")?,
                node_id: field(value, "node_id")?,
                avatar_url: field(value, "avatar_url")?,
                gravatar_id: field(value, "gravatar_id")?,
                url: field(value, "url")?,
                html_url: field(value, "html_url")?,
                followers_url: field(value, "followers_url")?,
                following_url: field(value, "following_url")?,
                gists_url: field(value, "gists_url")?,
                starred_url: field(value, "starred_url")?,
                subscriptions_url: field(value, "subscriptions_url")?,
                organizations_url: field(value, "organizations_url")?,
                repos_url: field(value, "repos_url")?,
                events_url: field(value, "events_url")?,
                received_events_url: field(value, "received_events_url")?,
                type_field: field(value, "type")?,
                site_admin: field(value, "site_admin")?,
            },
        )
    }
}

/// A milestone of a repository.
#[derive(Clone, Debug)]
pub struct Milestone {
    pub url: String,
    pub html_url: String,
    pub labels_url: String,
    pub id: i64,
    pub node_id: String,
    pub number: i64,
    pub state: String,
    pub title: String,
    pub description: String,
    pub creator: User,
    pub open_issues: i64,
    pub closed_issues: i64,
    pub created_at: Timestamp,
    pub updated_at: Option<Timestamp>,
    pub closed_at: Option<Timestamp>,
    pub due_on: Option<Timestamp>,
}

impl Deserialize for Milestone {
    open spec fn fault(j: Json) -> Option<Fault> {
        refused::<String>(j, "url"@)
            .otherwise(refused::<String>(j, "html_url"@))
            .otherwise(refused::<String>(j, "labels_url"@))
            .otherwise(refused::<i64>(j, "id"@))
            .otherwise(refused::<String>(j, "node_id"@))
            .otherwise(refused::<i64>(j, "number"@))
            .otherwise(refused::<String>(j, "state"@))
            .otherwise(refused::<String>(j, "title"@))
            .otherwise(refused::<String>(j, "description"@))
            .otherwise(refused::<User>(j, "creator"@))
            .otherwise(refused::<i64>(j, "open_issues"@))
            .otherwise(refused::<i64>(j, "closed_issues"@))
            .otherwise(refused::<Timestamp>(j, "created_at"@))
            .otherwise(refused_optional::<Timestamp>(j, "updated_at"@))
            .otherwise(refused_optional::<Timestamp>(j, "closed_at"@))
            .otherwise(refused_optional::<Timestamp>(j, "due_on"@))
    }

    open spec fn represents(&self, j: Json) -> bool {
        &&& holds(self.url, j, "url"@)
        &&& holds(self.html_url, j, "html_url"@)
        &&& holds(self.labels_url, j, "labels_url"@)
        &&& holds(self.id, j, "id"@)
        &&& holds(self.node_id, j, "node_id"@)
        &&& holds(self.number, j, "number"@)
        &&& holds(self.state, j, "state"@)
        &&& holds(self.title, j, "title"@)
        &&& holds(self.description, j, "description"@)
        &&& holds(self.creator, j, "creator"@)
        &&& holds(self.open_issues, j, "open_issues"@)
        &&& holds(self.closed_issues, j, "closed_issues"@)
        &&& holds(self.created_at, j, "created_at"@)
        &&& holds_optional(self.updated_at, j, "updated_at"@)
        &&& holds_optional(self.closed_at, j, "closed_at"@)
        &&& holds_optional(self.due_on, j, "due_on"@)
    }

    fn deserialize(value: &Value) -> (r: Result<Self, DecodeError>) {
        Ok(
            Milestone {
                url: field(value, "url")?,
                html_url: field(value, "html_url")?,
                labels_url: field(value, "labels_url")?,
                id: field(value, "id")?,
                node_id: field(value, "node_id")?,
                number: field(value, "number")?,
                state: field(value, "state")?,
                title: field(value, "title")?,
                description: field(value, "description")?,
                creator: field(value, "creator")?,
                open_issues: field(value, "open_issues")?,
                closed_issues: field(value, "closed_issues")?,
                created_at: field(value, "created_at")?,
                updated_at: optional(value, "updated_at")?,
                closed_at: optional(value, "closed_at")?,
                due_on: optional(value, "due_on")?,
            },
        )
    }
}

/// A label of an issue or a pull request.
#[derive(Clone, Debug)]
pub struct Label {
    pub id: i64,
    pub node_id: String,
    pub url: String,
    pub name: String,
    pub description: Option<String>,
    pub color: String,
    pub default: bool,
}

impl Deserialize for Label {
    open spec fn fault(j: Json) -> Option<Fault> {
        refused::<i64>(j, "id"@)
            .otherwise(refused::<String>(j, "node_id"@))
            .otherwise(refused::<String>(j, "url"@))
            .otherwise(refused::<String>(j, "name"@))
            .otherwise(refused_optional::<String>(j, "description"@))
            .otherwise(refused::<String>(j, "color"@))
            .otherwise(refused::<bool>(j, "default"@))
    }

    open spec fn represents(&self, j: Json) -> bool {
        &&& holds(self.id, j, "id"@)
        &&& holds(self.node_id, j, "node_id"@)
        &&& holds(self.url, j, "url"@)
        &&& holds(self.name, j, "name"@)
        &&& holds_optional(self.description, j, "description"@)
        &&& holds(self.color, j, "color"@)
        &&& holds(self.default, j, "default"@)
    }

    fn deserialize(value: &Value) -> (r: Result<Self, DecodeError>) {
        Ok(
            Label {
                id: field(value, "id")?,
                node_id: field(value, "node_id")?,
                url: field(value, "url")?,
                name: field(value, "name")?,
                description: optional(value, "description")?,
                color: field(value, "color")?,
                default: field(value, "default")?,
            },
        )
    }
}

/// An issue.
#[derive(Clone, Debug)]
pub struct Issue {
    pub id: i64,
    pub node_id: String,
    pub url: String,
    pub repository_url: String,
    pub labels_url: String,
    pub comments_url: String,
    pub events_url: String,
    pub html_url: String,
    pub number: i64,
    pub state: String,
    pub title: String,
    pub body: String,
    pub user: User,
    pub labels: Vec<Label>,
    pub assignee: Option<User>,
    pub assignees: Vec<User>,
    pub milestone: Option<Milestone>,
    pub locked: bool,
    pub active_lock_reason: Option<String>,
    pub comments: u64,
    pub pull_request: Option<PullRequestLink>,
    pub closed_at: Option<Timestamp>,
    pub created_at: Timestamp,
    pub updated_at: Option<Timestamp>,
    pub author_association: String,
}

impl Deserialize for Issue {
    open spec fn fault(j: Json) -> Option<Fault> {
        refused::<i64>(j, "id"@)
            .otherwise(refused::<String>(j, "node_id"@))
            .otherwise(refused::<String>(j, "url"@))
            .otherwise(refused::<String>(j, "repository_url"@))
            .otherwise(refused::<String>(j, "labels_url"@))
            .otherwise(refused::<String>(j, "comments_url"@))
            .otherwise(refused::<String>(j, "events_url"@))
            .otherwise(refused::<String>(j, "html_url"@))
            .otherwise(refused::<i64>(j, "number"@))
            .otherwise(refused::<String>(j, "state"@))
            .otherwise(refused::<String>(j, "title"@))
            .otherwise(refused::<String>(j, "body"@))
            .otherwise(refused::<User>(j, "user"@))
            .otherwise(refused::<Vec<Label>>(j, "labels"@))
            .otherwise(refused_optional::<User>(j, "assignee"@))
            .otherwise(refused::<Vec<User>>(j, "assignees"@))
            .otherwise(refused_optional::<Milestone>(j, "milestone"@))
            .otherwise(refused::<bool>(j, "locked"@))
            .otherwise(refused_optional::<String>(j, "active_lock_reason"@))
            .otherwise(refused::<u64>(j, "comments"@))
            .otherwise(refused_optional::<PullRequestLink>(j, "pull_request"@))
            .otherwise(refused_optional::<Timestamp>(j, "closed_at"@))
            .otherwise(refused::<Timestamp>(j, "created_at"@))
            .otherwise(refused_optional::<Timestamp>(j, "updated_at"@))
            .otherwise(refused::<String>(j, "author_association"@))
    }

    open spec fn represents(&self, j: Json) -> bool {
        &&& holds(self.id, j, "id"@)
        &&& holds(self.node_id, j, "node_id"@)
        &&& holds(self.url, j, "url"@)
        &&& holds(self.repository_url, j, "repository_url"@)
        &&& holds(self.labels_url, j, "labels_url"@)
        &&& holds(self.comments_url, j, "comments_url"@)
        &&& holds(self.events_url, j, "events_url"@)
        &&& holds(self.html_url, j, "html_url"@)
        &&& holds(self.number, j, "number"@)
        &&& holds(self.state, j, "state"@)
        &&& holds(self.title, j, "title"@)
        &&& holds(self.body, j, "body"@)
        &&& holds(self.user, j, "user"@)
        &&& holds(self.labels, j, "labels"@)
        &&& holds_optional(self.assignee, j, "assignee"@)
        &&& holds(self.assignees, j, "assignees"@)
        &&& holds_optional(self.milestone, j, "milestone"@)
        &&& holds(self.locked, j, "locked"@)
        &&& holds_optional(self.active_lock_reason, j, "active_lock_reason"@)
        &&& holds(self.comments, j, "comments"@)
        &&& holds_optional(self.pull_request, j, "pull_request"@)
        &&& holds_optional(self.closed_at, j, "closed_at"@)
        &&& holds(self.created_at, j, "created_at"@)
        &&& holds_optional(self.updated_at, j, "updated_at"@)
        &&& holds(self.author_association, j, "author_association"@)
    }

    fn deserialize(value: &Value) -> (r: Result<Self, DecodeError>) {
        Ok(
            Issue {
                id: field(value, "id")?,
                node_id: field(value, "node_id")?,
                url: field(value, "url")?,
                repository_url: field(value, "repository_url")?,
                labels_url: field(value, "labels_url")?,
                comments_url: field(value, "comments_url")?,
                events_url: field(value, "events_url")?,
                html_url: field(value, "html_url")?,
                number: field(value, "number")?,
                state: field(value, "state")?,
                title: field(value, "title")?,
                body: field(value, "body")?,
                user: field(value, "user")?,
                labels: field(value, "labels")?,
                assignee: optional(value, "assignee")?,
                assignees: field(value, "assignees")?,
                milestone: optional(value, "milestone")?,
                locked: field(value, "locked")?,
                active_lock_reason: optional(value, "active_lock_reason")?,
                comments: field(value, "comments")?,
                pull_request: optional(value, "pull_request")?,
                closed_at: optional(value, "closed_at")?,
                created_at: field(value, "created_at")?,
                updated_at: optional(value, "updated_at")?,
                author_association: field(value, "author_association")?,
            },
        )
    }
}

/// Where the pull request behind an issue is found.
#[derive(Clone, Debug)]
pub struct PullRequestLink {
    pub url: String,
    pub html_url: String,
    pub diff_url: String,
    pub patch_url: String,
}

impl Deserialize for PullRequestLink {
    open spec fn fault(j: Json) -> Option<Fault> {
        refused::<String>(j, "url"@)
            .otherwise(refused::<String>(j, "html_url"@))
            .otherwise(refused::<String>(j, "diff_url"@))
            .otherwise(refused::<String>(j, "patch_url"@))
    }

    open spec fn represents(&self, j: Json) -> bool {
        &&& holds(self.url, j, "url"@)
        &&& holds(self.html_url, j, "html_url"@)
        &&& holds(self.diff_url, j, "diff_url"@)
        &&& holds(self.patch_url, j, "patch_url"@)
    }

    fn deserialize(value: &Value) -> (r: Result<Self, DecodeError>) {
        Ok(
            PullRequestLink {
                url: field(value, "url")?,
                html_url: field(value, "html_url")?,
                diff_url: field(value, "diff_url")?,
                patch_url: field(value, "patch_url")?,
            },
        )
    }
}

/// A comment on an issue, a pull request or a commit.
#[derive(Clone, Debug)]
pub struct Comment {
    pub id: u64,
    pub node_id: String,
    pub url: String,
    pub html_url: String,
    pub body: Option<String>,
    pub body_text: Option<String>,
    pub body_html: Option<String>,
    pub user: User,
    pub created_at: Timestamp,
    pub updated_at: Option<Timestamp>,
}

impl Deserialize for Comment {
    open spec fn fault(j: Json) -> Option<Fault> {
        refused::<u64>(j, "id"@)
            .otherwise(refused::<String>(j, "node_id"@))
            .otherwise(refused::<String>(j, "url"@))
            .otherwise(refused::<String>(j, "html_url"@))
            .otherwise(refused_optional::<String>(j, "body"@))
            .otherwise(refused_optional::<String>(j, "body_text"@))
            .otherwise(refused_optional::<String>(j, "body_html"@))
            .otherwise(refused::<User>(j, "user"@))
            .otherwise(refused::<Timestamp>(j, "created_at"@))
            .otherwise(refused_optional::<Timestamp>(j, "updated_at"@))
    }

    open spec fn represents(&self, j: Json) -> bool {
        &&& holds(self.id, j, "id"@)
        &&& holds(self.node_id, j, "node_id"@)
        &&& holds(self.url, j, "url"@)
        &&& holds(self.html_url, j, "html_url"@)
        &&& holds_optional(self.body, j, "body"@)
        &&& holds_optional(self.body_text, j, "body_text"@)
        &&& holds_optional(self.body_html, j, "body_html"@)
        &&& holds(self.user, j, "user"@)
        &&& holds(self.created_at, j, "created_at"@)
        &&& holds_optional(self.updated_at, j, "updated_at"@)
    }

    fn deserialize(value: &Value) -> (r: Result<Self, DecodeError>) {
        Ok(
            Comment {
                id: field(value, "id")?,
                node_id: field(value, "node_id")?,
                url: field(value, "url")?,
                html_url: field(value, "html_url")?,
                body: optional(value, "body")?,
                body_text: optional(value, "body_text")?,
                body_html: optional(value, "body_html")?,
                user: field(value, "user")?,
                created_at: field(value, "created_at")?,
                updated_at: optional(value, "updated_at")?,
            },
        )
    }
}

/// A team of an organization.
#[derive(Clone, Debug)]
pub struct Team {
    pub id: u64,
    pub node_id: String,
    pub url: String,
    pub html_url: String,
    pub name: String,
    pub slug: String,
    pub description: String,
    pub privacy: String,
    pub permission: String,
    pub members_url: String,
    pub repositories_url: String,
}

impl Deserialize for Team {
    open spec fn fault(j: Json) -> Option<Fault> {
        refused::<u64>(j, "id"@)
            .otherwise(refused::<String>(j, "node_id"@))
            .otherwise(refused::<String>(j, "url"@))
            .otherwise(refused::<String>(j, "html_url"@))
            .otherwise(refused::<String>(j, "name"@))
            .otherwise(refused::<String>(j, "slug"@))
            .otherwise(refused::<String>(j, "description"@))
            .otherwise(refused::<String>(j, "privacy"@))
            .otherwise(refused::<String>(j, "permission"@))
            .otherwise(refused::<String>(j, "members_url"@))
            .otherwise(refused::<String>(j, "repositories_url"@))
    }

    open spec fn represents(&self, j: Json) -> bool {
        &&& holds(self.id, j, "id"@)
        &&& holds(self.node_id, j, "node_id"@)
        &&& holds(self.url, j, "url"@)
        &&& holds(self.html_url, j, "html_url"@)
        &&& holds(self.name, j, "name"@)
        &&& holds(self.slug, j, "slug"@)
        &&& holds(self.description, j, "description"@)
        &&& holds(self.privacy, j, "privacy"@)
        &&& holds(self.permission, j, "permission"@)
        &&& holds(self.members_url, j, "members_url"@)
        &&& holds(self.repositories_url, j, "repositories_url"@)
    }

    fn deserialize(value: &Value) -> (r: Result<Self, DecodeError>) {
        Ok(
            Team {
                id: field(value, "id")?,
                node_id: field(value, "node_id")?,
                url: field(value, "url")?,
                html_url: field(value, "html_url")?,
                name: field(value, "name")?,
                slug: field(value, "slug")?,
                description: field(value, "description")?,
                privacy: field(value, "privacy")?,
                permission: field(value, "permission")?,
                members_url: field(value, "members_url")?,
                repositories_url: field(value, "repositories_url")?,
            },
        )
    }
}

/// The branch a pull request comes from.
#[derive(Clone, Debug)]
pub struct Head {
    pub label: String,
    pub ref_field: String,
    pub sha: String,
    pub user: User,
    pub repo: Repository,
}

impl Deserialize for Head {
    open spec fn fault(j: Json) -> Option<Fault> {
        refused::<String>(j, "label"@)
            .otherwise(refused::<String>(j, "ref"@))
            .otherwise(refused::<String>(j, "sha"@))
            .otherwise(refused::<User>(j, "user"@))
            .otherwise(refused::<Repository>(j, "repo"@))
    }

    open spec fn represents(&self, j: Json) -> bool {
        &&& holds(self.label, j, "label"@)
        &&& holds(self.ref_field, j, "ref"@)
        &&& holds(self.sha, j, "sha"@)
        &&& holds(self.user, j, "user"@)
        &&& holds(self.repo, j, "repo"@)
    }

    fn deserialize(value: &Value) -> (r: Result<Self, DecodeError>) {
        Ok(
            Head {
                label: field(value, "label")?,
                ref_field: field(value, "ref")?,
                sha: field(value, "sha")?,
                user: field(value, "user")?,
                repo: field(value, "repo")?,
            },
        )
    }
}

/// The branch a pull request is to be merged into.
#[derive(Clone, Debug)]
pub struct Base {
    pub label: String,
    pub ref_field: String,
    pub sha: String,
    pub user: User,
    pub repo: Repository,
}

impl Deserialize for Base {
    open spec fn fault(j: Json) -> Option<Fault> {
        refused::<String>(j, "label"@)
            .otherwise(refused::<String>(j, "ref"@))
            .otherwise(refused::<String>(j, "sha"@))
            .otherwise(refused::<User>(j, "user"@))
            .otherwise(refused::<Repository>(j, "repo"@))
    }

    open spec fn represents(&self, j: Json) -> bool {
        &&& holds(self.label, j, "label"@)
        &&& holds(self.ref_field, j, "ref"@)
        &&& holds(self.sha, j, "sha"@)
        &&& holds(self.user, j, "user"@)
        &&& holds(self.repo, j, "repo"@)
    }

    fn deserialize(value: &Value) -> (r: Result<Self, DecodeError>) {
        Ok(
            Base {
                label: field(value, "label")?,
                ref_field: field(value, "ref")?,
                sha: field(value, "sha")?,
                user: field(value, "user")?,
                repo: field(value, "repo")?,
            },
        )
    }
}

/// The links of a pull request.
#[derive(Clone, Debug)]
pub struct Links {
    pub self_link: SelfLink,
    pub html: HtmlLink,
    pub issue: IssueLink,
    pub comments: CommentsLink,
    pub review_comments: ReviewCommentsLink,
    pub review_comment: ReviewCommentLink,
    pub commits: CommitsLink,
    pub statuses: StatusesLink,
}

impl Deserialize for Links {
    open spec fn fault(j: Json) -> Option<Fault> {
        refused::<SelfLink>(j, "self"@)
            .otherwise(refused::<HtmlLink>(j, "html"@))
            .otherwise(refused::<IssueLink>(j, "issue"@))
            .otherwise(refused::<CommentsLink>(j, "comments"@))
            .otherwise(refused::<ReviewCommentsLink>(j, "review_comments"@))
            .otherwise(refused::<ReviewCommentLink>(j, "review_comment"@))
            .otherwise(refused::<CommitsLink>(j, "commits"@))
            .otherwise(refused::<StatusesLink>(j, "statuses"@))
    }

    open spec fn represents(&self, j: Json) -> bool {
        &&& holds(self.self_link, j, "self"@)
        &&& holds(self.html, j, "html"@)
        &&& holds(self.issue, j, "issue"@)
        &&& holds(self.comments, j, "comments"@)
        &&& holds(self.review_comments, j, "review_comments"@)
        &&& holds(self.review_comment, j, "review_comment"@)
        &&& holds(self.commits, j, "commits"@)
        &&& holds(self.statuses, j, "statuses"@)
    }

    fn deserialize(value: &Value) -> (r: Result<Self, DecodeError>) {
        Ok(
            Links {
                self_link: field(value, "self")?,
                html: field(value, "html")?,
                issue: field(value, "issue")?,
                comments: field(value, "comments")?,
                review_comments: field(value, "review_comments")?,
                review_comment: field(value, "review_comment")?,
                commits: field(value, "commits")?,
                statuses: field(value, "statuses")?,
            },
        )
    }
}

/// The link to the pull request itself.
#[derive(Clone, Debug)]
pub struct SelfLink {
    pub href: String,
}

impl Deserialize for SelfLink {
    open spec fn fault(j: Json) -> Option<Fault> {
        refused::<String>(j, "href"@)
    }

    open spec fn represents(&self, j: Json) -> bool {
        &&& holds(self.href, j, "href"@)
    }

    fn deserialize(value: &Value) -> (r: Result<Self, DecodeError>) {
        Ok(
            SelfLink {
                href: field(value, "href")?,
            },
        )
    }
}

/// The link to the page of a pull request.
#[derive(Clone, Debug)]
pub struct HtmlLink {
    pub href: String,
}

impl Deserialize for HtmlLink {
    open spec fn fault(j: Json) -> Option<Fault> {
        refused::<String>(j, "href"@)
    }

    open spec fn represents(&self, j: Json) -> bool {
        &&& holds(self.href, j, "href"@)
    }

    fn deserialize(value: &Value) -> (r: Result<Self, DecodeError>) {
        Ok(
            HtmlLink {
                href: field(value, "href")?,
            },
        )
    }
}

/// The link to the issue of a pull request.
#[derive(Clone, Debug)]
pub struct IssueLink {
    pub href: String,
}

impl Deserialize for IssueLink {
    open spec fn fault(j: Json) -> Option<Fault> {
        refused::<String>(j, "href"@)
    }

    open spec fn represents(&self, j: Json) -> bool {
        &&& holds(self.href, j, "href"@)
    }

    fn deserialize(value: &Value) -> (r: Result<Self, DecodeError>) {
        Ok(
            IssueLink {
                href: field(value, "href")?,
            },
        )
    }
}

/// The link to the comments of a pull request.
#[derive(Clone, Debug)]
pub struct CommentsLink {
    pub href: String,
}

impl Deserialize for CommentsLink {
    open spec fn fault(j: Json) -> Option<Fault> {
        refused::<String>(j, "href"@)
    }

    open spec fn represents(&self, j: Json) -> bool {
        &&& holds(self.href, j, "href"@)
    }

    fn deserialize(value: &Value) -> (r: Result<Self, DecodeError>) {
        Ok(
            CommentsLink {
                href: field(value, "href")?,
            },
        )
    }
}

/// The link to the review comments of a pull request.
#[derive(Clone, Debug)]
pub struct ReviewCommentsLink {
    pub href: String,
}

impl Deserialize for ReviewCommentsLink {
    open spec fn fault(j: Json) -> Option<Fault> {
        refused::<String>(j, "href"@)
    }

    open spec fn represents(&self, j: Json) -> bool {
        &&& holds(self.href, j, "href"@)
    }

    fn deserialize(value: &Value) -> (r: Result<Self, DecodeError>) {
        Ok(
            ReviewCommentsLink {
                href: field(value, "href")?,
            },
        )
    }
}

/// The link to one review comment of a pull request.
#[derive(Clone, Debug)]
pub struct ReviewCommentLink {
    pub href: String,
}

impl Deserialize for ReviewCommentLink {
    open spec fn fault(j: Json) -> Option<Fault> {
        refused::<String>(j, "href"@)
    }

    open spec fn represents(&self, j: Json) -> bool {
        &&& holds(self.href, j, "href"@)
    }

    fn deserialize(value: &Value) -> (r: Result<Self, DecodeError>) {
        Ok(
            ReviewCommentLink {
                href: field(value, "href")?,
            },
        )
    }
}

/// The link to the commits of a pull request.
#[derive(Clone, Debug)]
pub struct CommitsLink {
    pub href: String,
}

impl Deserialize for CommitsLink {
    open spec fn fault(j: Json) -> Option<Fault> {
        refused::<String>(j, "href"@)
    }

    open spec fn represents(&self, j: Json) -> bool {
        &&& holds(self.href, j, "href"@)
    }

    fn deserialize(value: &Value) -> (r: Result<Self, DecodeError>) {
        Ok(
            CommitsLink {
                href: field(value, "href")?,
            },
        )
    }
}

/// The link to the statuses of a pull request.
#[derive(Clone, Debug)]
pub struct StatusesLink {
    pub href: String,
}

impl Deserialize for StatusesLink {
    open spec fn fault(j: Json) -> Option<Fault> {
        refused::<String>(j, "href"@)
    }

    open spec fn represents(&self, j: Json) -> bool {
        &&& holds(self.href, j, "href"@)
    }

    fn deserialize(value: &Value) -> (r: Result<Self, DecodeError>) {
        Ok(
            StatusesLink {
                href: field(value, "href")?,
            },
        )
    }
}

/// A repository.
#[derive(Debug)]
pub struct Repository {
    pub id: u64,
    pub node_id: String,
    pub name: String,
    pub full_name: String,
    pub owner: User,
    pub private: bool,
    pub html_url: String,
    pub description: String,
    pub fork: bool,
    pub url: String,
    pub archive_url: String,
    pub assignees_url: String,
    pub blobs_url: String,
    pub branches_url: String,
    pub collaborators_url: String,
    pub comments_url: String,
    pub commits_url: String,
    pub compare_url: String,
    pub contents_url: String,
    pub contributors_url: String,
    pub deployments_url: String,
    pub downloads_url: String,
    pub events_url: String,
    pub forks_url: String,
    pub git_commits_url: String,
    pub git_refs_url: String,
    pub git_tags_url: String,
    pub git_url: String,
    pub issue_comment_url: String,
    pub issue_events_url: String,
    pub issues_url: String,
    pub keys_url: String,
    pub labels_url: String,
    pub languages_url: String,
    pub merges_url: String,
    pub milestones_url: String,
    pub notifications_url: String,
    pub pulls_url: String,
    pub releases_url: String,
    pub ssh_url: String,
    pub stargazers_url: String,
    pub statuses_url: String,
    pub subscribers_url: String,
    pub subscription_url: String,
    pub tags_url: String,
    pub teams_url: String,
    pub trees_url: String,
    pub clone_url: String,
    pub mirror_url: Option<String>,
    pub hooks_url: String,
    pub svn_url: Option<String>,
    pub homepage: Option<String>,
    pub language: Option<String>,
    pub forks_count: u64,
    pub stargazers_count: u64,
    pub watchers_count: u64,
    pub size: u64,
    pub default_branch: String,
    pub open_issues_count: u64,
    pub is_template: Option<bool>,
    pub topics: Option<Vec<String>>,
    pub has_issues: bool,
    pub has_projects: bool,
    pub has_wiki: bool,
    pub has_pages: bool,
    pub has_downloads: bool,
    pub archived: bool,
    pub disabled: bool,
    pub visibility: Option<String>,
    pub pushed_at: Option<Timestamp>,
    pub created_at: Timestamp,
    pub updated_at: Option<Timestamp>,
    pub permissions: Option<Permissions>,
    pub allow_rebase_merge: Option<bool>,
    pub template_repository: Option<Box<Repository>>,
    pub allow_squash_merge: Option<bool>,
    pub allow_merge_commit: Option<bool>,
    pub subscribers_count: Option<u64>,
    pub network_count: Option<u64>,
    pub license: Option<License>,
    pub forks: u64,
    pub open_issues: u64,
    pub watchers: u64,
}

/// The fault of the template a repository names: it is there, not `null`,
/// and refused as a repository.
pub open spec fn template_fault(j: Json) -> Option<Fault>
    decreases j, 0nat,
{
    if j.has("template_repository"@) && !(j.at("template_repository"@) is Null) {
        match repository_fault(j.at("template_repository"@)) {
            Some(f) => Some(Fault::In("template_repository"@, Box::new(f))),
            None => None,
        }
    } else {
        None
    }
}

/// Why a document is refused as a repository; `None` where it is accepted.
pub open spec fn repository_fault(j: Json) -> Option<Fault>
    decreases j, 1nat,
{
    refused::<u64>(j, "id"@)
        .otherwise(refused::<String>(j, "node_id"@))
        .otherwise(refused::<String>(j, "name"@))
        .otherwise(refused::<String>(j, "full_name"@))
        .otherwise(refused::<User>(j, "owner"@))
        .otherwise(refused::<bool>(j, "private"@))
        .otherwise(refused::<String>(j, "html_url"@))
        .otherwise(refused::<String>(j, "description"@))
        .otherwise(refused::<bool>(j, "fork"@))
        .otherwise(refused::<String>(j, "url"@))
        .otherwise(refused::<String>(j, "archive_url"@))
        .otherwise(refused::<String>(j, "assignees_url"@))
        .otherwise(refused::<String>(j, "blobs_url"@))
        .otherwise(refused::<String>(j, "branches_url"@))
        .otherwise(refused::<String>(j, "collaborators_url"@))
        .otherwise(refused::<String>(j, "comments_url"@))
        .otherwise(refused::<String>(j, "commits_url"@))
        .otherwise(refused::<String>(j, "compare_url"@))
        .otherwise(refused::<String>(j, "contents_url"@))
        .otherwise(refused::<String>(j, "contributors_url"@))
        .otherwise(refused::<String>(j, "deployments_url"@))
        .otherwise(refused::<String>(j, "downloads_url"@))
        .otherwise(refused::<String>(j, "events_url"@))
        .otherwise(refused::<String>(j, "forks_url"@))
        .otherwise(refused::<String>(j, "git_commits_url"@))
        .otherwise(refused::<String>(j, "git_refs_url"@))
        .otherwise(refused::<String>(j, "git_tags_url"@))
        .otherwise(refused::<String>(j, "git_url"@))
        .otherwise(refused::<String>(j, "issue_comment_url"@))
        .otherwise(refused::<String>(j, "issue_events_url"@))
        .otherwise(refused::<String>(j, "issues_url"@))
        .otherwise(refused::<String>(j, "keys_url"@))
        .otherwise(refused::<String>(j, "labels_url"@))
        .otherwise(refused::<String>(j, "languages_url"@))
        .otherwise(refused::<String>(j, "merges_url"@))
        .otherwise(refused::<String>(j, "milestones_url"@))
        .otherwise(refused::<String>(j, "notifications_url"@))
        .otherwise(refused::<String>(j, "pulls_url"@))
        .otherwise(refused::<String>(j, "releases_url"@))
        .otherwise(refused::<String>(j, "ssh_url"@))
        .otherwise(refused::<String>(j, "stargazers_url"@))
        .otherwise(refused::<String>(j, "statuses_url"@))
        .otherwise(refused::<String>(j, "subscribers_url"@))
        .otherwise(refused::<String>(j, "subscription_url"@))
        .otherwise(refused::<String>(j, "tags_url"@))
        .otherwise(refused::<String>(j, "teams_url"@))
        .otherwise(refused::<String>(j, "trees_url"@))
        .otherwise(refused::<String>(j, "clone_url"@))
        .otherwise(refused_optional::<String>(j, "mirror_url"@))
        .otherwise(refused::<String>(j, "hooks_url"@))
        .otherwise(refused_optional::<String>(j, "svn_url"@))
        .otherwise(refused_optional::<String>(j, "homepage"@))
        .otherwise(refused_optional::<String>(j, "language"@))
        .otherwise(refused::<u64>(j, "forks_count"@))
        .otherwise(refused::<u64>(j, "stargazers_count"@))
        .otherwise(refused::<u64>(j, "watchers_count"@))
        .otherwise(refused::<u64>(j, "size"@))
        .otherwise(refused::<String>(j, "default_branch"@))
        .otherwise(refused::<u64>(j, "open_issues_count"@))
        .otherwise(refused_optional::<bool>(j, "is_template"@))
        .otherwise(refused_optional::<Vec<String>>(j, "topics"@))
        .otherwise(refused::<bool>(j, "has_issues"@))
        .otherwise(refused::<bool>(j, "has_projects"@))
        .otherwise(refused::<bool>(j, "has_wiki"@))
        .otherwise(refused::<bool>(j, "has_pages"@))
        .otherwise(refused::<bool>(j, "has_downloads"@))
        .otherwise(refused::<bool>(j, "archived"@))
        .otherwise(refused::<bool>(j, "disabled"@))
        .otherwise(refused_optional::<String>(j, "visibility"@))
        .otherwise(refused_optional::<Timestamp>(j, "pushed_at"@))
        .otherwise(refused::<Timestamp>(j, "created_at"@))
        .otherwise(refused_optional::<Timestamp>(j, "updated_at"@))
        .otherwise(refused_optional::<Permissions>(j, "permissions"@))
        .otherwise(refused_optional::<bool>(j, "allow_rebase_merge"@))
        .otherwise(template_fault(j))
        .otherwise(refused_optional::<bool>(j, "allow_squash_merge"@))
        .otherwise(refused_optional::<bool>(j, "allow_merge_commit"@))
        .otherwise(refused_optional::<u64>(j, "subscribers_count"@))
        .otherwise(refused_optional::<u64>(j, "network_count"@))
        .otherwise(refused_optional::<License>(j, "license"@))
        .otherwise(refused::<u64>(j, "forks"@))
        .otherwise(refused::<u64>(j, "open_issues"@))
        .otherwise(refused::<u64>(j, "watchers"@))
}

/// `template` holds what the template named by `j` says, and is `None`
/// exactly where `j` names none.
pub open spec fn template_represents(template: Option<Box<Repository>>, j: Json) -> bool
    decreases template, 0nat,
{
    match template {
        Some(t) => !j.absent("template_repository"@) && repository_represents(
            *t,
            j.at("template_repository"@),
        ),
        None => j.absent("template_repository"@),
    }
}

/// `repository` holds what the accepted document `j` says.
pub open spec fn repository_represents(repository: Repository, j: Json) -> bool
    decreases repository, 1nat,
{
    &&& holds(repository.id, j, "id"@)
    &&& holds(repository.node_id, j, "node_id"@)
    &&& holds(repository.name, j, "name"@)
    &&& holds(repository.full_name, j, "full_name"@)
    &&& holds(repository.owner, j, "owner"@)
    &&& holds(repository.private, j, "private"@)
    &&& holds(repository.html_url, j, "html_url"@)
    &&& holds(repository.description, j, "description"@)
    &&& holds(repository.fork, j, "fork"@)
    &&& holds(repository.url, j, "url"@)
    &&& holds(repository.archive_url, j, "archive_url"@)
    &&& holds(repository.assignees_url, j, "assignees_url"@)
    &&& holds(repository.blobs_url, j, "blobs_url"@)
    &&& holds(repository.branches_url, j, "branches_url"@)
    &&& holds(repository.collaborators_url, j, "collaborators_url"@)
    &&& holds(repository.comments_url, j, "comments_url"@)
    &&& holds(repository.commits_url, j, "commits_url"@)
    &&& holds(repository.compare_url, j, "compare_url"@)
    &&& holds(repository.contents_url, j, "contents_url"@)
    &&& holds(repository.contributors_url, j, "contributors_url"@)
    &&& holds(repository.deployments_url, j, "deployments_url"@)
    &&& holds(repository.downloads_url, j, "downloads_url"@)
    &&& holds(repository.events_url, j, "events_url"@)
    &&& holds(repository.forks_url, j, "forks_url"@)
    &&& holds(repository.git_commits_url, j, "git_commits_url"@)
    &&& holds(repository.git_refs_url, j, "git_refs_url"@)
    &&& holds(repository.git_tags_url, j, "git_tags_url"@)
    &&& holds(repository.git_url, j, "git_url"@)
    &&& holds(repository.issue_comment_url, j, "issue_comment_url"@)
    &&& holds(repository.issue_events_url, j, "issue_events_url"@)
    &&& holds(repository.issues_url, j, "issues_url"@)
    &&& holds(repository.keys_url, j, "keys_url"@)
    &&& holds(repository.labels_url, j, "labels_url"@)
    &&& holds(repository.languages_url, j, "languages_url"@)
    &&& holds(repository.merges_url, j, "merges_url"@)
    &&& holds(repository.milestones_url, j, "milestones_url"@)
    &&& holds(repository.notifications_url, j, "notifications_url"@)
    &&& holds(repository.pulls_url, j, "pulls_url"@)
    &&& holds(repository.releases_url, j, "releases_url"@)
    &&& holds(repository.ssh_url, j, "ssh_url"@)
    &&& holds(repository.stargazers_url, j, "stargazers_url"@)
    &&& holds(repository.statuses_url, j, "statuses_url"@)
    &&& holds(repository.subscribers_url, j, "subscribers_url"@)
    &&& holds(repository.subscription_url, j, "subscription_url"@)
    &&& holds(repository.tags_url, j, "tags_url"@)
    &&& holds(repository.teams_url, j, "teams_url"@)
    &&& holds(repository.trees_url, j, "trees_url"@)
    &&& holds(repository.clone_url, j, "clone_url"@)
    &&& holds_optional(repository.mirror_url, j, "mirror_url"@)
    &&& holds(repository.hooks_url, j, "hooks_url"@)
    &&& holds_optional(repository.svn_url, j, "svn_url"@)
    &&& holds_optional(repository.homepage, j, "homepage"@)
    &&& holds_optional(repository.language, j, "language"@)
    &&& holds(repository.forks_count, j, "forks_count"@)
    &&& holds(repository.stargazers_count, j, "stargazers_count"@)
    &&& holds(repository.watchers_count, j, "watchers_count"@)
    &&& holds(repository.size, j, "size"@)
    &&& holds(repository.default_branch, j, "default_branch"@)
    &&& holds(repository.open_issues_count, j, "open_issues_count"@)
    &&& holds_optional(repository.is_template, j, "is_template"@)
    &&& holds_optional(repository.topics, j, "topics"@)
    &&& holds(repository.has_issues, j, "has_issues"@)
    &&& holds(repository.has_projects, j, "has_projects"@)
    &&& holds(repository.has_wiki, j, "has_wiki"@)
    &&& holds(repository.has_pages, j, "has_pages"@)
    &&& holds(repository.has_downloads, j, "has_downloads"@)
    &&& holds(repository.archived, j, "archived"@)
    &&& holds(repository.disabled, j, "disabled"@)
    &&& holds_optional(repository.visibility, j, "visibility"@)
    &&& holds_optional(repository.pushed_at, j, "pushed_at"@)
    &&& holds(repository.created_at, j, "created_at"@)
    &&& holds_optional(repository.updated_at, j, "updated_at"@)
    &&& holds_optional(repository.permissions, j, "permissions"@)
    &&& holds_optional(repository.allow_rebase_merge, j, "allow_rebase_merge"@)
    &&& template_represents(repository.template_repository, j)
    &&& holds_optional(repository.allow_squash_merge, j, "allow_squash_merge"@)
    &&& holds_optional(repository.allow_merge_commit, j, "allow_merge_commit"@)
    &&& holds_optional(repository.subscribers_count, j, "subscribers_count"@)
    &&& holds_optional(repository.network_count, j, "network_count"@)
    &&& holds_optional(repository.license, j, "license"@)
    &&& holds(repository.forks, j, "forks"@)
    &&& holds(repository.open_issues, j, "open_issues"@)
    &&& holds(repository.watchers, j, "watchers"@)
}

/// Decodes the template a repository names, if it names one.
fn template(value: &Value) -> (r: Result<Option<Box<Repository>>, DecodeError>)
    ensures
        match r {
            Ok(t) => template_fault(json_of(*value)) is None && template_represents(
                t,
                json_of(*value),
            ),
            Err(e) => template_fault(json_of(*value)) == Some(e@),
        },
    decreases json_of(*value), 0nat,
{
    match member(value, "template_repository") {
        Some(m) => {
            if is_null(m) {
                Ok(None)
            } else {
                match repository(m) {
                    Ok(t) => Ok(Some(Box::new(t))),
                    Err(e) => Err(DecodeError::In("template_repository".to_owned(), Box::new(e))),
                }
            }
        },
        None => Ok(None),
    }
}

/// Decodes a repository.
fn repository(value: &Value) -> (r: Result<Repository, DecodeError>)
    ensures
        match r {
            Ok(x) => repository_fault(json_of(*value)) is None && repository_represents(
                x,
                json_of(*value),
            ),
            Err(e) => repository_fault(json_of(*value)) == Some(e@),
        },
    decreases json_of(*value), 1nat,
{
    Ok(
        Repository {
            id: field(value, "id")?,
            node_id: field(value, "node_id")?,
            name: field(value, "name")?,
            full_name: field(value, "full_name")?,
            owner: field(value, "owner")?,
            private: field(value, "private")?,
            html_url: field(value, "html_url")?,
            description: field(value, "description")?,
            fork: field(value, "fork")?,
            url: field(value, "url")?,
            archive_url: field(value, "archive_url")?,
            assignees_url: field(value, "assignees_url")?,
            blobs_url: field(value, "blobs_url")?,
            branches_url: field(value, "branches_url")?,
            collaborators_url: field(value, "collaborators_url")?,
            comments_url: field(value, "comments_url")?,
            commits_url: field(value, "commits_url")?,
            compare_url: field(value, "compare_url")?,
            contents_url: field(value, "contents_url")?,
            contributors_url: field(value, "contributors_url")?,
            deployments_url: field(value, "deployments_url")?,
            downloads_url: field(value, "downloads_url")?,
            events_url: field(value, "events_url")?,
            forks_url: field(value, "forks_url")?,
            git_commits_url: field(value, "git_commits_url")?,
            git_refs_url: field(value, "git_refs_url")?,
            git_tags_url: field(value, "git_tags_url")?,
            git_url: field(value, "git_url")?,
            issue_comment_url: field(value, "issue_comment_url")?,
            issue_events_url: field(value, "issue_events_url")?,
            issues_url: field(value, "issues_url")?,
            keys_url: field(value, "keys_url")?,
            labels_url: field(value, "labels_url")?,
            languages_url: field(value, "languages_url")?,
            merges_url: field(value, "merges_url")?,
            milestones_url: field(value, "milestones_url")?,
            notifications_url: field(value, "notifications_url")?,
            pulls_url: field(value, "pulls_url")?,
            releases_url: field(value, "releases_url")?,
            ssh_url: field(value, "ssh_url")?,
            stargazers_url: field(value, "stargazers_url")?,
            statuses_url: field(value, "statuses_url")?,
            subscribers_url: field(value, "subscribers_url")?,
            subscription_url: field(value, "subscription_url")?,
            tags_url: field(value, "tags_url")?,
            teams_url: field(value, "teams_url")?,
            trees_url: field(value, "trees_url")?,
            clone_url: field(value, "clone_url")?,
            mirror_url: optional(value, "mirror_url")?,
            hooks_url: field(value, "hooks_url")?,
            svn_url: optional(value, "svn_url")?,
            homepage: optional(value, "homepage")?,
            language: optional(value, "language")?,
            forks_count: field(value, "forks_count")?,
            stargazers_count: field(value, "stargazers_count")?,
            watchers_count: field(value, "watchers_count")?,
            size: field(value, "size")?,
            default_branch: field(value, "default_branch")?,
            open_issues_count: field(value, "open_issues_count")?,
            is_template: optional(value, "is_template")?,
            topics: optional(value, "topics")?,
            has_issues: field(value, "has_issues")?,
            has_projects: field(value, "has_projects")?,
            has_wiki: field(value, "has_wiki")?,
            has_pages: field(value, "has_pages")?,
            has_downloads: field(value, "has_downloads")?,
            archived: field(value, "archived")?,
            disabled: field(value, "disabled")?,
            visibility: optional(value, "visibility")?,
            pushed_at: optional(value, "pushed_at")?,
            created_at: field(value, "created_at")?,
            updated_at: optional(value, "updated_at")?,
            permissions: optional(value, "permissions")?,
            allow_rebase_merge: optional(value, "allow_rebase_merge")?,
            template_repository: template(value)?,
            allow_squash_merge: optional(value, "allow_squash_merge")?,
            allow_merge_commit: optional(value, "allow_merge_commit")?,
            subscribers_count: optional(value, "subscribers_count")?,
            network_count: optional(value, "network_count")?,
            license: optional(value, "license")?,
            forks: field(value, "forks")?,
            open_issues: field(value, "open_issues")?,
            watchers: field(value, "watchers")?,
        },
    )
}

impl Deserialize for Repository {
    open spec fn fault(j: Json) -> Option<Fault> {
        repository_fault(j)
    }

    open spec fn represents(&self, j: Json) -> bool {
        repository_represents(*self, j)
    }

    fn deserialize(value: &Value) -> (r: Result<Self, DecodeError>) {
        repository(value)
    }
}

/// `copy` agrees with `repository` in every field that is a text, a number,
/// a flag or an instant.
pub open spec fn agrees(copy: Repository, repository: Repository) -> bool {
    &&& copy.id == repository.id
    &&& copy.node_id == repository.node_id
    &&& copy.name == repository.name
    &&& copy.full_name == repository.full_name
    &&& copy.private == repository.private
    &&& copy.html_url == repository.html_url
    &&& copy.description == repository.description
    &&& copy.fork == repository.fork
    &&& copy.url == repository.url
    &&& copy.archive_url == repository.archive_url
    &&& copy.assignees_url == repository.assignees_url
    &&& copy.blobs_url == repository.blobs_url
    &&& copy.branches_url == repository.branches_url
    &&& copy.collaborators_url == repository.collaborators_url
    &&& copy.comments_url == repository.comments_url
    &&& copy.commits_url == repository.commits_url
    &&& copy.compare_url == repository.compare_url
    &&& copy.contents_url == repository.contents_url
    &&& copy.contributors_url == repository.contributors_url
    &&& copy.deployments_url == repository.deployments_url
    &&& copy.downloads_url == repository.downloads_url
    &&& copy.events_url == repository.events_url
    &&& copy.forks_url == repository.forks_url
    &&& copy.git_commits_url == repository.git_commits_url
    &&& copy.git_refs_url == repository.git_refs_url
    &&& copy.git_tags_url == repository.git_tags_url
    &&& copy.git_url == repository.git_url
    &&& copy.issue_comment_url == repository.issue_comment_url
    &&& copy.issue_events_url == repository.issue_events_url
    &&& copy.issues_url == repository.issues_url
    &&& copy.keys_url == repository.keys_url
    &&& copy.labels_url == repository.labels_url
    &&& copy.languages_url == repository.languages_url
    &&& copy.merges_url == repository.merges_url
    &&& copy.milestones_url == repository.milestones_url
    &&& copy.notifications_url == repository.notifications_url
    &&& copy.pulls_url == repository.pulls_url
    &&& copy.releases_url == repository.releases_url
    &&& copy.ssh_url == repository.ssh_url
    &&& copy.stargazers_url == repository.stargazers_url
    &&& copy.statuses_url == repository.statuses_url
    &&& copy.subscribers_url == repository.subscribers_url
    &&& copy.subscription_url == repository.subscription_url
    &&& copy.tags_url == repository.tags_url
    &&& copy.teams_url == repository.teams_url
    &&& copy.trees_url == repository.trees_url
    &&& copy.clone_url == repository.clone_url
    &&& copy.mirror_url == repository.mirror_url
    &&& copy.hooks_url == repository.hooks_url
    &&& copy.svn_url == repository.svn_url
    &&& copy.homepage == repository.homepage
    &&& copy.language == repository.language
    &&& copy.forks_count == repository.forks_count
    &&& copy.stargazers_count == repository.stargazers_count
    &&& copy.watchers_count == repository.watchers_count
    &&& copy.size == repository.size
    &&& copy.default_branch == repository.default_branch
    &&& copy.open_issues_count == repository.open_issues_count
    &&& copy.is_template == repository.is_template
    &&& copy.has_issues == repository.has_issues
    &&& copy.has_projects == repository.has_projects
    &&& copy.has_wiki == repository.has_wiki
    &&& copy.has_pages == repository.has_pages
    &&& copy.has_downloads == repository.has_downloads
    &&& copy.archived == repository.archived
    &&& copy.disabled == repository.disabled
    &&& copy.visibility == repository.visibility
    &&& copy.pushed_at == repository.pushed_at
    &&& copy.created_at == repository.created_at
    &&& copy.updated_at == repository.updated_at
    &&& copy.allow_rebase_merge == repository.allow_rebase_merge
    &&& copy.allow_squash_merge == repository.allow_squash_merge
    &&& copy.allow_merge_commit == repository.allow_merge_commit
    &&& copy.subscribers_count == repository.subscribers_count
    &&& copy.network_count == repository.network_count
    &&& copy.forks == repository.forks
    &&& copy.open_issues == repository.open_issues
    &&& copy.watchers == repository.watchers
}

/// A copy of an optional text.
fn copied(text: &Option<String>) -> (r: Option<String>)
    ensures
        r == *text,
{
    match text {
        Some(t) => Some(t.clone()),
        None => None,
    }
}

/// A copy of a repository, its template included.
fn duplicate(repository: &Repository) -> (r: Repository)
    ensures
        agrees(r, *repository),
    decreases repository,
{
    Repository {
        id: repository.id,
        node_id: repository.node_id.clone(),
        name: repository.name.clone(),
        full_name: repository.full_name.clone(),
        owner: repository.owner.clone(),
        private: repository.private,
        html_url: repository.html_url.clone(),
        description: repository.description.clone(),
        fork: repository.fork,
        url: repository.url.clone(),
        archive_url: repository.archive_url.clone(),
        assignees_url: repository.assignees_url.clone(),
        blobs_url: repository.blobs_url.clone(),
        branches_url: repository.branches_url.clone(),
        collaborators_url: repository.collaborators_url.clone(),
        comments_url: repository.comments_url.clone(),
        commits_url: repository.commits_url.clone(),
        compare_url: repository.compare_url.clone(),
        contents_url: repository.contents_url.clone(),
        contributors_url: repository.contributors_url.clone(),
        deployments_url: repository.deployments_url.clone(),
        downloads_url: repository.downloads_url.clone(),
        events_url: repository.events_url.clone(),
        forks_url: repository.forks_url.clone(),
        git_commits_url: repository.git_commits_url.clone(),
        git_refs_url: repository.git_refs_url.clone(),
        git_tags_url: repository.git_tags_url.clone(),
        git_url: repository.git_url.clone(),
        issue_comment_url: repository.issue_comment_url.clone(),
        issue_events_url: repository.issue_events_url.clone(),
        issues_url: repository.issues_url.clone(),
        keys_url: repository.keys_url.clone(),
        labels_url: repository.labels_url.clone(),
        languages_url: repository.languages_url.clone(),
        merges_url: repository.merges_url.clone(),
        milestones_url: repository.milestones_url.clone(),
        notifications_url: repository.notifications_url.clone(),
        pulls_url: repository.pulls_url.clone(),
        releases_url: repository.releases_url.clone(),
        ssh_url: repository.ssh_url.clone(),
        stargazers_url: repository.stargazers_url.clone(),
        statuses_url: repository.statuses_url.clone(),
        subscribers_url: repository.subscribers_url.clone(),
        subscription_url: repository.subscription_url.clone(),
        tags_url: repository.tags_url.clone(),
        teams_url: repository.teams_url.clone(),
        trees_url: repository.trees_url.clone(),
        clone_url: repository.clone_url.clone(),
        mirror_url: copied(&repository.mirror_url),
        hooks_url: repository.hooks_url.clone(),
        svn_url: copied(&repository.svn_url),
        homepage: copied(&repository.homepage),
        language: copied(&repository.language),
        forks_count: repository.forks_count,
        stargazers_count: repository.stargazers_count,
        watchers_count: repository.watchers_count,
        size: repository.size,
        default_branch: repository.default_branch.clone(),
        open_issues_count: repository.open_issues_count,
        is_template: repository.is_template,
        topics: repository.topics.clone(),
        has_issues: repository.has_issues,
        has_projects: repository.has_projects,
        has_wiki: repository.has_wiki,
        has_pages: repository.has_pages,
        has_downloads: repository.has_downloads,
        archived: repository.archived,
        disabled: repository.disabled,
        visibility: copied(&repository.visibility),
        pushed_at: repository.pushed_at,
        created_at: repository.created_at,
        updated_at: repository.updated_at,
        permissions: repository.permissions.clone(),
        allow_rebase_merge: repository.allow_rebase_merge,
        template_repository: match &repository.template_repository {
            Some(t) => Some(Box::new(duplicate(&**t))),
            None => None,
        },
        allow_squash_merge: repository.allow_squash_merge,
        allow_merge_commit: repository.allow_merge_commit,
        subscribers_count: repository.subscribers_count,
        network_count: repository.network_count,
        license: repository.license.clone(),
        forks: repository.forks,
        open_issues: repository.open_issues,
        watchers: repository.watchers,
    }
}

impl Clone for Repository {
    fn clone(&self) -> (r: Self)
        ensures
            agrees(r, *self),
    {
        duplicate(self)
    }
}

/// What the caller may do with a repository.
#[derive(Clone, Debug)]
pub struct Permissions {
    pub admin: bool,
    pub push: bool,
    pub pull: bool,
}

impl Deserialize for Permissions {
    open spec fn fault(j: Json) -> Option<Fault> {
        refused::<bool>(j, "admin"@)
            .otherwise(refused::<bool>(j, "push"@))
            .otherwise(refused::<bool>(j, "pull"@))
    }

    open spec fn represents(&self, j: Json) -> bool {
        &&& holds(self.admin, j, "admin"@)
        &&& holds(self.push, j, "push"@)
        &&& holds(self.pull, j, "pull"@)
    }

    fn deserialize(value: &Value) -> (r: Result<Self, DecodeError>) {
        Ok(
            Permissions {
                admin: field(value, "admin")?,
                push: field(value, "push")?,
                pull: field(value, "pull")?,
            },
        )
    }
}

/// The license of a repository.
#[derive(Clone, Debug)]
pub struct License {
    pub key: String,
    pub name: String,
    pub url: Option<String>,
    pub node_id: String,
    pub spdx_id: String,
    pub html_url: Option<String>,
}

impl Deserialize for License {
    open spec fn fault(j: Json) -> Option<Fault> {
        refused::<String>(j, "key"@)
            .otherwise(refused::<String>(j, "name"@))
            .otherwise(refused_optional::<String>(j, "url"@))
            .otherwise(refused::<String>(j, "node_id"@))
            .otherwise(refused::<String>(j, "spdx_id"@))
            .otherwise(refused_optional::<String>(j, "html_url"@))
    }

    open spec fn represents(&self, j: Json) -> bool {
        &&& holds(self.key, j, "key"@)
        &&& holds(self.name, j, "name"@)
        &&& holds_optional(self.url, j, "url"@)
        &&& holds(self.node_id, j, "node_id"@)
        &&& holds(self.spdx_id, j, "spdx_id"@)
        &&& holds_optional(self.html_url, j, "html_url"@)
    }

    fn deserialize(value: &Value) -> (r: Result<Self, DecodeError>) {
        Ok(
            License {
                key: field(value, "key")?,
                name: field(value, "name")?,
                url: optional(value, "url")?,
                node_id: field(value, "node_id")?,
                spdx_id: field(value, "spdx_id")?,
                html_url: optional(value, "html_url")?,
            },
        )
    }
}

} // verus!
