//! Activity events and their payloads.
//!
//! The kind of an event decides the schema of its payload, so the two are
//! decoded together: first the kind, then the payload against the schema of
//! that kind. A payload of a kind that is not modelled is dropped, which is
//! no error.

use super::{Comment, Issue, Label, PullRequest, User};
use crate::decode::{
    field, holds, holds_optional, optional, refused, refused_optional, unless, Deserialize,
};
use crate::error::{DecodeError, Fault, Otherwise, Shape};
use crate::json::{as_str, is_null, json_of, member, Json};
use crate::time::Timestamp;
use serde_json::Value;
use vstd::prelude::*;

verus! {

/// An activity event.
#[derive(Clone, Debug)]
pub struct Event {
    pub id: String,
    pub type_field: EventType,
    pub actor: Actor,
    pub repo: Repository,
    pub public: bool,
    pub created_at: Timestamp,
    pub payload: Option<Payload>,
    pub org: Option<Org>,
}

impl Event {
    /// The payload, where there is one, is the variant of the event's kind.
    pub open spec fn consistent(&self) -> bool {
        match self.payload {
            Some(Payload::IssuesEventPayload(_)) => self.type_field == EventType::IssuesEvent,
            Some(Payload::PullRequestEventPayload(_)) => self.type_field
                == EventType::PullRequestEvent,
            Some(Payload::PullRequestReviewCommentEventPayload(_)) => self.type_field
                == EventType::PullRequestReviewCommentEvent,
            Some(Payload::IssueCommentEventPayload(_)) => self.type_field
                == EventType::IssueCommentEvent,
            Some(Payload::CommitCommentEventPayload(_)) => self.type_field
                == EventType::CommitCommentEvent,
            None => true,
        }
    }
}

/// The fault of the payload of an event document: there is a payload, not
/// `null`, and the schema of the event's kind refuses it.
pub open spec fn event_payload_fault(j: Json) -> Option<Fault> {
    if j.absent("payload"@) {
        None
    } else {
        payload_fault(EventType::named(j.at("type"@)->Str_0), j.at("payload"@))
    }
}

/// `payload` holds what the payload of an event document of kind `kind`
/// says, and is `None` where the document has none.
pub open spec fn event_payload_represents(
    payload: Option<Payload>,
    kind: EventType,
    j: Json,
) -> bool {
    if j.absent("payload"@) {
        payload is None
    } else {
        payload_represents(payload, kind, j.at("payload"@))
    }
}

impl Deserialize for Event {
    open spec fn fault(j: Json) -> Option<Fault> {
        refused::<String>(j, "id"@)
            .otherwise(refused::<EventType>(j, "type"@))
            .otherwise(refused::<Actor>(j, "actor"@))
            .otherwise(refused::<Repository>(j, "repo"@))
            .otherwise(refused::<bool>(j, "public"@))
            .otherwise(refused::<Timestamp>(j, "created_at"@))
            .otherwise(refused_optional::<Org>(j, "org"@))
            .otherwise(event_payload_fault(j))
    }

    open spec fn represents(&self, j: Json) -> bool {
        &&& holds(self.id, j, "id"@)
        &&& holds(self.type_field, j, "type"@)
        &&& holds(self.actor, j, "actor"@)
        &&& holds(self.repo, j, "repo"@)
        &&& holds(self.public, j, "public"@)
        &&& holds(self.created_at, j, "created_at"@)
        &&& holds_optional(self.org, j, "org"@)
        &&& event_payload_represents(self.payload, self.type_field, j)
    }

    fn deserialize(value: &Value) -> (r: Result<Self, DecodeError>)
        ensures
            r matches Ok(event) ==> event.consistent(),
    {
        let id: String = field(value, "id")?;
        let type_field: EventType = field(value, "type")?;
        let actor: Actor = field(value, "actor")?;
        let repo: Repository = field(value, "repo")?;
        let public: bool = field(value, "public")?;
        let created_at: Timestamp = field(value, "created_at")?;
        let org: Option<Org> = optional(value, "org")?;
        let payload = match member(value, "payload") {
            Some(data) => {
                if is_null(data) {
                    None
                } else {
                    deserialize_payload(&type_field, data)?
                }
            },
            None => None,
        };
        Ok(Event { id, type_field, actor, repo, public, created_at, payload, org })
    }
}

/// The kind of an activity event. A kind that is not modelled is an
/// `UnknownEvent`.
#[derive(Clone, Copy, Debug, PartialEq, Eq, Structural)]
pub enum EventType {
    IssuesEvent,
    PullRequestEvent,
    PullRequestReviewCommentEvent,
    IssueCommentEvent,
    CommitCommentEvent,
    UnknownEvent,
}

impl EventType {
    /// The kind that a name denotes. Names are compared letter by letter.
    pub open spec fn named(name: Seq<char>) -> EventType {
        if name == "IssuesEvent"@ {
            EventType::IssuesEvent
        } else if name == "PullRequestEvent"@ {
            EventType::PullRequestEvent
        } else if name == "PullRequestReviewCommentEvent"@ {
            EventType::PullRequestReviewCommentEvent
        } else if name == "IssueCommentEvent"@ {
            EventType::IssueCommentEvent
        } else if name == "CommitCommentEvent"@ {
            EventType::CommitCommentEvent
        } else {
            EventType::UnknownEvent
        }
    }

    /// The kind that a name denotes.
    pub fn from_name(name: &str) -> (r: EventType)
        ensures
            r == EventType::named(name@),
    {
        let name = name.to_owned();
        if name == "IssuesEvent".to_owned() {
            EventType::IssuesEvent
        } else if name == "PullRequestEvent".to_owned() {
            EventType::PullRequestEvent
        } else if name == "PullRequestReviewCommentEvent".to_owned() {
            EventType::PullRequestReviewCommentEvent
        } else if name == "IssueCommentEvent".to_owned() {
            EventType::IssueCommentEvent
        } else if name == "CommitCommentEvent".to_owned() {
            EventType::CommitCommentEvent
        } else {
            EventType::UnknownEvent
        }
    }
}

impl Deserialize for EventType {
    open spec fn fault(j: Json) -> Option<Fault> {
        unless(j is Str, Shape::Text)
    }

    open spec fn represents(&self, j: Json) -> bool {
        j is Str && *self == EventType::named(j->Str_0)
    }

    fn deserialize(value: &Value) -> (r: Result<Self, DecodeError>) {
        match as_str(value) {
            Some(name) => Ok(EventType::from_name(name)),
            None => Err(DecodeError::Expected(Shape::Text)),
        }
    }
}

/// What an event carries, by the kind of the event.
#[derive(Clone, Debug)]
pub enum Payload {
    IssuesEventPayload(IssuesEventPayload),
    PullRequestEventPayload(PullRequestEventPayload),
    PullRequestReviewCommentEventPayload(PullRequestReviewCommentEventPayload),
    IssueCommentEventPayload(IssueCommentEventPayload),
    CommitCommentEventPayload(CommitCommentEventPayload),
}

/// A fault of the schema of `kind`, reported as a fault of the payload.
pub open spec fn of_payload(kind: EventType, fault: Option<Fault>) -> Option<Fault> {
    match fault {
        Some(f) => Some(Fault::Payload(kind, Box::new(f))),
        None => None,
    }
}

/// Why the payload `j` of an event of kind `kind` is refused; `None` where
/// it is accepted. Nothing is refused for an `UnknownEvent`.
pub open spec fn payload_fault(kind: EventType, j: Json) -> Option<Fault> {
    match kind {
        EventType::IssuesEvent => of_payload(kind, IssuesEventPayload::fault(j)),
        EventType::PullRequestEvent => of_payload(kind, PullRequestEventPayload::fault(j)),
        EventType::PullRequestReviewCommentEvent => of_payload(
            kind,
            PullRequestReviewCommentEventPayload::fault(j),
        ),
        EventType::IssueCommentEvent => of_payload(kind, IssueCommentEventPayload::fault(j)),
        EventType::CommitCommentEvent => of_payload(kind, CommitCommentEventPayload::fault(j)),
        EventType::UnknownEvent => None,
    }
}

/// `payload` is the variant of `kind` and holds what the accepted document
/// `j` says; for an `UnknownEvent` it is `None`.
pub open spec fn payload_represents(payload: Option<Payload>, kind: EventType, j: Json) -> bool {
    match kind {
        EventType::IssuesEvent => payload matches Some(Payload::IssuesEventPayload(p))
            && p.represents(j),
        EventType::PullRequestEvent => payload matches Some(Payload::PullRequestEventPayload(p))
            && p.represents(j),
        EventType::PullRequestReviewCommentEvent => payload matches Some(
            Payload::PullRequestReviewCommentEventPayload(p),
        ) && p.represents(j),
        EventType::IssueCommentEvent => payload matches Some(Payload::IssueCommentEventPayload(p))
            && p.represents(j),
        EventType::CommitCommentEvent => payload matches Some(
            Payload::CommitCommentEventPayload(p),
        ) && p.represents(j),
        EventType::UnknownEvent => payload is None,
    }
}

/// Wraps a fault of a payload's schema with the kind of the event.
fn in_payload<T>(kind: EventType, decoded: Result<T, DecodeError>) -> (r: Result<T, DecodeError>)
    ensures
        match decoded {
            Ok(x) => r == Ok::<T, DecodeError>(x),
            Err(e) => r matches Err(w) && w@ == Fault::Payload(kind, Box::new(e@)),
        },
{
    match decoded {
        Ok(x) => Ok(x),
        Err(e) => Err(DecodeError::Payload(kind, Box::new(e))),
    }
}

/// Decodes the payload of an event against the schema of the event's kind.
/// The payload of an `UnknownEvent` is not looked at.
pub fn deserialize_payload(event_type: &EventType, data: &Value) -> (r: Result<
    Option<Payload>,
    DecodeError,
>)
    ensures
        match r {
            Ok(p) => payload_fault(*event_type, json_of(*data)) is None && payload_represents(
                p,
                *event_type,
                json_of(*data),
            ),
            Err(e) => payload_fault(*event_type, json_of(*data)) == Some(e@),
        },
{
    let kind = *event_type;
    let payload = match kind {
        EventType::IssuesEvent => Some(
            Payload::IssuesEventPayload(in_payload(kind, IssuesEventPayload::deserialize(data))?),
        ),
        EventType::PullRequestEvent => Some(
            Payload::PullRequestEventPayload(
                in_payload(kind, PullRequestEventPayload::deserialize(data))?,
            ),
        ),
        EventType::PullRequestReviewCommentEvent => Some(
            Payload::PullRequestReviewCommentEventPayload(
                in_payload(kind, PullRequestReviewCommentEventPayload::deserialize(data))?,
            ),
        ),
        EventType::IssueCommentEvent => Some(
            Payload::IssueCommentEventPayload(
                in_payload(kind, IssueCommentEventPayload::deserialize(data))?,
            ),
        ),
        EventType::CommitCommentEvent => Some(
            Payload::CommitCommentEventPayload(
                in_payload(kind, CommitCommentEventPayload::deserialize(data))?,
            ),
        ),
        EventType::UnknownEvent => None,
    };
    Ok(payload)
}

/// What an `IssuesEvent` carries.
#[derive(Clone, Debug)]
pub struct IssuesEventPayload {
    pub action: String,
    pub issue: Issue,
    pub assignee: Option<User>,
    pub label: Option<Label>,
}

impl Deserialize for IssuesEventPayload {
    open spec fn fault(j: Json) -> Option<Fault> {
        refused::<String>(j, "action"@)
            .otherwise(refused::<Issue>(j, "issue"@))
            .otherwise(refused_optional::<User>(j, "assignee"@))
            .otherwise(refused_optional::<Label>(j, "label"@))
    }

    open spec fn represents(&self, j: Json) -> bool {
        &&& holds(self.action, j, "action"@)
        &&& holds(self.issue, j, "issue"@)
        &&& holds_optional(self.assignee, j, "assignee"@)
        &&& holds_optional(self.label, j, "label"@)
    }

    fn deserialize(value: &Value) -> (r: Result<Self, DecodeError>) {
        Ok(
            IssuesEventPayload {
                action: field(value, "action")?,
                issue: field(value, "issue")?,
                assignee: optional(value, "assignee")?,
                label: optional(value, "label")?,
            },
        )
    }
}

/// What a `PullRequestEvent` carries.
#[derive(Clone, Debug)]
pub struct PullRequestEventPayload {
    pub action: String,
    pub number: u64,
    pub pull_request: PullRequest,
}

impl Deserialize for PullRequestEventPayload {
    open spec fn fault(j: Json) -> Option<Fault> {
        refused::<String>(j, "action"@)
            .otherwise(refused::<u64>(j, "number"@))
            .otherwise(refused::<PullRequest>(j, "pull_request"@))
    }

    open spec fn represents(&self, j: Json) -> bool {
        &&& holds(self.action, j, "action"@)
        &&& holds(self.number, j, "number"@)
        &&& holds(self.pull_request, j, "pull_request"@)
    }

    fn deserialize(value: &Value) -> (r: Result<Self, DecodeError>) {
        Ok(
            PullRequestEventPayload {
                action: field(value, "action")?,
                number: field(value, "number")?,
                pull_request: field(value, "pull_request")?,
            },
        )
    }
}

/// What a `PullRequestReviewCommentEvent` carries.
#[derive(Clone, Debug)]
pub struct PullRequestReviewCommentEventPayload {
    pub action: String,
    pub pull_request: PullRequest,
    pub comment: Comment,
}

impl Deserialize for PullRequestReviewCommentEventPayload {
    open spec fn fault(j: Json) -> Option<Fault> {
        refused::<String>(j, "action"@)
            .otherwise(refused::<PullRequest>(j, "pull_request"@))
            .otherwise(refused::<Comment>(j, "comment"@))
    }

    open spec fn represents(&self, j: Json) -> bool {
        &&& holds(self.action, j, "action"@)
        &&& holds(self.pull_request, j, "pull_request"@)
        &&& holds(self.comment, j, "comment"@)
    }

    fn deserialize(value: &Value) -> (r: Result<Self, DecodeError>) {
        Ok(
            PullRequestReviewCommentEventPayload {
                action: field(value, "action")?,
                pull_request: field(value, "pull_request")?,
                comment: field(value, "comment")?,
            },
        )
    }
}

/// What an `IssueCommentEvent` carries.
#[derive(Clone, Debug)]
pub struct IssueCommentEventPayload {
    pub action: String,
    pub issue: Issue,
    pub comment: Comment,
}

impl Deserialize for IssueCommentEventPayload {
    open spec fn fault(j: Json) -> Option<Fault> {
        refused::<String>(j, "action"@)
            .otherwise(refused::<Issue>(j, "issue"@))
            .otherwise(refused::<Comment>(j, "comment"@))
    }

    open spec fn represents(&self, j: Json) -> bool {
        &&& holds(self.action, j, "action"@)
        &&& holds(self.issue, j, "issue"@)
        &&& holds(self.comment, j, "comment"@)
    }

    fn deserialize(value: &Value) -> (r: Result<Self, DecodeError>) {
        Ok(
            IssueCommentEventPayload {
                action: field(value, "action")?,
                issue: field(value, "issue")?,
                comment: field(value, "comment")?,
            },
        )
    }
}

/// What a `CommitCommentEvent` carries.
#[derive(Clone, Debug)]
pub struct CommitCommentEventPayload {
    pub action: String,
    pub comment: Comment,
}

impl Deserialize for CommitCommentEventPayload {
    open spec fn fault(j: Json) -> Option<Fault> {
        refused::<String>(j, "action"@)
            .otherwise(refused::<Comment>(j, "comment"@))
    }

    open spec fn represents(&self, j: Json) -> bool {
        &&& holds(self.action, j, "action"@)
        &&& holds(self.comment, j, "comment"@)
    }

    fn deserialize(value: &Value) -> (r: Result<Self, DecodeError>) {
        Ok(
            CommitCommentEventPayload {
                action: field(value, "action")?,
                comment: field(value, "comment")?,
            },
        )
    }
}

/// The repository an event happened in.
#[derive(Clone, Debug)]
pub struct Repository {
    pub id: u64,
    pub name: String,
    pub url: String,
}

impl Deserialize for Repository {
    open spec fn fault(j: Json) -> Option<Fault> {
        refused::<u64>(j, "id"@)
            .otherwise(refused::<String>(j, "name"@))
            .otherwise(refused::<String>(j, "url"@))
    }

    open spec fn represents(&self, j: Json) -> bool {
        &&& holds(self.id, j, "id"@)
        &&& holds(self.name, j, "name"@)
        &&& holds(self.url, j, "url"@)
    }

    fn deserialize(value: &Value) -> (r: Result<Self, DecodeError>) {
        Ok(
            Repository {
                id: field(value, "id")?,
                name: field(value, "name")?,
                url: field(value, "url")?,
            },
        )
    }
}

/// The account that caused an event.
#[derive(Clone, Debug)]
pub struct Actor {
    pub id: u64,
    pub login: String,
    pub gravatar_id: String,
    pub avatar_url: String,
    pub url: String,
}

impl Deserialize for Actor {
    open spec fn fault(j: Json) -> Option<Fault> {
        refused::<u64>(j, "id"@)
            .otherwise(refused::<String>(j, "login"@))
            .otherwise(refused::<String>(j, "gravatar_id"@))
            .otherwise(refused::<String>(j, "avatar_url"@))
            .otherwise(refused::<String>(j, "url"@))
    }

    open spec fn represents(&self, j: Json) -> bool {
        &&& holds(self.id, j, "id"@)
        &&& holds(self.login, j, "login"@)
        &&& holds(self.gravatar_id, j, "gravatar_id"@)
        &&& holds(self.avatar_url, j, "avatar_url"@)
        &&& holds(self.url, j, "url"@)
    }

    fn deserialize(value: &Value) -> (r: Result<Self, DecodeError>) {
        Ok(
            Actor {
                id: field(value, "id")?,
                login: field(value, "login")?,
                gravatar_id: field(value, "gravatar_id")?,
                avatar_url: field(value, "avatar_url")?,
                url: field(value, "url")?,
            },
        )
    }
}

/// The organization an event belongs to.
#[derive(Clone, Debug)]
pub struct Org {
    pub id: u64,
    pub login: String,
    pub gravatar_id: String,
    pub avatar_url: String,
    pub url: String,
}

impl Deserialize for Org {
    open spec fn fault(j: Json) -> Option<Fault> {
        refused::<u64>(j, "id"@)
            .otherwise(refused::<String>(j, "login"@))
            .otherwise(refused::<String>(j, "gravatar_id"@))
            .otherwise(refused::<String>(j, "avatar_url"@))
            .otherwise(refused::<String>(j, "url"@))
    }

    open spec fn represents(&self, j: Json) -> bool {
        &&& holds(self.id, j, "id"@)
        &&& holds(self.login, j, "login"@)
        &&& holds(self.gravatar_id, j, "gravatar_id"@)
        &&& holds(self.avatar_url, j, "avatar_url"@)
        &&& holds(self.url, j, "url"@)
    }

    fn deserialize(value: &Value) -> (r: Result<Self, DecodeError>) {
        Ok(
            Org {
                id: field(value, "id")?,
                login: field(value, "login")?,
                gravatar_id: field(value, "gravatar_id")?,
                avatar_url: field(value, "avatar_url")?,
                url: field(value, "url")?,
            },
        )
    }
}

} // verus!
