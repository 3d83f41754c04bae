//! What holds of every event, whatever it carries.

use crate::decode::Deserialize;
use crate::error::Fault;
use crate::json::Json;
use crate::model::event::{
    payload_fault, payload_represents, CommitCommentEventPayload, Event, EventType,
    IssueCommentEventPayload, IssuesEventPayload, Payload, PullRequestEventPayload,
    PullRequestReviewCommentEventPayload,
};
use vstd::prelude::*;

verus! {

/// The names of the five modelled kinds, and `WatchEvent`, differ in
/// length.
proof fn names_differ_in_length()
    ensures
        "IssuesEvent"@.len() == 11,
        "PullRequestEvent"@.len() == 16,
        "PullRequestReviewCommentEvent"@.len() == 29,
        "IssueCommentEvent"@.len() == 17,
        "CommitCommentEvent"@.len() == 18,
        "WatchEvent"@.len() == 10,
{
    reveal_strlit("IssuesEvent");
    reveal_strlit("PullRequestEvent");
    reveal_strlit("PullRequestReviewCommentEvent");
    reveal_strlit("IssueCommentEvent");
    reveal_strlit("CommitCommentEvent");
    reveal_strlit("WatchEvent");
}

/// Each of the five modelled kinds is denoted by its own name.
pub proof fn modelled_kinds_have_their_names()
    ensures
        EventType::named("IssuesEvent"@) == EventType::IssuesEvent,
        EventType::named("PullRequestEvent"@) == EventType::PullRequestEvent,
        EventType::named("PullRequestReviewCommentEvent"@)
            == EventType::PullRequestReviewCommentEvent,
        EventType::named("IssueCommentEvent"@) == EventType::IssueCommentEvent,
        EventType::named("CommitCommentEvent"@) == EventType::CommitCommentEvent,
{
    names_differ_in_length();
}

/// `WatchEvent` is the name of no modelled kind.
pub proof fn watch_event_is_unmodelled()
    ensures
        EventType::named("WatchEvent"@) == EventType::UnknownEvent,
{
    names_differ_in_length();
}

/// An event that a document describes carries the payload variant of its
/// own kind, or none.
pub proof fn described_event_is_consistent(event: Event, j: Json)
    requires
        event.represents(j),
    ensures
        event.consistent(),
{
}

/// The payload of an event of a kind that is not modelled is never refused
/// and never kept, whatever it holds.
pub proof fn unmodelled_payload_is_dropped(payload: Option<Payload>, j: Json)
    ensures
        payload_fault(EventType::UnknownEvent, j) is None,
        payload_represents(payload, EventType::UnknownEvent, j) <==> payload is None,
{
}

/// An event whose kind has a name outside the five modelled ones is accepted
/// or refused whatever its payload holds, and decodes without a payload.
pub proof fn unmodelled_event_has_no_payload(event: Event, j: Json, other: Json)
    requires
        j.has("type"@),
        j.at("type"@) is Str,
        EventType::named(j.at("type"@)->Str_0) == EventType::UnknownEvent,
        j is Object,
        other is Object,
        other->Object_0 == j->Object_0.remove("payload"@),
    ensures
        Event::fault(j) == Event::fault(other),
        event.represents(j) ==> event.payload is None && event.type_field
            == EventType::UnknownEvent,
{
    reveal_strlit("payload");
    reveal_strlit("id");
    reveal_strlit("type");
    reveal_strlit("actor");
    reveal_strlit("repo");
    reveal_strlit("public");
    reveal_strlit("created_at");
    reveal_strlit("org");
    assert("payload"@.len() == 7);
    assert("id"@ != "payload"@);
    assert("type"@ != "payload"@);
    assert("actor"@ != "payload"@);
    assert("repo"@ != "payload"@);
    assert("public"@ != "payload"@);
    assert("created_at"@ != "payload"@);
    assert("org"@ != "payload"@);
    assert(other.absent("payload"@));
}

/// Where the schema of a modelled kind accepts a payload, the payload is
/// accepted, and what represents it is the variant of that kind.
pub proof fn accepted_payload_is_the_variant_of_its_kind(payload: Option<Payload>, j: Json)
    ensures
        IssuesEventPayload::fault(j) is None ==> payload_fault(EventType::IssuesEvent, j) is None,
        PullRequestEventPayload::fault(j) is None ==> payload_fault(
            EventType::PullRequestEvent,
            j,
        ) is None,
        PullRequestReviewCommentEventPayload::fault(j) is None ==> payload_fault(
            EventType::PullRequestReviewCommentEvent,
            j,
        ) is None,
        IssueCommentEventPayload::fault(j) is None ==> payload_fault(
            EventType::IssueCommentEvent,
            j,
        ) is None,
        CommitCommentEventPayload::fault(j) is None ==> payload_fault(
            EventType::CommitCommentEvent,
            j,
        ) is None,
        payload_represents(payload, EventType::IssuesEvent, j) ==> (payload matches Some(
            Payload::IssuesEventPayload(p),
        ) && p.represents(j)),
        payload_represents(payload, EventType::PullRequestEvent, j) ==> (payload matches Some(
            Payload::PullRequestEventPayload(p),
        ) && p.represents(j)),
        payload_represents(payload, EventType::PullRequestReviewCommentEvent, j) ==> (
        payload matches Some(Payload::PullRequestReviewCommentEventPayload(p)) && p.represents(j)),
        payload_represents(payload, EventType::IssueCommentEvent, j) ==> (payload matches Some(
            Payload::IssueCommentEventPayload(p),
        ) && p.represents(j)),
        payload_represents(payload, EventType::CommitCommentEvent, j) ==> (payload matches Some(
            Payload::CommitCommentEventPayload(p),
        ) && p.represents(j)),
{
}

/// Where the schema of a modelled kind refuses a payload, the payload is
/// refused, and the fault names the kind.
pub proof fn refused_payload_names_its_kind(j: Json)
    ensures
        IssuesEventPayload::fault(j) matches Some(f) ==> payload_fault(EventType::IssuesEvent, j)
            == Some(Fault::Payload(EventType::IssuesEvent, Box::new(f))),
        PullRequestEventPayload::fault(j) matches Some(f) ==> payload_fault(
            EventType::PullRequestEvent,
            j,
        ) == Some(Fault::Payload(EventType::PullRequestEvent, Box::new(f))),
        PullRequestReviewCommentEventPayload::fault(j) matches Some(f) ==> payload_fault(
            EventType::PullRequestReviewCommentEvent,
            j,
        ) == Some(Fault::Payload(EventType::PullRequestReviewCommentEvent, Box::new(f))),
        IssueCommentEventPayload::fault(j) matches Some(f) ==> payload_fault(
            EventType::IssueCommentEvent,
            j,
        ) == Some(Fault::Payload(EventType::IssueCommentEvent, Box::new(f))),
        CommitCommentEventPayload::fault(j) matches Some(f) ==> payload_fault(
            EventType::CommitCommentEvent,
            j,
        ) == Some(Fault::Payload(EventType::CommitCommentEvent, Box::new(f))),
{
}

} // verus!
