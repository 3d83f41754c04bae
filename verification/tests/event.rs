use ghrs::decode::Deserialize;
use ghrs::error::{DecodeError, Error};
use ghrs::http::Response;
use ghrs::json::parse;
use ghrs::model::event::{deserialize_payload, Event, EventType, Payload};
use ghrs::time::Timestamp;
use ghrs::Page;

const ISSUES_EVENT: &str = "{
 'id': '22249084964',
 'type': 'IssuesEvent',
 'actor': {
  'id': 1,
  'login': 'octocat',
  'gravatar_id': '',
  'avatar_url': 'https://api.github.com/actor/avatar_url',
  'url': 'https://api.github.com/actor/url'
 },
 'repo': {
  'id': 1,
  'name': 'Hello-World',
  'url': 'https://api.github.com/repository/url'
 },
 'public': true,
 'created_at': '2022-06-09T12:47:28Z',
 'payload': {
  'action': 'opened',
  'issue': {
   'id': 1,
   'node_id': 'MDQ6VXNlcjE=',
   'url': 'https://api.github.com/issue/url',
   'repository_url': 'https://api.github.com/issue/repository_url',
   'labels_url': 'https://api.github.com/issue/labels_url',
   'comments_url': 'https://api.github.com/issue/comments_url',
   'events_url': 'https://api.github.com/issue/events_url',
   'html_url': 'https://api.github.com/issue/html_url',
   'number': 1347,
   'state': 'open',
   'title': 'Found a bug',
   'body': 'Im having a problem with this.',
   'user': {
    'login': 'octocat',
    'id': 1,
    'node_id': 'MDQ6VXNlcjE=',
    'avatar_url': 'https://api.github.com/user/avatar_url',
    'gravatar_id': '',
    'url': 'https://api.github.com/user/url',
    'html_url': 'https://api.github.com/user/html_url',
    'followers_url': 'https://api.github.com/user/followers_url',
    'following_url': 'https://api.github.com/user/following_url',
    'gists_url': 'https://api.github.com/user/gists_url',
    'starred_url': 'https://api.github.com/user/starred_url',
    'subscriptions_url': 'https://api.github.com/user/subscriptions_url',
    'organizations_url': 'https://api.github.com/user/organizations_url',
    'repos_url': 'https://api.github.com/user/repos_url',
    'events_url': 'https://api.github.com/user/events_url',
    'received_events_url': 'https://api.github.com/user/received_events_url',
    'type': 'User',
    'site_admin': false
   },
   'labels': [
    {
     'id': 1,
     'node_id': 'MDQ6VXNlcjE=',
     'url': 'https://api.github.com/label/url',
     'name': 'Hello-World',
     'description': 'This your first repo!',
     'color': 'f29513',
     'default': true
    }
   ],
   'assignee': {
    'login': 'octocat',
    'id': 1,
    'node_id': 'MDQ6VXNlcjE=',
    'avatar_url': 'https://api.github.com/user/avatar_url',
    'gravatar_id': '',
    'url': 'https://api.github.com/user/url',
    'html_url': 'https://api.github.com/user/html_url',
    'followers_url': 'https://api.github.com/user/followers_url',
    'following_url': 'https://api.github.com/user/following_url',
    'gists_url': 'https://api.github.com/user/gists_url',
    'starred_url': 'https://api.github.com/user/starred_url',
    'subscriptions_url': 'https://api.github.com/user/subscriptions_url',
    'organizations_url': 'https://api.github.com/user/organizations_url',
    'repos_url': 'https://api.github.com/user/repos_url',
    'events_url': 'https://api.github.com/user/events_url',
    'received_events_url': 'https://api.github.com/user/received_events_url',
    'type': 'User',
    'site_admin': false
   },
   'assignees': [
    {
     'login': 'octocat',
     'id': 1,
     'node_id': 'MDQ6VXNlcjE=',
     'avatar_url': 'https://api.github.com/user/avatar_url',
     'gravatar_id': '',
     'url': 'https://api.github.com/user/url',
     'html_url': 'https://api.github.com/user/html_url',
     'followers_url': 'https://api.github.com/user/followers_url',
     'following_url': 'https://api.github.com/user/following_url',
     'gists_url': 'https://api.github.com/user/gists_url',
     'starred_url': 'https://api.github.com/user/starred_url',
     'subscriptions_url': 'https://api.github.com/user/subscriptions_url',
     'organizations_url': 'https://api.github.com/user/organizations_url',
     'repos_url': 'https://api.github.com/user/repos_url',
     'events_url': 'https://api.github.com/user/events_url',
     'received_events_url': 'https://api.github.com/user/received_events_url',
     'type': 'User',
     'site_admin': false
    }
   ],
   'milestone': {
    'url': 'https://api.github.com/milestone/url',
    'html_url': 'https://api.github.com/milestone/html_url',
    'labels_url': 'https://api.github.com/milestone/labels_url',
    'id': 1,
    'node_id': 'MDQ6VXNlcjE=',
    'number': 1347,
    'state': 'open',
    'title': 'Found a bug',
    'description': 'This your first repo!',
    'creator': {
     'login': 'octocat',
     'id': 1,
     'node_id': 'MDQ6VXNlcjE=',
     'avatar_url': 'https://api.github.com/user/avatar_url',
     'gravatar_id': '',
     'url': 'https://api.github.com/user/url',
     'html_url': 'https://api.github.com/user/html_url',
     'followers_url': 'https://api.github.com/user/followers_url',
     'following_url': 'https://api.github.com/user/following_url',
     'gists_url': 'https://api.github.com/user/gists_url',
     'starred_url': 'https://api.github.com/user/starred_url',
     'subscriptions_url': 'https://api.github.com/user/subscriptions_url',
     'organizations_url': 'https://api.github.com/user/organizations_url',
     'repos_url': 'https://api.github.com/user/repos_url',
     'events_url': 'https://api.github.com/user/events_url',
     'received_events_url': 'https://api.github.com/user/received_events_url',
     'type': 'User',
     'site_admin': false
    },
    'open_issues': 4,
    'closed_issues': 8,
    'created_at': '2011-04-10T20:09:31Z',
    'updated_at': '2014-03-03T18:58:10Z',
    'closed_at': '2013-02-12T13:22:01Z',
    'due_on': '2012-10-09T23:39:01Z'
   },
   'locked': false,
   'active_lock_reason': 'too heated',
   'comments': 3,
   'pull_request': {
    'url': 'https://api.github.com/pullrequestlink/url',
    'html_url': 'https://api.github.com/pullrequestlink/html_url',
    'diff_url': 'https://api.github.com/pullrequestlink/diff_url',
    'patch_url': 'https://api.github.com/pullrequestlink/patch_url'
   },
   'closed_at': '2013-02-12T13:22:01Z',
   'created_at': '2011-04-10T20:09:31Z',
   'updated_at': '2014-03-03T18:58:10Z',
   'author_association': 'COLLABORATOR'
  },
  'assignee': {
   'login': 'octocat',
   'id': 1,
   'node_id': 'MDQ6VXNlcjE=',
   'avatar_url': 'https://api.github.com/user/avatar_url',
   'gravatar_id': '',
   'url': 'https://api.github.com/user/url',
   'html_url': 'https://api.github.com/user/html_url',
   'followers_url': 'https://api.github.com/user/followers_url',
   'following_url': 'https://api.github.com/user/following_url',
   'gists_url': 'https://api.github.com/user/gists_url',
   'starred_url': 'https://api.github.com/user/starred_url',
   'subscriptions_url': 'https://api.github.com/user/subscriptions_url',
   'organizations_url': 'https://api.github.com/user/organizations_url',
   'repos_url': 'https://api.github.com/user/repos_url',
   'events_url': 'https://api.github.com/user/events_url',
   'received_events_url': 'https://api.github.com/user/received_events_url',
   'type': 'User',
   'site_admin': false
  },
  'label': {
   'id': 1,
   'node_id': 'MDQ6VXNlcjE=',
   'url': 'https://api.github.com/label/url',
   'name': 'Hello-World',
   'description': 'This your first repo!',
   'color': 'f29513',
   'default': true
  }
 },
 'org': {
  'id': 1,
  'login': 'octocat',
  'gravatar_id': '',
  'avatar_url': 'https://api.github.com/org/avatar_url',
  'url': 'https://api.github.com/org/url'
 }
}";

const WATCH_EVENT: &str = "{
 'id': '22249084964',
 'type': 'WatchEvent',
 'actor': {
  'id': 1,
  'login': 'octocat',
  'gravatar_id': '',
  'avatar_url': 'https://api.github.com/actor/avatar_url',
  'url': 'https://api.github.com/actor/url'
 },
 'repo': {
  'id': 1,
  'name': 'Hello-World',
  'url': 'https://api.github.com/repository/url'
 },
 'public': true,
 'created_at': '2022-06-09T12:47:28Z',
 'payload': {
  'action': 'started',
  'anything': [
   1,
   {
    'goes': null
   }
  ]
 },
 'org': {
  'id': 1,
  'login': 'octocat',
  'gravatar_id': '',
  'avatar_url': 'https://api.github.com/org/avatar_url',
  'url': 'https://api.github.com/org/url'
 }
}";

const PULL_REQUEST_EVENT: &str = "{
 'id': '22249084964',
 'type': 'PullRequestEvent',
 'actor': {
  'id': 1,
  'login': 'octocat',
  'gravatar_id': '',
  'avatar_url': 'https://api.github.com/actor/avatar_url',
  'url': 'https://api.github.com/actor/url'
 },
 'repo': {
  'id': 1,
  'name': 'Hello-World',
  'url': 'https://api.github.com/repository/url'
 },
 'public': true,
 'created_at': '2022-06-09T12:47:28Z',
 'payload': {
  'action': 'opened',
  'number': 1347
 },
 'org': {
  'id': 1,
  'login': 'octocat',
  'gravatar_id': '',
  'avatar_url': 'https://api.github.com/org/avatar_url',
  'url': 'https://api.github.com/org/url'
 }
}";

const ISSUE_COMMENT_EVENT: &str = "{
 'id': '22249084964',
 'type': 'IssueCommentEvent',
 'actor': {
  'id': 1,
  'login': 'octocat',
  'gravatar_id': '',
  'avatar_url': 'https://api.github.com/actor/avatar_url',
  'url': 'https://api.github.com/actor/url'
 },
 'repo': {
  'id': 1,
  'name': 'Hello-World',
  'url': 'https://api.github.com/repository/url'
 },
 'public': true,
 'created_at': '2022-06-09T12:47:28Z',
 'payload': {
  'action': 'created',
  'issue': {
   'id': 1,
   'node_id': 'MDQ6VXNlcjE=',
   'url': 'https://api.github.com/issue/url',
   'repository_url': 'https://api.github.com/issue/repository_url',
   'labels_url': 'https://api.github.com/issue/labels_url',
   'comments_url': 'https://api.github.com/issue/comments_url',
   'events_url': 'https://api.github.com/issue/events_url',
   'html_url': 'https://api.github.com/issue/html_url',
   'number': 1347,
   'state': 'open',
   'title': 'Found a bug',
   'body': 'Im having a problem with this.',
   'user': {
    'login': 'octocat',
    'id': 1,
    'node_id': 'MDQ6VXNlcjE=',
    'avatar_url': 'https://api.github.com/user/avatar_url',
    'gravatar_id': '',
    'url': 'https://api.github.com/user/url',
    'html_url': 'https://api.github.com/user/html_url',
    'followers_url': 'https://api.github.com/user/followers_url',
    'following_url': 'https://api.github.com/user/following_url',
    'gists_url': 'https://api.github.com/user/gists_url',
    'starred_url': 'https://api.github.com/user/starred_url',
    'subscriptions_url': 'https://api.github.com/user/subscriptions_url',
    'organizations_url': 'https://api.github.com/user/organizations_url',
    'repos_url': 'https://api.github.com/user/repos_url',
    'events_url': 'https://api.github.com/user/events_url',
    'received_events_url': 'https://api.github.com/user/received_events_url',
    'type': 'User',
    'site_admin': false
   },
   'labels': [
    {
     'id': 1,
     'node_id': 'MDQ6VXNlcjE=',
     'url': 'https://api.github.com/label/url',
     'name': 'Hello-World',
     'description': 'This your first repo!',
     'color': 'f29513',
     'default': true
    }
   ],
   'assignee': {
    'login': 'octocat',
    'id': 1,
    'node_id': 'MDQ6VXNlcjE=',
    'avatar_url': 'https://api.github.com/user/avatar_url',
    'gravatar_id': '',
    'url': 'https://api.github.com/user/url',
    'html_url': 'https://api.github.com/user/html_url',
    'followers_url': 'https://api.github.com/user/followers_url',
    'following_url': 'https://api.github.com/user/following_url',
    'gists_url': 'https://api.github.com/user/gists_url',
    'starred_url': 'https://api.github.com/user/starred_url',
    'subscriptions_url': 'https://api.github.com/user/subscriptions_url',
    'organizations_url': 'https://api.github.com/user/organizations_url',
    'repos_url': 'https://api.github.com/user/repos_url',
    'events_url': 'https://api.github.com/user/events_url',
    'received_events_url': 'https://api.github.com/user/received_events_url',
    'type': 'User',
    'site_admin': false
   },
   'assignees': [
    {
     'login': 'octocat',
     'id': 1,
     'node_id': 'MDQ6VXNlcjE=',
     'avatar_url': 'https://api.github.com/user/avatar_url',
     'gravatar_id': '',
     'url': 'https://api.github.com/user/url',
     'html_url': 'https://api.github.com/user/html_url',
     'followers_url': 'https://api.github.com/user/followers_url',
     'following_url': 'https://api.github.com/user/following_url',
     'gists_url': 'https://api.github.com/user/gists_url',
     'starred_url': 'https://api.github.com/user/starred_url',
     'subscriptions_url': 'https://api.github.com/user/subscriptions_url',
     'organizations_url': 'https://api.github.com/user/organizations_url',
     'repos_url': 'https://api.github.com/user/repos_url',
     'events_url': 'https://api.github.com/user/events_url',
     'received_events_url': 'https://api.github.com/user/received_events_url',
     'type': 'User',
     'site_admin': false
    }
   ],
   'milestone': {
    'url': 'https://api.github.com/milestone/url',
    'html_url': 'https://api.github.com/milestone/html_url',
    'labels_url': 'https://api.github.com/milestone/labels_url',
    'id': 1,
    'node_id': 'MDQ6VXNlcjE=',
    'number': 1347,
    'state': 'open',
    'title': 'Found a bug',
    'description': 'This your first repo!',
    'creator': {
     'login': 'octocat',
     'id': 1,
     'node_id': 'MDQ6VXNlcjE=',
     'avatar_url': 'https://api.github.com/user/avatar_url',
     'gravatar_id': '',
     'url': 'https://api.github.com/user/url',
     'html_url': 'https://api.github.com/user/html_url',
     'followers_url': 'https://api.github.com/user/followers_url',
     'following_url': 'https://api.github.com/user/following_url',
     'gists_url': 'https://api.github.com/user/gists_url',
     'starred_url': 'https://api.github.com/user/starred_url',
     'subscriptions_url': 'https://api.github.com/user/subscriptions_url',
     'organizations_url': 'https://api.github.com/user/organizations_url',
     'repos_url': 'https://api.github.com/user/repos_url',
     'events_url': 'https://api.github.com/user/events_url',
     'received_events_url': 'https://api.github.com/user/received_events_url',
     'type': 'User',
     'site_admin': false
    },
    'open_issues': 4,
    'closed_issues': 8,
    'created_at': '2011-04-10T20:09:31Z',
    'updated_at': '2014-03-03T18:58:10Z',
    'closed_at': '2013-02-12T13:22:01Z',
    'due_on': '2012-10-09T23:39:01Z'
   },
   'locked': false,
   'active_lock_reason': 'too heated',
   'comments': 3,
   'pull_request': {
    'url': 'https://api.github.com/pullrequestlink/url',
    'html_url': 'https://api.github.com/pullrequestlink/html_url',
    'diff_url': 'https://api.github.com/pullrequestlink/diff_url',
    'patch_url': 'https://api.github.com/pullrequestlink/patch_url'
   },
   'closed_at': '2013-02-12T13:22:01Z',
   'created_at': '2011-04-10T20:09:31Z',
   'updated_at': '2014-03-03T18:58:10Z',
   'author_association': 'COLLABORATOR'
  },
  'comment': {
   'id': 1,
   'node_id': 'MDQ6VXNlcjE=',
   'url': 'https://api.github.com/comment/url',
   'html_url': 'https://api.github.com/comment/html_url',
   'body': 'Im having a problem with this.',
   'body_text': 'Me too',
   'body_html': '<p>Me too</p>',
   'user': {
    'login': 'octocat',
    'id': 1,
    'node_id': 'MDQ6VXNlcjE=',
    'avatar_url': 'https://api.github.com/user/avatar_url',
    'gravatar_id': '',
    'url': 'https://api.github.com/user/url',
    'html_url': 'https://api.github.com/user/html_url',
    'followers_url': 'https://api.github.com/user/followers_url',
    'following_url': 'https://api.github.com/user/following_url',
    'gists_url': 'https://api.github.com/user/gists_url',
    'starred_url': 'https://api.github.com/user/starred_url',
    'subscriptions_url': 'https://api.github.com/user/subscriptions_url',
    'organizations_url': 'https://api.github.com/user/organizations_url',
    'repos_url': 'https://api.github.com/user/repos_url',
    'events_url': 'https://api.github.com/user/events_url',
    'received_events_url': 'https://api.github.com/user/received_events_url',
    'type': 'User',
    'site_admin': false
   },
   'created_at': '2011-04-10T20:09:31Z',
   'updated_at': '2014-03-03T18:58:10Z'
  }
 }
}";

const COMMIT_COMMENT_EVENT: &str = "{
 'id': '22249084964',
 'type': 'CommitCommentEvent',
 'actor': {
  'id': 1,
  'login': 'octocat',
  'gravatar_id': '',
  'avatar_url': 'https://api.github.com/actor/avatar_url',
  'url': 'https://api.github.com/actor/url'
 },
 'repo': {
  'id': 1,
  'name': 'Hello-World',
  'url': 'https://api.github.com/repository/url'
 },
 'public': true,
 'created_at': '2022-06-09T12:47:28Z',
 'payload': {
  'action': 'created',
  'comment': {
   'id': 1,
   'node_id': 'MDQ6VXNlcjE=',
   'url': 'https://api.github.com/comment/url',
   'html_url': 'https://api.github.com/comment/html_url',
   'body': 'Im having a problem with this.',
   'body_text': 'Me too',
   'body_html': '<p>Me too</p>',
   'user': {
    'login': 'octocat',
    'id': 1,
    'node_id': 'MDQ6VXNlcjE=',
    'avatar_url': 'https://api.github.com/user/avatar_url',
    'gravatar_id': '',
    'url': 'https://api.github.com/user/url',
    'html_url': 'https://api.github.com/user/html_url',
    'followers_url': 'https://api.github.com/user/followers_url',
    'following_url': 'https://api.github.com/user/following_url',
    'gists_url': 'https://api.github.com/user/gists_url',
    'starred_url': 'https://api.github.com/user/starred_url',
    'subscriptions_url': 'https://api.github.com/user/subscriptions_url',
    'organizations_url': 'https://api.github.com/user/organizations_url',
    'repos_url': 'https://api.github.com/user/repos_url',
    'events_url': 'https://api.github.com/user/events_url',
    'received_events_url': 'https://api.github.com/user/received_events_url',
    'type': 'User',
    'site_admin': false
   },
   'created_at': '2011-04-10T20:09:31Z',
   'updated_at': '2014-03-03T18:58:10Z'
  }
 }
}";

fn event_value(text: &str) -> serde_json::Value {
    parse(text.replace('\'', "\"").as_bytes()).unwrap()
}

fn event_with(text: &str, key: &str, new: serde_json::Value) -> serde_json::Value {
    let mut value = event_value(text);
    value.as_object_mut().unwrap().insert(key.to_string(), new);
    value
}

fn event_without(text: &str, key: &str) -> serde_json::Value {
    let mut value = event_value(text);
    value.as_object_mut().unwrap().remove(key).unwrap();
    value
}

#[test]
fn issues_event_decodes_into_the_issues_variant() {
    let event = Event::deserialize(&event_value(ISSUES_EVENT)).unwrap();
    assert_eq!(event.id, "22249084964");
    assert_eq!(event.type_field, EventType::IssuesEvent);
    assert_eq!(event.actor.login, "octocat");
    assert_eq!(event.repo.name, "Hello-World");
    assert!(event.public);
    assert_eq!(event.created_at, Timestamp { seconds: 1654778848, nanoseconds: 0 });
    assert_eq!(event.org.unwrap().id, 1);
    match event.payload {
        Some(Payload::IssuesEventPayload(payload)) => {
            assert_eq!(payload.action, "opened");
            assert_eq!(payload.issue.number, 1347);
            assert_eq!(payload.issue.title, "Found a bug");
            assert_eq!(payload.issue.user.login, "octocat");
            assert_eq!(payload.issue.labels[0].name, "Hello-World");
            assert_eq!(payload.assignee.unwrap().id, 1);
            assert_eq!(payload.label.unwrap().color, "f29513");
        },
        other => panic!("not an issues payload: {:?}", other),
    }
}

#[test]
fn unmodelled_event_decodes_without_payload() {
    let event = Event::deserialize(&event_value(WATCH_EVENT)).unwrap();
    assert_eq!(event.type_field, EventType::UnknownEvent);
    assert!(event.payload.is_none());
    assert_eq!(event.id, "22249084964");
    for payload in ["7", "\"text\"", "[]", "{}", "null", "{\"action\": 3}"] {
        let value = event_with(WATCH_EVENT, "payload", parse(payload.as_bytes()).unwrap());
        let event = Event::deserialize(&value).unwrap();
        assert_eq!(event.type_field, EventType::UnknownEvent);
        assert!(event.payload.is_none());
    }
}

#[test]
fn pull_request_event_with_a_member_missing_is_refused() {
    let refused = Event::deserialize(&event_value(PULL_REQUEST_EVENT)).unwrap_err();
    assert_eq!(format!("{:?}", refused), "Payload(PullRequestEvent, Missing(\"pull_request\"))");
    assert!(matches!(refused, DecodeError::Payload(EventType::PullRequestEvent, _)));
}

#[test]
fn issue_comment_event_decodes_into_its_variant() {
    let event = Event::deserialize(&event_value(ISSUE_COMMENT_EVENT)).unwrap();
    assert_eq!(event.type_field, EventType::IssueCommentEvent);
    assert!(event.org.is_none());
    match event.payload {
        Some(Payload::IssueCommentEventPayload(payload)) => {
            assert_eq!(payload.action, "created");
            assert_eq!(payload.issue.id, 1);
            assert_eq!(payload.comment.body_text.as_deref(), Some("Me too"));
            assert_eq!(payload.comment.user.login, "octocat");
        },
        other => panic!("not an issue comment payload: {:?}", other),
    }
}

#[test]
fn commit_comment_event_decodes_into_its_variant() {
    let event = Event::deserialize(&event_value(COMMIT_COMMENT_EVENT)).unwrap();
    assert_eq!(event.type_field, EventType::CommitCommentEvent);
    match event.payload {
        Some(Payload::CommitCommentEventPayload(payload)) => {
            assert_eq!(payload.action, "created");
            assert_eq!(payload.comment.id, 1);
        },
        other => panic!("not a commit comment payload: {:?}", other),
    }
}

#[test]
fn the_kind_decides_the_schema_of_the_payload() {
    let value = event_with(COMMIT_COMMENT_EVENT, "type", serde_json::Value::from("IssueCommentEvent"));
    let refused = Event::deserialize(&value).unwrap_err();
    assert_eq!(format!("{:?}", refused), "Payload(IssueCommentEvent, Missing(\"issue\"))");
    let value = event_with(ISSUES_EVENT, "type", serde_json::Value::from("PullRequestReviewCommentEvent"));
    let refused = Event::deserialize(&value).unwrap_err();
    assert_eq!(
        format!("{:?}", refused),
        "Payload(PullRequestReviewCommentEvent, Missing(\"pull_request\"))"
    );
    let value = event_with(ISSUES_EVENT, "type", serde_json::Value::from("ForkEvent"));
    let event = Event::deserialize(&value).unwrap();
    assert_eq!(event.type_field, EventType::UnknownEvent);
    assert!(event.payload.is_none());
}

#[test]
fn event_without_payload_has_none() {
    let event = Event::deserialize(&event_without(ISSUES_EVENT, "payload")).unwrap();
    assert_eq!(event.type_field, EventType::IssuesEvent);
    assert!(event.payload.is_none());
    let event = Event::deserialize(&event_with(ISSUES_EVENT, "payload", serde_json::Value::Null)).unwrap();
    assert!(event.payload.is_none());
    let event = Event::deserialize(&event_without(WATCH_EVENT, "payload")).unwrap();
    assert!(event.payload.is_none());
}

#[test]
fn event_kind_names_are_compared_letter_by_letter() {
    assert_eq!(EventType::from_name("IssuesEvent"), EventType::IssuesEvent);
    assert_eq!(EventType::from_name("PullRequestEvent"), EventType::PullRequestEvent);
    assert_eq!(
        EventType::from_name("PullRequestReviewCommentEvent"),
        EventType::PullRequestReviewCommentEvent
    );
    assert_eq!(EventType::from_name("IssueCommentEvent"), EventType::IssueCommentEvent);
    assert_eq!(EventType::from_name("CommitCommentEvent"), EventType::CommitCommentEvent);
    assert_eq!(EventType::from_name("WatchEvent"), EventType::UnknownEvent);
    assert_eq!(EventType::from_name("UnknownEvent"), EventType::UnknownEvent);
    assert_eq!(EventType::from_name("issuesevent"), EventType::UnknownEvent);
    assert_eq!(EventType::from_name("IssuesEvent "), EventType::UnknownEvent);
    assert_eq!(EventType::from_name(""), EventType::UnknownEvent);
}

#[test]
fn event_kind_must_be_a_string() {
    let refused = Event::deserialize(&event_with(WATCH_EVENT, "type", serde_json::Value::from(3))).unwrap_err();
    assert_eq!(format!("{:?}", refused), "In(\"type\", Expected(Text))");
    let refused = Event::deserialize(&event_without(WATCH_EVENT, "type")).unwrap_err();
    assert_eq!(format!("{:?}", refused), "Missing(\"type\")");
}

#[test]
fn faults_outside_the_payload_come_first() {
    let mut value = event_without(PULL_REQUEST_EVENT, "org");
    value.as_object_mut().unwrap().insert("org".to_string(), serde_json::Value::from(1));
    let refused = Event::deserialize(&value).unwrap_err();
    assert_eq!(format!("{:?}", refused), "In(\"org\", Missing(\"id\"))");
    let refused = Event::deserialize(&event_without(PULL_REQUEST_EVENT, "created_at")).unwrap_err();
    assert_eq!(format!("{:?}", refused), "Missing(\"created_at\")");
    let refused = Event::deserialize(&event_with(WATCH_EVENT, "public", serde_json::Value::from("yes"))).unwrap_err();
    assert_eq!(format!("{:?}", refused), "In(\"public\", Expected(Flag))");
}

#[test]
fn deserialize_payload_by_kind() {
    let value = event_value(ISSUES_EVENT);
    let data = value.get("payload").unwrap();
    let payload = deserialize_payload(&EventType::IssuesEvent, data).unwrap();
    assert!(matches!(payload, Some(Payload::IssuesEventPayload(ref p)) if p.issue.number == 1347));
    let payload = deserialize_payload(&EventType::UnknownEvent, data).unwrap();
    assert!(payload.is_none());
    let refused = deserialize_payload(&EventType::PullRequestEvent, data).unwrap_err();
    assert_eq!(format!("{:?}", refused), "Payload(PullRequestEvent, Missing(\"number\"))");
    let refused = deserialize_payload(&EventType::CommitCommentEvent, data).unwrap_err();
    assert_eq!(format!("{:?}", refused), "Payload(CommitCommentEvent, Missing(\"comment\"))");
    let refused = deserialize_payload(&EventType::IssuesEvent, &serde_json::Value::from(1)).unwrap_err();
    assert_eq!(format!("{:?}", refused), "Payload(IssuesEvent, Missing(\"action\"))");
    let payload = deserialize_payload(&EventType::UnknownEvent, &serde_json::Value::from(1)).unwrap();
    assert!(payload.is_none());
}

#[test]
fn page_of_events_keeps_unmodelled_events() {
    let body = format!("[{}, {}, {}]", ISSUES_EVENT, WATCH_EVENT, COMMIT_COMMENT_EVENT).replace('\'', "\"");
    let response = Response { status: 200, link: None, body: body.into_bytes() };
    let mut page: Page<Event> = Page::from_response(&response).unwrap();
    assert_eq!(page.len(), 3);
    let events = page.take_items();
    assert!(matches!(events[0].payload, Some(Payload::IssuesEventPayload(_))));
    assert_eq!(events[1].type_field, EventType::UnknownEvent);
    assert!(events[1].payload.is_none());
    assert!(matches!(events[2].payload, Some(Payload::CommitCommentEventPayload(_))));
}

#[test]
fn page_of_events_fails_on_a_refused_payload() {
    let body = format!("[{}, {}]", WATCH_EVENT, PULL_REQUEST_EVENT).replace('\'', "\"");
    let response = Response { status: 200, link: None, body: body.into_bytes() };
    let refused = Page::<Event>::from_response(&response).unwrap_err();
    assert_eq!(
        format!("{:?}", refused),
        "Decode(Element(1, Payload(PullRequestEvent, Missing(\"pull_request\"))))"
    );
    assert!(matches!(refused, Error::Decode(DecodeError::Element(1, _))));
}
