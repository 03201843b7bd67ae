use github_fetch::discussion::{
    build_discussion_query, discussion_comment_from_parts, discussion_from_parts,
    discussion_from_reply, parse_discussion_comment, parse_discussion_comments,
    parse_discussion_response, parse_discussion_url, GraphqlReply,
};
use github_fetch::json::{text_field, time_field, u64_field};
use github_fetch::review::{
    parse_review_comment, parse_review_comments, review_comment_from_parts,
};
use github_fetch::{ErrorKind, JsonNumber, JsonValue, Repository, Timestamp};

fn convert(value: &serde_json::Value) -> JsonValue {
    match value {
        serde_json::Value::Null => JsonValue::Null,
        serde_json::Value::Bool(b) => JsonValue::Bool(*b),
        serde_json::Value::Number(n) => JsonValue::Number(match (n.as_u64(), n.as_i64()) {
            (Some(u), _) => JsonNumber::Unsigned(u),
            (None, Some(i)) => JsonNumber::Negative(i),
            (None, None) => JsonNumber::Other,
        }),
        serde_json::Value::String(s) => JsonValue::Text(s.clone()),
        serde_json::Value::Array(items) => JsonValue::Array(items.iter().map(convert).collect()),
        serde_json::Value::Object(members) => {
            JsonValue::Object(members.iter().map(|(k, v)| (k.clone(), convert(v))).collect())
        }
    }
}

fn json(text: &str) -> JsonValue {
    convert(&serde_json::from_str::<serde_json::Value>(text).unwrap())
}

const NOW: Timestamp = Timestamp { secs: 42, nanos: 7 };

fn review_comment_json(id: u64) -> String {
    format!(
        r#"{{
            "id": {},
            "pull_request_review_id": 77,
            "user": {{"id": 5, "login": "ferris", "avatar_url": "https://a.example/5"}},
            "body": "looks good",
            "path": "src/lib.rs",
            "line": 12,
            "original_line": 10,
            "diff_hunk": "@@ -1 +1 @@",
            "side": "RIGHT",
            "commit_id": "abc123",
            "created_at": "2024-01-15T10:30:00Z",
            "updated_at": "2024-01-16T08:00:00Z",
            "html_url": "https://example.org/c/1",
            "position": 4,
            "in_reply_to_id": 9
        }}"#,
        id
    )
}

#[test]
fn accessors_tell_absent_from_wrong_type() {
    let value = json(r#"{"a": "text", "n": 5, "neg": -5, "f": 1.5, "nil": null, "list": [1], "t": "2024-01-15T10:30:00Z"}"#);
    assert_eq!(text_field(&value, "a"), Some("text"));
    assert_eq!(text_field(&value, "n"), None);
    assert_eq!(text_field(&value, "missing"), None);
    assert_eq!(text_field(&value, "nil"), None);
    assert_eq!(u64_field(&value, "n"), Some(5));
    assert_eq!(u64_field(&value, "neg"), None);
    assert_eq!(u64_field(&value, "f"), None);
    assert_eq!(u64_field(&value, "a"), None);
    assert_eq!(time_field(&value, "t"), Some(Timestamp::new(1_705_314_600, 0)));
    assert_eq!(time_field(&value, "a"), None);
    assert_eq!(time_field(&value, "n"), None);
    assert!(value.get("nil").is_some());
    assert!(value.get("list").unwrap().as_array().is_some());
    assert!(value.get("a").unwrap().as_array().is_none());
    assert!(json("[1, 2]").get("a").is_none());
    assert!(json("\"a\"").get("a").is_none());
}

#[test]
fn lookup_finds_the_first_member_of_a_name() {
    let value = JsonValue::Object(vec![
        ("k".to_string(), JsonValue::Text("first".to_string())),
        ("k".to_string(), JsonValue::Text("second".to_string())),
    ]);
    assert_eq!(text_field(&value, "k"), Some("first"));
}

#[test]
fn timestamps_are_read_as_instants() {
    let value = json(r#"{"z": "2024-01-15T10:30:00Z", "offset": "2024-01-15T12:30:00+02:00", "frac": "2023-06-01T00:00:00.250Z", "bad": "yesterday", "date": "2024-01-15"}"#);
    assert_eq!(time_field(&value, "z"), Some(Timestamp::new(1_705_314_600, 0)));
    assert_eq!(time_field(&value, "offset"), Some(Timestamp::new(1_705_314_600, 0)));
    assert_eq!(time_field(&value, "frac"), Some(Timestamp::new(1_685_577_600, 250_000_000)));
    assert_eq!(time_field(&value, "bad"), None);
    assert_eq!(time_field(&value, "date"), None);
}

#[test]
fn review_comment_is_read_in_full() {
    let parsed = parse_review_comment(&json(&review_comment_json(31))).unwrap();
    assert_eq!(parsed.id, 31);
    assert_eq!(parsed.review_id, Some(77));
    assert_eq!(parsed.user.id, 5);
    assert_eq!(parsed.user.login, "ferris");
    assert_eq!(parsed.user.avatar_url, "https://a.example/5");
    assert_eq!(parsed.body, "looks good");
    assert_eq!(parsed.path, "src/lib.rs");
    assert_eq!(parsed.line, Some(12));
    assert_eq!(parsed.original_line, Some(10));
    assert_eq!(parsed.diff_hunk, "@@ -1 +1 @@");
    assert_eq!(parsed.side, Some("RIGHT".to_string()));
    assert_eq!(parsed.commit_id, Some("abc123".to_string()));
    assert_eq!(parsed.created_at, Timestamp::new(1_705_314_600, 0));
    assert_eq!(parsed.updated_at, Timestamp::new(1_705_392_000, 0));
    assert_eq!(parsed.html_url, "https://example.org/c/1");
    assert_eq!(parsed.position, Some(4));
    assert_eq!(parsed.in_reply_to_id, Some(9));
}

#[test]
fn review_comment_optional_parts_default_to_absent() {
    let value = json(
        r#"{
            "id": 1,
            "user": {"id": 5, "login": "ferris", "avatar_url": "u"},
            "body": "b",
            "path": "p",
            "line": null,
            "side": 3,
            "created_at": "2024-01-15T10:30:00Z",
            "updated_at": "2024-01-15T10:30:00Z",
            "html_url": "h"
        }"#,
    );
    let parsed = parse_review_comment(&value).unwrap();
    assert_eq!(parsed.review_id, None);
    assert_eq!(parsed.line, None);
    assert_eq!(parsed.original_line, None);
    assert_eq!(parsed.diff_hunk, "");
    assert_eq!(parsed.side, None);
    assert_eq!(parsed.commit_id, None);
    assert_eq!(parsed.position, None);
    assert_eq!(parsed.in_reply_to_id, None);
}

#[test]
fn review_comment_line_is_cut_to_32_bits() {
    let text = review_comment_json(1).replace("\"line\": 12", "\"line\": 4294967301");
    let parsed = parse_review_comment(&json(&text)).unwrap();
    assert_eq!(parsed.line, Some(5));
}

#[test]
fn review_comment_without_a_required_part_is_none() {
    let full = review_comment_json(1);
    for (present, replaced) in [
        ("\"id\": 1,", ""),
        ("\"id\": 1,", "\"id\": \"1\","),
        ("\"id\": 1,", "\"id\": -1,"),
        ("\"user\"", "\"author\""),
        ("\"id\": 5,", ""),
        ("\"login\": \"ferris\",", ""),
        ("\"avatar_url\"", "\"avatar\""),
        ("\"body\": \"looks good\",", ""),
        ("\"body\": \"looks good\",", "\"body\": null,"),
        ("\"path\": \"src/lib.rs\",", ""),
        ("\"created_at\": \"2024-01-15T10:30:00Z\",", ""),
        ("\"created_at\": \"2024-01-15T10:30:00Z\",", "\"created_at\": \"not a time\","),
        ("\"updated_at\": \"2024-01-16T08:00:00Z\",", "\"updated_at\": 5,"),
        ("\"html_url\": \"https://example.org/c/1\",", ""),
    ] {
        assert!(full.contains(present));
        let text = full.replacen(present, replaced, 1);
        assert!(parse_review_comment(&json(&text)).is_none(), "{}", text);
    }
    assert!(parse_review_comment(&json("[]")).is_none());
    assert!(parse_review_comment(&json("null")).is_none());
}

#[test]
fn malformed_review_comment_is_dropped_from_a_list() {
    let items = json(&format!(
        "[{}, {}, {}]",
        review_comment_json(1),
        r#"{"id": 2, "body": "no author"}"#,
        review_comment_json(3)
    ));
    let mut out = Vec::new();
    parse_review_comments(items.as_array().unwrap(), &mut out);
    assert_eq!(out.iter().map(|c| c.id).collect::<Vec<u64>>(), vec![1, 3]);
    let more = json(&format!("[{}]", review_comment_json(4)));
    parse_review_comments(more.as_array().unwrap(), &mut out);
    assert_eq!(out.iter().map(|c| c.id).collect::<Vec<u64>>(), vec![1, 3, 4]);
    parse_review_comments(&Vec::new(), &mut out);
    assert_eq!(out.len(), 3);
}

fn discussion_response() -> JsonValue {
    json(
        r#"{"data": {"repository": {"discussion": {
            "number": 12,
            "title": "How to pace requests",
            "body": "Some text",
            "url": "https://github.com/o/r/discussions/12",
            "author": {"login": "ferris", "id": "99", "avatarUrl": "https://a.example/99"},
            "createdAt": "2024-01-15T10:30:00Z",
            "updatedAt": "2024-01-16T08:00:00Z",
            "comments": {"nodes": [
                {"id": "c1", "body": "first", "author": {"login": "a", "id": "1", "avatarUrl": "u1"},
                 "createdAt": "2024-01-15T10:30:00Z", "updatedAt": "2024-01-15T10:30:00Z"},
                {"id": "c2", "body": "no author",
                 "createdAt": "2024-01-15T10:30:00Z", "updatedAt": "2024-01-15T10:30:00Z"},
                {"id": "c3", "body": "opaque id", "author": {"login": "b", "id": "MDQ6VXNlcjE=", "avatarUrl": "u2"},
                 "createdAt": "2024-01-15T10:30:00Z", "updatedAt": "2024-01-15T10:30:00Z"},
                {"id": "c4", "body": "bad time", "author": {"login": "c", "id": "3", "avatarUrl": "u3"},
                 "createdAt": "soon", "updatedAt": "2024-01-15T10:30:00Z"},
                {"id": "c5", "body": "last", "author": {"login": "d", "id": "+4", "avatarUrl": "u4"},
                 "createdAt": "2024-01-15T10:30:00Z", "updatedAt": "2024-01-16T08:00:00Z"}
            ]}
        }}}}"#,
    )
}

#[test]
fn discussion_is_read_in_full() {
    let repo = Repository::new("o", "r");
    let discussion = parse_discussion_response(&discussion_response(), &repo, 5, NOW).unwrap();
    assert_eq!(discussion.number, 12);
    assert_eq!(discussion.title, "How to pace requests");
    assert_eq!(discussion.body, "Some text");
    assert_eq!(discussion.url, "https://github.com/o/r/discussions/12");
    assert_eq!(discussion.author.id, 99);
    assert_eq!(discussion.author.login, "ferris");
    assert_eq!(discussion.author.avatar_url, "https://a.example/99");
    assert_eq!(discussion.created_at, Timestamp::new(1_705_314_600, 0));
    assert_eq!(discussion.updated_at, Timestamp::new(1_705_392_000, 0));
    let ids: Vec<&str> = discussion.comments.iter().map(|c| c.id.as_str()).collect();
    assert_eq!(ids, vec!["c1", "c5"]);
    assert_eq!(discussion.comments[0].body, "first");
    assert_eq!(discussion.comments[0].author.id, 1);
    assert_eq!(discussion.comments[0].author.login, "a");
    assert_eq!(discussion.comments[0].author.avatar_url, "u1");
    assert_eq!(discussion.comments[1].author.id, 4);
    assert_eq!(discussion.comments[1].updated_at, Timestamp::new(1_705_392_000, 0));
}

#[test]
fn discussion_parts_take_their_defaults() {
    let repo = Repository::new("o", "r");
    let response = json(r#"{"data": {"repository": {"discussion": {}}}}"#);
    let discussion = parse_discussion_response(&response, &repo, 5, NOW).unwrap();
    assert_eq!(discussion.number, 5);
    assert_eq!(discussion.title, "Unknown Discussion");
    assert_eq!(discussion.body, "");
    assert_eq!(discussion.url, "");
    assert_eq!(discussion.author.id, 0);
    assert_eq!(discussion.author.login, "unknown");
    assert_eq!(discussion.author.avatar_url, "");
    assert_eq!(discussion.created_at, NOW);
    assert_eq!(discussion.updated_at, NOW);
    assert!(discussion.comments.is_empty());

    let response = json(
        r#"{"data": {"repository": {"discussion": {
            "number": "12", "title": 3, "author": {"id": "x", "login": "l"},
            "createdAt": "bad", "comments": {"nodes": {}}
        }}}}"#,
    );
    let discussion = parse_discussion_response(&response, &repo, 5, NOW).unwrap();
    assert_eq!(discussion.number, 5);
    assert_eq!(discussion.title, "Unknown Discussion");
    assert_eq!(discussion.author.id, 0);
    assert_eq!(discussion.author.login, "l");
    assert_eq!(discussion.author.avatar_url, "");
    assert_eq!(discussion.created_at, NOW);
    assert!(discussion.comments.is_empty());
}

#[test]
fn response_without_the_discussion_path_is_not_found() {
    let repo = Repository::new("tokio-rs", "axum");
    for text in [
        "{}",
        r#"{"data": {}}"#,
        r#"{"data": {"repository": {}}}"#,
        r#"{"data": null}"#,
        r#"{"data": {"repository": null}}"#,
        r#"{"data": {"repository": {"discussion": null}}}"#,
        r#"{"data": {"repository": {"discussion": null}}, "errors": [{"type": "NOT_FOUND"}]}"#,
        r#"{"errors": [{"message": "x"}]}"#,
        "[]",
        "null",
    ] {
        let err = parse_discussion_response(&json(text), &repo, 2865, NOW).unwrap_err();
        assert_eq!(err.kind(), ErrorKind::NotFound);
        assert_eq!(err.message(), "Discussion #2865 not found in tokio-rs/axum");
        assert_eq!(
            err.describe(),
            "Resource not found: Discussion #2865 not found in tokio-rs/axum"
        );
    }
}

#[test]
fn refused_query_is_not_found() {
    let repo = Repository::new("o", "r");
    let err = discussion_from_reply(&GraphqlReply::Failure("Bad credentials".to_string()), &repo, 1, NOW)
        .unwrap_err();
    assert_eq!(err.kind(), ErrorKind::NotFound);
    assert_eq!(err.message(), "GitHub GraphQL API request failed: Bad credentials");
    let ok = discussion_from_reply(&GraphqlReply::Body(discussion_response()), &repo, 1, NOW).unwrap();
    assert_eq!(ok.number, 12);
    let err = discussion_from_reply(&GraphqlReply::Body(json("{}")), &repo, 1, NOW).unwrap_err();
    assert_eq!(err.kind(), ErrorKind::NotFound);
    assert_eq!(err.message(), "Discussion #1 not found in o/r");
}

#[test]
fn discussion_comment_needs_every_part() {
    let node = json(
        r#"{"id": "c1", "body": "first", "author": {"login": "a", "id": "1", "avatarUrl": "u1"},
            "createdAt": "2024-01-15T10:30:00Z", "updatedAt": "2024-01-15T10:30:00Z"}"#,
    );
    let comment = parse_discussion_comment(&node).unwrap();
    assert_eq!(comment.id, "c1");
    assert_eq!(comment.author.id, 1);
    assert!(parse_discussion_comment(&json(r#"{"id": "c1"}"#)).is_none());
    assert!(parse_discussion_comment(&json("7")).is_none());
    let nodes = json("[1, 2]");
    assert!(parse_discussion_comments(nodes.as_array().unwrap()).is_empty());
}

#[test]
fn discussion_url_is_read_strictly() {
    let (owner, repo, number) =
        parse_discussion_url("https://github.com/tokio-rs/axum/discussions/2865").unwrap();
    assert_eq!(owner, "tokio-rs");
    assert_eq!(repo, "axum");
    assert_eq!(number, 2865);
    let (owner, repo, number) =
        parse_discussion_url("https://forge.example/o/r/discussions/007").unwrap();
    assert_eq!((owner.as_str(), repo.as_str(), number), ("o", "r", 7));
    let (_, _, number) =
        parse_discussion_url("https://h/o/r/discussions/18446744073709551615").unwrap();
    assert_eq!(number, u64::MAX);
}

#[test]
fn other_texts_are_no_discussion_urls() {
    for text in [
        "",
        "https://",
        "http://github.com/o/r/discussions/1",
        "https://github.com/o/r/discussions/",
        "https://github.com/o/r/discussions/x1",
        "https://github.com/o/r/discussions/1x",
        "https://github.com/o/r/discussions/1/",
        "https://github.com/o/r/discussions/1#c",
        "https://github.com/o/r/issues/1",
        "https://github.com/o/discussions/1",
        "https://github.com//r/discussions/1",
        "https://github.com/o//discussions/1",
        "https:///o/r/discussions/1",
        "https://github.com/o/r/x/discussions/1",
        " https://github.com/o/r/discussions/1",
        "https://github.com/o/r/discussions/+1",
        "https://github.com/o/r/discussions/18446744073709551616",
        "https://github.com/o/r/discussions/\u{0661}",
        "o/r",
    ] {
        let err = parse_discussion_url(text).unwrap_err();
        assert_eq!(err.kind(), ErrorKind::InvalidRepository, "{}", text);
    }
}

#[test]
fn query_names_owner_repository_and_number() {
    let query = build_discussion_query("tokio-rs", "axum", 2865);
    assert!(query.starts_with("\n    {\n        repository(owner: \"tokio-rs\", name: \"axum\") {\n            discussion(number: 2865) {\n                number\n                title\n"));
    assert!(query.contains("comments(first: 100) {\n                    nodes {\n                        id\n"));
    assert!(query.contains("author {\n                    login\n                    ... on User {\n                        id\n                        avatarUrl\n                    }\n                }\n                createdAt\n                updatedAt\n"));
    assert!(query.ends_with("updatedAt\n                    }\n                }\n            }\n        }\n    }"));
    assert_eq!(query.len(), build_discussion_query("", "", 0).len() + "tokio-rs".len() + "axum".len() + 3);
    assert_eq!(query.matches('{').count(), query.matches('}').count());
}

#[test]
fn null_discussion_is_not_found() {
    let repo = Repository::new("o", "r");
    let response = json(r#"{"data": {"repository": {"discussion": null}}}"#);
    let err = parse_discussion_response(&response, &repo, 7, NOW).unwrap_err();
    assert_eq!(err.kind(), ErrorKind::NotFound);
    assert_eq!(err.message(), "Discussion #7 not found in o/r");
    let err = discussion_from_reply(&GraphqlReply::Body(response), &repo, 7, NOW).unwrap_err();
    assert_eq!(err.kind(), ErrorKind::NotFound);
    assert!(json("null").is_null());
    assert!(!json("{}").is_null());
    assert!(!json("0").is_null());
}

#[test]
fn review_comment_takes_the_instants_it_is_given() {
    let value = json(&review_comment_json(31));
    let created = Timestamp::new(5, 6);
    let updated = Timestamp::new(7, 8);
    let parsed = review_comment_from_parts(&value, Some(created), Some(updated)).unwrap();
    assert_eq!(parsed.id, 31);
    assert_eq!(parsed.created_at, created);
    assert_eq!(parsed.updated_at, updated);
    assert_eq!(parsed.body, "looks good");
    assert!(review_comment_from_parts(&value, None, Some(updated)).is_none());
    assert!(review_comment_from_parts(&value, Some(created), None).is_none());
    let bare = json(r#"{"id": 1, "body": "no author"}"#);
    assert!(review_comment_from_parts(&bare, Some(created), Some(updated)).is_none());
}

#[test]
fn discussion_comment_takes_the_instants_it_is_given() {
    let node = json(r#"{"id": "c1", "body": "first", "author": {"login": "a", "id": "1", "avatarUrl": "u1"}}"#);
    let created = Timestamp::new(5, 6);
    let updated = Timestamp::new(7, 8);
    let comment = discussion_comment_from_parts(&node, Some(created), Some(updated)).unwrap();
    assert_eq!(comment.id, "c1");
    assert_eq!(comment.body, "first");
    assert_eq!(comment.author.id, 1);
    assert_eq!(comment.created_at, created);
    assert_eq!(comment.updated_at, updated);
    assert!(discussion_comment_from_parts(&node, None, Some(updated)).is_none());
    assert!(discussion_comment_from_parts(&node, Some(created), None).is_none());
    assert!(parse_discussion_comment(&node).is_none());
}

#[test]
fn discussion_is_put_together_from_parts() {
    let node = json(r#"{"number": 12, "title": "T", "author": {"login": "l", "id": "9"}}"#);
    let created = Timestamp::new(5, 6);
    let discussion = discussion_from_parts(&node, 3, NOW, Some(created), None, Vec::new());
    assert_eq!(discussion.number, 12);
    assert_eq!(discussion.title, "T");
    assert_eq!(discussion.body, "");
    assert_eq!(discussion.url, "");
    assert_eq!(discussion.author.id, 9);
    assert_eq!(discussion.author.login, "l");
    assert_eq!(discussion.author.avatar_url, "");
    assert_eq!(discussion.created_at, created);
    assert_eq!(discussion.updated_at, NOW);
    assert!(discussion.comments.is_empty());
    let empty = discussion_from_parts(&json("{}"), 3, NOW, None, None, Vec::new());
    assert_eq!(empty.number, 3);
    assert_eq!(empty.title, "Unknown Discussion");
    assert_eq!(empty.author.login, "unknown");
    assert_eq!(empty.created_at, NOW);
}
