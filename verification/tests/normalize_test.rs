use github_fetch::normalize::{
    merge_lookup_target, normalize_comment, normalize_comments, normalize_issue,
    normalize_pr_file, normalize_pr_files, normalize_pull_request, normalize_review,
    normalize_reviews, truncate_count, unknown_user, RawComment, RawIssue, RawPrFile,
    RawPullRequest, RawReview,
};
use github_fetch::{GitHubLabel, GitHubUser, Timestamp};

fn user(id: u64, login: &str) -> GitHubUser {
    GitHubUser { id, login: login.to_string(), avatar_url: format!("https://a.example/{}", id) }
}

fn raw_issue() -> RawIssue {
    RawIssue {
        id: 11,
        number: 7,
        title: "A title".to_string(),
        body: Some("A body".to_string()),
        state: "Open".to_string(),
        labels: vec![GitHubLabel {
            id: 1,
            name: "bug".to_string(),
            color: "ff0000".to_string(),
            description: Some("broken".to_string()),
        }],
        user: user(3, "ferris"),
        assignees: vec![user(4, "a"), user(5, "b")],
        created_at: Timestamp::new(100, 1),
        updated_at: Timestamp::new(200, 2),
        closed_at: None,
        html_url: "https://example.org/7".to_string(),
        is_pull_request: false,
        repository_url: "https://api.github.com/repos/tokio-rs/axum".to_string(),
        comments: 9,
    }
}

fn empty_pull_request() -> RawPullRequest {
    RawPullRequest {
        id: 21,
        number: 8,
        title: None,
        body: None,
        state: None,
        labels: None,
        user: None,
        assignees: None,
        created_at: None,
        updated_at: None,
        closed_at: None,
        merged_at: None,
        html_url: None,
        comments: None,
    }
}

#[test]
fn issue_keeps_what_the_wire_gave() {
    let issue = normalize_issue(raw_issue(), Some(Timestamp::new(300, 3)));
    assert_eq!(issue.id, 11);
    assert_eq!(issue.number, 7);
    assert_eq!(issue.title, "A title");
    assert_eq!(issue.body, Some("A body".to_string()));
    assert_eq!(issue.state, "Open");
    assert_eq!(issue.labels.len(), 1);
    assert_eq!(issue.labels[0].name, "bug");
    assert_eq!(issue.labels[0].description, Some("broken".to_string()));
    assert_eq!(issue.user.login, "ferris");
    assert_eq!(issue.assignees.len(), 2);
    assert_eq!(issue.assignees[1].id, 5);
    assert_eq!(issue.created_at, Timestamp::new(100, 1));
    assert_eq!(issue.updated_at, Timestamp::new(200, 2));
    assert_eq!(issue.html_url, "https://example.org/7");
    assert!(!issue.is_pull_request);
    assert_eq!(issue.comments, 9);
    assert_eq!(issue.merged_at, None);
    assert_eq!(issue.closed_at, None);
}

#[test]
fn merge_time_is_kept_for_a_pull_request_only() {
    let mut raw = raw_issue();
    raw.is_pull_request = true;
    let issue = normalize_issue(raw, Some(Timestamp::new(300, 3)));
    assert_eq!(issue.merged_at, Some(Timestamp::new(300, 3)));
    assert_eq!(issue.closed_at, Some(Timestamp::new(300, 3)));

    let mut raw = raw_issue();
    raw.is_pull_request = true;
    raw.closed_at = Some(Timestamp::new(250, 0));
    let issue = normalize_issue(raw, Some(Timestamp::new(300, 3)));
    assert_eq!(issue.merged_at, Some(Timestamp::new(300, 3)));
    assert_eq!(issue.closed_at, Some(Timestamp::new(250, 0)));

    let mut raw = raw_issue();
    raw.is_pull_request = true;
    let issue = normalize_issue(raw, None);
    assert_eq!(issue.merged_at, None);
    assert_eq!(issue.closed_at, None);
}

#[test]
fn pull_request_defaults() {
    let now = Timestamp::new(999, 9);
    let issue = normalize_pull_request(empty_pull_request(), now);
    assert_eq!(issue.id, 21);
    assert_eq!(issue.number, 8);
    assert_eq!(issue.title, "");
    assert_eq!(issue.body, None);
    assert_eq!(issue.state, "open");
    assert!(issue.labels.is_empty());
    assert_eq!(issue.user.id, 0);
    assert_eq!(issue.user.login, "unknown");
    assert_eq!(issue.user.avatar_url, "");
    assert!(issue.assignees.is_empty());
    assert_eq!(issue.created_at, now);
    assert_eq!(issue.updated_at, now);
    assert_eq!(issue.closed_at, None);
    assert_eq!(issue.merged_at, None);
    assert_eq!(issue.html_url, "");
    assert!(issue.is_pull_request);
    assert_eq!(issue.comments, 0);
}

#[test]
fn pull_request_close_time_falls_back_to_merge_time() {
    let now = Timestamp::new(999, 9);
    let mut raw = empty_pull_request();
    raw.merged_at = Some(Timestamp::new(300, 0));
    raw.title = Some("Fix".to_string());
    raw.state = Some("Closed".to_string());
    raw.user = Some(user(3, "ferris"));
    raw.created_at = Some(Timestamp::new(1, 0));
    raw.html_url = Some("https://example.org/8".to_string());
    raw.comments = Some(4_294_967_298);
    let issue = normalize_pull_request(raw, now);
    assert_eq!(issue.closed_at, Some(Timestamp::new(300, 0)));
    assert_eq!(issue.merged_at, Some(Timestamp::new(300, 0)));
    assert_eq!(issue.title, "Fix");
    assert_eq!(issue.state, "Closed");
    assert_eq!(issue.user.login, "ferris");
    assert_eq!(issue.created_at, Timestamp::new(1, 0));
    assert_eq!(issue.updated_at, now);
    assert_eq!(issue.html_url, "https://example.org/8");
    assert_eq!(issue.comments, 2);

    let mut raw = empty_pull_request();
    raw.merged_at = Some(Timestamp::new(300, 0));
    raw.closed_at = Some(Timestamp::new(200, 0));
    let issue = normalize_pull_request(raw, now);
    assert_eq!(issue.closed_at, Some(Timestamp::new(200, 0)));
}

#[test]
fn comment_defaults() {
    let raw = RawComment {
        id: 1,
        user: user(3, "ferris"),
        body: None,
        created_at: Timestamp::new(10, 0),
        updated_at: None,
        html_url: "h".to_string(),
    };
    let comment = normalize_comment(raw.clone());
    assert_eq!(comment.id, 1);
    assert_eq!(comment.user.login, "ferris");
    assert_eq!(comment.body, "");
    assert_eq!(comment.created_at, Timestamp::new(10, 0));
    assert_eq!(comment.updated_at, Timestamp::new(10, 0));
    assert_eq!(comment.html_url, "h");

    let mut edited = raw;
    edited.id = 2;
    edited.body = Some("text".to_string());
    edited.updated_at = Some(Timestamp::new(20, 0));
    let mut out = vec![comment];
    normalize_comments(vec![edited.clone(), edited], &mut out);
    assert_eq!(out.iter().map(|c| c.id).collect::<Vec<u64>>(), vec![1, 2, 2]);
    assert_eq!(out[1].body, "text");
    assert_eq!(out[1].updated_at, Timestamp::new(20, 0));
}

#[test]
fn review_defaults() {
    let raw = RawReview {
        id: 5,
        user: None,
        body: None,
        state: None,
        submitted_at: None,
        html_url: "h".to_string(),
        commit_id: None,
    };
    let review = normalize_review(raw.clone());
    assert_eq!(review.id, 5);
    assert_eq!(review.user.id, 0);
    assert_eq!(review.user.login, "unknown");
    assert_eq!(review.user.avatar_url, "");
    assert_eq!(review.state, "UNKNOWN");
    assert_eq!(review.body, None);
    assert_eq!(review.submitted_at, None);
    assert_eq!(review.commit_id, None);

    let mut full = raw;
    full.user = Some(user(3, "ferris"));
    full.state = Some("Approved".to_string());
    full.body = Some("ok".to_string());
    full.submitted_at = Some(Timestamp::new(1, 2));
    full.commit_id = Some("abc".to_string());
    let reviews = normalize_reviews(vec![full]);
    assert_eq!(reviews.len(), 1);
    assert_eq!(reviews[0].user.login, "ferris");
    assert_eq!(reviews[0].state, "Approved");
    assert_eq!(reviews[0].body, Some("ok".to_string()));
    assert_eq!(reviews[0].submitted_at, Some(Timestamp::new(1, 2)));
    assert_eq!(reviews[0].commit_id, Some("abc".to_string()));
    assert!(normalize_reviews(vec![]).is_empty());
}

#[test]
fn file_counts_are_cut_to_32_bits() {
    let raw = RawPrFile {
        filename: "src/lib.rs".to_string(),
        status: "Modified".to_string(),
        additions: 10,
        deletions: 4_294_967_296,
        changes: 4_294_967_306,
        patch: Some("@@".to_string()),
    };
    let file = normalize_pr_file(raw.clone());
    assert_eq!(file.filename, "src/lib.rs");
    assert_eq!(file.status, "Modified");
    assert_eq!(file.additions, 10);
    assert_eq!(file.deletions, 0);
    assert_eq!(file.changes, 10);
    assert_eq!(file.patch, Some("@@".to_string()));
    assert_eq!(normalize_pr_files(vec![raw.clone(), raw]).len(), 2);
    assert_eq!(truncate_count(u64::MAX), u32::MAX);
    assert_eq!(truncate_count(4_294_967_295), 4_294_967_295);
}

#[test]
fn placeholder_user() {
    let user = unknown_user();
    assert_eq!(user.id, 0);
    assert_eq!(user.login, "unknown");
    assert_eq!(user.avatar_url, "");
}

#[test]
fn merge_lookup_names_the_repository() {
    let mut raw = raw_issue();
    assert!(merge_lookup_target(&raw).is_none());
    raw.is_pull_request = true;
    let target = merge_lookup_target(&raw).unwrap();
    assert_eq!(target.owner, "tokio-rs");
    assert_eq!(target.name, "axum");
    raw.repository_url = "axum".to_string();
    assert!(merge_lookup_target(&raw).is_none());
}
