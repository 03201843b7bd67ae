//! Normalisation of REST-shaped wire records into the canonical model. What
//! the wire leaves out takes a documented default; nothing here fails.

use crate::repository::{has_slash, is_url_tail, trim_trailing_slashes, Repository};
use crate::time::Timestamp;
use crate::types::{
    label_views, opt_text, sentinel_user, user_views, CommentView, GitHubComment, GitHubIssue,
    GitHubLabel, GitHubUser, IssueView, PrFile, PrFileView, PrReview, PrReviewView, UserView,
};
use vstd::prelude::*;

verus! {

/// An issue as the REST interface lists it. The state is the forge's word for
/// it; the repository URL names the repository that the issue belongs to.
#[derive(Debug, Clone)]
pub struct RawIssue {
    pub id: u64,
    pub number: u64,
    pub title: String,
    pub body: Option<String>,
    pub state: String,
    pub labels: Vec<GitHubLabel>,
    pub user: GitHubUser,
    pub assignees: Vec<GitHubUser>,
    pub created_at: Timestamp,
    pub updated_at: Timestamp,
    pub closed_at: Option<Timestamp>,
    pub html_url: String,
    pub is_pull_request: bool,
    pub repository_url: String,
    pub comments: u32,
}

/// A pull request as the REST interface returns it: nearly every part may be absent.
#[derive(Debug, Clone)]
pub struct RawPullRequest {
    pub id: u64,
    pub number: u64,
    pub title: Option<String>,
    pub body: Option<String>,
    pub state: Option<String>,
    pub labels: Option<Vec<GitHubLabel>>,
    pub user: Option<GitHubUser>,
    pub assignees: Option<Vec<GitHubUser>>,
    pub created_at: Option<Timestamp>,
    pub updated_at: Option<Timestamp>,
    pub closed_at: Option<Timestamp>,
    pub merged_at: Option<Timestamp>,
    pub html_url: Option<String>,
    pub comments: Option<u64>,
}

/// A comment as the REST interface lists it.
#[derive(Debug, Clone)]
pub struct RawComment {
    pub id: u64,
    pub user: GitHubUser,
    pub body: Option<String>,
    pub created_at: Timestamp,
    pub updated_at: Option<Timestamp>,
    pub html_url: String,
}

/// A review as the REST interface lists it.
#[derive(Debug, Clone)]
pub struct RawReview {
    pub id: u64,
    pub user: Option<GitHubUser>,
    pub body: Option<String>,
    pub state: Option<String>,
    pub submitted_at: Option<Timestamp>,
    pub html_url: String,
    pub commit_id: Option<String>,
}

/// A changed file as the REST interface lists it.
#[derive(Debug, Clone)]
pub struct RawPrFile {
    pub filename: String,
    pub status: String,
    pub additions: u64,
    pub deletions: u64,
    pub changes: u64,
    pub patch: Option<String>,
}

/// The first of two optional instants that is there.
pub open spec fn first_of(a: Option<Timestamp>, b: Option<Timestamp>) -> Option<Timestamp> {
    match a {
        Some(t) => Some(t),
        None => b,
    }
}

/// Whether a canonical record keeps its two rules: only a pull request has a
/// merge time, and a record with a merge time has a close time.
pub open spec fn record_well_formed(issue: IssueView) -> bool {
    &&& issue.merged_at is Some ==> issue.is_pull_request
    &&& issue.merged_at is Some ==> issue.closed_at is Some
}

/// The low 32 bits of a count.
pub open spec fn low_32_bits(n: u64) -> u32 {
    (n % 0x1_0000_0000) as u32
}

/// The canonical record of a listed issue. The merge time is kept only for a
/// pull request, and stands in for a close time that the forge left out.
pub open spec fn issue_record(raw: RawIssue, merged_at: Option<Timestamp>) -> IssueView {
    let merged = if raw.is_pull_request {
        merged_at
    } else {
        None
    };
    IssueView {
        id: raw.id,
        number: raw.number,
        title: raw.title@,
        body: opt_text(raw.body),
        state: raw.state@,
        labels: label_views(raw.labels@),
        user: raw.user@,
        assignees: user_views(raw.assignees@),
        created_at: raw.created_at,
        updated_at: raw.updated_at,
        closed_at: first_of(raw.closed_at, merged),
        merged_at: merged,
        html_url: raw.html_url@,
        is_pull_request: raw.is_pull_request,
        comments: raw.comments,
    }
}

/// The canonical record of a pull request. What is absent takes its default:
/// an empty title and URL, the state `open`, no labels and no assignees, the
/// placeholder author, `now` for either timestamp, and no comments. The merge
/// time stands in for a close time that the forge left out.
pub open spec fn pull_request_record(raw: RawPullRequest, now: Timestamp) -> IssueView {
    IssueView {
        id: raw.id,
        number: raw.number,
        title: match raw.title {
            Some(t) => t@,
            None => ""@,
        },
        body: opt_text(raw.body),
        state: match raw.state {
            Some(s) => s@,
            None => "open"@,
        },
        labels: match raw.labels {
            Some(labels) => label_views(labels@),
            None => Seq::empty(),
        },
        user: match raw.user {
            Some(u) => u@,
            None => sentinel_user(),
        },
        assignees: match raw.assignees {
            Some(users) => user_views(users@),
            None => Seq::empty(),
        },
        created_at: match raw.created_at {
            Some(t) => t,
            None => now,
        },
        updated_at: match raw.updated_at {
            Some(t) => t,
            None => now,
        },
        closed_at: first_of(raw.closed_at, raw.merged_at),
        merged_at: raw.merged_at,
        html_url: match raw.html_url {
            Some(u) => u@,
            None => ""@,
        },
        is_pull_request: true,
        comments: match raw.comments {
            Some(n) => low_32_bits(n),
            None => 0,
        },
    }
}

/// The canonical form of a listed comment: an absent body is empty, and a
/// comment that was never edited was last updated when it was made.
pub open spec fn comment_record(raw: RawComment) -> CommentView {
    CommentView {
        id: raw.id,
        user: raw.user@,
        body: match raw.body {
            Some(b) => b@,
            None => ""@,
        },
        created_at: raw.created_at,
        updated_at: match raw.updated_at {
            Some(t) => t,
            None => raw.created_at,
        },
        html_url: raw.html_url@,
    }
}

/// The canonical form of a listed review: an absent author is the
/// placeholder, an absent state is `UNKNOWN`.
pub open spec fn review_record(raw: RawReview) -> PrReviewView {
    PrReviewView {
        id: raw.id,
        user: match raw.user {
            Some(u) => u@,
            None => sentinel_user(),
        },
        body: opt_text(raw.body),
        state: match raw.state {
            Some(s) => s@,
            None => "UNKNOWN"@,
        },
        submitted_at: raw.submitted_at,
        html_url: raw.html_url@,
        commit_id: opt_text(raw.commit_id),
    }
}

/// The canonical form of a changed file: each count is cut to its low 32 bits.
pub open spec fn file_record(raw: RawPrFile) -> PrFileView {
    PrFileView {
        filename: raw.filename@,
        status: raw.status@,
        additions: low_32_bits(raw.additions),
        deletions: low_32_bits(raw.deletions),
        changes: low_32_bits(raw.changes),
        patch: opt_text(raw.patch),
    }
}

/// Makes the placeholder that stands for an author the wire data does not name.
pub fn unknown_user() -> (user: GitHubUser)
    ensures
        user@ == sentinel_user(),
{
    GitHubUser { id: 0, login: "unknown".to_owned(), avatar_url: "".to_owned() }
}

/// Cuts a count to its low 32 bits.
pub fn truncate_count(n: u64) -> (r: u32)
    ensures
        r == low_32_bits(n),
{
    (n % 0x1_0000_0000) as u32
}

/// Normalises a listed issue. `merged_at` is what a lookup of the pull request
/// gave, if one was made; it is dropped for a record that is no pull request.
pub fn normalize_issue(raw: RawIssue, merged_at: Option<Timestamp>) -> (issue: GitHubIssue)
    ensures
        issue@ == issue_record(raw, merged_at),
        record_well_formed(issue@),
{
    let merged = if raw.is_pull_request {
        merged_at
    } else {
        None
    };
    let closed_at = match raw.closed_at {
        Some(t) => Some(t),
        None => merged,
    };
    GitHubIssue {
        id: raw.id,
        number: raw.number,
        title: raw.title,
        body: raw.body,
        state: raw.state,
        labels: raw.labels,
        user: raw.user,
        assignees: raw.assignees,
        created_at: raw.created_at,
        updated_at: raw.updated_at,
        closed_at,
        merged_at: merged,
        html_url: raw.html_url,
        is_pull_request: raw.is_pull_request,
        comments: raw.comments,
    }
}

/// Normalises a pull request; `now` stands in for a missing timestamp.
pub fn normalize_pull_request(raw: RawPullRequest, now: Timestamp) -> (issue: GitHubIssue)
    ensures
        issue@ == pull_request_record(raw, now),
        record_well_formed(issue@),
{
    let closed_at = match raw.closed_at {
        Some(t) => Some(t),
        None => raw.merged_at,
    };
    let labels = match raw.labels {
        Some(labels) => labels,
        None => {
            let empty: Vec<GitHubLabel> = Vec::new();
            assert(label_views(empty@) =~= Seq::empty());
            empty
        },
    };
    let assignees = match raw.assignees {
        Some(users) => users,
        None => {
            let empty: Vec<GitHubUser> = Vec::new();
            assert(user_views(empty@) =~= Seq::empty());
            empty
        },
    };
    GitHubIssue {
        id: raw.id,
        number: raw.number,
        title: match raw.title {
            Some(t) => t,
            None => "".to_owned(),
        },
        body: raw.body,
        state: match raw.state {
            Some(s) => s,
            None => "open".to_owned(),
        },
        labels,
        user: match raw.user {
            Some(u) => u,
            None => unknown_user(),
        },
        assignees,
        created_at: match raw.created_at {
            Some(t) => t,
            None => now,
        },
        updated_at: match raw.updated_at {
            Some(t) => t,
            None => now,
        },
        closed_at,
        merged_at: raw.merged_at,
        html_url: match raw.html_url {
            Some(u) => u,
            None => "".to_owned(),
        },
        is_pull_request: true,
        comments: match raw.comments {
            Some(n) => truncate_count(n),
            None => 0,
        },
    }
}

/// Normalises a listed comment.
pub fn normalize_comment(raw: RawComment) -> (comment: GitHubComment)
    ensures
        comment@ == comment_record(raw),
{
    GitHubComment {
        id: raw.id,
        user: raw.user,
        body: match raw.body {
            Some(b) => b,
            None => "".to_owned(),
        },
        created_at: raw.created_at,
        updated_at: match raw.updated_at {
            Some(t) => t,
            None => raw.created_at,
        },
        html_url: raw.html_url,
    }
}

/// Normalises a listed review.
pub fn normalize_review(raw: RawReview) -> (review: PrReview)
    ensures
        review@ == review_record(raw),
{
    PrReview {
        id: raw.id,
        user: match raw.user {
            Some(u) => u,
            None => unknown_user(),
        },
        body: raw.body,
        state: match raw.state {
            Some(s) => s,
            None => "UNKNOWN".to_owned(),
        },
        submitted_at: raw.submitted_at,
        html_url: raw.html_url,
        commit_id: raw.commit_id,
    }
}

/// Normalises a changed file.
pub fn normalize_pr_file(raw: RawPrFile) -> (file: PrFile)
    ensures
        file@ == file_record(raw),
{
    PrFile {
        filename: raw.filename,
        status: raw.status,
        additions: truncate_count(raw.additions),
        deletions: truncate_count(raw.deletions),
        changes: truncate_count(raw.changes),
        patch: raw.patch,
    }
}

/// Names the repository whose pull request must be looked up to learn the
/// merge time of a listed issue: none for a record that is no pull request,
/// and none where the repository URL does not end in two segments.
pub fn merge_lookup_target(raw: &RawIssue) -> (target: Option<Repository>)
    ensures
        target is Some <==> raw.is_pull_request && has_slash(
            trim_trailing_slashes(raw.repository_url@),
        ),
        target is Some ==> {
            &&& is_url_tail(
                trim_trailing_slashes(raw.repository_url@),
                target->0.owner@,
                target->0.name@,
            )
            &&& target->0.well_formed()
        },
{
    if !raw.is_pull_request {
        return None;
    }
    match Repository::from_url(raw.repository_url.as_str()) {
        Ok(repo) => Some(repo),
        Err(_) => None,
    }
}

/// The views of a list of comments, in order.
pub open spec fn comment_views(comments: Seq<GitHubComment>) -> Seq<CommentView> {
    comments.map_values(|c: GitHubComment| c@)
}

/// The views of a list of reviews, in order.
pub open spec fn review_views(reviews: Seq<PrReview>) -> Seq<PrReviewView> {
    reviews.map_values(|r: PrReview| r@)
}

/// The views of a list of changed files, in order.
pub open spec fn file_views(files: Seq<PrFile>) -> Seq<PrFileView> {
    files.map_values(|f: PrFile| f@)
}

/// Normalises a page of listed comments and appends them to `out`, in order.
pub fn normalize_comments(raw: Vec<RawComment>, out: &mut Vec<GitHubComment>)
    ensures
        comment_views(final(out)@) == comment_views(old(out)@) + raw@.map_values(
            |c: RawComment| comment_record(c),
        ),
{
    let ghost all = raw@;
    assert(comment_views(out@) =~= comment_views(old(out)@) + all.take(0).map_values(
        |c: RawComment| comment_record(c),
    ));
    for item in it: raw.into_iter()
        invariant
            it.seq() == all,
            comment_views(out@) == comment_views(old(out)@) + all.take(it.index() as int).map_values(
                |c: RawComment| comment_record(c),
            ),
    {
        let ghost before = out@;
        out.push(normalize_comment(item));
        assert(comment_views(out@) =~= comment_views(before).push(comment_record(item)));
        assert(all.take(it.index() + 1).map_values(|c: RawComment| comment_record(c)) =~= all.take(
            it.index() as int,
        ).map_values(|c: RawComment| comment_record(c)).push(comment_record(item)));
    }
    assert(all.take(all.len() as int) =~= all);
}

/// Normalises the listed reviews of a pull request, in order.
pub fn normalize_reviews(raw: Vec<RawReview>) -> (reviews: Vec<PrReview>)
    ensures
        review_views(reviews@) == raw@.map_values(|r: RawReview| review_record(r)),
{
    let ghost all = raw@;
    let mut reviews: Vec<PrReview> = Vec::new();
    assert(review_views(reviews@) =~= all.take(0).map_values(|r: RawReview| review_record(r)));
    for item in it: raw.into_iter()
        invariant
            it.seq() == all,
            review_views(reviews@) == all.take(it.index() as int).map_values(
                |r: RawReview| review_record(r),
            ),
    {
        let ghost before = reviews@;
        reviews.push(normalize_review(item));
        assert(review_views(reviews@) =~= review_views(before).push(review_record(item)));
        assert(all.take(it.index() + 1).map_values(|r: RawReview| review_record(r)) =~= all.take(
            it.index() as int,
        ).map_values(|r: RawReview| review_record(r)).push(review_record(item)));
    }
    assert(all.take(all.len() as int) =~= all);
    reviews
}

/// Normalises the listed files of a pull request, in order.
pub fn normalize_pr_files(raw: Vec<RawPrFile>) -> (files: Vec<PrFile>)
    ensures
        file_views(files@) == raw@.map_values(|f: RawPrFile| file_record(f)),
{
    let ghost all = raw@;
    let mut files: Vec<PrFile> = Vec::new();
    assert(file_views(files@) =~= all.take(0).map_values(|f: RawPrFile| file_record(f)));
    for item in it: raw.into_iter()
        invariant
            it.seq() == all,
            file_views(files@) == all.take(it.index() as int).map_values(
                |f: RawPrFile| file_record(f),
            ),
    {
        let ghost before = files@;
        files.push(normalize_pr_file(item));
        assert(file_views(files@) =~= file_views(before).push(file_record(item)));
        assert(all.take(it.index() + 1).map_values(|f: RawPrFile| file_record(f)) =~= all.take(
            it.index() as int,
        ).map_values(|f: RawPrFile| file_record(f)).push(file_record(item)));
    }
    assert(all.take(all.len() as int) =~= all);
    files
}

} // verus!
