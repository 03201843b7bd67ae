//! The canonical records that every wire format is normalised into, each with
//! its mathematical view.

use crate::time::Timestamp;
use vstd::prelude::*;

verus! {

/// The characters of an optional text.
pub open spec fn opt_text(o: Option<String>) -> Option<Seq<char>> {
    match o {
        Some(s) => Some(s@),
        None => None,
    }
}

/// An account on the forge.
#[derive(Debug, Clone)]
pub struct GitHubUser {
    pub id: u64,
    pub login: String,
    pub avatar_url: String,
}

/// View of a [`GitHubUser`].
pub ghost struct UserView {
    pub id: u64,
    pub login: Seq<char>,
    pub avatar_url: Seq<char>,
}

impl View for GitHubUser {
    type V = UserView;

    open spec fn view(&self) -> UserView {
        UserView { id: self.id, login: self.login@, avatar_url: self.avatar_url@ }
    }
}

/// The placeholder that stands for an author the wire data does not name.
pub open spec fn sentinel_user() -> UserView {
    UserView { id: 0, login: "unknown"@, avatar_url: ""@ }
}

/// The views of a list of users, in order.
pub open spec fn user_views(users: Seq<GitHubUser>) -> Seq<UserView> {
    users.map_values(|u: GitHubUser| u@)
}

/// A label attached to an issue or pull request.
#[derive(Debug, Clone)]
pub struct GitHubLabel {
    pub id: u64,
    pub name: String,
    pub color: String,
    pub description: Option<String>,
}

/// View of a [`GitHubLabel`].
pub ghost struct LabelView {
    pub id: u64,
    pub name: Seq<char>,
    pub color: Seq<char>,
    pub description: Option<Seq<char>>,
}

impl View for GitHubLabel {
    type V = LabelView;

    open spec fn view(&self) -> LabelView {
        LabelView {
            id: self.id,
            name: self.name@,
            color: self.color@,
            description: opt_text(self.description),
        }
    }
}

/// The views of a list of labels, in order.
pub open spec fn label_views(labels: Seq<GitHubLabel>) -> Seq<LabelView> {
    labels.map_values(|l: GitHubLabel| l@)
}

/// The canonical record of an issue or a pull request.
#[derive(Debug, Clone)]
pub struct GitHubIssue {
    pub id: u64,
    pub number: u64,
    pub title: String,
    pub body: Option<String>,
    pub state: String,
    pub labels: Vec<GitHubLabel>,
    pub user: GitHubUser,
    pub assignees: Vec<GitHubUser>,
    pub created_at: Timestamp,
    pub updated_at: Timestamp,
    pub closed_at: Option<Timestamp>,
    pub merged_at: Option<Timestamp>,
    pub html_url: String,
    pub is_pull_request: bool,
    pub comments: u32,
}

/// View of a [`GitHubIssue`].
pub ghost struct IssueView {
    pub id: u64,
    pub number: u64,
    pub title: Seq<char>,
    pub body: Option<Seq<char>>,
    pub state: Seq<char>,
    pub labels: Seq<LabelView>,
    pub user: UserView,
    pub assignees: Seq<UserView>,
    pub created_at: Timestamp,
    pub updated_at: Timestamp,
    pub closed_at: Option<Timestamp>,
    pub merged_at: Option<Timestamp>,
    pub html_url: Seq<char>,
    pub is_pull_request: bool,
    pub comments: u32,
}

impl View for GitHubIssue {
    type V = IssueView;

    open spec fn view(&self) -> IssueView {
        IssueView {
            id: self.id,
            number: self.number,
            title: self.title@,
            body: opt_text(self.body),
            state: self.state@,
            labels: label_views(self.labels@),
            user: self.user@,
            assignees: user_views(self.assignees@),
            created_at: self.created_at,
            updated_at: self.updated_at,
            closed_at: self.closed_at,
            merged_at: self.merged_at,
            html_url: self.html_url@,
            is_pull_request: self.is_pull_request,
            comments: self.comments,
        }
    }
}

/// The views of a list of records, in order.
pub open spec fn issue_views(issues: Seq<GitHubIssue>) -> Seq<IssueView> {
    issues.map_values(|i: GitHubIssue| i@)
}

/// A general comment on an issue or pull request.
#[derive(Debug, Clone)]
pub struct GitHubComment {
    pub id: u64,
    pub user: GitHubUser,
    pub body: String,
    pub created_at: Timestamp,
    pub updated_at: Timestamp,
    pub html_url: String,
}

/// View of a [`GitHubComment`].
pub ghost struct CommentView {
    pub id: u64,
    pub user: UserView,
    pub body: Seq<char>,
    pub created_at: Timestamp,
    pub updated_at: Timestamp,
    pub html_url: Seq<char>,
}

impl View for GitHubComment {
    type V = CommentView;

    open spec fn view(&self) -> CommentView {
        CommentView {
            id: self.id,
            user: self.user@,
            body: self.body@,
            created_at: self.created_at,
            updated_at: self.updated_at,
            html_url: self.html_url@,
        }
    }
}

/// A comment on a discussion.
#[derive(Debug, Clone)]
pub struct DiscussionComment {
    pub id: String,
    pub body: String,
    pub author: GitHubUser,
    pub created_at: Timestamp,
    pub updated_at: Timestamp,
}

/// View of a [`DiscussionComment`].
pub ghost struct DiscussionCommentView {
    pub id: Seq<char>,
    pub body: Seq<char>,
    pub author: UserView,
    pub created_at: Timestamp,
    pub updated_at: Timestamp,
}

impl View for DiscussionComment {
    type V = DiscussionCommentView;

    open spec fn view(&self) -> DiscussionCommentView {
        DiscussionCommentView {
            id: self.id@,
            body: self.body@,
            author: self.author@,
            created_at: self.created_at,
            updated_at: self.updated_at,
        }
    }
}

/// The views of a list of discussion comments, in order.
pub open spec fn discussion_comment_views(comments: Seq<DiscussionComment>) -> Seq<
    DiscussionCommentView,
> {
    comments.map_values(|c: DiscussionComment| c@)
}

/// A discussion with the comments that were retrieved with it.
#[derive(Debug, Clone)]
pub struct Discussion {
    pub number: u64,
    pub title: String,
    pub body: String,
    pub url: String,
    pub author: GitHubUser,
    pub created_at: Timestamp,
    pub updated_at: Timestamp,
    pub comments: Vec<DiscussionComment>,
}

/// View of a [`Discussion`].
pub ghost struct DiscussionView {
    pub number: u64,
    pub title: Seq<char>,
    pub body: Seq<char>,
    pub url: Seq<char>,
    pub author: UserView,
    pub created_at: Timestamp,
    pub updated_at: Timestamp,
    pub comments: Seq<DiscussionCommentView>,
}

impl View for Discussion {
    type V = DiscussionView;

    open spec fn view(&self) -> DiscussionView {
        DiscussionView {
            number: self.number,
            title: self.title@,
            body: self.body@,
            url: self.url@,
            author: self.author@,
            created_at: self.created_at,
            updated_at: self.updated_at,
            comments: discussion_comment_views(self.comments@),
        }
    }
}

/// One file changed by a pull request.
#[derive(Debug, Clone)]
pub struct PrFile {
    pub filename: String,
    pub status: String,
    pub additions: u32,
    pub deletions: u32,
    pub changes: u32,
    pub patch: Option<String>,
}

/// View of a [`PrFile`].
pub ghost struct PrFileView {
    pub filename: Seq<char>,
    pub status: Seq<char>,
    pub additions: u32,
    pub deletions: u32,
    pub changes: u32,
    pub patch: Option<Seq<char>>,
}

impl View for PrFile {
    type V = PrFileView;

    open spec fn view(&self) -> PrFileView {
        PrFileView {
            filename: self.filename@,
            status: self.status@,
            additions: self.additions,
            deletions: self.deletions,
            changes: self.changes,
            patch: opt_text(self.patch),
        }
    }
}

/// A review of a pull request. The state is one of APPROVED,
/// CHANGES_REQUESTED, COMMENTED, DISMISSED, PENDING, or UNKNOWN.
#[derive(Debug, Clone)]
pub struct PrReview {
    pub id: u64,
    pub user: GitHubUser,
    pub body: Option<String>,
    pub state: String,
    pub submitted_at: Option<Timestamp>,
    pub html_url: String,
    pub commit_id: Option<String>,
}

/// View of a [`PrReview`].
pub ghost struct PrReviewView {
    pub id: u64,
    pub user: UserView,
    pub body: Option<Seq<char>>,
    pub state: Seq<char>,
    pub submitted_at: Option<Timestamp>,
    pub html_url: Seq<char>,
    pub commit_id: Option<Seq<char>>,
}

impl View for PrReview {
    type V = PrReviewView;

    open spec fn view(&self) -> PrReviewView {
        PrReviewView {
            id: self.id,
            user: self.user@,
            body: opt_text(self.body),
            state: self.state@,
            submitted_at: self.submitted_at,
            html_url: self.html_url@,
            commit_id: opt_text(self.commit_id),
        }
    }
}

/// An inline comment on the diff of a pull request.
#[derive(Debug, Clone)]
pub struct PrReviewComment {
    pub id: u64,
    pub review_id: Option<u64>,
    pub user: GitHubUser,
    pub body: String,
    /// Path of the file that the comment is on.
    pub path: String,
    /// Line in the diff.
    pub line: Option<u32>,
    /// Original line, for a comment on several lines.
    pub original_line: Option<u32>,
    /// The diff hunk around the comment.
    pub diff_hunk: String,
    /// Side of the diff: LEFT or RIGHT.
    pub side: Option<String>,
    pub commit_id: Option<String>,
    pub created_at: Timestamp,
    pub updated_at: Timestamp,
    pub html_url: String,
    /// Position in the diff.
    pub position: Option<u32>,
    /// The comment that this one replies to.
    pub in_reply_to_id: Option<u64>,
}

/// View of a [`PrReviewComment`].
pub ghost struct PrReviewCommentView {
    pub id: u64,
    pub review_id: Option<u64>,
    pub user: UserView,
    pub body: Seq<char>,
    pub path: Seq<char>,
    pub line: Option<u32>,
    pub original_line: Option<u32>,
    pub diff_hunk: Seq<char>,
    pub side: Option<Seq<char>>,
    pub commit_id: Option<Seq<char>>,
    pub created_at: Timestamp,
    pub updated_at: Timestamp,
    pub html_url: Seq<char>,
    pub position: Option<u32>,
    pub in_reply_to_id: Option<u64>,
}

impl View for PrReviewComment {
    type V = PrReviewCommentView;

    open spec fn view(&self) -> PrReviewCommentView {
        PrReviewCommentView {
            id: self.id,
            review_id: self.review_id,
            user: self.user@,
            body: self.body@,
            path: self.path@,
            line: self.line,
            original_line: self.original_line,
            diff_hunk: self.diff_hunk@,
            side: opt_text(self.side),
            commit_id: opt_text(self.commit_id),
            created_at: self.created_at,
            updated_at: self.updated_at,
            html_url: self.html_url@,
            position: self.position,
            in_reply_to_id: self.in_reply_to_id,
        }
    }
}

} // verus!
