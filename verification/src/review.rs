//! Inline review comments, read from raw JSON with optional lookups: a
//! comment that lacks a required part is left out, and every optional part
//! that is missing is simply absent.

use crate::json::{text_at, text_field, time_at, time_field, u64_at, u64_field, JsonValue};
use crate::decimal::{decimal_digits, push_number};
use crate::normalize::{low_32_bits, truncate_count};
use crate::repository::Repository;
use crate::text::push_text;
use crate::time::Timestamp;
use crate::types::{opt_text, GitHubUser, PrReviewComment, PrReviewCommentView, UserView};
use vstd::prelude::*;

verus! {

/// An optional count, cut to its low 32 bits.
pub open spec fn opt_low_32_bits(n: Option<u64>) -> Option<u32> {
    match n {
        Some(v) => Some(low_32_bits(v)),
        None => None,
    }
}

/// The author of a review comment: id, login and avatar are all required.
pub open spec fn review_author_of(user: JsonValue) -> Option<UserView> {
    match (u64_at(user, "id"@), text_at(user, "login"@), text_at(user, "avatar_url"@)) {
        (Some(id), Some(login), Some(avatar_url)) => Some(UserView { id, login, avatar_url }),
        _ => None,
    }
}

/// The review comment that a JSON object holds, given the two instants that
/// were read from its timestamps. Required are the id, the author with id,
/// login and avatar, the body, the path, both instants and the URL; where one
/// is missing or malformed there is no comment. The line, the original line,
/// the diff hunk, the side, the commit, the position, the review and the
/// comment replied to are optional.
pub open spec fn review_comment_with(
    v: JsonValue,
    created_at: Option<Timestamp>,
    updated_at: Option<Timestamp>,
) -> Option<PrReviewCommentView> {
    match (
        v.spec_get("user"@),
        u64_at(v, "id"@),
        text_at(v, "body"@),
        text_at(v, "path"@),
        created_at,
        updated_at,
        text_at(v, "html_url"@),
    ) {
        (Some(user), Some(id), Some(body), Some(path), Some(created), Some(updated), Some(
            html_url,
        )) => match review_author_of(user) {
            Some(author) => Some(
                PrReviewCommentView {
                    id,
                    review_id: u64_at(v, "pull_request_review_id"@),
                    user: author,
                    body,
                    path,
                    line: opt_low_32_bits(u64_at(v, "line"@)),
                    original_line: opt_low_32_bits(u64_at(v, "original_line"@)),
                    diff_hunk: match text_at(v, "diff_hunk"@) {
                        Some(t) => t,
                        None => ""@,
                    },
                    side: text_at(v, "side"@),
                    commit_id: text_at(v, "commit_id"@),
                    created_at: created,
                    updated_at: updated,
                    html_url,
                    position: opt_low_32_bits(u64_at(v, "position"@)),
                    in_reply_to_id: u64_at(v, "in_reply_to_id"@),
                },
            ),
            None => None,
        },
        _ => None,
    }
}

/// The review comment that a JSON object holds: the one it holds given the
/// instants in its members `created_at` and `updated_at`.
pub open spec fn review_comment_of(v: JsonValue) -> Option<PrReviewCommentView> {
    review_comment_with(v, time_at(v, "created_at"@), time_at(v, "updated_at"@))
}

/// The review comments that a list of JSON objects holds, in order, the
/// malformed ones left out.
pub open spec fn review_comments_of(items: Seq<JsonValue>) -> Seq<PrReviewCommentView>
    decreases items.len(),
{
    if items.len() == 0 {
        Seq::empty()
    } else {
        let before = review_comments_of(items.drop_last());
        match review_comment_of(items.last()) {
            Some(comment) => before.push(comment),
            None => before,
        }
    }
}

/// The views of a list of review comments, in order.
pub open spec fn review_comment_views(comments: Seq<PrReviewComment>) -> Seq<PrReviewCommentView> {
    comments.map_values(|c: PrReviewComment| c@)
}

/// Reading two lists one after the other gives what reading them as one list gives.
pub proof fn lemma_review_comments_concat(a: Seq<JsonValue>, b: Seq<JsonValue>)
    ensures
        review_comments_of(a + b) == review_comments_of(a) + review_comments_of(b),
    decreases b.len(),
{
    if b.len() == 0 {
        assert(a + b =~= a);
        assert(review_comments_of(a) + review_comments_of(b) =~= review_comments_of(a));
    } else {
        lemma_review_comments_concat(a, b.drop_last());
        assert((a + b).drop_last() =~= a + b.drop_last());
        assert((a + b).last() == b.last());
        let before = review_comments_of(a) + review_comments_of(b.drop_last());
        match review_comment_of(b.last()) {
            Some(comment) => {
                assert(before.push(comment) =~= review_comments_of(a) + review_comments_of(
                    b.drop_last(),
                ).push(comment));
            },
            None => {},
        }
    }
}

/// A malformed object within a list is left out and nothing else is: the
/// comments before it and after it are read as if it were not there.
pub proof fn lemma_malformed_review_comment_dropped(
    before: Seq<JsonValue>,
    malformed: JsonValue,
    after: Seq<JsonValue>,
)
    requires
        review_comment_of(malformed) is None,
    ensures
        review_comments_of(before + seq![malformed] + after) == review_comments_of(
            before + after,
        ),
{
    lemma_review_comments_concat(before + seq![malformed], after);
    lemma_review_comments_concat(before, seq![malformed]);
    lemma_review_comments_concat(before, after);
    assert(seq![malformed].drop_last() =~= Seq::<JsonValue>::empty());
    assert(seq![malformed].last() == malformed);
    assert(review_comments_of(seq![malformed]) =~= Seq::empty()) by {
        reveal_with_fuel(review_comments_of, 2);
    }
    assert(review_comments_of(before) + Seq::<PrReviewCommentView>::empty()
        =~= review_comments_of(before));
}

/// Every object of a list that holds a comment gives one: a list without a
/// malformed object is read in full.
pub proof fn lemma_well_formed_review_comments_kept(items: Seq<JsonValue>)
    requires
        forall|i: int| 0 <= i < items.len() ==> review_comment_of(#[trigger] items[i]) is Some,
    ensures
        review_comments_of(items).len() == items.len(),
        forall|i: int|
            0 <= i < items.len() ==> Some(#[trigger] review_comments_of(items)[i])
                == review_comment_of(items[i]),
    decreases items.len(),
{
    if items.len() > 0 {
        lemma_well_formed_review_comments_kept(items.drop_last());
        assert forall|i: int| 0 <= i < items.len() implies Some(
            #[trigger] review_comments_of(items)[i],
        ) == review_comment_of(items[i]) by {
            if i < items.len() - 1 {
                assert(items.drop_last()[i] == items[i]);
            }
        }
    }
}

/// Cuts an optional count to its low 32 bits.
fn opt_truncate(n: Option<u64>) -> (r: Option<u32>)
    ensures
        r == opt_low_32_bits(n),
{
    match n {
        Some(v) => Some(truncate_count(v)),
        None => None,
    }
}

/// The text of an optional member as a string of its own.
fn owned_text_field(v: &JsonValue, key: &str) -> (r: Option<String>)
    ensures
        opt_text(r) == text_at(*v, key@),
{
    match text_field(v, key) {
        Some(t) => Some(t.to_owned()),
        None => None,
    }
}

/// Reads the author of a review comment.
fn parse_review_author(user: &JsonValue) -> (r: Option<GitHubUser>)
    ensures
        match r {
            Some(author) => review_author_of(*user) == Some(author@),
            None => review_author_of(*user) is None,
        },
{
    let id = match u64_field(user, "id") {
        Some(n) => n,
        None => { return None; },
    };
    let login = match text_field(user, "login") {
        Some(t) => t,
        None => { return None; },
    };
    let avatar_url = match text_field(user, "avatar_url") {
        Some(t) => t,
        None => { return None; },
    };
    Some(GitHubUser { id, login: login.to_owned(), avatar_url: avatar_url.to_owned() })
}

/// Reads one review comment from a raw JSON object, given the two instants
/// that were read from its timestamps. Returns `None` where a required part
/// is missing or malformed, an instant among them.
pub fn review_comment_from_parts(
    comment: &JsonValue,
    created_at: Option<Timestamp>,
    updated_at: Option<Timestamp>,
) -> (r: Option<PrReviewComment>)
    ensures
        match r {
            Some(parsed) => review_comment_with(*comment, created_at, updated_at) == Some(
                parsed@,
            ),
            None => review_comment_with(*comment, created_at, updated_at) is None,
        },
{
    let user_node = match comment.get("user") {
        Some(u) => u,
        None => { return None; },
    };
    let id = match u64_field(comment, "id") {
        Some(n) => n,
        None => { return None; },
    };
    let user = match parse_review_author(user_node) {
        Some(u) => u,
        None => { return None; },
    };
    let body = match text_field(comment, "body") {
        Some(t) => t,
        None => { return None; },
    };
    let path = match text_field(comment, "path") {
        Some(t) => t,
        None => { return None; },
    };
    let created = match created_at {
        Some(t) => t,
        None => { return None; },
    };
    let updated = match updated_at {
        Some(t) => t,
        None => { return None; },
    };
    let html_url = match text_field(comment, "html_url") {
        Some(t) => t,
        None => { return None; },
    };
    Some(
        PrReviewComment {
            id,
            review_id: u64_field(comment, "pull_request_review_id"),
            user,
            body: body.to_owned(),
            path: path.to_owned(),
            line: opt_truncate(u64_field(comment, "line")),
            original_line: opt_truncate(u64_field(comment, "original_line")),
            diff_hunk: match text_field(comment, "diff_hunk") {
                Some(t) => t.to_owned(),
                None => "".to_owned(),
            },
            side: owned_text_field(comment, "side"),
            commit_id: owned_text_field(comment, "commit_id"),
            created_at: created,
            updated_at: updated,
            html_url: html_url.to_owned(),
            position: opt_truncate(u64_field(comment, "position")),
            in_reply_to_id: u64_field(comment, "in_reply_to_id"),
        },
    )
}

/// Reads one review comment from a raw JSON object. Returns `None` where a
/// required part is missing or malformed.
pub fn parse_review_comment(comment: &JsonValue) -> (r: Option<PrReviewComment>)
    ensures
        match r {
            Some(parsed) => review_comment_of(*comment) == Some(parsed@),
            None => review_comment_of(*comment) is None,
        },
{
    let created_at = time_field(comment, "created_at");
    let updated_at = time_field(comment, "updated_at");
    review_comment_from_parts(comment, created_at, updated_at)
}

/// Reads a page of review comments object by object and appends every
/// well-formed comment to `out`, in order; a malformed object is left out.
pub fn parse_review_comments(items: &Vec<JsonValue>, out: &mut Vec<PrReviewComment>)
    ensures
        review_comment_views(final(out)@) == review_comment_views(old(out)@) + review_comments_of(
            items@,
        ),
{
    let mut i: usize = 0;
    assert(items@.take(0) =~= Seq::<JsonValue>::empty());
    assert(review_comment_views(out@) =~= review_comment_views(old(out)@) + review_comments_of(
        items@.take(0),
    ));
    while i < items.len()
        invariant
            i <= items.len(),
            review_comment_views(out@) == review_comment_views(old(out)@) + review_comments_of(
                items@.take(i as int),
            ),
        decreases items.len() - i,
    {
        assert(items@.take(i + 1).drop_last() =~= items@.take(i as int));
        assert(items@.take(i + 1).last() == items@[i as int]);
        let ghost before = out@;
        match parse_review_comment(&items[i]) {
            Some(parsed) => {
                out.push(parsed);
                assert(review_comment_views(out@) =~= review_comment_views(before).push(parsed@));
                assert(review_comment_views(out@) =~= review_comment_views(old(out)@)
                    + review_comments_of(items@.take(i + 1)));
            },
            None => {},
        }
        i += 1;
    }
    assert(items@.take(i as int) =~= items@);
}

/// The path that lists one page of the review comments of a pull request, a
/// hundred to the page.
pub open spec fn review_comments_path_text(
    owner: Seq<char>,
    name: Seq<char>,
    pr_number: u64,
    page: u32,
) -> Seq<char> {
    "/repos/"@ + owner + "/"@ + name + "/pulls/"@ + decimal_digits(pr_number as nat)
        + "/comments?per_page=100&page="@ + decimal_digits(page as nat)
}

/// Writes the path that lists page `page` of the review comments of the pull
/// request `pr_number`.
pub fn review_comments_path(repo: &Repository, pr_number: u64, page: u32) -> (path: String)
    ensures
        path@ == review_comments_path_text(repo.owner@, repo.name@, pr_number, page),
{
    let mut path = "/repos/".to_owned();
    push_text(&mut path, repo.owner.as_str());
    push_text(&mut path, "/");
    push_text(&mut path, repo.name.as_str());
    push_text(&mut path, "/pulls/");
    push_number(&mut path, pr_number);
    push_text(&mut path, "/comments?per_page=100&page=");
    push_number(&mut path, page as u64);
    path
}

} // verus!
