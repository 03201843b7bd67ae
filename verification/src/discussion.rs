//! Discussions: the query that asks for one, and the normalisation of the
//! answer into the canonical model.

use crate::decimal::{
    all_digits, decimal_digits, digit_of, digits_value, is_digit, parse_digits, parse_u64,
    parsed_u64, push_number,
};
use crate::error::{ErrorKind, GitHubFetchError};
use crate::json::{text_at, text_field, time_at, time_field, u64_at, u64_field, JsonValue};
use crate::repository::{find_slash, is_segment, Repository};
use crate::text::{chars_of, occurs_at, occurs_at_exec, push_text, string_of_range};
use crate::time::Timestamp;
use crate::types::{
    discussion_comment_views, sentinel_user, Discussion, DiscussionComment,
    DiscussionCommentView, DiscussionView, GitHubUser, UserView,
};
use vstd::prelude::*;

verus! {

/// The author of a discussion comment: every one of id, login and avatar must
/// be a string, and the id a decimal numeral, or there is no author.
pub open spec fn strict_author_of(author: JsonValue) -> Option<UserView> {
    match (text_at(author, "id"@), text_at(author, "login"@), text_at(author, "avatarUrl"@)) {
        (Some(id), Some(login), Some(avatar_url)) => match parsed_u64(id) {
            Some(n) => Some(UserView { id: n, login, avatar_url }),
            None => None,
        },
        _ => None,
    }
}

/// The comment that a node of the comment list holds, given the two instants
/// that were read from its timestamps: absent unless id, body, author and
/// both instants are all there and well-formed.
pub open spec fn discussion_comment_with(
    node: JsonValue,
    created_at: Option<Timestamp>,
    updated_at: Option<Timestamp>,
) -> Option<DiscussionCommentView> {
    match (
        text_at(node, "id"@),
        text_at(node, "body"@),
        node.spec_get("author"@),
        created_at,
        updated_at,
    ) {
        (Some(id), Some(body), Some(author), Some(created), Some(updated)) => {
            match strict_author_of(author) {
                Some(user) => Some(
                    DiscussionCommentView {
                        id,
                        body,
                        author: user,
                        created_at: created,
                        updated_at: updated,
                    },
                ),
                None => None,
            }
        },
        _ => None,
    }
}

/// The comment that a node of the comment list holds: the one it holds given
/// the instants in its members `createdAt` and `updatedAt`.
pub open spec fn discussion_comment_of(node: JsonValue) -> Option<DiscussionCommentView> {
    discussion_comment_with(node, time_at(node, "createdAt"@), time_at(node, "updatedAt"@))
}

/// The comments that a list of nodes holds, in order, malformed nodes left out.
pub open spec fn discussion_comments_of(nodes: Seq<JsonValue>) -> Seq<DiscussionCommentView>
    decreases nodes.len(),
{
    if nodes.len() == 0 {
        Seq::empty()
    } else {
        let before = discussion_comments_of(nodes.drop_last());
        match discussion_comment_of(nodes.last()) {
            Some(comment) => before.push(comment),
            None => before,
        }
    }
}

/// Reading two node lists one after the other gives what reading them as one
/// list gives.
pub proof fn lemma_discussion_comments_concat(a: Seq<JsonValue>, b: Seq<JsonValue>)
    ensures
        discussion_comments_of(a + b) == discussion_comments_of(a) + discussion_comments_of(b),
    decreases b.len(),
{
    if b.len() == 0 {
        assert(a + b =~= a);
        assert(discussion_comments_of(a) + discussion_comments_of(b) =~= discussion_comments_of(
            a,
        ));
    } else {
        lemma_discussion_comments_concat(a, b.drop_last());
        assert((a + b).drop_last() =~= a + b.drop_last());
        assert((a + b).last() == b.last());
        let before = discussion_comments_of(a) + discussion_comments_of(b.drop_last());
        match discussion_comment_of(b.last()) {
            Some(comment) => {
                assert(before.push(comment) =~= discussion_comments_of(a)
                    + discussion_comments_of(b.drop_last()).push(comment));
            },
            None => {},
        }
    }
}

/// A malformed node within a comment list is left out and nothing else is:
/// the comments before it and after it are read as if it were not there.
pub proof fn lemma_malformed_discussion_comment_dropped(
    before: Seq<JsonValue>,
    malformed: JsonValue,
    after: Seq<JsonValue>,
)
    requires
        discussion_comment_of(malformed) is None,
    ensures
        discussion_comments_of(before + seq![malformed] + after) == discussion_comments_of(
            before + after,
        ),
{
    lemma_discussion_comments_concat(before + seq![malformed], after);
    lemma_discussion_comments_concat(before, seq![malformed]);
    lemma_discussion_comments_concat(before, after);
    assert(seq![malformed].drop_last() =~= Seq::<JsonValue>::empty());
    assert(seq![malformed].last() == malformed);
    assert(discussion_comments_of(seq![malformed]) =~= Seq::empty()) by {
        reveal_with_fuel(discussion_comments_of, 2);
    }
    assert(discussion_comments_of(before) + Seq::<DiscussionCommentView>::empty()
        =~= discussion_comments_of(before));
}

/// The author of a discussion: the placeholder where none is given, and for
/// each part that is missing or malformed, that part of the placeholder.
pub open spec fn lenient_author_of(author: Option<JsonValue>) -> UserView {
    match author {
        None => sentinel_user(),
        Some(a) => UserView {
            id: match text_at(a, "id"@) {
                Some(id) => match parsed_u64(id) {
                    Some(n) => n,
                    None => 0,
                },
                None => 0,
            },
            login: match text_at(a, "login"@) {
                Some(login) => login,
                None => "unknown"@,
            },
            avatar_url: match text_at(a, "avatarUrl"@) {
                Some(url) => url,
                None => ""@,
            },
        },
    }
}

/// The node list under `comments.nodes` of a discussion, empty where the path
/// is missing or ends in something other than an array.
pub open spec fn comment_nodes_of(discussion: JsonValue) -> Seq<JsonValue> {
    match discussion.spec_get("comments"@) {
        Some(comments) => match comments.spec_get("nodes"@) {
            Some(nodes) => match nodes.spec_as_array() {
                Some(items) => items,
                None => Seq::empty(),
            },
            None => Seq::empty(),
        },
        None => Seq::empty(),
    }
}

/// The discussion that a discussion object holds, given the two instants
/// that were read from its timestamps and the comments that were read from
/// its comment list. Each optional part that is missing or malformed takes
/// its default: the number that was asked for, the title `Unknown
/// Discussion`, an empty body and URL, the placeholder author, and `now` for
/// either instant.
pub open spec fn discussion_with(
    discussion: JsonValue,
    asked_number: u64,
    now: Timestamp,
    created_at: Option<Timestamp>,
    updated_at: Option<Timestamp>,
    comments: Seq<DiscussionCommentView>,
) -> DiscussionView {
    DiscussionView {
        number: match u64_at(discussion, "number"@) {
            Some(n) => n,
            None => asked_number,
        },
        title: match text_at(discussion, "title"@) {
            Some(t) => t,
            None => "Unknown Discussion"@,
        },
        body: match text_at(discussion, "body"@) {
            Some(t) => t,
            None => ""@,
        },
        url: match text_at(discussion, "url"@) {
            Some(t) => t,
            None => ""@,
        },
        author: lenient_author_of(discussion.spec_get("author"@)),
        created_at: match created_at {
            Some(t) => t,
            None => now,
        },
        updated_at: match updated_at {
            Some(t) => t,
            None => now,
        },
        comments,
    }
}

/// The discussion that a discussion object holds: the one it holds given the
/// instants in its members `createdAt` and `updatedAt` and the comments of
/// its comment list.
pub open spec fn discussion_of(discussion: JsonValue, asked_number: u64, now: Timestamp)
    -> DiscussionView {
    discussion_with(
        discussion,
        asked_number,
        now,
        time_at(discussion, "createdAt"@),
        time_at(discussion, "updatedAt"@),
        discussion_comments_of(comment_nodes_of(discussion)),
    )
}

/// The discussion object of a response: what lies under
/// `data.repository.discussion`. It is absent where a step of that path is
/// missing, and where the path ends in `null`, which is what the forge
/// answers for a discussion that does not exist.
pub open spec fn discussion_node_of(response: JsonValue) -> Option<JsonValue> {
    match response.spec_get("data"@) {
        Some(data) => match data.spec_get("repository"@) {
            Some(repository) => match repository.spec_get("discussion"@) {
                Some(node) => if node is Null {
                    None
                } else {
                    Some(node)
                },
                None => None,
            },
            None => None,
        },
        None => None,
    }
}

/// The message that reports a discussion as not found.
pub open spec fn not_found_message(number: u64, owner: Seq<char>, name: Seq<char>) -> Seq<char> {
    "Discussion #"@ + decimal_digits(number as nat) + " not found in "@ + owner + "/"@ + name
}

/// The text of the member `key`, or `default` where it is missing or no string.
fn text_or(v: &JsonValue, key: &str, default: &str) -> (r: String)
    ensures
        r@ == match text_at(*v, key@) {
            Some(t) => t,
            None => default@,
        },
{
    match text_field(v, key) {
        Some(t) => t.to_owned(),
        None => default.to_owned(),
    }
}

/// Reads the author of a discussion comment.
fn parse_strict_author(author: &JsonValue) -> (r: Option<GitHubUser>)
    ensures
        match r {
            Some(user) => strict_author_of(*author) == Some(user@),
            None => strict_author_of(*author) is None,
        },
{
    let id_text = match text_field(author, "id") {
        Some(t) => t,
        None => { return None; },
    };
    let id = match parse_u64(&chars_of(id_text)) {
        Some(n) => n,
        None => { return None; },
    };
    let login = match text_field(author, "login") {
        Some(t) => t,
        None => { return None; },
    };
    let avatar_url = match text_field(author, "avatarUrl") {
        Some(t) => t,
        None => { return None; },
    };
    Some(GitHubUser { id, login: login.to_owned(), avatar_url: avatar_url.to_owned() })
}

/// Reads one node of a discussion's comment list, given the two instants that
/// were read from its timestamps. A node that lacks a required part, or holds
/// a malformed one, gives `None`; so does a missing instant.
pub fn discussion_comment_from_parts(
    node: &JsonValue,
    created_at: Option<Timestamp>,
    updated_at: Option<Timestamp>,
) -> (r: Option<DiscussionComment>)
    ensures
        match r {
            Some(comment) => discussion_comment_with(*node, created_at, updated_at) == Some(
                comment@,
            ),
            None => discussion_comment_with(*node, created_at, updated_at) is None,
        },
{
    let id = match text_field(node, "id") {
        Some(t) => t,
        None => { return None; },
    };
    let body = match text_field(node, "body") {
        Some(t) => t,
        None => { return None; },
    };
    let author_node = match node.get("author") {
        Some(a) => a,
        None => { return None; },
    };
    let author = match parse_strict_author(author_node) {
        Some(a) => a,
        None => { return None; },
    };
    let created = match created_at {
        Some(t) => t,
        None => { return None; },
    };
    let updated = match updated_at {
        Some(t) => t,
        None => { return None; },
    };
    Some(
        DiscussionComment {
            id: id.to_owned(),
            body: body.to_owned(),
            author,
            created_at: created,
            updated_at: updated,
        },
    )
}

/// Reads one node of a discussion's comment list. A node that lacks a required
/// part, or holds a malformed one, gives `None`.
pub fn parse_discussion_comment(node: &JsonValue) -> (r: Option<DiscussionComment>)
    ensures
        match r {
            Some(comment) => discussion_comment_of(*node) == Some(comment@),
            None => discussion_comment_of(*node) is None,
        },
{
    let created_at = time_field(node, "createdAt");
    let updated_at = time_field(node, "updatedAt");
    discussion_comment_from_parts(node, created_at, updated_at)
}

/// Reads a discussion's comment list node by node and keeps every well-formed
/// comment, in order; a malformed node is left out and does not stop the rest.
pub fn parse_discussion_comments(nodes: &Vec<JsonValue>) -> (r: Vec<DiscussionComment>)
    ensures
        discussion_comment_views(r@) == discussion_comments_of(nodes@),
        r.len() <= nodes.len(),
{
    let mut out: Vec<DiscussionComment> = Vec::new();
    let mut i: usize = 0;
    assert(nodes@.take(0) =~= Seq::<JsonValue>::empty());
    while i < nodes.len()
        invariant
            i <= nodes.len(),
            out.len() <= i,
            discussion_comment_views(out@) =~= discussion_comments_of(
                nodes@.take(i as int),
            ),
        decreases nodes.len() - i,
    {
        assert(nodes@.take(i + 1).drop_last() =~= nodes@.take(i as int));
        assert(nodes@.take(i + 1).last() == nodes@[i as int]);
        let ghost before = out@;
        match parse_discussion_comment(&nodes[i]) {
            Some(comment) => {
                out.push(comment);
                assert(discussion_comment_views(out@)
                    =~= discussion_comment_views(before).push(comment@));
            },
            None => {},
        }
        i += 1;
    }
    assert(nodes@.take(i as int) =~= nodes@);
    out
}

/// Reads the author of a discussion, with the placeholder's parts as defaults.
fn parse_lenient_author(author: Option<&JsonValue>) -> (r: GitHubUser)
    ensures
        r@ == lenient_author_of(
            match author {
                Some(a) => Some(*a),
                None => None,
            },
        ),
{
    match author {
        None => GitHubUser { id: 0, login: "unknown".to_owned(), avatar_url: "".to_owned() },
        Some(a) => {
            let id = match text_field(a, "id") {
                Some(t) => match parse_u64(&chars_of(t)) {
                    Some(n) => n,
                    None => 0,
                },
                None => 0,
            };
            GitHubUser {
                id,
                login: text_or(a, "login", "unknown"),
                avatar_url: text_or(a, "avatarUrl", ""),
            }
        },
    }
}

/// Reads the comment list of a discussion object.
fn parse_comment_nodes(discussion: &JsonValue) -> (r: Vec<DiscussionComment>)
    ensures
        discussion_comment_views(r@) == discussion_comments_of(
            comment_nodes_of(*discussion),
        ),
{
    let nodes = match discussion.get("comments") {
        Some(comments) => match comments.get("nodes") {
            Some(nodes) => nodes.as_array(),
            None => None,
        },
        None => None,
    };
    match nodes {
        Some(items) => parse_discussion_comments(items),
        None => {
            let empty: Vec<DiscussionComment> = Vec::new();
            assert(discussion_comment_views(empty@) =~= Seq::empty());
            empty
        },
    }
}

/// Puts a discussion together from its object, the two instants that were
/// read from its timestamps, and the comments that were read from its comment
/// list. Each part that is missing or malformed takes its default; `now`
/// stands in for a missing instant.
pub fn discussion_from_parts(
    node: &JsonValue,
    asked_number: u64,
    now: Timestamp,
    created_at: Option<Timestamp>,
    updated_at: Option<Timestamp>,
    comments: Vec<DiscussionComment>,
) -> (discussion: Discussion)
    ensures
        discussion@ == discussion_with(
            *node,
            asked_number,
            now,
            created_at,
            updated_at,
            discussion_comment_views(comments@),
        ),
{
    Discussion {
        number: match u64_field(node, "number") {
            Some(n) => n,
            None => asked_number,
        },
        title: text_or(node, "title", "Unknown Discussion"),
        body: text_or(node, "body", ""),
        url: text_or(node, "url", ""),
        author: parse_lenient_author(node.get("author")),
        created_at: match created_at {
            Some(t) => t,
            None => now,
        },
        updated_at: match updated_at {
            Some(t) => t,
            None => now,
        },
        comments,
    }
}

/// Normalises the answer to a discussion query. A response without the path
/// `data.repository.discussion`, or with `null` at its end, is reported as not
/// found; any other response gives a discussion, whose missing parts take
/// their defaults and whose malformed comments are left out. `now` stands in
/// for a missing timestamp.
pub fn parse_discussion_response(
    response: &JsonValue,
    repo: &Repository,
    discussion_number: u64,
    now: Timestamp,
) -> (r: Result<Discussion, GitHubFetchError>)
    ensures
        match discussion_node_of(*response) {
            Some(node) => r is Ok && r->Ok_0@ == discussion_of(node, discussion_number, now),
            None => {
                &&& r is Err
                &&& r->Err_0.spec_kind() == ErrorKind::NotFound
                &&& r->Err_0.spec_message() == not_found_message(
                    discussion_number,
                    repo.owner@,
                    repo.name@,
                )
            },
        },
{
    let found = match response.get("data") {
        Some(data) => match data.get("repository") {
            Some(repository) => repository.get("discussion"),
            None => None,
        },
        None => None,
    };
    let present = match found {
        Some(node) => if node.is_null() {
            None
        } else {
            Some(node)
        },
        None => None,
    };
    let node = match present {
        Some(node) => node,
        None => {
            let mut message = "Discussion #".to_owned();
            push_number(&mut message, discussion_number);
            push_text(&mut message, " not found in ");
            push_text(&mut message, repo.owner.as_str());
            push_text(&mut message, "/");
            push_text(&mut message, repo.name.as_str());
            return Err(GitHubFetchError::NotFound(message));
        },
    };
    let created_at = time_field(node, "createdAt");
    let updated_at = time_field(node, "updatedAt");
    let comments = parse_comment_nodes(node);
    Ok(discussion_from_parts(node, discussion_number, now, created_at, updated_at, comments))
}

/// The URL of a discussion: the scheme `https://`, a host, an owner, a
/// repository, the segment `discussions`, and the number in digits.
pub open spec fn discussion_url_text(
    host: Seq<char>,
    owner: Seq<char>,
    repo: Seq<char>,
    digits: Seq<char>,
) -> Seq<char> {
    "https://"@ + host + seq!['/'] + owner + seq!['/'] + repo + "/discussions/"@ + digits
}

/// Whether `url` is the discussion URL with these parts: host, owner and
/// repository are non-empty and hold no slash, and the number is one or more
/// ASCII digits. Nothing may come before the scheme or after the digits.
#[verifier::opaque]
pub open spec fn is_discussion_url(
    url: Seq<char>,
    host: Seq<char>,
    owner: Seq<char>,
    repo: Seq<char>,
    digits: Seq<char>,
) -> bool {
    &&& url == discussion_url_text(host, owner, repo, digits)
    &&& is_segment(host)
    &&& is_segment(owner)
    &&& is_segment(repo)
    &&& digits.len() > 0
    &&& all_digits(digits)
}

/// Whether a non-empty run without a slash starts at `from` in `s` and is
/// closed by a slash at `end`.
pub open spec fn segment_ends_at(s: Seq<char>, from: int, end: int) -> bool {
    &&& 0 <= from < end < s.len()
    &&& forall|j: int| from <= j < end ==> s[j] != '/'
    &&& s[end] == '/'
}

/// A run that starts at a given position ends at one position only.
pub proof fn lemma_segment_end_unique(s: Seq<char>, from: int, end1: int, end2: int)
    requires
        segment_ends_at(s, from, end1),
        segment_ends_at(s, from, end2),
    ensures
        end1 == end2,
{
    if end1 < end2 {
        assert(s[end1] != '/');
    } else if end2 < end1 {
        assert(s[end2] != '/');
    }
}

/// Whether `url` is laid out as a discussion URL whose host, owner and
/// repository end at the given positions: the scheme at the start, then three
/// non-empty runs without a slash, each closed by one, then the segment
/// `discussions` and one or more digits up to the end.
pub open spec fn discussion_url_layout(url: Seq<char>, host_end: int, owner_end: int, repo_end: int)
    -> bool {
    let digits_start = repo_end + "/discussions/"@.len();
    &&& occurs_at(url, "https://"@, 0)
    &&& segment_ends_at(url, "https://"@.len() as int, host_end)
    &&& segment_ends_at(url, host_end + 1, owner_end)
    &&& segment_ends_at(url, owner_end + 1, repo_end)
    &&& occurs_at(url, "/discussions/"@, repo_end)
    &&& digits_start < url.len()
    &&& all_digits(url.skip(digits_start))
}

/// The parts of a discussion URL lie in it where their lengths put them.
pub proof fn lemma_discussion_url_layout(
    url: Seq<char>,
    host: Seq<char>,
    owner: Seq<char>,
    repo: Seq<char>,
    digits: Seq<char>,
)
    requires
        is_discussion_url(url, host, owner, repo, digits),
    ensures
        ({
            let h: int = 8 + host.len() as int;
            let o: int = h + 1 + owner.len();
            let p: int = o + 1 + repo.len();
            &&& discussion_url_layout(url, h, o, p)
            &&& url.subrange(h + 1, o) == owner
            &&& url.subrange(o + 1, p) == repo
            &&& url.skip(p + 13) == digits
        }),
{
    reveal(is_discussion_url);
    reveal_strlit("https://");
    reveal_strlit("/discussions/");
    let h: int = 8 + host.len() as int;
    let o: int = h + 1 + owner.len();
    let p: int = o + 1 + repo.len();
    assert(url.subrange(0, 8) =~= "https://"@);
    assert(url.subrange(p, p + 13) =~= "/discussions/"@);
    assert(url.subrange(h + 1, o) =~= owner);
    assert(url.subrange(o + 1, p) =~= repo);
    assert(url.skip(p + 13) =~= digits);
    assert forall|j: int| 8 <= j < h implies url[j] != '/' by {
        assert(url[j] == host[j - 8]);
    }
    assert forall|j: int| h + 1 <= j < o implies url[j] != '/' by {
        assert(url[j] == owner[j - h - 1]);
    }
    assert forall|j: int| o + 1 <= j < p implies url[j] != '/' by {
        assert(url[j] == repo[j - o - 1]);
    }
    assert(url[p] == "/discussions/"@[0]);
}

/// A text that is laid out as a discussion URL is one, with the parts that
/// lie between the given positions.
pub proof fn lemma_discussion_url_found(
    url: Seq<char>,
    host_end: int,
    owner_end: int,
    repo_end: int,
)
    requires
        discussion_url_layout(url, host_end, owner_end, repo_end),
    ensures
        "/discussions/"@.len() == 13,
        is_discussion_url(
            url,
            url.subrange(8, host_end),
            url.subrange(host_end + 1, owner_end),
            url.subrange(owner_end + 1, repo_end),
            url.skip(repo_end + 13),
        ),
{
    reveal(is_discussion_url);
    reveal_strlit("https://");
    reveal_strlit("/discussions/");
    let host = url.subrange(8, host_end);
    let owner = url.subrange(host_end + 1, owner_end);
    let repo = url.subrange(owner_end + 1, repo_end);
    let digits = url.skip(repo_end + 13);
    assert(url.subrange(0, 8) == "https://"@);
    assert(url.subrange(repo_end, repo_end + 13) == "/discussions/"@);
    assert(url =~= url.subrange(0, 8) + host + seq!['/'] + owner + seq!['/'] + repo
        + url.subrange(repo_end, repo_end + 13) + digits);
}

/// A text is laid out as a discussion URL in at most one way.
pub proof fn lemma_discussion_url_layout_unique(
    url: Seq<char>,
    host_end1: int,
    owner_end1: int,
    repo_end1: int,
    host_end2: int,
    owner_end2: int,
    repo_end2: int,
)
    requires
        discussion_url_layout(url, host_end1, owner_end1, repo_end1),
        discussion_url_layout(url, host_end2, owner_end2, repo_end2),
    ensures
        host_end1 == host_end2,
        owner_end1 == owner_end2,
        repo_end1 == repo_end2,
{
    lemma_segment_end_unique(url, "https://"@.len() as int, host_end1, host_end2);
    lemma_segment_end_unique(url, host_end1 + 1, owner_end1, owner_end2);
    lemma_segment_end_unique(url, owner_end1 + 1, repo_end1, repo_end2);
}

/// The failure that reports a text as no discussion URL.
fn invalid_discussion_url(url: &str) -> (e: GitHubFetchError)
    ensures
        e.spec_kind() == ErrorKind::InvalidRepository,
        e.spec_message() == "Invalid GitHub discussion URL format: "@ + url@,
{
    let mut message = "Invalid GitHub discussion URL format: ".to_owned();
    push_text(&mut message, url);
    GitHubFetchError::InvalidRepository(message)
}

/// Finds where the non-empty run without a slash that starts at `from` is
/// closed by a slash, or finds that no such run starts there.
fn locate_segment_end(chars: &Vec<char>, from: usize) -> (r: Option<usize>)
    requires
        from <= chars.len(),
    ensures
        match r {
            Some(end) => segment_ends_at(chars@, from as int, end as int),
            None => forall|end: int| !segment_ends_at(chars@, from as int, end),
        },
{
    let end = find_slash(chars, from);
    if end == from || end >= chars.len() {
        assert forall|e: int| !segment_ends_at(chars@, from as int, e) by {
            if segment_ends_at(chars@, from as int, e) {
                if e < end {
                    assert(chars@[e] != '/');
                }
            }
        }
        None
    } else {
        Some(end)
    }
}

/// Whether what follows position `start` is made of ASCII digits only.
fn only_digits_from(chars: &Vec<char>, start: usize) -> (r: bool)
    requires
        start <= chars.len(),
    ensures
        r == all_digits(chars@.skip(start as int)),
{
    let ghost digits = chars@.skip(start as int);
    let mut i: usize = start;
    while i < chars.len()
        invariant
            start <= i <= chars.len(),
            digits == chars@.skip(start as int),
            forall|j: int| 0 <= j < i - start ==> is_digit(#[trigger] digits[j]),
        decreases chars.len() - i,
    {
        assert(digits[i - start] == chars@[i as int]);
        if digit_of(chars[i]).is_none() {
            return false;
        }
        i += 1;
    }
    true
}

/// Finds where the host, the owner and the repository of a discussion URL
/// end, or finds that the text is none.
fn locate_discussion_url_parts(chars: &Vec<char>) -> (r: Option<(usize, usize, usize)>)
    ensures
        match r {
            Some(ends) => discussion_url_layout(
                chars@,
                ends.0 as int,
                ends.1 as int,
                ends.2 as int,
            ),
            None => forall|a: int, b: int, c: int| !discussion_url_layout(chars@, a, b, c),
        },
{
    let scheme = chars_of("https://");
    let segment = chars_of("/discussions/");
    if !occurs_at_exec(chars, &scheme, 0) {
        return None;
    }
    let host_end = match locate_segment_end(chars, scheme.len()) {
        Some(end) => end,
        None => { return None; },
    };
    assert(host_end < chars.len());
    let owner_end = match locate_segment_end(chars, host_end + 1) {
        Some(end) => end,
        None => {
            assert forall|a: int, b: int, c: int| !discussion_url_layout(chars@, a, b, c) by {
                if discussion_url_layout(chars@, a, b, c) {
                    lemma_segment_end_unique(chars@, scheme.len() as int, a, host_end as int);
                }
            }
            return None;
        },
    };
    assert(owner_end < chars.len());
    let repo_end = match locate_segment_end(chars, owner_end + 1) {
        Some(end) => end,
        None => {
            assert forall|a: int, b: int, c: int| !discussion_url_layout(chars@, a, b, c) by {
                if discussion_url_layout(chars@, a, b, c) {
                    lemma_segment_end_unique(chars@, scheme.len() as int, a, host_end as int);
                    lemma_segment_end_unique(chars@, host_end + 1, b, owner_end as int);
                }
            }
            return None;
        },
    };
    let found = if !occurs_at_exec(chars, &segment, repo_end) {
        false
    } else if chars.len() - repo_end <= segment.len() {
        false
    } else {
        only_digits_from(chars, repo_end + segment.len())
    };
    if found {
        Some((host_end, owner_end, repo_end))
    } else {
        assert forall|a: int, b: int, c: int| !discussion_url_layout(chars@, a, b, c) by {
            if discussion_url_layout(chars@, a, b, c) {
                lemma_segment_end_unique(chars@, scheme.len() as int, a, host_end as int);
                lemma_segment_end_unique(chars@, host_end + 1, b, owner_end as int);
                lemma_segment_end_unique(chars@, owner_end + 1, c, repo_end as int);
            }
        }
        None
    }
}

/// A text that is laid out as a discussion URL is one in exactly one way; a
/// text that is not laid out as one is none.
pub proof fn lemma_discussion_url_readings(url: Seq<char>, located: Option<(int, int, int)>)
    requires
        match located {
            Some(ends) => discussion_url_layout(url, ends.0, ends.1, ends.2),
            None => forall|a: int, b: int, c: int| !discussion_url_layout(url, a, b, c),
        },
    ensures
        "/discussions/"@.len() == 13,
        match located {
            Some(ends) => {
                &&& is_discussion_url(
                    url,
                    url.subrange(8, ends.0),
                    url.subrange(ends.0 + 1, ends.1),
                    url.subrange(ends.1 + 1, ends.2),
                    url.skip(ends.2 + 13),
                )
                &&& forall|host: Seq<char>, owner: Seq<char>, repo: Seq<char>, digits: Seq<char>|
                    #[trigger] is_discussion_url(url, host, owner, repo, digits) ==> digits
                        == url.skip(ends.2 + 13)
            },
            None => forall|host: Seq<char>, owner: Seq<char>, repo: Seq<char>, digits: Seq<char>|
                !#[trigger] is_discussion_url(url, host, owner, repo, digits),
        },
{
    reveal_strlit("/discussions/");
    match located {
        Some(ends) => {
            lemma_discussion_url_found(url, ends.0, ends.1, ends.2);
            assert forall|host: Seq<char>, owner: Seq<char>, repo: Seq<char>, digits: Seq<char>|
                #[trigger] is_discussion_url(url, host, owner, repo, digits) implies digits
                == url.skip(ends.2 + 13) by {
                lemma_discussion_url_layout(url, host, owner, repo, digits);
                let h: int = 8 + host.len() as int;
                let o: int = h + 1 + owner.len();
                let p: int = o + 1 + repo.len();
                lemma_discussion_url_layout_unique(url, h, o, p, ends.0, ends.1, ends.2);
            }
        },
        None => {
            assert forall|host: Seq<char>, owner: Seq<char>, repo: Seq<char>, digits: Seq<char>|
                !#[trigger] is_discussion_url(url, host, owner, repo, digits) by {
                if is_discussion_url(url, host, owner, repo, digits) {
                    lemma_discussion_url_layout(url, host, owner, repo, digits);
                }
            }
        },
    }
}

/// Reads owner, repository and number from the URL of a discussion. The whole
/// text must be a discussion URL whose number fits in 64 bits; any other text
/// is refused as an invalid repository.
pub fn parse_discussion_url(url: &str) -> (r: Result<(String, String, u64), GitHubFetchError>)
    ensures
        r is Ok <==> exists|host: Seq<char>, owner: Seq<char>, repo: Seq<char>, digits: Seq<char>|
            #[trigger] is_discussion_url(url@, host, owner, repo, digits) && digits_value(digits)
                <= u64::MAX,
        match r {
            Ok(parts) => exists|host: Seq<char>, digits: Seq<char>|
                parts.2 == digits_value(digits) && #[trigger] is_discussion_url(
                    url@,
                    host,
                    parts.0@,
                    parts.1@,
                    digits,
                ),
            Err(e) => {
                &&& e.spec_kind() == ErrorKind::InvalidRepository
                &&& e.spec_message() == if exists|
                    host: Seq<char>,
                    owner: Seq<char>,
                    repo: Seq<char>,
                    digits: Seq<char>,
                | #[trigger] is_discussion_url(url@, host, owner, repo, digits) {
                    "Invalid discussion number: number too large to fit in target type"@
                } else {
                    "Invalid GitHub discussion URL format: "@ + url@
                }
            },
        },
{
    let chars = chars_of(url);
    let (host_end, owner_end, repo_end) = match locate_discussion_url_parts(&chars) {
        Some(ends) => ends,
        None => {
            proof {
                lemma_discussion_url_readings(url@, None);
            }
            return Err(invalid_discussion_url(url));
        },
    };
    proof {
        lemma_discussion_url_readings(
            url@,
            Some((host_end as int, owner_end as int, repo_end as int)),
        );
        assert(discussion_url_layout(
            chars@,
            host_end as int,
            owner_end as int,
            repo_end as int,
        ));
        assert(repo_end + 13 < chars.len());
    }
    let number = match parse_digits(&chars, repo_end + 13) {
        Some(n) => n,
        None => {
            return Err(
                GitHubFetchError::InvalidRepository(
                    "Invalid discussion number: number too large to fit in target type".to_owned(),
                ),
            );
        },
    };
    let owner = string_of_range(&chars, host_end + 1, owner_end);
    let repo = string_of_range(&chars, owner_end + 1, repo_end);
    let parts = (owner, repo, number);
    proof {
        let host = url@.subrange(8, host_end as int);
        let digits = url@.skip(repo_end + 13);
        assert(is_discussion_url(url@, host, parts.0@, parts.1@, digits));
        assert(exists|host: Seq<char>, digits: Seq<char>|
            parts.2 == digits_value(digits) && #[trigger] is_discussion_url(
                url@,
                host,
                parts.0@,
                parts.1@,
                digits,
            ));
    }
    let r: Result<(String, String, u64), GitHubFetchError> = Ok(parts);
    assert(r->Ok_0 == parts);
    r
}

/// The query that asks for one discussion and the first hundred of its
/// comments. Owner and repository are put between quotes as they are.
pub open spec fn discussion_query_text(owner: Seq<char>, repo: Seq<char>, number: u64) -> Seq<
    char,
> {
    "\n    {\n        repository(owner: \""@ + owner + "\", name: \""@ + repo
        + "\") {\n            discussion(number: "@ + decimal_digits(number as nat)
        + ") {\n                number\n                title\n                body\n                url\n                author {\n                    login\n                    ... on User {\n                        id\n                        avatarUrl\n                    }\n                }\n                createdAt\n                updatedAt\n                comments(first: 100) {\n                    nodes {\n                        id\n                        body\n                        author {\n                            login\n                            ... on User {\n                                id\n                                avatarUrl\n                            }\n                        }\n                        createdAt\n                        updatedAt\n                    }\n                }\n            }\n        }\n    }"@
}

/// Writes the query for the discussion `number` of the repository `owner`/`repo`.
pub fn build_discussion_query(owner: &str, repo: &str, number: u64) -> (query: String)
    ensures
        query@ == discussion_query_text(owner@, repo@, number),
{
    let mut query = "\n    {\n        repository(owner: \"".to_owned();
    push_text(&mut query, owner);
    push_text(&mut query, "\", name: \"");
    push_text(&mut query, repo);
    push_text(&mut query, "\") {\n            discussion(number: ");
    push_number(&mut query, number);
    push_text(
        &mut query,
        ") {\n                number\n                title\n                body\n                url\n                author {\n                    login\n                    ... on User {\n                        id\n                        avatarUrl\n                    }\n                }\n                createdAt\n                updatedAt\n                comments(first: 100) {\n                    nodes {\n                        id\n                        body\n                        author {\n                            login\n                            ... on User {\n                                id\n                                avatarUrl\n                            }\n                        }\n                        createdAt\n                        updatedAt\n                    }\n                }\n            }\n        }\n    }",
    );
    query
}

/// What came back for a discussion query: the transport's refusal with the
/// text it gave, or a body.
#[derive(Debug)]
pub enum GraphqlReply {
    Failure(String),
    Body(JsonValue),
}

/// Normalises what came back for a discussion query. A refusal by the
/// transport is reported as not found, with the text that came with it; a body
/// is read as `parse_discussion_response` reads it.
pub fn discussion_from_reply(
    reply: &GraphqlReply,
    repo: &Repository,
    discussion_number: u64,
    now: Timestamp,
) -> (r: Result<Discussion, GitHubFetchError>)
    ensures
        match *reply {
            GraphqlReply::Failure(text) => {
                &&& r is Err
                &&& r->Err_0.spec_kind() == ErrorKind::NotFound
                &&& r->Err_0.spec_message() == "GitHub GraphQL API request failed: "@ + text@
            },
            GraphqlReply::Body(response) => match discussion_node_of(response) {
                Some(node) => r is Ok && r->Ok_0@ == discussion_of(node, discussion_number, now),
                None => {
                    &&& r is Err
                    &&& r->Err_0.spec_kind() == ErrorKind::NotFound
                    &&& r->Err_0.spec_message() == not_found_message(
                        discussion_number,
                        repo.owner@,
                        repo.name@,
                    )
                },
            },
        },
{
    match reply {
        GraphqlReply::Failure(text) => {
            let mut message = "GitHub GraphQL API request failed: ".to_owned();
            push_text(&mut message, text.as_str());
            Err(GitHubFetchError::NotFound(message))
        },
        GraphqlReply::Body(response) => parse_discussion_response(
            response,
            repo,
            discussion_number,
            now,
        ),
    }
}

} // verus!
