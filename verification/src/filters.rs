//! Declarative filters over canonical records, and the text predicates that
//! they are built from.

use crate::codeblocks::{has_code_blocks, spec_has_code_blocks};
use crate::patterns::{regex_find_all, regex_has_match, regex_is_match, regex_matches, texts_of};
use crate::decimal::{decimal_digits, push_number, push_signed, signed_digits};
use crate::text::{
    chars_of, contains_chars, is_substring, lowercase, push_text, str_eq, to_lowercase,
};
use crate::time::Timestamp;
use crate::types::{label_views, GitHubIssue, GitHubLabel, IssueView, LabelView};
use vstd::prelude::*;

verus! {

/// The regular expression of a compiler error code: `E0` and three or four digits.
pub open spec fn error_code_pattern() -> Seq<char> {
    "E0\\d{3,4}"@
}

/// Which states of a record a filter lets through.
#[derive(Debug, Clone, Copy, PartialEq, Eq, Structural)]
pub enum IssueState {
    Open,
    Closed,
    All,
}

/// A span of time; either end may be left open, and both ends belong to it.
#[derive(Debug, Clone, Copy, PartialEq, Eq, Structural)]
pub struct DateRange {
    pub start: Option<Timestamp>,
    pub end: Option<Timestamp>,
}

impl DateRange {
    /// Whether the instant `t` lies in this span.
    pub open spec fn spec_contains(&self, t: Timestamp) -> bool {
        &&& match self.start {
            Some(start) => !t.spec_is_before(&start),
            None => true,
        }
        &&& match self.end {
            Some(end) => !t.spec_is_after(&end),
            None => true,
        }
    }

    /// Tests whether the instant `t` lies in this span.
    #[verifier::when_used_as_spec(spec_contains)]
    pub fn contains(&self, t: Timestamp) -> (r: bool)
        ensures
            r == self.spec_contains(t),
    {
        let after_start = match self.start {
            Some(start) => !t.is_before(&start),
            None => true,
        };
        let before_end = match self.end {
            Some(end) => !t.is_after(&end),
            None => true,
        };
        after_start && before_end
    }
}

/// The texts of the successive matches without repetitions: each text stands
/// where it first occurs.
pub open spec fn distinct(found: Seq<Seq<char>>) -> Seq<Seq<char>>
    decreases found.len(),
{
    if found.len() == 0 {
        Seq::empty()
    } else {
        let before = distinct(found.drop_last());
        if before.contains(found.last()) {
            before
        } else {
            before.push(found.last())
        }
    }
}

/// No text occurs twice in a list without repetitions.
pub proof fn lemma_distinct_no_duplicates(found: Seq<Seq<char>>)
    ensures
        distinct(found).no_duplicates(),
    decreases found.len(),
{
    if found.len() > 0 {
        lemma_distinct_no_duplicates(found.drop_last());
    }
}

/// Leaving out repetitions neither adds a text nor loses one.
pub proof fn lemma_distinct_same_texts(found: Seq<Seq<char>>, x: Seq<char>)
    ensures
        distinct(found).contains(x) <==> found.contains(x),
    decreases found.len(),
{
    if found.len() > 0 {
        let before = found.drop_last();
        lemma_distinct_same_texts(before, x);
        if found.contains(x) {
            let i = choose|i: int| 0 <= i < found.len() && found[i] == x;
            if i < found.len() - 1 {
                assert(before[i] == x);
            }
        }
        if before.contains(x) {
            let i = choose|i: int| 0 <= i < before.len() && before[i] == x;
            assert(found[i] == x);
        }
        if distinct(before).contains(found.last()) {
        } else {
            let d = distinct(before);
            assert(d.push(found.last())[d.len() as int] == found.last());
            if d.contains(x) {
                let i = choose|i: int| 0 <= i < d.len() && d[i] == x;
                assert(d.push(found.last())[i] == x);
            }
        }
        assert(found[found.len() - 1] == found.last());
    }
}

/// A list without repetitions is empty exactly where the list it was made
/// from is.
pub proof fn lemma_distinct_empty(found: Seq<Seq<char>>)
    ensures
        distinct(found).len() == 0 <==> found.len() == 0,
{
    if found.len() > 0 {
        let before = distinct(found.drop_last());
        if before.contains(found.last()) {
            assert(before.len() > 0);
        }
    }
}

/// Tests whether `list` holds a string with the characters of `wanted`.
fn list_contains(list: &Vec<String>, wanted: &String) -> (r: bool)
    ensures
        r == texts_of(list@).contains(wanted@),
{
    let mut i: usize = 0;
    while i < list.len()
        invariant
            i <= list.len(),
            forall|j: int| 0 <= j < i ==> texts_of(list@)[j] != wanted@,
        decreases list.len() - i,
    {
        if list[i] == *wanted {
            assert(texts_of(list@)[i as int] == wanted@);
            return true;
        }
        i += 1;
    }
    false
}

/// Leaves out the repetitions of a list of texts: each text is kept where it
/// first occurs.
pub fn distinct_codes(found: Vec<String>) -> (codes: Vec<String>)
    ensures
        texts_of(codes@) == distinct(texts_of(found@)),
{
    let mut codes: Vec<String> = Vec::new();
    let mut i: usize = 0;
    assert(texts_of(found@).take(0) =~= Seq::<Seq<char>>::empty());
    assert(texts_of(codes@) =~= Seq::<Seq<char>>::empty());
    while i < found.len()
        invariant
            i <= found.len(),
            texts_of(codes@) == distinct(texts_of(found@).take(i as int)),
        decreases found.len() - i,
    {
        let ghost all = texts_of(found@);
        assert(all.take(i + 1).drop_last() =~= all.take(i as int));
        assert(all.take(i + 1).last() == found@[i as int]@);
        if !list_contains(&codes, &found[i]) {
            let ghost before = codes@;
            codes.push(found[i].clone());
            assert(texts_of(codes@) =~= texts_of(before).push(found@[i as int]@));
        }
        i += 1;
    }
    assert(texts_of(found@).take(i as int) =~= texts_of(found@));
    codes
}

/// Tells whether a text holds a compiler error code. The search is the
/// `regex` crate's; the answer is `true` exactly where it reports a match.
pub fn has_rust_error_codes(text: &str) -> (r: bool)
    ensures
        r == (regex_has_match(error_code_pattern(), text@) == Some(true)),
{
    match regex_is_match("E0\\d{3,4}", text) {
        Some(found) => found,
        None => false,
    }
}

/// Lists the compiler error codes that a text holds, each once, in the order
/// of their first occurrence. The search is the `regex` crate's. The list is
/// empty exactly where `has_rust_error_codes` answers that there is none.
pub fn extract_error_codes(text: &str) -> (codes: Vec<String>)
    ensures
        texts_of(codes@) == match regex_matches(error_code_pattern(), text@) {
            Some(found) => distinct(found),
            None => Seq::empty(),
        },
        codes.len() > 0 <==> regex_has_match(error_code_pattern(), text@) == Some(true),
{
    match regex_find_all("E0\\d{3,4}", text) {
        Some(found) => {
            proof {
                lemma_distinct_empty(texts_of(found@));
            }
            let codes = distinct_codes(found);
            assert(texts_of(codes@).len() == codes.len());
            codes
        },
        None => {
            let codes: Vec<String> = Vec::new();
            assert(texts_of(codes@) =~= Seq::<Seq<char>>::empty());
            codes
        },
    }
}

/// A bundle of predicates over one record. A record passes where every
/// predicate that is switched on lets it through.
#[derive(Debug, Clone)]
pub struct IssueFilters {
    pub state: IssueState,
    pub include_labels: Vec<String>,
    pub exclude_labels: Vec<String>,
    pub rust_errors_only: bool,
    pub code_blocks_only: bool,
    pub min_body_length: Option<usize>,
    pub date_range: Option<DateRange>,
    pub include_pull_requests: bool,
    pub min_comments: Option<u32>,
    pub required_keywords: Vec<String>,
    pub excluded_keywords: Vec<String>,
}

/// View of an [`IssueFilters`].
pub ghost struct FiltersView {
    pub state: IssueState,
    pub include_labels: Seq<Seq<char>>,
    pub exclude_labels: Seq<Seq<char>>,
    pub rust_errors_only: bool,
    pub code_blocks_only: bool,
    pub min_body_length: Option<usize>,
    pub date_range: Option<DateRange>,
    pub include_pull_requests: bool,
    pub min_comments: Option<u32>,
    pub required_keywords: Seq<Seq<char>>,
    pub excluded_keywords: Seq<Seq<char>>,
}

impl View for IssueFilters {
    type V = FiltersView;

    open spec fn view(&self) -> FiltersView {
        FiltersView {
            state: self.state,
            include_labels: texts_of(self.include_labels@),
            exclude_labels: texts_of(self.exclude_labels@),
            rust_errors_only: self.rust_errors_only,
            code_blocks_only: self.code_blocks_only,
            min_body_length: self.min_body_length,
            date_range: self.date_range,
            include_pull_requests: self.include_pull_requests,
            min_comments: self.min_comments,
            required_keywords: texts_of(self.required_keywords@),
            excluded_keywords: texts_of(self.excluded_keywords@),
        }
    }
}

/// Whether the state of a record is the one that the selector asks for.
/// `Open` and `Closed` ask for exactly that word; `All` asks for nothing.
pub open spec fn state_accepted(selector: IssueState, state: Seq<char>) -> bool {
    match selector {
        IssueState::Open => state == "Open"@,
        IssueState::Closed => state == "Closed"@,
        IssueState::All => true,
    }
}

/// Whether a label name is in a list, letter case aside: its lowercase form
/// is the lowercase form of an entry.
pub open spec fn label_listed(name: Seq<char>, list: Seq<Seq<char>>) -> bool {
    exists|i: int| 0 <= i < list.len() && lowercase(#[trigger] list[i]) == lowercase(name)
}

/// Whether one of the labels is in the list, letter case aside.
pub open spec fn any_label_listed(labels: Seq<LabelView>, list: Seq<Seq<char>>) -> bool {
    exists|j: int| 0 <= j < labels.len() && label_listed((#[trigger] labels[j]).name, list)
}

/// The body of a record as text; the empty text where it has none.
pub open spec fn body_text(issue: IssueView) -> Seq<char> {
    match issue.body {
        Some(body) => body,
        None => ""@,
    }
}

/// The length of a record's body in bytes of UTF-8; zero where it has none.
pub open spec fn body_length(issue: IssueView) -> nat {
    match issue.body {
        Some(body) => vstd::utf8::encode_utf8(body).len(),
        None => 0,
    }
}

/// The text of a record as it was written: title, a space, and the body.
/// Error codes are looked for in it.
pub open spec fn written_content(issue: IssueView) -> Seq<char> {
    issue.title + " "@ + body_text(issue)
}

/// The text that keywords are looked for in: the text of the record, all in
/// lowercase.
pub open spec fn content_of(issue: IssueView) -> Seq<char> {
    lowercase(written_content(issue))
}

/// Whether one of the keywords, in lowercase, occurs in the content.
pub open spec fn any_keyword_found(content: Seq<char>, keywords: Seq<Seq<char>>) -> bool {
    exists|i: int|
        0 <= i < keywords.len() && is_substring(lowercase(#[trigger] keywords[i]), content)
}

/// Whether a record passes a filter: every predicate must let it through.
pub open spec fn accepts(filters: FiltersView, issue: IssueView) -> bool {
    &&& state_accepted(filters.state, issue.state)
    &&& filters.include_pull_requests || !issue.is_pull_request
    &&& filters.include_labels.len() == 0 || any_label_listed(
        issue.labels,
        filters.include_labels,
    )
    &&& !any_label_listed(issue.labels, filters.exclude_labels)
    &&& match filters.min_body_length {
        Some(min) => body_length(issue) >= min,
        None => true,
    }
    &&& match filters.min_comments {
        Some(min) => issue.comments >= min,
        None => true,
    }
    &&& match filters.date_range {
        Some(range) => range.spec_contains(issue.created_at),
        None => true,
    }
    &&& filters.required_keywords.len() == 0 || any_keyword_found(
        content_of(issue),
        filters.required_keywords,
    )
    &&& !any_keyword_found(content_of(issue), filters.excluded_keywords)
    &&& filters.rust_errors_only ==> regex_has_match(
        error_code_pattern(),
        written_content(issue),
    ) == Some(true)
    &&& filters.code_blocks_only ==> spec_has_code_blocks(body_text(issue))
}

/// Label matching ignores letter case: two names with one lowercase form are
/// in the same lists.
pub proof fn lemma_label_matching_ignores_case(
    name: Seq<char>,
    other: Seq<char>,
    list: Seq<Seq<char>>,
)
    requires
        lowercase(name) == lowercase(other),
    ensures
        label_listed(name, list) == label_listed(other, list),
{
}

/// The lowercase form of each text of a list, in order.
pub open spec fn lowercase_each(list: Seq<Seq<char>>) -> Seq<Seq<char>> {
    Seq::new(list.len(), |i: int| lowercase(list[i]))
}

/// The lowercase form of the name of each label of a list, in order.
pub open spec fn lowercase_names(labels: Seq<LabelView>) -> Seq<Seq<char>> {
    Seq::new(labels.len(), |i: int| lowercase(labels[i].name))
}

/// The texts of a filter and of a record in lowercase: what the comparisons
/// of labels and keywords go by.
#[derive(Debug, Clone)]
pub struct LoweredTexts {
    /// The names of the record's labels.
    pub labels: Vec<String>,
    pub include_labels: Vec<String>,
    pub exclude_labels: Vec<String>,
    /// Title, a space, and body of the record.
    pub content: String,
    pub required_keywords: Vec<String>,
    pub excluded_keywords: Vec<String>,
}

/// View of a [`LoweredTexts`].
pub ghost struct LoweredView {
    pub labels: Seq<Seq<char>>,
    pub include_labels: Seq<Seq<char>>,
    pub exclude_labels: Seq<Seq<char>>,
    pub content: Seq<char>,
    pub required_keywords: Seq<Seq<char>>,
    pub excluded_keywords: Seq<Seq<char>>,
}

impl View for LoweredTexts {
    type V = LoweredView;

    open spec fn view(&self) -> LoweredView {
        LoweredView {
            labels: texts_of(self.labels@),
            include_labels: texts_of(self.include_labels@),
            exclude_labels: texts_of(self.exclude_labels@),
            content: self.content@,
            required_keywords: texts_of(self.required_keywords@),
            excluded_keywords: texts_of(self.excluded_keywords@),
        }
    }
}

/// The lowercase texts of a filter and a record.
pub open spec fn lowered_of(filters: FiltersView, issue: IssueView) -> LoweredView {
    LoweredView {
        labels: lowercase_names(issue.labels),
        include_labels: lowercase_each(filters.include_labels),
        exclude_labels: lowercase_each(filters.exclude_labels),
        content: content_of(issue),
        required_keywords: lowercase_each(filters.required_keywords),
        excluded_keywords: lowercase_each(filters.excluded_keywords),
    }
}

/// Whether two lists have a text in common.
pub open spec fn shares_text(a: Seq<Seq<char>>, b: Seq<Seq<char>>) -> bool {
    exists|i: int, j: int| 0 <= i < a.len() && 0 <= j < b.len() && #[trigger] a[i] == #[trigger] b[j]
}

/// Whether one of the texts of a list occurs in `hay`.
pub open spec fn any_within(needles: Seq<Seq<char>>, hay: Seq<char>) -> bool {
    exists|i: int| 0 <= i < needles.len() && is_substring(#[trigger] needles[i], hay)
}

/// Whether a record passes a filter, given the lowercase texts of both and
/// the answer to whether the record holds an error code. Labels and keywords
/// are compared as they stand in `lowered`.
pub open spec fn accepts_prepared(
    filters: FiltersView,
    issue: IssueView,
    lowered: LoweredView,
    has_error_code: bool,
) -> bool {
    &&& state_accepted(filters.state, issue.state)
    &&& filters.include_pull_requests || !issue.is_pull_request
    &&& lowered.include_labels.len() == 0 || shares_text(lowered.labels, lowered.include_labels)
    &&& !shares_text(lowered.labels, lowered.exclude_labels)
    &&& match filters.min_body_length {
        Some(min) => body_length(issue) >= min,
        None => true,
    }
    &&& match filters.min_comments {
        Some(min) => issue.comments >= min,
        None => true,
    }
    &&& match filters.date_range {
        Some(range) => range.spec_contains(issue.created_at),
        None => true,
    }
    &&& lowered.required_keywords.len() == 0 || any_within(
        lowered.required_keywords,
        lowered.content,
    )
    &&& !any_within(lowered.excluded_keywords, lowered.content)
    &&& filters.rust_errors_only ==> has_error_code
    &&& filters.code_blocks_only ==> spec_has_code_blocks(body_text(issue))
}

/// One of the labels is in a list, letter case aside, exactly where the
/// lowercase names and the lowercase list have a text in common.
pub proof fn lemma_labels_listed_as_lowered(labels: Seq<LabelView>, list: Seq<Seq<char>>)
    ensures
        any_label_listed(labels, list) == shares_text(lowercase_names(labels), lowercase_each(list)),
{
    let a = lowercase_names(labels);
    let b = lowercase_each(list);
    if any_label_listed(labels, list) {
        let j = choose|j: int| 0 <= j < labels.len() && label_listed((#[trigger] labels[j]).name, list);
        let i = choose|i: int|
            0 <= i < list.len() && lowercase(#[trigger] list[i]) == lowercase(labels[j].name);
        assert(a[j] == b[i]);
    }
    if shares_text(a, b) {
        let (i, j) = choose|i: int, j: int|
            0 <= i < a.len() && 0 <= j < b.len() && #[trigger] a[i] == #[trigger] b[j];
        assert(lowercase(list[j]) == lowercase(labels[i].name));
        assert(label_listed(labels[i].name, list));
    }
}

/// A keyword, in lowercase, occurs in a text exactly where one of the
/// lowercase keywords does.
pub proof fn lemma_keywords_found_as_lowered(content: Seq<char>, keywords: Seq<Seq<char>>)
    ensures
        any_keyword_found(content, keywords) == any_within(lowercase_each(keywords), content),
{
    let lowered = lowercase_each(keywords);
    if any_keyword_found(content, keywords) {
        let i = choose|i: int|
            0 <= i < keywords.len() && is_substring(lowercase(#[trigger] keywords[i]), content);
        assert(is_substring(lowered[i], content));
    }
    if any_within(lowered, content) {
        let i = choose|i: int| 0 <= i < lowered.len() && is_substring(#[trigger] lowered[i], content);
        assert(is_substring(lowercase(keywords[i]), content));
    }
}

/// A record passes a filter exactly where it passes on the lowercase texts of
/// the two and on the answer of the search for an error code in the text of
/// the record as it was written.
pub proof fn lemma_accepts_as_prepared(filters: FiltersView, issue: IssueView)
    ensures
        accepts(filters, issue) == accepts_prepared(
            filters,
            issue,
            lowered_of(filters, issue),
            regex_has_match(error_code_pattern(), written_content(issue)) == Some(true),
        ),
{
    lemma_labels_listed_as_lowered(issue.labels, filters.include_labels);
    lemma_labels_listed_as_lowered(issue.labels, filters.exclude_labels);
    lemma_keywords_found_as_lowered(content_of(issue), filters.required_keywords);
    lemma_keywords_found_as_lowered(content_of(issue), filters.excluded_keywords);
}

/// Label matching ignores letter case in a record too: two records that
/// differ in the names of their labels only, each name with the lowercase
/// form of the name in its place, pass the same filters.
pub proof fn lemma_records_alike_but_for_case(
    filters: FiltersView,
    issue: IssueView,
    other: IssueView,
)
    requires
        other == (IssueView { labels: other.labels, ..issue }),
        other.labels.len() == issue.labels.len(),
        forall|i: int|
            0 <= i < issue.labels.len() ==> lowercase((#[trigger] other.labels[i]).name)
                == lowercase(issue.labels[i].name),
    ensures
        accepts(filters, issue) == accepts(filters, other),
{
    lemma_accepts_as_prepared(filters, issue);
    lemma_accepts_as_prepared(filters, other);
    assert(lowercase_names(issue.labels) =~= lowercase_names(other.labels));
}

/// The lowercase form of each string of a list.
fn lowercase_strings(list: &Vec<String>) -> (r: Vec<String>)
    ensures
        texts_of(r@) == lowercase_each(texts_of(list@)),
{
    let mut out: Vec<String> = Vec::new();
    let mut i: usize = 0;
    while i < list.len()
        invariant
            i <= list.len(),
            out.len() == i,
            forall|j: int| 0 <= j < i ==> (#[trigger] out@[j])@ == lowercase(list@[j]@),
        decreases list.len() - i,
    {
        out.push(to_lowercase(list[i].as_str()));
        i += 1;
    }
    assert(texts_of(out@) =~= lowercase_each(texts_of(list@)));
    out
}

/// The lowercase form of the name of each label of a list.
fn lowercase_label_names(labels: &Vec<GitHubLabel>) -> (r: Vec<String>)
    ensures
        texts_of(r@) == lowercase_names(label_views(labels@)),
{
    let mut out: Vec<String> = Vec::new();
    let mut i: usize = 0;
    while i < labels.len()
        invariant
            i <= labels.len(),
            out.len() == i,
            forall|j: int| 0 <= j < i ==> (#[trigger] out@[j])@ == lowercase(labels@[j].name@),
        decreases labels.len() - i,
    {
        out.push(to_lowercase(labels[i].name.as_str()));
        i += 1;
    }
    assert(texts_of(out@) =~= lowercase_names(label_views(labels@)));
    out
}

/// Tests whether two lists have a string in common.
fn shares_text_exec(a: &Vec<String>, b: &Vec<String>) -> (r: bool)
    ensures
        r == shares_text(texts_of(a@), texts_of(b@)),
{
    let mut i: usize = 0;
    while i < a.len()
        invariant
            i <= a.len(),
            forall|k: int, j: int|
                0 <= k < i && 0 <= j < b.len() ==> #[trigger] texts_of(a@)[k] != #[trigger] texts_of(
                    b@,
                )[j],
        decreases a.len() - i,
    {
        if list_contains(b, &a[i]) {
            let ghost j = choose|j: int| 0 <= j < b.len() && texts_of(b@)[j] == a@[i as int]@;
            assert(texts_of(a@)[i as int] == texts_of(b@)[j]);
            return true;
        }
        assert forall|j: int| 0 <= j < b.len() implies texts_of(a@)[i as int] != #[trigger] texts_of(
            b@,
        )[j] by {
            if texts_of(b@)[j] == a@[i as int]@ {
                assert(texts_of(b@).contains(a@[i as int]@));
            }
        }
        i += 1;
    }
    false
}

/// Tests whether one of the strings of a list occurs in `hay`.
fn any_within_exec(needles: &Vec<String>, hay: &Vec<char>) -> (r: bool)
    ensures
        r == any_within(texts_of(needles@), hay@),
{
    let mut i: usize = 0;
    while i < needles.len()
        invariant
            i <= needles.len(),
            forall|j: int| 0 <= j < i ==> !is_substring(#[trigger] texts_of(needles@)[j], hay@),
        decreases needles.len() - i,
    {
        let needle = chars_of(needles[i].as_str());
        assert(needle@ == texts_of(needles@)[i as int]);
        if contains_chars(hay, &needle) {
            return true;
        }
        i += 1;
    }
    false
}

impl IssueFilters {
    /// Evaluates the filter on one record, given the lowercase texts of the
    /// two and the answer to whether the record holds an error code. The
    /// predicates are tried in a fixed order and the first that fails rejects
    /// the record: state, pull-request exclusion, labels to include, labels
    /// to exclude, body length, comment count, date range, required keywords,
    /// excluded keywords, error codes, code blocks.
    pub fn matches_prepared(
        &self,
        issue: &GitHubIssue,
        lowered: &LoweredTexts,
        has_error_code: bool,
    ) -> (r: bool)
        ensures
            r == accepts_prepared(self@, issue@, lowered@, has_error_code),
    {
        match self.state {
            IssueState::Open => {
                if !str_eq(issue.state.as_str(), "Open") {
                    return false;
                }
            },
            IssueState::Closed => {
                if !str_eq(issue.state.as_str(), "Closed") {
                    return false;
                }
            },
            IssueState::All => {},
        }
        if !self.include_pull_requests && issue.is_pull_request {
            return false;
        }
        if lowered.include_labels.len() > 0 {
            if !shares_text_exec(&lowered.labels, &lowered.include_labels) {
                return false;
            }
        }
        if shares_text_exec(&lowered.labels, &lowered.exclude_labels) {
            return false;
        }
        if let Some(min_length) = self.min_body_length {
            let length: usize = match &issue.body {
                Some(b) => b.as_str().as_bytes().len(),
                None => 0,
            };
            if length < min_length {
                return false;
            }
        }
        if let Some(min_comments) = self.min_comments {
            if issue.comments < min_comments {
                return false;
            }
        }
        if let Some(range) = self.date_range {
            if !range.contains(issue.created_at) {
                return false;
            }
        }
        let content = chars_of(lowered.content.as_str());
        if lowered.required_keywords.len() > 0 {
            if !any_within_exec(&lowered.required_keywords, &content) {
                return false;
            }
        }
        if any_within_exec(&lowered.excluded_keywords, &content) {
            return false;
        }
        if self.rust_errors_only && !has_error_code {
            return false;
        }
        if self.code_blocks_only {
            let body: &str = match &issue.body {
                Some(b) => b.as_str(),
                None => "",
            };
            if !has_code_blocks(body) {
                return false;
            }
        }
        true
    }

    /// The text of a record as it was written: title, a space, and the body.
    fn written_text(issue: &GitHubIssue) -> (text: String)
        ensures
            text@ == written_content(issue@),
    {
        let body: &str = match &issue.body {
            Some(b) => b.as_str(),
            None => "",
        };
        let mut text = String::new();
        push_text(&mut text, issue.title.as_str());
        push_text(&mut text, " ");
        push_text(&mut text, body);
        assert(text@ =~= written_content(issue@));
        text
    }

    /// Evaluates the filter on one record. Labels and keywords are compared
    /// in lowercase; an error code is looked for in the text of the record as
    /// it was written.
    pub fn matches(&self, issue: &GitHubIssue) -> (r: bool)
        ensures
            r == accepts(self@, issue@),
    {
        let written = Self::written_text(issue);
        let lowered = LoweredTexts {
            labels: lowercase_label_names(&issue.labels),
            include_labels: lowercase_strings(&self.include_labels),
            exclude_labels: lowercase_strings(&self.exclude_labels),
            content: to_lowercase(written.as_str()),
            required_keywords: lowercase_strings(&self.required_keywords),
            excluded_keywords: lowercase_strings(&self.excluded_keywords),
        };
        let has_error_code = self.rust_errors_only && has_rust_error_codes(written.as_str());
        proof {
            lemma_accepts_as_prepared(self@, issue@);
            assert(lowered@ == lowered_of(self@, issue@));
        }
        self.matches_prepared(issue, &lowered, has_error_code)
    }
}

/// The filter that is used where none is given: every state, no pull
/// requests, bodies of fifty bytes or more, and neither the labels nor the
/// keywords that mark a record as no report of a problem.
pub open spec fn default_filters() -> FiltersView {
    FiltersView {
        state: IssueState::All,
        include_labels: Seq::empty(),
        exclude_labels: seq!["duplicate"@, "invalid"@, "wontfix"@, "question"@],
        rust_errors_only: false,
        code_blocks_only: false,
        min_body_length: Some(50usize),
        date_range: None,
        include_pull_requests: false,
        min_comments: None,
        required_keywords: Seq::empty(),
        excluded_keywords: seq!["discussion"@, "RFC"@, "tracking"@],
    }
}

/// The filter for records about compiler errors: the default filter, narrowed
/// to five labels, to bodies of a hundred bytes or more, and to records that
/// hold an error code and a code block.
pub open spec fn rust_error_filters() -> FiltersView {
    FiltersView {
        include_labels: seq![
            "E-help-wanted"@,
            "A-diagnostics"@,
            "A-borrowck"@,
            "E-easy"@,
            "E-medium"@,
        ],
        rust_errors_only: true,
        code_blocks_only: true,
        min_body_length: Some(100usize),
        ..default_filters()
    }
}

impl Default for IssueFilters {
    fn default() -> (r: IssueFilters)
        ensures
            r@ == default_filters(),
    {
        let include_labels: Vec<String> = Vec::new();
        let mut exclude_labels: Vec<String> = Vec::new();
        exclude_labels.push("duplicate".to_owned());
        exclude_labels.push("invalid".to_owned());
        exclude_labels.push("wontfix".to_owned());
        exclude_labels.push("question".to_owned());
        let required_keywords: Vec<String> = Vec::new();
        let mut excluded_keywords: Vec<String> = Vec::new();
        excluded_keywords.push("discussion".to_owned());
        excluded_keywords.push("RFC".to_owned());
        excluded_keywords.push("tracking".to_owned());
        assert(texts_of(include_labels@) =~= Seq::empty());
        assert(texts_of(required_keywords@) =~= Seq::empty());
        assert(texts_of(exclude_labels@) =~= seq![
            "duplicate"@,
            "invalid"@,
            "wontfix"@,
            "question"@,
        ]);
        assert(texts_of(excluded_keywords@) =~= seq!["discussion"@, "RFC"@, "tracking"@]);
        IssueFilters {
            state: IssueState::All,
            include_labels,
            exclude_labels,
            rust_errors_only: false,
            code_blocks_only: false,
            min_body_length: Some(50),
            date_range: None,
            include_pull_requests: false,
            min_comments: None,
            required_keywords,
            excluded_keywords,
        }
    }
}

impl IssueFilters {
    /// Makes the filter for records about compiler errors.
    pub fn rust_error_focused() -> (r: IssueFilters)
        ensures
            r@ == rust_error_filters(),
    {
        let mut filters = IssueFilters::default();
        let mut include_labels: Vec<String> = Vec::new();
        include_labels.push("E-help-wanted".to_owned());
        include_labels.push("A-diagnostics".to_owned());
        include_labels.push("A-borrowck".to_owned());
        include_labels.push("E-easy".to_owned());
        include_labels.push("E-medium".to_owned());
        assert(texts_of(include_labels@) =~= seq![
            "E-help-wanted"@,
            "A-diagnostics"@,
            "A-borrowck"@,
            "E-easy"@,
            "E-medium"@,
        ]);
        filters.include_labels = include_labels;
        filters.rust_errors_only = true;
        filters.code_blocks_only = true;
        filters.min_body_length = Some(100);
        filters
    }
}

/// What the `Debug` rendering of a list of strings is: the text that
/// `format!("{:?}", list)` gives.
pub uninterp spec fn debug_list_text(list: Seq<Seq<char>>) -> Seq<char>;

/// `<Vec<String> as Debug>::fmt`, through `format!`: the list in brackets,
/// each string in quotes with its special characters escaped. The text
/// depends on the strings alone and is known by its name only.
#[verifier::external_body]
pub(crate) fn debug_list(list: &Vec<String>) -> (r: String)
    ensures
        r@ == debug_list_text(texts_of(list@)),
{
    format!("{:?}", list)
}

/// One line of a trace where `shown` holds, none where it does not.
pub open spec fn trace_line(shown: bool, line: Seq<char>) -> Seq<Seq<char>> {
    if shown {
        seq![line]
    } else {
        Seq::empty()
    }
}

/// The word for a state selector.
pub open spec fn state_text(state: IssueState) -> Seq<char> {
    match state {
        IssueState::Open => "Open"@,
        IssueState::Closed => "Closed"@,
        IssueState::All => "All"@,
    }
}

/// An optional count in digits; `none` where there is none.
pub open spec fn count_text(count: Option<nat>) -> Seq<char> {
    match count {
        Some(n) => decimal_digits(n),
        None => "none"@,
    }
}

/// One end of a span of time: its seconds and nanoseconds, or `open` where
/// the span has no such end.
pub open spec fn bound_text(bound: Option<Timestamp>) -> Seq<char> {
    match bound {
        Some(t) => signed_digits(t.secs as int) + "s+"@ + decimal_digits(t.nanos as nat) + "ns"@,
        None => "open"@,
    }
}

/// An optional span of time: its two ends, or `none` where there is none.
pub open spec fn date_range_text(range: Option<DateRange>) -> Seq<char> {
    match range {
        Some(r) => bound_text(r.start) + " to "@ + bound_text(r.end),
        None => "none"@,
    }
}

/// The word for a switch.
pub open spec fn switch_text(on: bool) -> Seq<char> {
    if on {
        "true"@
    } else {
        "false"@
    }
}

/// The least body length of a filter as an optional count.
pub open spec fn min_body_length_count(filters: FiltersView) -> Option<nat> {
    match filters.min_body_length {
        Some(n) => Some(n as nat),
        None => None,
    }
}

/// The least number of comments of a filter as an optional count.
pub open spec fn min_comments_count(filters: FiltersView) -> Option<nat> {
    match filters.min_comments {
        Some(n) => Some(n as nat),
        None => None,
    }
}

/// The trace of a filter: one line for each option whose value is not the
/// one that the default filter has, with the value it has instead. The lines
/// come in this order: state, labels to include, labels to exclude, error
/// codes only, code blocks only, least body length, date range, pull requests
/// included, least number of comments, required keywords, excluded keywords.
/// The default filter has the empty trace.
pub open spec fn filter_trace(filters: FiltersView) -> Seq<Seq<char>> {
    let usual = default_filters();
    trace_line(filters.state != usual.state, "state: "@ + state_text(filters.state)) + trace_line(
        filters.include_labels != usual.include_labels,
        "include_labels: "@ + debug_list_text(filters.include_labels),
    ) + trace_line(
        filters.exclude_labels != usual.exclude_labels,
        "exclude_labels: "@ + debug_list_text(filters.exclude_labels),
    ) + trace_line(
        filters.rust_errors_only != usual.rust_errors_only,
        "rust_errors_only: "@ + switch_text(filters.rust_errors_only),
    ) + trace_line(
        filters.code_blocks_only != usual.code_blocks_only,
        "code_blocks_only: "@ + switch_text(filters.code_blocks_only),
    ) + trace_line(
        filters.min_body_length != usual.min_body_length,
        "min_body_length: "@ + count_text(min_body_length_count(filters)),
    ) + trace_line(
        filters.date_range != usual.date_range,
        "date_range: "@ + date_range_text(filters.date_range),
    ) + trace_line(
        filters.include_pull_requests != usual.include_pull_requests,
        "include_pull_requests: "@ + switch_text(filters.include_pull_requests),
    ) + trace_line(
        filters.min_comments != usual.min_comments,
        "min_comments: "@ + count_text(min_comments_count(filters)),
    ) + trace_line(
        filters.required_keywords != usual.required_keywords,
        "required_keywords: "@ + debug_list_text(filters.required_keywords),
    ) + trace_line(
        filters.excluded_keywords != usual.excluded_keywords,
        "excluded_keywords: "@ + debug_list_text(filters.excluded_keywords),
    )
}

/// The trace is empty for the default filter and for no other: every filter
/// that differs from the default in an option has a line for it.
pub proof fn lemma_trace_empty_for_default_only(filters: FiltersView)
    ensures
        filter_trace(filters).len() == 0 <==> filters == default_filters(),
        filter_trace(default_filters()) == Seq::<Seq<char>>::empty(),
{
    assert(filter_trace(default_filters()) =~= Seq::<Seq<char>>::empty());
}

/// A label and an optional count.
fn labelled_count(label: &str, count: Option<u64>) -> (r: String)
    ensures
        r@ == label@ + count_text(
            match count {
                Some(n) => Some(n as nat),
                None => None,
            },
        ),
{
    let mut line = label.to_owned();
    match count {
        Some(n) => push_number(&mut line, n),
        None => push_text(&mut line, "none"),
    }
    line
}

/// A label and the `Debug` rendering of a list.
fn labelled_list(label: &str, list: &Vec<String>) -> (r: String)
    ensures
        r@ == label@ + debug_list_text(texts_of(list@)),
{
    let mut line = label.to_owned();
    push_text(&mut line, debug_list(list).as_str());
    line
}

/// A label and the word for a switch.
fn labelled_switch(label: &str, on: bool) -> (r: String)
    ensures
        r@ == label@ + switch_text(on),
{
    let mut line = label.to_owned();
    if on {
        push_text(&mut line, "true");
    } else {
        push_text(&mut line, "false");
    }
    line
}

/// Appends one end of a span of time to a line.
fn push_bound(line: &mut String, bound: Option<Timestamp>)
    ensures
        final(line)@ == old(line)@ + bound_text(bound),
{
    match bound {
        Some(t) => {
            push_signed(line, t.secs);
            push_text(line, "s+");
            push_number(line, t.nanos as u64);
            push_text(line, "ns");
            assert(line@ =~= old(line)@ + bound_text(bound));
        },
        None => push_text(line, "open"),
    }
}

/// A label and an optional span of time.
fn labelled_date_range(label: &str, range: Option<DateRange>) -> (r: String)
    ensures
        r@ == label@ + date_range_text(range),
{
    let mut line = label.to_owned();
    match range {
        Some(r) => {
            push_bound(&mut line, r.start);
            push_text(&mut line, " to ");
            push_bound(&mut line, r.end);
            assert(line@ =~= label@ + date_range_text(range));
        },
        None => push_text(&mut line, "none"),
    }
    line
}

/// Tests whether two lists hold the same texts in the same order.
fn texts_equal(a: &Vec<String>, b: &Vec<String>) -> (r: bool)
    ensures
        r == (texts_of(a@) == texts_of(b@)),
{
    if a.len() != b.len() {
        assert(texts_of(a@).len() != texts_of(b@).len());
        return false;
    }
    let mut i: usize = 0;
    while i < a.len()
        invariant
            i <= a.len(),
            a.len() == b.len(),
            forall|j: int| 0 <= j < i ==> texts_of(a@)[j] == texts_of(b@)[j],
        decreases a.len() - i,
    {
        if a[i] != b[i] {
            assert(texts_of(a@)[i as int] != texts_of(b@)[i as int]);
            return false;
        }
        i += 1;
    }
    assert(texts_of(a@) =~= texts_of(b@));
    true
}

/// Appends a line to a trace where `shown` holds.
fn push_trace_line(trace: &mut Vec<String>, shown: bool, line: String)
    ensures
        texts_of(final(trace)@) == texts_of(old(trace)@) + trace_line(shown, line@),
{
    if shown {
        trace.push(line);
        assert(texts_of(trace@) =~= texts_of(old(trace)@) + trace_line(shown, line@));
    } else {
        assert(texts_of(trace@) =~= texts_of(old(trace)@) + trace_line(shown, line@));
    }
}

/// Renders the trace of a filter: every option whose value is not the
/// default one, with its value. The trace is for the reader of a result; no
/// matching goes by it, and rendering it changes nothing.
pub fn describe_filters(filters: &IssueFilters) -> (trace: Vec<String>)
    ensures
        texts_of(trace@) == filter_trace(filters@),
{
    let usual = IssueFilters::default();
    let mut trace: Vec<String> = Vec::new();
    assert(texts_of(trace@) =~= Seq::<Seq<char>>::empty());
    let state_word = match filters.state {
        IssueState::Open => "Open",
        IssueState::Closed => "Closed",
        IssueState::All => "All",
    };
    let mut state_line = "state: ".to_owned();
    push_text(&mut state_line, state_word);
    push_trace_line(
        &mut trace,
        match filters.state {
            IssueState::All => false,
            _ => true,
        },
        state_line,
    );
    push_trace_line(
        &mut trace,
        !texts_equal(&filters.include_labels, &usual.include_labels),
        labelled_list("include_labels: ", &filters.include_labels),
    );
    push_trace_line(
        &mut trace,
        !texts_equal(&filters.exclude_labels, &usual.exclude_labels),
        labelled_list("exclude_labels: ", &filters.exclude_labels),
    );
    push_trace_line(
        &mut trace,
        filters.rust_errors_only,
        labelled_switch("rust_errors_only: ", filters.rust_errors_only),
    );
    push_trace_line(
        &mut trace,
        filters.code_blocks_only,
        labelled_switch("code_blocks_only: ", filters.code_blocks_only),
    );
    let length_differs = match filters.min_body_length {
        Some(n) => n != 50,
        None => true,
    };
    let length_count: Option<u64> = match filters.min_body_length {
        Some(n) => Some(n as u64),
        None => None,
    };
    push_trace_line(
        &mut trace,
        length_differs,
        labelled_count("min_body_length: ", length_count),
    );
    push_trace_line(
        &mut trace,
        filters.date_range.is_some(),
        labelled_date_range("date_range: ", filters.date_range),
    );
    push_trace_line(
        &mut trace,
        filters.include_pull_requests,
        labelled_switch("include_pull_requests: ", filters.include_pull_requests),
    );
    let comments_count: Option<u64> = match filters.min_comments {
        Some(n) => Some(n as u64),
        None => None,
    };
    push_trace_line(
        &mut trace,
        filters.min_comments.is_some(),
        labelled_count("min_comments: ", comments_count),
    );
    push_trace_line(
        &mut trace,
        !texts_equal(&filters.required_keywords, &usual.required_keywords),
        labelled_list("required_keywords: ", &filters.required_keywords),
    );
    push_trace_line(
        &mut trace,
        !texts_equal(&filters.excluded_keywords, &usual.excluded_keywords),
        labelled_list("excluded_keywords: ", &filters.excluded_keywords),
    );
    assert(texts_of(trace@) =~= filter_trace(filters@));
    trace
}

} // verus!
