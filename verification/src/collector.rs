//! The paced collection of records: a paginator that decides, page by page,
//! what to keep and whether to go on, and the result it hands over.

use crate::filters::{
    accepts, describe_filters, filter_trace, FiltersView, IssueFilters, IssueState,
};
use crate::patterns::texts_of;
use crate::repository::{Repository, RepositoryView};
use crate::time::Timestamp;
use crate::types::{issue_views, GitHubIssue, IssueView};
use vstd::prelude::*;

verus! {

/// The number of records asked for per page.
pub const PAGE_SIZE: u8 = 100;

/// The number of pages after which a collection ends whatever the forge says.
pub const DEFAULT_PAGE_LIMIT: u32 = 100;

/// Whether a count of kept records has reached the caller's cap.
pub open spec fn cap_reached(cap: Option<usize>, count: nat) -> bool {
    match cap {
        Some(max) => count >= max,
        None => false,
    }
}

/// What is kept after the records of one page were looked at in order: a
/// record is looked at only while the count is below the cap, and is appended
/// where it passes the filter. The record that brings the count up to the cap
/// is the last one looked at.
pub open spec fn take_matching(
    filters: FiltersView,
    collected: Seq<IssueView>,
    cap: Option<usize>,
    items: Seq<IssueView>,
) -> Seq<IssueView>
    decreases items.len(),
{
    if items.len() == 0 || cap_reached(cap, collected.len()) {
        collected
    } else if accepts(filters, items[0]) {
        take_matching(filters, collected.push(items[0]), cap, items.drop_first())
    } else {
        take_matching(filters, collected, cap, items.drop_first())
    }
}

/// The state of a collection between two pages.
pub ghost struct PaginatorView {
    /// The page to fetch next, counted from one.
    pub page: u32,
    /// The last page that may be fetched.
    pub page_limit: u32,
    /// The most records the caller wants.
    pub cap: Option<usize>,
    /// The records kept so far, in the order in which they came.
    pub collected: Seq<IssueView>,
    /// Whether the collection has ended.
    pub finished: bool,
}

/// The state before the first page: nothing is kept, and the first page is
/// due, unless the cap is zero. A collection with a cap of zero has ended
/// before it began: it asks for no page and keeps no record.
pub open spec fn initial_state(cap: Option<usize>, page_limit: u32) -> PaginatorView {
    PaginatorView {
        page: 1,
        page_limit,
        cap,
        collected: Seq::empty(),
        finished: cap_reached(cap, 0),
    }
}

/// The state after one more page. An empty page ends the collection and
/// changes nothing else. Otherwise the page's matching records are kept up to
/// the cap, and the collection ends where the cap is reached or the page was
/// the last one allowed; else the next page is due.
pub open spec fn after_page(state: PaginatorView, filters: FiltersView, items: Seq<IssueView>)
    -> PaginatorView {
    if items.len() == 0 {
        PaginatorView { finished: true, ..state }
    } else {
        let collected = take_matching(filters, state.collected, state.cap, items);
        if cap_reached(state.cap, collected.len()) || state.page >= state.page_limit {
            PaginatorView { collected, finished: true, ..state }
        } else {
            PaginatorView { collected, page: (state.page + 1) as u32, ..state }
        }
    }
}

/// The state after a sequence of pages, each taken while the collection has
/// not ended; pages that come after its end are not looked at.
pub open spec fn after_pages(
    state: PaginatorView,
    filters: FiltersView,
    pages: Seq<Seq<IssueView>>,
) -> PaginatorView
    decreases pages.len(),
{
    if state.finished || pages.len() == 0 {
        state
    } else {
        after_pages(after_page(state, filters, pages[0]), filters, pages.drop_first())
    }
}

/// Whether a state respects its cap: it holds no more records than the cap.
pub open spec fn within_cap(state: PaginatorView) -> bool {
    match state.cap {
        Some(max) => state.collected.len() <= max,
        None => true,
    }
}

/// Whether a state that has reached its cap has ended, so that no further
/// page is asked for.
pub open spec fn ends_at_cap(state: PaginatorView) -> bool {
    cap_reached(state.cap, state.collected.len()) ==> state.finished
}

/// Whether every record of a list passes the filter.
pub open spec fn all_accepted(filters: FiltersView, records: Seq<IssueView>) -> bool {
    forall|i: int| 0 <= i < records.len() ==> accepts(filters, #[trigger] records[i])
}

/// Looking at a page keeps what was kept before, adds only records that pass
/// the filter, and never goes past the cap.
pub proof fn lemma_take_matching(
    filters: FiltersView,
    collected: Seq<IssueView>,
    cap: Option<usize>,
    items: Seq<IssueView>,
)
    ensures
        collected.len() <= take_matching(filters, collected, cap, items).len(),
        take_matching(filters, collected, cap, items).len() <= collected.len() + items.len(),
        take_matching(filters, collected, cap, items).take(collected.len() as int) == collected,
        all_accepted(filters, collected) ==> all_accepted(
            filters,
            take_matching(filters, collected, cap, items),
        ),
        cap is Some && collected.len() <= cap->0 ==> take_matching(
            filters,
            collected,
            cap,
            items,
        ).len() <= cap->0,
    decreases items.len(),
{
    let result = take_matching(filters, collected, cap, items);
    if items.len() == 0 || cap_reached(cap, collected.len()) {
        assert(collected.take(collected.len() as int) =~= collected);
    } else if accepts(filters, items[0]) {
        let kept = collected.push(items[0]);
        lemma_take_matching(filters, kept, cap, items.drop_first());
        assert(result.take(collected.len() as int) =~= result.take(kept.len() as int).take(
            collected.len() as int,
        ));
        assert(kept.take(collected.len() as int) =~= collected);
    } else {
        lemma_take_matching(filters, collected, cap, items.drop_first());
    }
}

/// One more page keeps a state within its cap, and ends a collection that
/// has reached its cap.
pub proof fn lemma_after_page_within_cap(
    state: PaginatorView,
    filters: FiltersView,
    items: Seq<IssueView>,
)
    requires
        within_cap(state),
        ends_at_cap(state),
    ensures
        within_cap(after_page(state, filters, items)),
        ends_at_cap(after_page(state, filters, items)),
{
    lemma_take_matching(filters, state.collected, state.cap, items);
}

/// Any sequence of pages keeps a state within its cap, and ends a collection
/// that has reached its cap.
pub proof fn lemma_after_pages_within_cap(
    state: PaginatorView,
    filters: FiltersView,
    pages: Seq<Seq<IssueView>>,
)
    requires
        within_cap(state),
        ends_at_cap(state),
    ensures
        within_cap(after_pages(state, filters, pages)),
        ends_at_cap(after_pages(state, filters, pages)),
        after_pages(state, filters, pages).cap == state.cap,
        after_pages(state, filters, pages).page_limit == state.page_limit,
    decreases pages.len(),
{
    if !state.finished && pages.len() > 0 {
        lemma_after_page_within_cap(state, filters, pages[0]);
        lemma_after_pages_within_cap(
            after_page(state, filters, pages[0]),
            filters,
            pages.drop_first(),
        );
    }
}

/// The cap is never exceeded: whatever the cap and whatever the pages hold, a
/// collection that starts empty ends with no more records than the cap, and
/// once it holds as many it asks for no further page.
pub proof fn lemma_cap_never_exceeded(
    filters: FiltersView,
    cap: usize,
    page_limit: u32,
    pages: Seq<Seq<IssueView>>,
)
    ensures
        after_pages(initial_state(Some(cap), page_limit), filters, pages).collected.len() <= cap,
        after_pages(initial_state(Some(cap), page_limit), filters, pages).collected.len() == cap
            ==> after_pages(initial_state(Some(cap), page_limit), filters, pages).finished,
{
    lemma_after_pages_within_cap(initial_state(Some(cap), page_limit), filters, pages);
}

/// A collection with a cap of zero keeps nothing and asks for no page,
/// whatever pages are held out to it.
pub proof fn lemma_cap_of_zero_collects_nothing(
    filters: FiltersView,
    page_limit: u32,
    pages: Seq<Seq<IssueView>>,
)
    ensures
        after_pages(initial_state(Some(0usize), page_limit), filters, pages) == initial_state(
            Some(0usize),
            page_limit,
        ),
        initial_state(Some(0usize), page_limit).finished,
        initial_state(Some(0usize), page_limit).collected.len() == 0,
{
}

/// The first empty page ends a collection, whatever the cap: the pages that
/// follow it are not looked at, and it adds nothing to what was kept.
pub proof fn lemma_halts_on_empty_page(
    state: PaginatorView,
    filters: FiltersView,
    before: Seq<Seq<IssueView>>,
    after: Seq<Seq<IssueView>>,
)
    ensures
        after_pages(state, filters, before + seq![Seq::<IssueView>::empty()] + after).finished,
        after_pages(state, filters, before + seq![Seq::<IssueView>::empty()] + after)
            == after_pages(state, filters, before.push(Seq::<IssueView>::empty())),
        after_pages(state, filters, before.push(Seq::<IssueView>::empty())).collected
            == after_pages(state, filters, before).collected,
    decreases before.len(),
{
    let empty = Seq::<IssueView>::empty();
    let all = before + seq![empty] + after;
    let short = before.push(empty);
    if state.finished {
    } else if before.len() == 0 {
        assert(all[0] == empty);
        assert(short[0] == empty);
        let next = after_page(state, filters, empty);
        assert(next.finished);
        assert(after_pages(next, filters, all.drop_first()) == next);
        assert(after_pages(next, filters, short.drop_first()) == next);
    } else {
        let next = after_page(state, filters, before[0]);
        assert(all[0] == before[0]);
        assert(short[0] == before[0]);
        assert(all.drop_first() =~= before.drop_first() + seq![empty] + after);
        assert(short.drop_first() =~= before.drop_first().push(empty));
        lemma_halts_on_empty_page(next, filters, before.drop_first(), after);
    }
}

/// Only records that pass the filter are kept, so that no other record counts
/// towards the cap.
pub proof fn lemma_only_matching_collected(
    state: PaginatorView,
    filters: FiltersView,
    pages: Seq<Seq<IssueView>>,
)
    requires
        all_accepted(filters, state.collected),
    ensures
        all_accepted(filters, after_pages(state, filters, pages).collected),
    decreases pages.len(),
{
    if !state.finished && pages.len() > 0 {
        lemma_take_matching(filters, state.collected, state.cap, pages[0]);
        lemma_only_matching_collected(
            after_page(state, filters, pages[0]),
            filters,
            pages.drop_first(),
        );
    }
}

/// No page beyond the limit is asked for, and none but the first when the
/// limit is below one.
pub proof fn lemma_page_limit_respected(
    state: PaginatorView,
    filters: FiltersView,
    pages: Seq<Seq<IssueView>>,
)
    requires
        state.page >= 1,
        state.page <= state.page_limit || state.page == 1,
    ensures
        after_pages(state, filters, pages).page >= 1,
        after_pages(state, filters, pages).page <= state.page_limit || after_pages(
            state,
            filters,
            pages,
        ).page == 1,
    decreases pages.len(),
{
    if !state.finished && pages.len() > 0 {
        lemma_page_limit_respected(
            after_page(state, filters, pages[0]),
            filters,
            pages.drop_first(),
        );
    }
}

/// The state after one record of a page was offered: the record is kept
/// where the count is below the cap and the record passes the filter, unless
/// the collection has ended.
pub open spec fn after_offer(state: PaginatorView, filters: FiltersView, item: IssueView)
    -> PaginatorView {
    if !state.finished && !cap_reached(state.cap, state.collected.len()) && accepts(
        filters,
        item,
    ) {
        PaginatorView { collected: state.collected.push(item), ..state }
    } else {
        state
    }
}

/// Whether the record after an offered one is to be looked at: not after the
/// collection has ended, and not once the count is up to the cap.
pub open spec fn wants_more(state: PaginatorView, filters: FiltersView, item: IssueView) -> bool {
    !state.finished && !cap_reached(
        state.cap,
        after_offer(state, filters, item).collected.len(),
    )
}

/// The state after a page of `page_len` records was closed: an empty page, a
/// reached cap, or the last page allowed ends the collection; otherwise the
/// next page is due.
pub open spec fn after_end_of_page(state: PaginatorView, page_len: usize) -> PaginatorView {
    if state.finished {
        state
    } else if page_len == 0 || cap_reached(state.cap, state.collected.len())
        || state.page >= state.page_limit {
        PaginatorView { finished: true, ..state }
    } else {
        PaginatorView { page: (state.page + 1) as u32, ..state }
    }
}

/// The state after the records of a page were offered one by one, for as
/// long as more were wanted.
pub open spec fn after_offers(state: PaginatorView, filters: FiltersView, items: Seq<IssueView>)
    -> PaginatorView
    decreases items.len(),
{
    if items.len() == 0 {
        state
    } else if wants_more(state, filters, items[0]) {
        after_offers(after_offer(state, filters, items[0]), filters, items.drop_first())
    } else {
        after_offer(state, filters, items[0])
    }
}

/// Offering records one by one keeps exactly what taking them together keeps.
pub proof fn lemma_offers_collect(
    state: PaginatorView,
    filters: FiltersView,
    items: Seq<IssueView>,
)
    requires
        !state.finished,
    ensures
        after_offers(state, filters, items) == (PaginatorView {
            collected: take_matching(filters, state.collected, state.cap, items),
            ..state
        }),
    decreases items.len(),
{
    if items.len() > 0 {
        let next = after_offer(state, filters, items[0]);
        if wants_more(state, filters, items[0]) {
            lemma_offers_collect(next, filters, items.drop_first());
        } else {
            assert(take_matching(filters, next.collected, state.cap, items.drop_first())
                == next.collected);
        }
    }
}

/// Offering the records of a page one by one, for as long as more are wanted,
/// and closing the page, is taking the page as a whole.
pub proof fn lemma_offers_make_a_page(
    state: PaginatorView,
    filters: FiltersView,
    items: Seq<IssueView>,
)
    requires
        !state.finished,
        items.len() <= usize::MAX,
    ensures
        after_end_of_page(after_offers(state, filters, items), items.len() as usize)
            == after_page(state, filters, items),
{
    lemma_offers_collect(state, filters, items);
}

/// What the driver of a collection must do next.
#[derive(Debug, Clone, Copy, PartialEq, Eq, Structural)]
pub enum PageAction {
    /// Fetch this page, of this many records, pause as the pacing asks, and
    /// hand the page over.
    Fetch { page: u32, per_page: u8 },
    /// The collection has ended.
    Stop,
}

/// The state of one collection. The driver asks it what to do, fetches, and
/// hands each page over; it keeps the matching records and decides when the
/// collection ends.
#[derive(Debug)]
pub struct Paginator {
    page: u32,
    page_limit: u32,
    cap: Option<usize>,
    collected: Vec<GitHubIssue>,
    finished: bool,
}

impl View for Paginator {
    type V = PaginatorView;

    closed spec fn view(&self) -> PaginatorView {
        PaginatorView {
            page: self.page,
            page_limit: self.page_limit,
            cap: self.cap,
            collected: issue_views(self.collected@),
            finished: self.finished,
        }
    }
}

impl Paginator {
    /// Starts a collection with the usual page limit.
    pub fn new(cap: Option<usize>) -> (p: Paginator)
        ensures
            p@ == initial_state(cap, DEFAULT_PAGE_LIMIT),
    {
        Paginator::with_page_limit(cap, DEFAULT_PAGE_LIMIT)
    }

    /// Starts a collection that ends after `page_limit` pages at the latest.
    /// The first page is fetched whatever the limit, unless the cap is zero:
    /// then the collection has ended before it began.
    pub fn with_page_limit(cap: Option<usize>, page_limit: u32) -> (p: Paginator)
        ensures
            p@ == initial_state(cap, page_limit),
    {
        let collected: Vec<GitHubIssue> = Vec::new();
        assert(issue_views(collected@) =~= Seq::empty());
        let finished = match cap {
            Some(max) => max == 0,
            None => false,
        };
        Paginator { page: 1, page_limit, cap, collected, finished }
    }

    /// Tells whether the collection has ended.
    pub fn is_finished(&self) -> (r: bool)
        ensures
            r == self@.finished,
    {
        self.finished
    }

    /// The number of records kept so far.
    pub fn collected_count(&self) -> (n: usize)
        ensures
            n == self@.collected.len(),
    {
        self.collected.len()
    }

    /// Says what to do next: fetch the page that is due, or stop.
    pub fn next_action(&self) -> (action: PageAction)
        ensures
            action == if self@.finished {
                PageAction::Stop
            } else {
                (PageAction::Fetch { page: self@.page, per_page: PAGE_SIZE })
            },
    {
        if self.finished {
            PageAction::Stop
        } else {
            PageAction::Fetch { page: self.page, per_page: PAGE_SIZE }
        }
    }

    /// Takes one record of the page that was fetched last. The record is
    /// looked at only while the count is below the cap, and kept where it
    /// passes the filter. The answer tells whether the next record of the page
    /// is to be looked at: it is not once the count is up to the cap, nor
    /// after the collection has ended.
    pub fn offer(&mut self, filters: &IssueFilters, item: GitHubIssue) -> (more: bool)
        ensures
            final(self)@ == after_offer(old(self)@, filters@, item@),
            more == wants_more(old(self)@, filters@, item@),
    {
        if self.finished || self.is_cap_reached() {
            return false;
        }
        if filters.matches(&item) {
            let ghost before = self.collected@;
            self.collected.push(item);
            assert(issue_views(self.collected@) =~= issue_views(before).push(item@));
        }
        !self.is_cap_reached()
    }

    /// Tells whether the count of kept records is up to the cap.
    fn is_cap_reached(&self) -> (r: bool)
        ensures
            r == cap_reached(self@.cap, self@.collected.len()),
    {
        match self.cap {
            Some(max) => self.collected.len() >= max,
            None => false,
        }
    }

    /// Closes the page that was fetched last, which held `page_len` records.
    /// An empty page, a reached cap, or the last page allowed ends the
    /// collection; otherwise the next page is due.
    pub fn end_page(&mut self, page_len: usize)
        ensures
            final(self)@ == after_end_of_page(old(self)@, page_len),
    {
        if self.finished {
            return ;
        }
        let cap_is_reached = match self.cap {
            Some(max) => self.collected.len() >= max,
            None => false,
        };
        if page_len == 0 || cap_is_reached || self.page >= self.page_limit {
            self.finished = true;
        } else {
            self.page = self.page + 1;
        }
    }

    /// Takes one fetched page. The records are looked at in the order given,
    /// for as long as the count is below the cap; each one that passes the
    /// filter is kept. An empty page, a reached
    /// cap, or the last page allowed ends the collection. A page that is
    /// handed over after the end is not looked at.
    pub fn absorb_page(&mut self, filters: &IssueFilters, items: Vec<GitHubIssue>)
        ensures
            final(self)@ == after_pages(old(self)@, filters@, seq![issue_views(items@)]),
            final(self)@ == if old(self)@.finished {
                old(self)@
            } else {
                after_page(old(self)@, filters@, issue_views(items@))
            },
    {
        let ghost all = issue_views(items@);
        let ghost start = self@;
        proof {
            assert(seq![all][0] == all);
            assert(seq![all].drop_first() =~= Seq::<Seq<IssueView>>::empty());
            reveal_with_fuel(after_pages, 2);
        }
        if self.finished {
            return ;
        }
        let page_len = items.len();
        let mut more: bool = true;
        assert(all.skip(0) =~= all);
        for item in it: items.into_iter()
            invariant
                it.seq() == items@,
                all == issue_views(items@),
                !start.finished,
                self@ == (PaginatorView { collected: self@.collected, ..start }),
                !more ==> cap_reached(start.cap, self@.collected.len()),
                take_matching(filters@, start.collected, start.cap, all) == take_matching(
                    filters@,
                    self@.collected,
                    start.cap,
                    all.skip(it.index() as int),
                ),
        {
            let ghost rest = all.skip(it.index() as int);
            assert(rest[0] == item@);
            assert(rest.drop_first() =~= all.skip(it.index() + 1));
            if more {
                more = self.offer(filters, item);
            }
        }
        assert(all.skip(all.len() as int) =~= Seq::<IssueView>::empty());
        self.end_page(page_len);
    }
}

/// What a collection hands over: the records that were kept, with where and
/// when they were collected and which filter options were switched on.
#[derive(Debug, Clone)]
pub struct CollectionResult {
    pub repository: Repository,
    pub issues: Vec<GitHubIssue>,
    pub total_collected: usize,
    pub collection_time: Timestamp,
    pub filters_applied: Vec<String>,
}

/// View of a [`CollectionResult`].
pub ghost struct CollectionResultView {
    pub repository: RepositoryView,
    pub issues: Seq<IssueView>,
    pub total_collected: usize,
    pub collection_time: Timestamp,
    pub filters_applied: Seq<Seq<char>>,
}

impl View for CollectionResult {
    type V = CollectionResultView;

    open spec fn view(&self) -> CollectionResultView {
        CollectionResultView {
            repository: self.repository@,
            issues: issue_views(self.issues@),
            total_collected: self.total_collected,
            collection_time: self.collection_time,
            filters_applied: texts_of(self.filters_applied@),
        }
    }
}

impl CollectionResult {
    /// Whether the count is the number of records.
    pub open spec fn well_formed(&self) -> bool {
        self.total_collected == self.issues@.len()
    }
}

impl Paginator {
    /// Ends the collection and hands over what was kept, in the order in
    /// which it came, with the repository, the time `now`, and the trace of
    /// the filter.
    pub fn into_result(self, repo: &Repository, filters: &IssueFilters, now: Timestamp) -> (result:
        CollectionResult)
        ensures
            result@.repository == repo@,
            result@.issues == self@.collected,
            result@.total_collected == self@.collected.len(),
            result@.collection_time == now,
            result@.filters_applied == filter_trace(filters@),
            result.well_formed(),
    {
        let total_collected = self.collected.len();
        CollectionResult {
            repository: repo.copy_of(),
            issues: self.collected,
            total_collected,
            collection_time: now,
            filters_applied: describe_filters(filters),
        }
    }
}

/// The state of a walk through pages that keeps everything: the page that is
/// due, and whether the walk has ended.
#[derive(Debug, Clone, Copy, PartialEq, Eq, Structural)]
pub struct PageCursor {
    pub page: u32,
    pub finished: bool,
}

impl PageCursor {
    /// The cursor after a page of `page_len` records: an empty page ends the
    /// walk; so does the last page that can be numbered. Otherwise the next
    /// page is due. A cursor whose walk has ended stays as it is.
    pub open spec fn spec_advance(self, page_len: usize) -> PageCursor {
        if self.finished {
            self
        } else if page_len == 0 || self.page == u32::MAX {
            PageCursor { finished: true, ..self }
        } else {
            PageCursor { page: (self.page + 1) as u32, ..self }
        }
    }

    /// Starts a walk at the first page.
    pub fn new() -> (c: PageCursor)
        ensures
            c == (PageCursor { page: 1, finished: false }),
    {
        PageCursor { page: 1, finished: false }
    }

    /// Says what to do next: fetch the page that is due, or stop.
    pub fn next_action(&self) -> (action: PageAction)
        ensures
            action == if self.finished {
                PageAction::Stop
            } else {
                (PageAction::Fetch { page: self.page, per_page: PAGE_SIZE })
            },
    {
        if self.finished {
            PageAction::Stop
        } else {
            PageAction::Fetch { page: self.page, per_page: PAGE_SIZE }
        }
    }

    /// Takes note of a fetched page of `page_len` records.
    pub fn advance(&mut self, page_len: usize)
        ensures
            *final(self) == old(self).spec_advance(page_len),
    {
        if self.finished {
        } else if page_len == 0 || self.page == u32::MAX {
            self.finished = true;
        } else {
            self.page = self.page + 1;
        }
    }
}

/// What is asked of the forge for one page of issues. The forge is asked for
/// the records that were updated last first; it narrows the list by state, by
/// labels and by time where the filter says so, and the filter does the rest.
#[derive(Debug, Clone)]
pub struct IssueQuery {
    pub page: u32,
    pub per_page: u8,
    /// The state to ask for; `All` asks for every state.
    pub state: IssueState,
    /// The labels to ask for; none where the list is empty.
    pub labels: Vec<String>,
    /// The instant since which a record must have been updated, if any.
    pub since: Option<Timestamp>,
}

/// View of an [`IssueQuery`].
pub ghost struct IssueQueryView {
    pub page: u32,
    pub per_page: u8,
    pub state: IssueState,
    pub labels: Seq<Seq<char>>,
    pub since: Option<Timestamp>,
}

impl View for IssueQuery {
    type V = IssueQueryView;

    open spec fn view(&self) -> IssueQueryView {
        IssueQueryView {
            page: self.page,
            per_page: self.per_page,
            state: self.state,
            labels: texts_of(self.labels@),
            since: self.since,
        }
    }
}

/// The query for a page under a filter: the filter's state and labels to
/// include, and the start of its date range.
pub open spec fn issue_query_for(filters: FiltersView, page: u32) -> IssueQueryView {
    IssueQueryView {
        page,
        per_page: PAGE_SIZE,
        state: filters.state,
        labels: filters.include_labels,
        since: match filters.date_range {
            Some(range) => range.start,
            None => None,
        },
    }
}

/// Makes the query for page `page` under a filter.
pub fn issue_query(filters: &IssueFilters, page: u32) -> (query: IssueQuery)
    ensures
        query@ == issue_query_for(filters@, page),
{
    let mut labels: Vec<String> = Vec::new();
    let mut i: usize = 0;
    assert(texts_of(labels@) =~= texts_of(filters.include_labels@).take(0));
    while i < filters.include_labels.len()
        invariant
            i <= filters.include_labels.len(),
            texts_of(labels@) == texts_of(filters.include_labels@).take(i as int),
        decreases filters.include_labels.len() - i,
    {
        let ghost before = labels@;
        labels.push(filters.include_labels[i].clone());
        assert(texts_of(labels@) =~= texts_of(before).push(filters.include_labels@[i as int]@));
        assert(texts_of(filters.include_labels@).take(i + 1) =~= texts_of(
            filters.include_labels@,
        ).take(i as int).push(filters.include_labels@[i as int]@));
        i += 1;
    }
    assert(texts_of(filters.include_labels@).take(i as int) =~= texts_of(
        filters.include_labels@,
    ));
    IssueQuery {
        page,
        per_page: PAGE_SIZE,
        state: filters.state,
        labels,
        since: match filters.date_range {
            Some(range) => range.start,
            None => None,
        },
    }
}

} // verus!
