//! The pagination and search controller.
//!
//! The controller owns the current query (page, page size, search term) and the
//! latest search result. Every change of the query goes through one of its
//! operations, and each operation says whether a fetch has to be made. The
//! caller performs the fetch and hands the outcome back with [`Controller::receive`].
//!
//! Fetches are numbered. Only the outcome of the fetch issued last is taken;
//! the outcome of a fetch that a later one has superseded is dropped on arrival.

use vstd::prelude::*;
use crate::gateway::GatewayError;
use crate::models::employee::{
    normalized, text_of, EmployeeRequest, EmployeeResponse, SearchQuery, SearchResult,
};
use crate::paging::{
    clamp, clamp_page, display_range, display_range_of, is_valid_page_size,
    lemma_page_in_range_starts_inside, lemma_single_row_on_last_page, lemma_total_pages_bounds,
    lemma_total_pages_monotone, offset_of, page_after_delete, positions_of, reclamp, total_pages,
    total_pages_of, valid_page_size, DisplayRange, DEFAULT_PAGE_SIZE,
};
use crate::text::{parse_i64, parsed_i64};

verus! {

/// Where a page navigation wants to go.
#[derive(Debug, Clone, Copy, PartialEq, Eq)]
pub enum PageTarget {
    First,
    Prev,
    Next,
    Last,
    /// The page with this number.
    Index(i64),
}

/// A change that the gateway was asked to make to the store.
#[derive(Debug, Clone, Copy, PartialEq, Eq, Structural)]
pub enum Mutation {
    Create,
    Update,
    Delete,
}

/// What the controller holds of the latest fetch.
#[derive(Debug, Clone, PartialEq)]
pub enum FetchState {
    /// No fetch has been answered yet.
    NotLoaded,
    /// The latest fetch gave this page.
    Ready(EmployeeResponse),
    /// The latest fetch failed.
    Failed(GatewayError),
}

/// What a [`FetchState`] stands for.
pub enum LoadState {
    NotLoaded,
    Ready(SearchResult),
    Failed(GatewayError),
}

impl LoadState {
    /// Whether the count of a loaded result fits an `i64`.
    pub open spec fn fits(self) -> bool {
        self matches LoadState::Ready(result) ==> result.total_count <= i64::MAX
    }
}

impl View for FetchState {
    type V = LoadState;

    open spec fn view(&self) -> LoadState {
        match self {
            FetchState::NotLoaded => LoadState::NotLoaded,
            FetchState::Ready(response) => LoadState::Ready(response@),
            FetchState::Failed(error) => LoadState::Failed(*error),
        }
    }
}

/// What the outcome of a fetch leaves in the controller once it is taken.
pub open spec fn outcome_of(outcome: Result<EmployeeResponse, GatewayError>) -> LoadState {
    match outcome {
        Ok(response) => LoadState::Ready(response@),
        Err(error) => LoadState::Failed(error),
    }
}

/// An order to fetch: the query to run and the number under which its outcome
/// is handed back.
#[derive(Debug, Clone, PartialEq)]
pub struct Fetch {
    pub ticket: u64,
    pub request: EmployeeRequest,
}

/// What a [`Fetch`] stands for.
pub struct FetchOrder {
    pub ticket: int,
    pub query: SearchQuery,
}

impl View for Fetch {
    type V = FetchOrder;

    open spec fn view(&self) -> FetchOrder {
        FetchOrder { ticket: self.ticket as int, query: self.request@ }
    }
}

/// The number of the fetch after the one numbered `ticket`. Numbers are
/// 64-bit and start over after the largest.
pub open spec fn next_ticket(ticket: int) -> int {
    if ticket >= u64::MAX {
        0
    } else {
        ticket + 1
    }
}

/// The number of the fetch that is issued `fetches` fetches after the one
/// numbered `ticket`.
pub open spec fn ticket_after(ticket: int, fetches: nat) -> int {
    (ticket + fetches) % 0x1_0000_0000_0000_0000
}

/// The state of a controller: the model that its contracts speak of.
pub struct ControllerState {
    /// The current query.
    pub query: SearchQuery,
    /// What the latest answered fetch gave.
    pub loaded: LoadState,
    /// The number of the fetch issued last.
    pub latest: int,
    /// Whether the fetch issued last is still unanswered.
    pub pending: bool,
}

impl ControllerState {
    /// The state of a controller that has done nothing yet: page 1 of the
    /// unfiltered list, five records a page, nothing loaded, no fetch issued.
    pub open spec fn initial() -> ControllerState {
        ControllerState {
            query: SearchQuery { page: 1, page_size: 5, search_term: None },
            loaded: LoadState::NotLoaded,
            latest: 0,
            pending: false,
        }
    }

    /// What holds of every controller: the page is at least 1, the page size
    /// is one of 5, 10 and 20, an empty search term is held as no search term,
    /// and fetch numbers, the count of a loaded result and the position of the
    /// page fit the machine's integers.
    pub open spec fn wf(self) -> bool {
        &&& self.query.page >= 1
        &&& valid_page_size(self.query.page_size)
        &&& offset_of(self.query.page, self.query.page_size) < i64::MAX
        &&& self.query.search_term matches Some(text) ==> text.len() > 0
        &&& 0 <= self.latest <= u64::MAX
        &&& self.loaded.fits()
    }

    /// The number of pages of the loaded result; 1 while none is loaded.
    pub open spec fn total_pages(self) -> int {
        match self.loaded {
            LoadState::Ready(result) => total_pages_of(result.total_count, self.query.page_size),
            _ => 1,
        }
    }

    /// Whether the current page is one of the pages of the loaded result.
    pub open spec fn in_range(self) -> bool {
        1 <= self.query.page <= self.total_pages()
    }

    /// Whether there is a page before the current one to go to.
    pub open spec fn prev_enabled(self) -> bool {
        self.query.page > 1
    }

    /// Whether there is a page after the current one to go to.
    pub open spec fn next_enabled(self) -> bool {
        self.query.page < self.total_pages()
    }

    /// Whether jumps to the first and last page are offered: only with more
    /// than three pages.
    pub open spec fn first_last_visible(self) -> bool {
        self.total_pages() > 3
    }

    /// The positions that the current page shows of the loaded result: none
    /// while no result is loaded or nothing matches.
    pub open spec fn display_range(self) -> Option<(int, int)> {
        match self.loaded {
            LoadState::Ready(result) => display_range_of(
                self.query.page,
                self.query.page_size,
                result.total_count,
            ),
            _ => None,
        }
    }

    /// The page that `target` asks for, before it is moved into range.
    pub open spec fn wanted_page(self, target: PageTarget) -> int {
        match target {
            PageTarget::First => 1,
            PageTarget::Prev => self.query.page - 1,
            PageTarget::Next => self.query.page + 1,
            PageTarget::Last => self.total_pages(),
            PageTarget::Index(page) => page as int,
        }
    }

    /// The page that a navigation to `target` ends on.
    pub open spec fn target_page(self, target: PageTarget) -> int {
        clamp_page(self.wanted_page(target), self.total_pages())
    }

    /// The order for the fetch issued last.
    pub open spec fn latest_fetch(self) -> FetchOrder {
        FetchOrder { ticket: self.latest, query: self.query }
    }

    /// The state once one more fetch has been issued.
    pub open spec fn fetch_issued(self) -> ControllerState {
        ControllerState { latest: next_ticket(self.latest), pending: true, ..self }
    }

    /// The state once `fetches` more fetches have been issued.
    pub open spec fn after_fetches(self, fetches: nat) -> ControllerState
        decreases fetches,
    {
        if fetches == 0 {
            self
        } else {
            self.after_fetches((fetches - 1) as nat).fetch_issued()
        }
    }

    /// The state once the page is `page`.
    pub open spec fn at_page(self, page: int) -> ControllerState {
        ControllerState { query: SearchQuery { page, ..self.query }, ..self }
    }

    /// The state once the search box holds `text`: the term is replaced, the
    /// page is 1 again, and a fetch is issued.
    pub open spec fn search_term_set(self, text: Seq<char>) -> ControllerState {
        ControllerState {
            query: SearchQuery { page: 1, search_term: normalized(text), ..self.query },
            ..self
        }.fetch_issued()
    }

    /// The state once the page size `size` was asked for: a size that may be
    /// selected is taken, with the page at 1 again and a fetch issued; any
    /// other size changes nothing.
    pub open spec fn page_size_set(self, size: int) -> ControllerState {
        if valid_page_size(size) {
            ControllerState {
                query: SearchQuery { page: 1, page_size: size, ..self.query },
                ..self
            }.fetch_issued()
        } else {
            self
        }
    }

    /// The state once the page-size selector has given a text that parses to
    /// `parsed`: a number is taken as by `page_size_set`; a text that is no
    /// number changes nothing.
    pub open spec fn page_size_selected(self, parsed: Option<i64>) -> ControllerState {
        match parsed {
            Some(size) => self.page_size_set(size as int),
            None => self,
        }
    }

    /// The state once a navigation to `target` was asked for: nothing changes
    /// where it ends on the current page; else the page changes and a fetch is
    /// issued.
    pub open spec fn gone_to(self, target: PageTarget) -> ControllerState {
        if self.target_page(target) == self.query.page {
            self
        } else {
            self.at_page(self.target_page(target)).fetch_issued()
        }
    }

    /// The state once a refresh was asked for: the query is the same, and a
    /// fetch is issued.
    pub open spec fn refreshed(self) -> ControllerState {
        self.fetch_issued()
    }

    /// The page that stays current once `deleted` records of the loaded
    /// result are gone; the current page while no result is loaded.
    pub open spec fn page_kept(self, deleted: int) -> int {
        match self.loaded {
            LoadState::Ready(result) => page_after_delete(
                self.query.page,
                self.query.page_size,
                result.total_count,
                deleted,
            ),
            _ => self.query.page,
        }
    }

    /// The state once the store has confirmed that `deleted` records are gone:
    /// the page is moved back into the smaller result first, then a fetch is
    /// issued.
    pub open spec fn deleted(self, deleted: int) -> ControllerState {
        self.at_page(self.page_kept(deleted)).fetch_issued()
    }

    /// Whether the outcome handed back under `ticket` is taken: only that of
    /// the fetch issued last, and only once.
    pub open spec fn accepts(self, ticket: int) -> bool {
        self.pending && ticket == self.latest
    }

    /// The state once an outcome was handed back under `ticket`.
    pub open spec fn received(self, ticket: int, outcome: LoadState) -> ControllerState {
        if self.accepts(ticket) {
            ControllerState { loaded: outcome, pending: false, ..self }
        } else {
            self
        }
    }

    /// Whether the outcome of a change to the store asks for a fetch: every
    /// success does, and so does the report that the record is gone, since the
    /// page on display is then out of date.
    pub open spec fn refetches_after(outcome: Result<(), GatewayError>) -> bool {
        match outcome {
            Ok(_) => true,
            Err(error) => error == GatewayError::NotFound,
        }
    }

    /// The state once the gateway has answered a change to the store. A
    /// successful deletion of one record moves the page back into range and
    /// issues a fetch; any other success, and the report that the record is
    /// gone, issues a fetch for the same query; any other failure changes
    /// nothing.
    pub open spec fn mutation_settled(
        self,
        kind: Mutation,
        outcome: Result<(), GatewayError>,
    ) -> ControllerState {
        if outcome is Ok && kind == Mutation::Delete {
            self.deleted(1)
        } else if Self::refetches_after(outcome) {
            self.refreshed()
        } else {
            self
        }
    }
}

/// An operation of the controller, as its model sees it.
pub enum Operation {
    SetSearchTerm(Seq<char>),
    SetPageSize(int),
    GoToPage(PageTarget),
    Refresh,
    NotifyDeleted(nat),
}

impl ControllerState {
    /// The state that `operation` leaves.
    pub open spec fn after(self, operation: Operation) -> ControllerState {
        match operation {
            Operation::SetSearchTerm(text) => self.search_term_set(text),
            Operation::SetPageSize(size) => self.page_size_set(size),
            Operation::GoToPage(target) => self.gone_to(target),
            Operation::Refresh => self.refreshed(),
            Operation::NotifyDeleted(deleted) => self.deleted(deleted as int),
        }
    }

    /// Whether `operation` puts the page into range whatever it was before:
    /// a new search term, a page size that is taken, a navigation, and a
    /// deletion from a loaded result do.
    pub open spec fn brought_in_range_by(self, operation: Operation) -> bool {
        match operation {
            Operation::SetSearchTerm(_) => true,
            Operation::SetPageSize(size) => valid_page_size(size),
            Operation::GoToPage(_) => true,
            Operation::Refresh => false,
            Operation::NotifyDeleted(_) => self.loaded is Ready,
        }
    }
}

/// The pagination and search controller.
pub struct Controller {
    query: EmployeeRequest,
    loaded: FetchState,
    latest: u64,
    pending: bool,
}

impl View for Controller {
    type V = ControllerState;

    closed spec fn view(&self) -> ControllerState {
        ControllerState {
            query: self.query@,
            loaded: self.loaded@,
            latest: self.latest as int,
            pending: self.pending,
        }
    }
}

impl Controller {
    #[verifier::type_invariant]
    spec fn well_formed(self) -> bool {
        self@.wf()
    }

    /// A controller at page 1 of the unfiltered list, with nothing loaded.
    pub fn new() -> (controller: Controller)
        ensures
            controller@ == ControllerState::initial(),
            controller@.wf(),
    {
        Controller {
            query: EmployeeRequest { page: 1, page_size: DEFAULT_PAGE_SIZE, search_term: None },
            loaded: FetchState::NotLoaded,
            latest: 0,
            pending: false,
        }
    }

    /// Numbers the next fetch and orders it for the current query.
    fn issue(&mut self) -> (fetch: Fetch)
        ensures
            final(self)@ == old(self)@.fetch_issued(),
            fetch@ == final(self)@.latest_fetch(),
    {
        proof {
            use_type_invariant(&*self);
        }
        let ticket: u64 = if self.latest == u64::MAX {
            0
        } else {
            self.latest + 1
        };
        self.latest = ticket;
        self.pending = true;
        Fetch { ticket, request: self.query.duplicate() }
    }

    /// The current page, counted from 1.
    pub fn page(&self) -> (page: i64)
        ensures
            page == self@.query.page,
            page >= 1,
    {
        proof {
            use_type_invariant(self);
        }
        self.query.page
    }

    /// The current page size.
    pub fn page_size(&self) -> (size: i64)
        ensures
            size == self@.query.page_size,
            valid_page_size(size as int),
    {
        proof {
            use_type_invariant(self);
        }
        self.query.page_size
    }

    /// The current search term, if there is one.
    pub fn search_term(&self) -> (term: &Option<String>)
        ensures
            text_of(*term) == self@.query.search_term,
    {
        &self.query.search_term
    }

    /// The current query, as a request to the gateway.
    pub fn request(&self) -> (request: EmployeeRequest)
        ensures
            request@ == self@.query,
    {
        self.query.duplicate()
    }

    /// What the latest answered fetch gave.
    pub fn loaded(&self) -> (state: &FetchState)
        ensures
            state@ == self@.loaded,
    {
        &self.loaded
    }

    /// Whether the fetch issued last is still unanswered.
    pub fn is_pending(&self) -> (pending: bool)
        ensures
            pending == self@.pending,
    {
        self.pending
    }

    /// The number of the fetch issued last.
    pub fn latest_ticket(&self) -> (ticket: u64)
        ensures
            ticket == self@.latest,
    {
        self.latest
    }

    /// The number of pages of the loaded result; 1 while none is loaded.
    pub fn total_pages(&self) -> (pages: i64)
        ensures
            pages == self@.total_pages(),
            pages >= 1,
    {
        proof {
            use_type_invariant(self);
        }
        match &self.loaded {
            FetchState::Ready(response) => {
                proof {
                    lemma_total_pages_positive(self@);
                }
                total_pages(response.total_count, self.query.page_size)
            },
            _ => 1,
        }
    }

    /// Whether there is a page before the current one to go to.
    pub fn prev_enabled(&self) -> (enabled: bool)
        ensures
            enabled == self@.prev_enabled(),
    {
        self.query.page > 1
    }

    /// Whether there is a page after the current one to go to.
    pub fn next_enabled(&self) -> (enabled: bool)
        ensures
            enabled == self@.next_enabled(),
    {
        self.query.page < self.total_pages()
    }

    /// Whether jumps to the first and last page are offered.
    pub fn first_last_visible(&self) -> (visible: bool)
        ensures
            visible == self@.first_last_visible(),
    {
        self.total_pages() > 3
    }

    /// The positions that the current page shows of the loaded result, or
    /// nothing while no result is loaded or nothing matches.
    pub fn display_range(&self) -> (range: Option<DisplayRange>)
        ensures
            positions_of(range) == self@.display_range(),
            range matches Some(shown) ==> self@.loaded matches LoadState::Ready(result)
                && shown.total == result.total_count,
            range matches Some(shown) ==> shown.start >= 1 && shown.end >= 1 && shown.total >= 1,
    {
        proof {
            use_type_invariant(self);
            lemma_display_range_positive(self@);
        }
        match &self.loaded {
            FetchState::Ready(response) => display_range(
                self.query.page,
                self.query.page_size,
                response.total_count,
            ),
            _ => None,
        }
    }

    /// Takes the text of the search box as the search term, goes back to page
    /// 1 and orders a fetch.
    pub fn set_search_term(&mut self, text: String) -> (fetch: Fetch)
        ensures
            final(self)@ == old(self)@.search_term_set(text@),
            final(self)@.wf(),
            final(self)@.query.page == 1,
            fetch@ == final(self)@.latest_fetch(),
    {
        proof {
            use_type_invariant(&*self);
        }
        let term = if text.as_str().is_empty() {
            None
        } else {
            Some(text)
        };
        self.query.page = 1;
        self.query.search_term = term;
        self.issue()
    }

    /// Takes `size` as the page size if it is 5, 10 or 20, goes back to page 1
    /// and orders a fetch; ignores any other size.
    pub fn set_page_size(&mut self, size: i64) -> (fetch: Option<Fetch>)
        ensures
            final(self)@ == old(self)@.page_size_set(size as int),
            final(self)@.wf(),
            valid_page_size(size as int) ==> final(self)@.query.page == 1,
            fetch is Some <==> valid_page_size(size as int),
            fetch matches Some(order) ==> order@ == final(self)@.latest_fetch(),
    {
        proof {
            use_type_invariant(&*self);
        }
        if is_valid_page_size(size) {
            self.query.page = 1;
            self.query.page_size = size;
            Some(self.issue())
        } else {
            None
        }
    }

    /// Takes the text that the page-size selector gives: parses it as a
    /// decimal number and hands the number to `set_page_size`; ignores a text
    /// that is no number.
    pub fn select_page_size(&mut self, text: &str) -> (fetch: Option<Fetch>)
        ensures
            final(self)@ == old(self)@.page_size_selected(parsed_i64(text@)),
            final(self)@.wf(),
            fetch is Some <==> (parsed_i64(text@) matches Some(size) && valid_page_size(
                size as int,
            )),
            fetch matches Some(order) ==> order@ == final(self)@.latest_fetch(),
    {
        proof {
            use_type_invariant(&*self);
        }
        match parse_i64(text) {
            Some(size) => self.set_page_size(size),
            None => None,
        }
    }

    /// Goes to the page that `target` names, moved into `[1, total pages]`.
    /// Orders a fetch if that is another page than the current one; else
    /// nothing changes and nothing is ordered.
    pub fn go_to_page(&mut self, target: PageTarget) -> (fetch: Option<Fetch>)
        ensures
            final(self)@ == old(self)@.gone_to(target),
            final(self)@.wf(),
            final(self)@.in_range(),
            fetch is Some <==> old(self)@.target_page(target) != old(self)@.query.page,
            fetch matches Some(order) ==> order@ == final(self)@.latest_fetch(),
    {
        proof {
            use_type_invariant(&*self);
        }
        let pages = self.total_pages();
        let page = self.query.page;
        proof {
            lemma_page_fits(page as int, self.query.page_size as int);
        }
        let wanted: i64 = match target {
            PageTarget::First => 1,
            PageTarget::Prev => page - 1,
            PageTarget::Next => page + 1,
            PageTarget::Last => pages,
            PageTarget::Index(index) => index,
        };
        let goal = clamp(wanted, pages);
        if goal == page {
            None
        } else {
            proof {
                if let LoadState::Ready(result) = self@.loaded {
                    if result.total_count >= 1 {
                        lemma_page_in_range_starts_inside(
                            goal as int,
                            self.query.page_size as int,
                            result.total_count,
                        );
                    }
                }
            }
            self.query.page = goal;
            Some(self.issue())
        }
    }

    /// Orders a fetch for the current query, which stays as it is.
    pub fn refresh(&mut self) -> (fetch: Fetch)
        ensures
            final(self)@ == old(self)@.refreshed(),
            final(self)@.wf(),
            final(self)@.query == old(self)@.query,
            fetch@ == final(self)@.latest_fetch(),
    {
        proof {
            use_type_invariant(&*self);
        }
        self.issue()
    }

    /// Takes note that the store has deleted `deleted` records of the loaded
    /// result: moves the page back to the last page that is left if it lies
    /// beyond, then orders a fetch. The order already names the corrected page.
    pub fn notify_deleted(&mut self, deleted: u64) -> (fetch: Fetch)
        ensures
            final(self)@ == old(self)@.deleted(deleted as int),
            final(self)@.wf(),
            final(self)@.query.page <= old(self)@.query.page,
            fetch@ == final(self)@.latest_fetch(),
    {
        proof {
            use_type_invariant(&*self);
        }
        let page = self.query.page;
        let kept: i64 = match &self.loaded {
            FetchState::Ready(response) => reclamp(
                page,
                self.query.page_size,
                response.total_count,
                deleted,
            ),
            _ => page,
        };
        proof {
            lemma_offset_monotone(kept as int, page as int, self.query.page_size as int);
        }
        self.query.page = kept;
        self.issue()
    }

    /// Takes the outcome of the fetch numbered `ticket`. The outcome of the
    /// fetch issued last replaces what was loaded before; any other outcome is
    /// dropped and nothing changes.
    pub fn receive(&mut self, ticket: u64, outcome: Result<EmployeeResponse, GatewayError>) -> (accepted: bool)
        ensures
            final(self)@ == old(self)@.received(ticket as int, outcome_of(outcome)),
            final(self)@.wf(),
            accepted == old(self)@.accepts(ticket as int),
    {
        proof {
            use_type_invariant(&*self);
        }
        if self.pending && ticket == self.latest {
            let loaded = match outcome {
                Ok(response) => FetchState::Ready(response),
                Err(error) => FetchState::Failed(error),
            };
            self.loaded = loaded;
            self.pending = false;
            true
        } else {
            false
        }
    }

    /// Takes the gateway's answer to a change of the store, and orders a fetch
    /// where the page on display is out of date: after every success, with the
    /// page moved back into range after a deletion, and after the report that
    /// the record is gone. Any other failure changes nothing.
    pub fn mutation_settled(&mut self, kind: Mutation, outcome: Result<(), GatewayError>) -> (fetch: Option<Fetch>)
        ensures
            final(self)@ == old(self)@.mutation_settled(kind, outcome),
            final(self)@.wf(),
            fetch is Some <==> ControllerState::refetches_after(outcome),
            fetch matches Some(order) ==> order@ == final(self)@.latest_fetch(),
    {
        proof {
            use_type_invariant(&*self);
        }
        match outcome {
            Ok(_) => match kind {
                Mutation::Delete => Some(self.notify_deleted(1)),
                _ => Some(self.refresh()),
            },
            Err(GatewayError::NotFound) => Some(self.refresh()),
            Err(_) => None,
        }
    }
}

/// Every operation leaves a controller well formed: the page is at least 1
/// and the page size is 5, 10 or 20. An operation that starts with the page
/// among the pages of the loaded result ends with it there; and a new search
/// term, a page size that is taken, a navigation, and a deletion from a
/// loaded result end with it there wherever it was before.
pub proof fn lemma_page_stays_in_range(state: ControllerState, operation: Operation)
    requires
        state.wf(),
    ensures
        state.after(operation).wf(),
        state.after(operation).query.page >= 1,
        state.in_range() ==> state.after(operation).in_range(),
        state.brought_in_range_by(operation) ==> state.after(operation).in_range(),
{
    let size = state.query.page_size;
    let page = state.query.page;
    match operation {
        Operation::SetSearchTerm(_) => {
            lemma_total_pages_positive(state);
        },
        Operation::SetPageSize(wanted) => {
            if valid_page_size(wanted) {
                lemma_total_pages_positive(state.after(operation));
            }
        },
        Operation::GoToPage(target) => {
            lemma_total_pages_positive(state);
            let goal = state.target_page(target);
            if let LoadState::Ready(result) = state.loaded {
                if result.total_count >= 1 {
                    lemma_page_in_range_starts_inside(goal, size, result.total_count);
                }
            }
        },
        Operation::Refresh => {},
        Operation::NotifyDeleted(deleted) => {
            let kept = state.page_kept(deleted as int);
            if let LoadState::Ready(result) = state.loaded {
                lemma_total_pages_monotone(result.total_count - deleted, result.total_count, size);
                lemma_total_pages_bounds(result.total_count - deleted, size);
            }
            lemma_offset_monotone(kept, page, size);
        },
    }
}

/// Taking an outcome leaves a controller well formed and its query as it was.
pub proof fn lemma_receive_keeps_query(state: ControllerState, ticket: int, outcome: LoadState)
    requires
        state.wf(),
        outcome.fits(),
    ensures
        state.received(ticket, outcome).wf(),
        state.received(ticket, outcome).query == state.query,
        state.received(ticket, outcome).latest == state.latest,
{
}

/// A new search term and a new page size each put the page back to 1,
/// whatever it was before.
pub proof fn lemma_new_term_or_size_resets_page(state: ControllerState, text: Seq<char>, size: int)
    ensures
        state.search_term_set(text).query.page == 1,
        valid_page_size(size) ==> state.page_size_set(size).query.page == 1,
        !valid_page_size(size) ==> state.page_size_set(size) == state,
{
}

/// Going to the next page from the last page changes nothing, and so does
/// going to the previous page from page 1.
pub proof fn lemma_navigation_stops_at_the_ends(state: ControllerState)
    requires
        state.wf(),
    ensures
        state.query.page == state.total_pages() ==> state.gone_to(PageTarget::Next) == state,
        state.query.page == 1 ==> state.gone_to(PageTarget::Prev) == state,
        state.query.page == 1 ==> state.gone_to(PageTarget::First) == state,
        state.query.page == state.total_pages() ==> state.gone_to(PageTarget::Last) == state,
{
    lemma_total_pages_positive(state);
}

/// Where the current page is the last one, is not the first and shows a
/// single record, the deletion of that record moves the page one back, and
/// the fetch ordered next asks for that page.
pub proof fn lemma_deleting_last_row_steps_back(state: ControllerState, result: SearchResult)
    requires
        state.wf(),
        state.loaded == LoadState::Ready(result),
        state.query.page > 1,
        result.total_count == offset_of(state.query.page, state.query.page_size) + 1,
    ensures
        state.total_pages() == state.query.page,
        state.deleted(1).query.page == state.query.page - 1,
        state.deleted(1).latest_fetch().query.page == state.query.page - 1,
        state.deleted(1).pending,
{
    lemma_single_row_on_last_page(state.query.page, state.query.page_size);
}

/// The outcome of the fetch issued last is taken, and taken once: after it no
/// outcome is taken, under whatever number, until another fetch is issued.
pub proof fn lemma_latest_outcome_is_taken_once(state: ControllerState, outcome: LoadState, ticket: int)
    requires
        state.wf(),
    ensures
        state.fetch_issued().accepts(state.fetch_issued().latest),
        state.fetch_issued().received(state.fetch_issued().latest, outcome).loaded == outcome,
        !state.fetch_issued().received(state.fetch_issued().latest, outcome).accepts(ticket),
{
}

/// The positions on display are positive, and so is the count they are taken
/// from.
proof fn lemma_display_range_positive(state: ControllerState)
    requires
        state.wf(),
    ensures
        state.display_range() matches Some((start, end)) ==> start >= 1 && end >= 1,
        state.display_range() is Some ==> state.loaded is Ready && state.loaded->Ready_0.total_count
            >= 1,
{
    assert(offset_of(state.query.page, state.query.page_size) >= 0) by (nonlinear_arith)
        requires
            state.query.page >= 1,
            state.query.page_size >= 1,
    ;
}

/// Fetch numbers count fetches: the fetch issued `fetches` fetches later has
/// the number `ticket_after` gives, and issuing fetches changes nothing else
/// but that the last one is unanswered.
pub proof fn lemma_tickets_count_fetches(state: ControllerState, fetches: nat)
    requires
        state.wf(),
    ensures
        state.after_fetches(fetches).wf(),
        state.after_fetches(fetches).latest == ticket_after(state.latest, fetches),
        state.after_fetches(fetches).query == state.query,
        state.after_fetches(fetches).loaded == state.loaded,
        fetches > 0 ==> state.after_fetches(fetches).pending,
    decreases fetches,
{
    if fetches > 0 {
        lemma_tickets_count_fetches(state, (fetches - 1) as nat);
    }
}

/// However many fetches have been issued since, fewer than the 2^64 numbers
/// there are, the outcome of the fetch that they superseded is dropped:
/// handing it back changes nothing.
pub proof fn lemma_superseded_outcome_stays_dropped(
    state: ControllerState,
    fetches: nat,
    outcome: LoadState,
)
    requires
        state.wf(),
        0 < fetches < 0x1_0000_0000_0000_0000,
    ensures
        state.after_fetches(fetches).latest != state.latest,
        !state.after_fetches(fetches).accepts(state.latest),
        state.after_fetches(fetches).received(state.latest, outcome) == state.after_fetches(
            fetches,
        ),
{
    lemma_tickets_count_fetches(state, fetches);
}

/// A loaded result has at least one page.
proof fn lemma_total_pages_positive(state: ControllerState)
    requires
        valid_page_size(state.query.page_size),
    ensures
        state.total_pages() >= 1,
{
    if let LoadState::Ready(result) = state.loaded {
        lemma_total_pages_bounds(result.total_count, state.query.page_size);
    }
}

/// A page whose position fits an `i64` is itself well below the largest `i64`.
proof fn lemma_page_fits(page: int, size: int)
    requires
        page >= 1,
        valid_page_size(size),
        offset_of(page, size) < i64::MAX,
    ensures
        page < i64::MAX,
{
    assert((page - 1) * size >= page - 1) by (nonlinear_arith)
        requires
            page >= 1,
            size >= 1,
    ;
}

/// An earlier page starts at an earlier position.
proof fn lemma_offset_monotone(earlier: int, later: int, size: int)
    requires
        earlier <= later,
        size >= 1,
    ensures
        offset_of(earlier, size) <= offset_of(later, size),
{
    assert((earlier - 1) * size <= (later - 1) * size) by (nonlinear_arith)
        requires
            earlier <= later,
            size >= 1,
    ;
}

} // verus!
