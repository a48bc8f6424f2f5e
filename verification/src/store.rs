//! A record store in memory that answers the four gateway operations: search,
//! create, update and delete.
//!
//! The store keeps its records in ascending order of their ids, so a search
//! gives its rows in that order whatever the order in which the records came.
//! A search term selects the records that hold it in their first name, last
//! name or email, compared without regard to case: the lower-case form of the
//! term has to be a substring of the lower-case form of the field.

use vstd::prelude::*;
use crate::controller::{ControllerState, LoadState};
use crate::forms::{are_fields_valid, fields_of, fields_valid, record_of};
use crate::gateway::{admissible, window, GatewayError};
use crate::models::employee::{
    records_of, CreateEmployeeRequest, Employee, EmployeeFields, EmployeeRecord, EmployeeRequest,
    EmployeeResponse, SearchQuery, SearchResult, UpdateEmployeeRequest,
};
use crate::paging::{
    lemma_page_in_range_starts_inside, lemma_total_pages_bounds, offset_of, range_end_of,
    range_start_of,
};
use crate::text::{chars_of, lowercase, lowercase_of, occurs, occurs_in};

verus! {

/// Whether `field` holds `term`, compared without regard to case.
pub open spec fn field_holds(field: Seq<char>, term: Seq<char>) -> bool {
    occurs_in(lowercase_of(term), lowercase_of(field))
}

/// Whether `record` passes `filter`: every record passes where there is no
/// filter; else the first name, the last name or the email has to hold the
/// term.
pub open spec fn record_matches(record: EmployeeRecord, filter: Option<Seq<char>>) -> bool {
    match filter {
        None => true,
        Some(term) => field_holds(record.first_name, term) || field_holds(record.last_name, term)
            || field_holds(record.email, term),
    }
}

/// The records of `records` that pass `filter`, in the same order.
pub open spec fn matching(records: Seq<EmployeeRecord>, filter: Option<Seq<char>>) -> Seq<
    EmployeeRecord,
> {
    records.filter(|record: EmployeeRecord| record_matches(record, filter))
}

/// The `limit` records of `hits` that follow its first `offset`, or as many of
/// them as there are.
pub open spec fn page_rows(hits: Seq<EmployeeRecord>, offset: int, limit: int) -> Seq<
    EmployeeRecord,
>
    recommends
        0 <= offset,
        0 <= limit,
{
    let from = if offset < hits.len() {
        offset
    } else {
        hits.len() as int
    };
    let to = if offset + limit < hits.len() {
        offset + limit
    } else {
        hits.len() as int
    };
    hits.subrange(from, to)
}

/// What a search for `query` gives over `records`: the page of the records
/// that pass the filter, and the number of all records that pass it.
pub open spec fn search_result_of(records: Seq<EmployeeRecord>, query: SearchQuery) -> SearchResult {
    let hits = matching(records, query.filter());
    SearchResult {
        rows: page_rows(hits, offset_of(query.page, query.page_size), query.page_size),
        total_count: hits.len() as int,
    }
}

/// Whether the ids of `records` ascend strictly.
pub open spec fn ascending(records: Seq<EmployeeRecord>) -> bool {
    forall|i: int, j: int| 0 <= i < j < records.len() ==> records[i].id < records[j].id
}

/// `records`, which ascend, with `record` at its place among them.
pub open spec fn with_record(records: Seq<EmployeeRecord>, record: EmployeeRecord) -> Seq<
    EmployeeRecord,
>
    decreases records.len(),
{
    if records.len() == 0 || records.last().id < record.id {
        records.push(record)
    } else {
        with_record(records.drop_last(), record).push(records.last())
    }
}

/// The state of a record store: the model that its contracts speak of.
pub struct StoreState {
    /// The records, in ascending order of their ids.
    pub records: Seq<EmployeeRecord>,
    /// The id that the next created record gets.
    pub next_id: int,
}

impl StoreState {
    /// The state of a store without records.
    pub open spec fn empty() -> StoreState {
        StoreState { records: Seq::empty(), next_id: 1 }
    }

    /// What holds of every store: the ids are positive, ascend strictly, so
    /// that none occurs twice, and lie below the next id to give.
    pub open spec fn wf(self) -> bool {
        &&& ascending(self.records)
        &&& forall|i: int| 0 <= i < self.records.len() ==> 1 <= #[trigger] self.records[i].id < self.next_id
        &&& 1 <= self.next_id <= i64::MAX
    }

    /// Whether a record has the id `id`.
    pub open spec fn holds(self, id: int) -> bool {
        exists|k: int| 0 <= k < self.records.len() && #[trigger] self.records[k].id == id
    }

    /// The position of the record that has the id `id`.
    pub open spec fn position_of(self, id: int) -> int
        recommends
            self.holds(id),
    {
        choose|k: int| 0 <= k < self.records.len() && #[trigger] self.records[k].id == id
    }

    /// Whether a record with `fields` can be created: the fields are valid,
    /// and an id is left to give.
    pub open spec fn can_create(self, fields: EmployeeFields) -> bool {
        fields_valid(fields) && self.next_id < i64::MAX
    }

    /// The state once a record with `fields` is created: it gets the next id
    /// and stands last.
    pub open spec fn created(self, fields: EmployeeFields) -> StoreState {
        StoreState {
            records: self.records.push(record_of(self.next_id, fields)),
            next_id: self.next_id + 1,
        }
    }

    /// The state once the record with the id of `record` has the fields of
    /// `record`.
    pub open spec fn updated(self, record: EmployeeRecord) -> StoreState {
        StoreState { records: self.records.update(self.position_of(record.id), record), ..self }
    }

    /// The state once the record with the id `id` is deleted.
    pub open spec fn deleted(self, id: int) -> StoreState {
        StoreState { records: self.records.remove(self.position_of(id)), ..self }
    }

    /// Whether `record`, which has an id already, can be taken in: its id is
    /// positive, below the largest `i64`, and not in use.
    pub open spec fn can_load(self, record: EmployeeRecord) -> bool {
        1 <= record.id < i64::MAX && !self.holds(record.id)
    }

    /// The state once `record` is taken in: it stands at its place among the
    /// others, and the next id to give lies above its id.
    pub open spec fn loaded(self, record: EmployeeRecord) -> StoreState {
        StoreState {
            records: with_record(self.records, record),
            next_id: if record.id >= self.next_id {
                record.id + 1
            } else {
                self.next_id
            },
        }
    }

    /// What a search for `query` gives.
    pub open spec fn search(self, query: SearchQuery) -> SearchResult {
        search_result_of(self.records, query)
    }
}

/// In a list whose ids ascend strictly, two ids are at least as far apart as
/// their places.
proof fn lemma_ids_spread(records: Seq<EmployeeRecord>, i: int, j: int)
    requires
        ascending(records),
        0 <= i <= j < records.len(),
    ensures
        records[j].id - records[i].id >= j - i,
    decreases j - i,
{
    if i < j {
        lemma_ids_spread(records, i, j - 1);
    }
}

/// The record with a given id stands at one place only.
pub proof fn lemma_position_is_unique(state: StoreState, id: int, k: int)
    requires
        state.wf(),
        0 <= k < state.records.len(),
        state.records[k].id == id,
    ensures
        state.holds(id),
        state.position_of(id) == k,
{
    let chosen = state.position_of(id);
    assert(state.records[chosen].id == state.records[k].id);
}

/// Where every record from place `k` on has a larger id than `record`, and the
/// record before place `k`, if there is one, a smaller id, the place of
/// `record` among the others is `k`.
pub proof fn lemma_with_record_inserts(records: Seq<EmployeeRecord>, record: EmployeeRecord, k: int)
    requires
        0 <= k <= records.len(),
        forall|j: int| k <= j < records.len() ==> #[trigger] records[j].id > record.id,
        k == 0 || records[k - 1].id < record.id,
    ensures
        with_record(records, record) == records.insert(k, record),
    decreases records.len(),
{
    if k < records.len() {
        lemma_with_record_inserts(records.drop_last(), record, k);
        assert(records.insert(k, record) =~= records.drop_last().insert(k, record).push(
            records.last(),
        ));
    }
}

/// The number of records of `records` whose id lies below `id`.
spec fn place_for(records: Seq<EmployeeRecord>, id: int) -> int
    decreases records.len(),
{
    if records.len() == 0 || records.last().id < id {
        records.len() as int
    } else {
        place_for(records.drop_last(), id)
    }
}

/// In a list that ascends, the records before `place_for` have smaller ids
/// and the records from there on have none that is smaller.
proof fn lemma_place_for(records: Seq<EmployeeRecord>, id: int)
    requires
        ascending(records),
    ensures
        0 <= place_for(records, id) <= records.len(),
        forall|j: int| 0 <= j < place_for(records, id) ==> #[trigger] records[j].id < id,
        forall|j: int| place_for(records, id) <= j < records.len() ==> #[trigger] records[j].id >= id,
    decreases records.len(),
{
    if records.len() > 0 {
        if records.last().id < id {
            assert forall|j: int| 0 <= j < records.len() implies #[trigger] records[j].id < id by {
                assert(records[j].id <= records.last().id);
            }
        } else {
            lemma_place_for(records.drop_last(), id);
            let k = place_for(records.drop_last(), id);
            assert forall|j: int| 0 <= j < k implies #[trigger] records[j].id < id by {
                assert(records.drop_last()[j] == records[j]);
            }
            assert forall|j: int| k <= j < records.len() implies #[trigger] records[j].id >= id by {
                if j < records.len() - 1 {
                    assert(records.drop_last()[j] == records[j]);
                }
            }
        }
    }
}

/// Two records with different ids come to stand at the same places in
/// whichever order they are put among the others.
pub proof fn lemma_with_record_commutes(
    records: Seq<EmployeeRecord>,
    first: EmployeeRecord,
    second: EmployeeRecord,
)
    requires
        first.id != second.id,
    ensures
        with_record(with_record(records, first), second) == with_record(
            with_record(records, second),
            first,
        ),
{
    if first.id < second.id {
        lemma_with_record_commutes_ordered(records, first, second);
    } else {
        lemma_with_record_commutes_ordered(records, second, first);
    }
}

proof fn lemma_with_record_commutes_ordered(
    records: Seq<EmployeeRecord>,
    lower: EmployeeRecord,
    higher: EmployeeRecord,
)
    requires
        lower.id < higher.id,
    ensures
        with_record(with_record(records, lower), higher) == with_record(
            with_record(records, higher),
            lower,
        ),
    decreases records.len(),
{
    reveal_with_fuel(with_record, 3);
    if records.len() > 0 {
        let last = records.last();
        let shorter = records.drop_last();
        if lower.id <= last.id < higher.id {
            // `higher` goes to the end, and `lower` before `last` either way.
            assert(records.push(higher).drop_last() =~= records);
        } else if higher.id <= last.id {
            // `last` stays last, and the two are placed among the rest.
            let with_lower = with_record(shorter, lower).push(last);
            let with_higher = with_record(shorter, higher).push(last);
            assert(with_lower.drop_last() =~= with_record(shorter, lower));
            assert(with_higher.drop_last() =~= with_record(shorter, higher));
            lemma_with_record_commutes_ordered(shorter, lower, higher);
        }
    }
}

/// The order in which two records are taken in makes no difference to the
/// store.
pub proof fn lemma_load_order_is_irrelevant(
    state: StoreState,
    first: EmployeeRecord,
    second: EmployeeRecord,
)
    requires
        first.id != second.id,
    ensures
        state.loaded(first).loaded(second) == state.loaded(second).loaded(first),
{
    lemma_with_record_commutes(state.records, first, second);
}

/// Taking in a record, as creating one, leaves a store well formed, with one
/// record more.
pub proof fn lemma_loaded_store_is_well_formed(state: StoreState, record: EmployeeRecord)
    requires
        state.wf(),
        state.can_load(record),
    ensures
        state.loaded(record).wf(),
        state.loaded(record).records.len() == state.records.len() + 1,
        state.loaded(record).holds(record.id),
{
    let k = place_for(state.records, record.id);
    lemma_place_for(state.records, record.id);
    lemma_with_record_inserts(state.records, record, k);
    let after = state.records.insert(k, record);
    assert(after[k] == record);
}

/// Creating a record and updating one leave a store well formed: a created
/// record stands last with the largest id, and an updated record keeps its
/// place and id.
pub proof fn lemma_written_store_is_well_formed(
    state: StoreState,
    fields: EmployeeFields,
    record: EmployeeRecord,
)
    requires
        state.wf(),
    ensures
        state.can_create(fields) ==> state.created(fields).wf(),
        state.holds(record.id) ==> state.updated(record).wf(),
        state.holds(record.id) ==> state.updated(record).records.len() == state.records.len(),
{
}

/// Deleting a record leaves a store well formed, without the record and with
/// the others in their order.
pub proof fn lemma_deleted_store_is_well_formed(state: StoreState, id: int)
    requires
        state.wf(),
        state.holds(id),
    ensures
        state.deleted(id).wf(),
        !state.deleted(id).holds(id),
        state.deleted(id).records.len() == state.records.len() - 1,
{
    let k = state.position_of(id);
    let after = state.records.remove(k);
    assert forall|i: int| 0 <= i < after.len() implies #[trigger] after[i].id != id by {
        let from = if i < k { i } else { i + 1 };
        assert(after[i] == state.records[from]);
    }
}

/// A store has fewer records than its next id.
pub proof fn lemma_len_below_next_id(state: StoreState)
    requires
        state.wf(),
    ensures
        state.records.len() < state.next_id,
{
    if state.records.len() > 0 {
        lemma_ids_spread(state.records, 0, state.records.len() - 1);
    }
}

/// One record more either passes the filter and stands last among the
/// matching records, or leaves them as they are.
pub proof fn lemma_matching_step(records: Seq<EmployeeRecord>, filter: Option<Seq<char>>, i: int)
    requires
        0 <= i < records.len(),
    ensures
        matching(records.take(i + 1), filter) == if record_matches(records[i], filter) {
            matching(records.take(i), filter).push(records[i])
        } else {
            matching(records.take(i), filter)
        },
{
    reveal(Seq::filter);
    let longer = records.take(i + 1);
    assert(longer.drop_last() == records.take(i));
}

/// One matching record more stands last on the page if the page has room for
/// it and begins no later; else the page stays as it is.
proof fn lemma_page_rows_step(hits: Seq<EmployeeRecord>, next: EmployeeRecord, offset: int, limit: int)
    requires
        0 <= offset,
        0 <= limit,
    ensures
        page_rows(hits.push(next), offset, limit) == if offset <= hits.len() < offset + limit {
            page_rows(hits, offset, limit).push(next)
        } else {
            page_rows(hits, offset, limit)
        },
{
}

/// The records that pass a filter ascend as the records they are taken from
/// do, and none of them has a larger id than the last of those.
pub proof fn lemma_matching_ascends(records: Seq<EmployeeRecord>, filter: Option<Seq<char>>)
    requires
        ascending(records),
    ensures
        ascending(matching(records, filter)),
        matching(records, filter).len() <= records.len(),
        matching(records, filter).len() > 0 ==> matching(records, filter).last().id
            <= records.last().id,
    decreases records.len(),
{
    reveal(Seq::filter);
    if records.len() > 0 {
        lemma_matching_ascends(records.drop_last(), filter);
    }
}

/// The rows of a search ascend by id, are no more than the page size, and are
/// as many as the positions on display: `end - start + 1` where the page
/// starts inside the result, and none where it starts beyond.
pub proof fn lemma_rows_of_a_search(state: StoreState, query: SearchQuery)
    requires
        state.wf(),
        admissible(query),
    ensures
        ascending(state.search(query).rows),
        state.search(query).rows.len() <= query.page_size,
        0 <= state.search(query).total_count <= i64::MAX,
        state.search(query).rows.len() == if offset_of(query.page, query.page_size)
            < state.search(query).total_count {
            range_end_of(query.page, query.page_size, state.search(query).total_count)
                - range_start_of(query.page, query.page_size) + 1
        } else {
            0
        },
{
    lemma_matching_ascends(state.records, query.filter());
    lemma_len_below_next_id(state);
    assert(offset_of(query.page, query.page_size) >= 0) by (nonlinear_arith)
        requires
            query.page >= 1,
            query.page_size >= 1,
    ;
}

/// A created record that passes the filter of a search stands last among the
/// matching records, and the count of the search is one more than before; a
/// created record that does not pass leaves the search as it was. Where no
/// record passed before, the first page of the search shows the created
/// record, with the fields as submitted, and nothing else.
pub proof fn lemma_created_record_is_found(state: StoreState, fields: EmployeeFields, query: SearchQuery)
    requires
        state.wf(),
        admissible(query),
    ensures
        record_matches(record_of(state.next_id, fields), query.filter()) ==> matching(
            state.created(fields).records,
            query.filter(),
        ) == matching(state.records, query.filter()).push(record_of(state.next_id, fields)),
        record_matches(record_of(state.next_id, fields), query.filter()) ==> state.created(
            fields,
        ).search(query).total_count == state.search(query).total_count + 1,
        !record_matches(record_of(state.next_id, fields), query.filter()) ==> state.created(
            fields,
        ).search(query) == state.search(query),
        record_matches(record_of(state.next_id, fields), query.filter()) && state.search(
            query,
        ).total_count == 0 && query.page == 1 ==> state.created(fields).search(query).rows
            == seq![record_of(state.next_id, fields)],
{
    let created = record_of(state.next_id, fields);
    let longer = state.records.push(created);
    lemma_matching_step(longer, query.filter(), state.records.len() as int);
    assert(longer.take(state.records.len() as int) == state.records);
    assert(longer.take(longer.len() as int) == longer);
}

/// The deletion of a record that passes the filter of a search makes the
/// count of the search one less; the deletion of any other record leaves the
/// count as it was.
pub proof fn lemma_deleted_record_is_gone(state: StoreState, id: int, query: SearchQuery)
    requires
        state.wf(),
        state.holds(id),
    ensures
        state.deleted(id).search(query).total_count == if record_matches(
            state.records[state.position_of(id)],
            query.filter(),
        ) {
            state.search(query).total_count - 1
        } else {
            state.search(query).total_count
        },
{
    let k = state.position_of(id);
    let filter = query.filter();
    let pass = |record: EmployeeRecord| record_matches(record, filter);
    let before = state.records.subrange(0, k);
    let one = seq![state.records[k]];
    let after = state.records.subrange(k + 1, state.records.len() as int);
    assert(state.records =~= before + one + after);
    Seq::filter_distributes_over_add(before + one, after, pass);
    Seq::filter_distributes_over_add(before, one, pass);
    Seq::filter_distributes_over_add(before, after, pass);
    assert(one.filter(pass).len() == if pass(state.records[k]) { 1int } else { 0int }) by {
        reveal_with_fuel(Seq::filter, 2);
    }
}

/// A controller that shows a page of a search, and is told that one of the
/// matching records was deleted, asks next for a page of the smaller result:
/// once it has taken the answer, its page is among the pages of that answer,
/// and the page has rows unless nothing matches any more.
pub proof fn lemma_page_follows_a_deletion(controller: ControllerState, store: StoreState, id: int)
    requires
        controller.wf(),
        store.wf(),
        store.holds(id),
        record_matches(store.records[store.position_of(id)], controller.query.filter()),
        controller.loaded == LoadState::Ready(store.search(controller.query)),
    ensures
        ({
            let told = controller.deleted(1);
            let found = store.deleted(id).search(told.query);
            let shown = told.received(told.latest, LoadState::Ready(found));
            &&& found.total_count == store.search(controller.query).total_count - 1
            &&& shown.in_range()
            &&& found.total_count >= 1 ==> found.rows.len() >= 1
        }),
{
    let told = controller.deleted(1);
    let size = controller.query.page_size;
    let left = store.deleted(id);
    lemma_deleted_record_is_gone(store, id, told.query);
    lemma_deleted_record_is_gone(store, id, controller.query);
    lemma_deleted_store_is_well_formed(store, id);
    let found = left.search(told.query);
    lemma_total_pages_bounds(found.total_count, size);
    if found.total_count >= 1 {
        lemma_page_in_range_starts_inside(told.query.page, size, found.total_count);
        lemma_rows_of_a_search(left, told.query);
    }
}

/// The lower-case form of the term that `request` filters by, if it has one.
fn lowered_filter(request: &EmployeeRequest) -> (needle: Option<Vec<char>>)
    ensures
        needle is Some <==> request@.filter() is Some,
        needle matches Some(lower) ==> lower@ == lowercase_of(request@.filter().unwrap()),
{
    match &request.search_term {
        Some(text) => if text.as_str().is_empty() {
            None
        } else {
            Some(chars_of(lowercase(text.as_str()).as_str()))
        },
        None => None,
    }
}

/// Whether the lower-case form of `field` holds `needle`.
fn holds_lowered(field: &str, needle: &Vec<char>) -> (found: bool)
    ensures
        found == occurs_in(needle@, lowercase_of(field@)),
{
    let hay = chars_of(lowercase(field).as_str());
    occurs(needle, &hay)
}

/// Whether `employee` passes the filter whose lower-case form is `needle`.
fn passes(employee: &Employee, needle: &Option<Vec<char>>) -> (pass: bool)
    ensures
        pass == match needle {
            None => true,
            Some(lower) => occurs_in(lower@, lowercase_of(employee@.first_name)) || occurs_in(
                lower@,
                lowercase_of(employee@.last_name),
            ) || occurs_in(lower@, lowercase_of(employee@.email)),
        },
{
    match needle {
        None => true,
        Some(lower) => holds_lowered(employee.first_name.as_str(), lower) || holds_lowered(
            employee.last_name.as_str(),
            lower,
        ) || holds_lowered(employee.email.as_str(), lower),
    }
}

/// A record store in memory.
pub struct RecordStore {
    records: Vec<Employee>,
    next_id: i64,
}

impl View for RecordStore {
    type V = StoreState;

    closed spec fn view(&self) -> StoreState {
        StoreState { records: records_of(self.records@), next_id: self.next_id as int }
    }
}

impl RecordStore {
    #[verifier::type_invariant]
    spec fn well_formed(self) -> bool {
        self@.wf()
    }

    /// A store without records.
    pub fn new() -> (store: RecordStore)
        ensures
            store@ == StoreState::empty(),
            store@.wf(),
    {
        let store = RecordStore { records: Vec::new(), next_id: 1 };
        assert(store@.records =~= Seq::empty());
        store
    }

    /// The number of records.
    pub fn len(&self) -> (count: usize)
        ensures
            count == self@.records.len(),
    {
        self.records.len()
    }

    /// Searches the store: gives the page that `request` asks for of the
    /// records that pass its filter, in ascending order of their ids, and the
    /// number of all records that pass it. A request that cannot be run is
    /// refused.
    pub fn search(&self, request: &EmployeeRequest) -> (result: Result<
        EmployeeResponse,
        GatewayError,
    >)
        ensures
            result is Ok <==> admissible(request@),
            result matches Ok(response) ==> response@ == self@.search(request@),
            result matches Err(error) ==> error == GatewayError::ValidationFailed,
    {
        proof {
            use_type_invariant(self);
            lemma_len_below_next_id(self@);
        }
        let rows = match window(request) {
            Ok(rows) => rows,
            Err(error) => {
                return Err(error);
            },
        };
        proof {
            assert(offset_of(request.page as int, request.page_size as int) >= 0) by (nonlinear_arith)
                requires
                    request.page >= 1,
                    request.page_size >= 1,
            ;
        }
        let needle = lowered_filter(request);
        let ghost filter = request@.filter();
        let ghost all = self@.records;
        let mut employees: Vec<Employee> = Vec::new();
        let mut count: i64 = 0;
        let mut i: usize = 0;
        assert(matching(all.take(0), filter) =~= Seq::empty()) by {
            reveal(Seq::filter);
        }
        while i < self.records.len()
            invariant
                i <= self.records.len(),
                self.records.len() < i64::MAX,
                all == records_of(self.records@),
                filter == request@.filter(),
                needle is Some <==> filter is Some,
                needle matches Some(lower) ==> lower@ == lowercase_of(filter.unwrap()),
                0 <= rows.offset,
                0 <= rows.limit,
                count == matching(all.take(i as int), filter).len(),
                count <= i,
                records_of(employees@) == page_rows(
                    matching(all.take(i as int), filter),
                    rows.offset as int,
                    rows.limit as int,
                ),
            decreases self.records.len() - i,
        {
            let employee = &self.records[i];
            proof {
                lemma_matching_step(all, filter, i as int);
                lemma_page_rows_step(
                    matching(all.take(i as int), filter),
                    all[i as int],
                    rows.offset as int,
                    rows.limit as int,
                );
            }
            if passes(employee, &needle) {
                if count >= rows.offset && count - rows.offset < rows.limit {
                    employees.push(employee.duplicate());
                }
                count += 1;
            }
            i += 1;
        }
        assert(all.take(all.len() as int) == all);
        Ok(EmployeeResponse { employees, total_count: count })
    }

    /// The place of the record with the id `id`, if there is one.
    fn position(&self, id: i64) -> (found: Option<usize>)
        ensures
            found is Some <==> self@.holds(id as int),
            found matches Some(k) ==> k == self@.position_of(id as int) && k < self.records.len(),
    {
        proof {
            use_type_invariant(self);
        }
        let mut k: usize = 0;
        while k < self.records.len()
            invariant
                k <= self.records.len(),
                self@.wf(),
                forall|j: int| 0 <= j < k ==> #[trigger] self@.records[j].id != id,
            decreases self.records.len() - k,
        {
            if self.records[k].id == id {
                proof {
                    lemma_position_is_unique(self@, id as int, k as int);
                }
                return Some(k);
            }
            k += 1;
        }
        None
    }

    /// Creates a record with the fields of `request`, under the next id.
    /// Fields that are not valid are refused, and nothing is created once the
    /// ids have run out.
    pub fn create(&mut self, request: &CreateEmployeeRequest) -> (result: Result<(), GatewayError>)
        ensures
            result is Ok <==> old(self)@.can_create(request@),
            result is Ok ==> final(self)@ == old(self)@.created(request@),
            result is Err ==> final(self)@ == old(self)@,
            result matches Err(error) ==> error == if fields_valid(request@) {
                GatewayError::QueryFailed
            } else {
                GatewayError::ValidationFailed
            },
            final(self)@.wf(),
    {
        proof {
            use_type_invariant(&*self);
        }
        if !are_fields_valid(
            request.first_name.as_str(),
            request.last_name.as_str(),
            request.email.as_str(),
        ) {
            return Err(GatewayError::ValidationFailed);
        }
        if self.next_id == i64::MAX {
            return Err(GatewayError::QueryFailed);
        }
        let employee = Employee {
            id: self.next_id,
            first_name: request.first_name.clone(),
            last_name: request.last_name.clone(),
            email: request.email.clone(),
        };
        let ghost before = self.records@;
        let mut records: Vec<Employee> = Vec::new();
        std::mem::swap(&mut records, &mut self.records);
        records.push(employee);
        assert(records_of(records@) =~= records_of(before).push(employee@));
        self.next_id = self.next_id + 1;
        self.records = records;
        Ok(())
    }

    /// Gives the record with the id of `request` the fields of `request`.
    /// Fields that are not valid are refused; so is an id that no record has.
    pub fn update(&mut self, request: &UpdateEmployeeRequest) -> (result: Result<(), GatewayError>)
        ensures
            result is Ok <==> fields_valid(fields_of(request@)) && old(self)@.holds(request@.id),
            result is Ok ==> final(self)@ == old(self)@.updated(request@),
            result is Err ==> final(self)@ == old(self)@,
            result matches Err(error) ==> error == if fields_valid(fields_of(request@)) {
                GatewayError::NotFound
            } else {
                GatewayError::ValidationFailed
            },
            final(self)@.wf(),
    {
        proof {
            use_type_invariant(&*self);
        }
        if !are_fields_valid(
            request.first_name.as_str(),
            request.last_name.as_str(),
            request.email.as_str(),
        ) {
            return Err(GatewayError::ValidationFailed);
        }
        match self.position(request.id) {
            Some(k) => {
                let employee = Employee {
                    id: request.id,
                    first_name: request.first_name.clone(),
                    last_name: request.last_name.clone(),
                    email: request.email.clone(),
                };
                let ghost before = self.records@;
                let mut records: Vec<Employee> = Vec::new();
                std::mem::swap(&mut records, &mut self.records);
                records.set(k, employee);
                assert(records_of(records@) =~= records_of(before).update(k as int, request@));
                self.records = records;
                Ok(())
            },
            None => Err(GatewayError::NotFound),
        }
    }

    /// Deletes the record with the id `id`, if there is one.
    pub fn delete(&mut self, id: i64) -> (result: Result<(), GatewayError>)
        ensures
            result is Ok <==> old(self)@.holds(id as int),
            result is Ok ==> final(self)@ == old(self)@.deleted(id as int),
            result is Err ==> final(self)@ == old(self)@,
            result matches Err(error) ==> error == GatewayError::NotFound,
            final(self)@.wf(),
    {
        proof {
            use_type_invariant(&*self);
        }
        match self.position(id) {
            Some(k) => {
                let ghost before = self.records@;
                let mut records: Vec<Employee> = Vec::new();
                std::mem::swap(&mut records, &mut self.records);
                let _ = records.remove(k);
                assert(records_of(records@) =~= records_of(before).remove(k as int));
                self.records = records;
                Ok(())
            },
            None => Err(GatewayError::NotFound),
        }
    }

    /// Takes in a record that has an id already, at its place among the
    /// others. A record whose id is not positive, is the largest `i64`, or is
    /// in use is refused.
    pub fn load(&mut self, employee: Employee) -> (result: Result<(), GatewayError>)
        ensures
            result is Ok <==> old(self)@.can_load(employee@),
            result is Ok ==> final(self)@ == old(self)@.loaded(employee@),
            result is Err ==> final(self)@ == old(self)@,
            result matches Err(error) ==> error == GatewayError::QueryFailed,
            final(self)@.wf(),
    {
        proof {
            use_type_invariant(&*self);
        }
        let id = employee.id;
        if id < 1 || id == i64::MAX {
            return Err(GatewayError::QueryFailed);
        }
        let mut k: usize = self.records.len();
        while k > 0 && self.records[k - 1].id > id
            invariant
                k <= self.records.len(),
                forall|j: int| k <= j < self.records.len() ==> #[trigger] self@.records[j].id > id,
            decreases k,
        {
            k -= 1;
        }
        if k > 0 && self.records[k - 1].id == id {
            return Err(GatewayError::QueryFailed);
        }
        proof {
            let state = self@;
            assert(!state.holds(id as int)) by {
                if state.holds(id as int) {
                    let at = state.position_of(id as int);
                    if at < k - 1 {
                        assert(state.records[at].id < state.records[k - 1].id);
                    }
                }
            }
            lemma_with_record_inserts(state.records, employee@, k as int);
        }
        let ghost before = self.records@;
        let mut records: Vec<Employee> = Vec::new();
        std::mem::swap(&mut records, &mut self.records);
        records.insert(k, employee);
        assert(records_of(records@) =~= records_of(before).insert(k as int, employee@));
        if id >= self.next_id {
            self.next_id = id + 1;
        }
        self.records = records;
        Ok(())
    }

    /// The records, in ascending order of their ids.
    pub fn records(&self) -> (records: &Vec<Employee>)
        ensures
            records_of(records@) == self@.records,
            self@.wf(),
    {
        proof {
            use_type_invariant(self);
        }
        &self.records
    }
}

} // verus!
