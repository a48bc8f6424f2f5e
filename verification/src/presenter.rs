//! What the table shows of the controller's state: the line under the table
//! and the message that stands in place of rows.

use vstd::prelude::*;
use crate::controller::{Controller, ControllerState, FetchState, LoadState};
use crate::gateway::{reason_of, GatewayError};
use crate::models::employee::EmployeeRecord;
use crate::paging::DisplayRange;
use crate::store::{matching, record_matches, StoreState};
use crate::text::{numeral, numeral_of};

verus! {

/// What the body of the table shows.
#[derive(Debug, Clone, Copy, PartialEq, Eq, Structural)]
pub enum TableStatus {
    /// No fetch has been answered yet.
    Loading,
    /// The latest fetch failed.
    Failed(GatewayError),
    /// The latest fetch gave a page without rows.
    Empty,
    /// The latest fetch gave rows to show.
    Rows,
}

/// The text that names the positions `start` to `end` out of `total`.
pub open spec fn range_text_of(start: int, end: int, total: int) -> Seq<char> {
    numeral_of(start) + "-"@ + numeral_of(end) + " of "@ + numeral_of(total)
}

/// The line under the table: the positions on display and the count they are
/// taken from, `No results` where nothing matches, and `Loading…` while no
/// result is loaded.
pub open spec fn pagination_text_of(state: ControllerState) -> Seq<char> {
    match state.loaded {
        LoadState::Ready(result) => match state.display_range() {
            Some((start, end)) => range_text_of(start, end, result.total_count),
            None => "No results"@,
        },
        _ => "Loading…"@,
    }
}

/// What the body of the table shows in `state`.
pub open spec fn table_status_of(state: ControllerState) -> TableStatus {
    match state.loaded {
        LoadState::NotLoaded => TableStatus::Loading,
        LoadState::Failed(error) => TableStatus::Failed(error),
        LoadState::Ready(result) => if result.rows.len() == 0 {
            TableStatus::Empty
        } else {
            TableStatus::Rows
        },
    }
}

/// The message that stands in place of rows, where there are none to show.
pub open spec fn status_message_of(status: TableStatus) -> Option<Seq<char>> {
    match status {
        TableStatus::Loading => Some("Loading…"@),
        TableStatus::Failed(error) => Some("Error loading data: "@ + reason_of(error)),
        TableStatus::Empty => Some("No employees found."@),
        TableStatus::Rows => None,
    }
}

/// Whatever is searched for in a store without records, the search finds
/// nothing, and a controller that has taken that answer shows one page
/// without rows, with no page to go to before or after it, and says that no
/// employees were found.
pub proof fn lemma_empty_store_shows_no_employees(state: ControllerState, text: Seq<char>)
    requires
        state.wf(),
    ensures
        ({
            let asked = state.search_term_set(text);
            let found = StoreState::empty().search(asked.query);
            let shown = asked.received(asked.latest, LoadState::Ready(found));
            &&& found.total_count == 0
            &&& found.rows.len() == 0
            &&& shown.total_pages() == 1
            &&& !shown.prev_enabled()
            &&& !shown.next_enabled()
            &&& table_status_of(shown) == TableStatus::Empty
            &&& status_message_of(table_status_of(shown)) == Some("No employees found."@)
            &&& pagination_text_of(shown) == "No results"@
        }),
{
    let asked = state.search_term_set(text);
    let none = StoreState::empty().records;
    assert(matching(none, asked.query.filter()).len() == 0) by {
        none.lemma_filter_len(|record: EmployeeRecord| record_matches(record, asked.query.filter()));
    }
}

/// The text that names the positions of `range`.
pub fn range_text(range: &DisplayRange) -> (text: String)
    ensures
        text@ == range_text_of(range.start as int, range.end as int, range.total as int),
{
    let mut text = numeral(range.start);
    text.append("-");
    text.append(numeral(range.end).as_str());
    text.append(" of ");
    text.append(numeral(range.total).as_str());
    text
}

/// The line under the table.
pub fn pagination_text(controller: &Controller) -> (text: String)
    ensures
        text@ == pagination_text_of(controller@),
{
    match controller.loaded() {
        FetchState::Ready(_) => match controller.display_range() {
            Some(range) => range_text(&range),
            None => String::from_str("No results"),
        },
        _ => String::from_str("Loading…"),
    }
}

/// What the body of the table shows.
pub fn table_status(controller: &Controller) -> (status: TableStatus)
    ensures
        status == table_status_of(controller@),
{
    match controller.loaded() {
        FetchState::NotLoaded => TableStatus::Loading,
        FetchState::Failed(error) => TableStatus::Failed(*error),
        FetchState::Ready(response) => if response.employees.len() == 0 {
            TableStatus::Empty
        } else {
            TableStatus::Rows
        },
    }
}

/// The message that stands in place of rows, where there are none to show.
pub fn status_message(status: TableStatus) -> (message: Option<String>)
    ensures
        message is Some <==> status_message_of(status) is Some,
        message matches Some(text) ==> Some(text@) == status_message_of(status),
{
    match status {
        TableStatus::Loading => Some(String::from_str("Loading…")),
        TableStatus::Failed(error) => {
            let mut text = String::from_str("Error loading data: ");
            text.append(error.reason().as_str());
            Some(text)
        },
        TableStatus::Empty => Some(String::from_str("No employees found.")),
        TableStatus::Rows => None,
    }
}

} // verus!
