//! The boundary to the record store: what a search asks of the store, and the
//! ways in which a gateway call fails.

use vstd::prelude::*;
use crate::models::employee::{EmployeeRequest, SearchQuery};
use crate::paging::{is_valid_page_size, offset, offset_of, valid_page_size};
use crate::text::push_char;

verus! {

/// Why a gateway call did not succeed.
#[derive(Debug, Clone, Copy, PartialEq, Eq, Structural)]
pub enum GatewayError {
    /// The store could not be reached; trying again later may succeed.
    StoreUnavailable,
    /// The store was reached and rejected or failed a well-formed query.
    QueryFailed,
    /// The input did not pass validation and was never sent to the store.
    ValidationFailed,
    /// The record to change or delete no longer exists.
    NotFound,
}

/// The words that name an error to the user.
pub open spec fn reason_of(error: GatewayError) -> Seq<char> {
    match error {
        GatewayError::StoreUnavailable => "the store cannot be reached"@,
        GatewayError::QueryFailed => "the store failed the query"@,
        GatewayError::ValidationFailed => "the input is not valid"@,
        GatewayError::NotFound => "the record no longer exists"@,
    }
}

impl GatewayError {
    /// The words that name this error to the user.
    pub fn reason(&self) -> (text: String)
        ensures
            text@ == reason_of(*self),
    {
        match self {
            GatewayError::StoreUnavailable => String::from_str("the store cannot be reached"),
            GatewayError::QueryFailed => String::from_str("the store failed the query"),
            GatewayError::ValidationFailed => String::from_str("the input is not valid"),
            GatewayError::NotFound => String::from_str("the record no longer exists"),
        }
    }

    /// Whether the same call may succeed when it is made again: only where
    /// the store could not be reached.
    pub fn is_retryable(&self) -> (retryable: bool)
        ensures
            retryable == (*self == GatewayError::StoreUnavailable),
    {
        match self {
            GatewayError::StoreUnavailable => true,
            _ => false,
        }
    }
}

/// The error of a call that the store did not carry out: the store is
/// unavailable where it could not be reached, and failed the query where it
/// was reached.
pub fn store_fault(reached: bool) -> (error: GatewayError)
    ensures
        error == if reached {
            GatewayError::QueryFailed
        } else {
            GatewayError::StoreUnavailable
        },
{
    if reached {
        GatewayError::QueryFailed
    } else {
        GatewayError::StoreUnavailable
    }
}

/// What a write that names one record by its id came to, given the number of
/// rows that the store changed: a write that changed no row found no record.
pub fn write_outcome(rows_changed: u64) -> (outcome: Result<(), GatewayError>)
    ensures
        outcome == if rows_changed == 0 {
            Err::<(), GatewayError>(GatewayError::NotFound)
        } else {
            Ok::<(), GatewayError>(())
        },
{
    if rows_changed == 0 {
        Err(GatewayError::NotFound)
    } else {
        Ok(())
    }
}

/// What a call came to, given the reply that reached the caller, if one did:
/// a call without a reply counts as a store that could not be reached.
pub fn over_the_wire<T>(reply: Option<Result<T, GatewayError>>) -> (outcome: Result<T, GatewayError>)
    ensures
        outcome == match reply {
            Some(answer) => answer,
            None => Err::<T, GatewayError>(GatewayError::StoreUnavailable),
        },
{
    match reply {
        Some(answer) => answer,
        None => Err(GatewayError::StoreUnavailable),
    }
}

/// The rows of the filtered, ordered list that make up one page: `limit`
/// rows after the first `offset`.
#[derive(Debug, Clone, Copy, PartialEq, Eq)]
pub struct Window {
    pub offset: i64,
    pub limit: i64,
}

/// Whether a query can be run: its page is at least 1, its page size is one
/// that may be selected, and the position of the page fits an `i64`.
pub open spec fn admissible(query: SearchQuery) -> bool {
    &&& query.page >= 1
    &&& valid_page_size(query.page_size)
    &&& offset_of(query.page, query.page_size) <= i64::MAX
}

/// Whether `c` has a meaning of its own in a `LIKE` pattern.
pub open spec fn is_pattern_char(c: char) -> bool {
    c == '%' || c == '_' || c == '\\'
}

/// `text` with a backslash before each character that has a meaning of its own
/// in a `LIKE` pattern, so that the pattern stands for `text` itself.
pub open spec fn escaped(text: Seq<char>) -> Seq<char>
    decreases text.len(),
{
    if text.len() == 0 {
        Seq::empty()
    } else if is_pattern_char(text.last()) {
        escaped(text.drop_last()).push('\\').push(text.last())
    } else {
        escaped(text.drop_last()).push(text.last())
    }
}

/// The `LIKE` pattern that matches the texts which hold `filter` as a
/// substring, and every text where there is no filter: the escaped filter
/// between two `%`.
pub open spec fn like_pattern_of(filter: Option<Seq<char>>) -> Seq<char> {
    match filter {
        Some(text) => seq!['%'] + escaped(text) + seq!['%'],
        None => seq!['%', '%'],
    }
}

/// The rows that the store has to give for `request`, if it can be run; else
/// the error that keeps it from the store.
pub fn window(request: &EmployeeRequest) -> (rows: Result<Window, GatewayError>)
    ensures
        rows is Ok <==> admissible(request@),
        rows matches Ok(w) ==> w.limit == request.page_size && w.offset == offset_of(
            request.page as int,
            request.page_size as int,
        ),
        rows matches Err(error) ==> error == GatewayError::ValidationFailed,
{
    if !is_valid_page_size(request.page_size) {
        return Err(GatewayError::ValidationFailed);
    }
    match offset(request.page, request.page_size) {
        Some(skipped) => Ok(Window { offset: skipped, limit: request.page_size }),
        None => Err(GatewayError::ValidationFailed),
    }
}

/// The `LIKE` pattern that selects the records of `request`'s filter in one
/// text column.
pub fn like_pattern(request: &EmployeeRequest) -> (pattern: String)
    ensures
        pattern@ == like_pattern_of(request@.filter()),
{
    let mut pattern = String::new();
    push_char(&mut pattern, '%');
    match &request.search_term {
        Some(text) => {
            for c in it: text.as_str().chars()
                invariant
                    it.seq() == text@,
                    pattern@ == seq!['%'] + escaped(text@.take(it.index() as int)),
            {
                proof {
                    let longer = text@.take(it.index() + 1);
                    assert(longer.drop_last() == text@.take(it.index() as int));
                }
                if c == '%' || c == '_' || c == '\\' {
                    push_char(&mut pattern, '\\');
                }
                push_char(&mut pattern, c);
            }
            assert(text@.take(text@.len() as int) == text@);
        },
        None => {},
    }
    push_char(&mut pattern, '%');
    pattern
}

} // verus!
