use employee_directory::gateway::{
    like_pattern, over_the_wire, store_fault, window, write_outcome, GatewayError, Window,
};
use employee_directory::models::employee::{Employee, EmployeeRequest};

fn asking(page: i64, page_size: i64, term: Option<&str>) -> EmployeeRequest {
    EmployeeRequest { page, page_size, search_term: term.map(String::from) }
}

#[test]
fn window_skips_the_pages_before() {
    assert_eq!(window(&asking(1, 5, None)), Ok(Window { offset: 0, limit: 5 }));
    assert_eq!(window(&asking(3, 5, None)), Ok(Window { offset: 10, limit: 5 }));
    assert_eq!(window(&asking(2, 10, Some("x"))), Ok(Window { offset: 10, limit: 10 }));
    assert_eq!(window(&asking(7, 20, None)), Ok(Window { offset: 120, limit: 20 }));
}

#[test]
fn window_refuses_what_cannot_be_run() {
    assert_eq!(window(&asking(0, 5, None)), Err(GatewayError::ValidationFailed));
    assert_eq!(window(&asking(-2, 5, None)), Err(GatewayError::ValidationFailed));
    assert_eq!(window(&asking(1, 6, None)), Err(GatewayError::ValidationFailed));
    assert_eq!(window(&asking(1, -5, None)), Err(GatewayError::ValidationFailed));
    assert_eq!(window(&asking(i64::MAX, 5, None)), Err(GatewayError::ValidationFailed));
    assert_eq!(
        window(&asking(i64::MAX / 5 + 1, 5, None)),
        Ok(Window { offset: i64::MAX / 5 * 5, limit: 5 })
    );
}

#[test]
fn like_pattern_wraps_the_term() {
    assert_eq!(like_pattern(&asking(1, 5, Some("abc"))), "%abc%");
    assert_eq!(like_pattern(&asking(1, 5, Some("a b"))), "%a b%");
    assert_eq!(like_pattern(&asking(1, 5, None)), "%%");
    assert_eq!(like_pattern(&asking(1, 5, Some(""))), "%%");
}

#[test]
fn like_pattern_escapes_what_a_pattern_would_read() {
    assert_eq!(like_pattern(&asking(1, 5, Some("100%"))), "%100\\%%");
    assert_eq!(like_pattern(&asking(1, 5, Some("a_b"))), "%a\\_b%");
    assert_eq!(like_pattern(&asking(1, 5, Some("c:\\dir"))), "%c:\\\\dir%");
    assert_eq!(like_pattern(&asking(1, 5, Some("%_\\"))), "%\\%\\_\\\\%");
}

#[test]
fn errors_have_a_reason_and_one_may_be_retried() {
    assert_eq!(GatewayError::StoreUnavailable.reason(), "the store cannot be reached");
    assert_eq!(GatewayError::QueryFailed.reason(), "the store failed the query");
    assert_eq!(GatewayError::ValidationFailed.reason(), "the input is not valid");
    assert_eq!(GatewayError::NotFound.reason(), "the record no longer exists");
    assert!(GatewayError::StoreUnavailable.is_retryable());
    assert!(!GatewayError::QueryFailed.is_retryable());
    assert!(!GatewayError::ValidationFailed.is_retryable());
    assert!(!GatewayError::NotFound.is_retryable());
}

#[test]
fn duplicates_are_equal_to_what_they_copy() {
    let request = asking(2, 10, Some("smith"));
    assert_eq!(request.duplicate(), request);
    let employee = Employee {
        id: 3,
        first_name: String::from("Cid"),
        last_name: String::from("Lake"),
        email: String::from("cid@example.org"),
    };
    assert_eq!(employee.duplicate(), employee);
}

#[test]
fn write_that_changed_no_row_found_no_record() {
    assert_eq!(write_outcome(0), Err(GatewayError::NotFound));
    assert_eq!(write_outcome(1), Ok(()));
    assert_eq!(write_outcome(3), Ok(()));
}

#[test]
fn call_without_a_reply_counts_as_store_unavailable() {
    assert_eq!(over_the_wire::<i64>(None), Err(GatewayError::StoreUnavailable));
    assert_eq!(over_the_wire(Some(Ok(7))), Ok(7));
    assert_eq!(over_the_wire::<i64>(Some(Err(GatewayError::NotFound))), Err(GatewayError::NotFound));
}

#[test]
fn store_that_was_not_reached_is_unavailable() {
    assert_eq!(store_fault(false), GatewayError::StoreUnavailable);
    assert_eq!(store_fault(true), GatewayError::QueryFailed);
    assert!(store_fault(false).is_retryable());
    assert!(!store_fault(true).is_retryable());
}
