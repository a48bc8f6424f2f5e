use employee_directory::controller::{Controller, PageTarget};
use employee_directory::gateway::GatewayError;
use employee_directory::models::employee::{Employee, EmployeeResponse};
use employee_directory::paging::DisplayRange;
use employee_directory::store::RecordStore;
use employee_directory::presenter::{
    pagination_text, range_text, status_message, table_status, TableStatus,
};

fn rows(count: i64) -> Vec<Employee> {
    let mut rows = Vec::new();
    let mut id = 1;
    while id <= count {
        rows.push(Employee {
            id,
            first_name: String::from("a"),
            last_name: String::from("b"),
            email: String::from("c@d"),
        });
        id += 1;
    }
    rows
}

fn showing(page: i64, shown: i64, total_count: i64) -> Controller {
    let mut controller = Controller::new();
    let fetch = controller.refresh();
    assert!(controller.receive(
        fetch.ticket,
        Ok(EmployeeResponse { employees: rows(shown), total_count })
    ));
    if let Some(fetch) = controller.go_to_page(PageTarget::Index(page)) {
        assert!(controller.receive(
            fetch.ticket,
            Ok(EmployeeResponse { employees: rows(shown), total_count })
        ));
    }
    controller
}

#[test]
fn pagination_text_names_the_rows_on_display() {
    assert_eq!(pagination_text(&showing(3, 2, 12)), "11-12 of 12");
    assert_eq!(pagination_text(&showing(1, 5, 12)), "1-5 of 12");
    assert_eq!(pagination_text(&showing(2, 5, 12)), "6-10 of 12");
    assert_eq!(pagination_text(&showing(1, 1, 1)), "1-1 of 1");
    assert_eq!(pagination_text(&showing(21, 1, 101)), "101-101 of 101");
}

#[test]
fn pagination_text_of_an_empty_result() {
    assert_eq!(pagination_text(&showing(1, 0, 0)), "No results");
}

#[test]
fn pagination_text_without_a_result() {
    let mut controller = Controller::new();
    assert_eq!(pagination_text(&controller), "Loading…");
    let fetch = controller.refresh();
    assert_eq!(pagination_text(&controller), "Loading…");
    controller.receive(fetch.ticket, Err(GatewayError::QueryFailed));
    assert_eq!(pagination_text(&controller), "Loading…");
}

#[test]
fn range_text_writes_the_numbers_in_decimal() {
    assert_eq!(range_text(&DisplayRange { start: 11, end: 12, total: 12 }), "11-12 of 12");
    assert_eq!(range_text(&DisplayRange { start: 0, end: 0, total: 0 }), "0-0 of 0");
    assert_eq!(range_text(&DisplayRange { start: 11, end: 7, total: 7 }), "11-7 of 7");
    assert_eq!(range_text(&DisplayRange { start: -4, end: 0, total: -1 }), "-4-0 of -1");
    assert_eq!(
        range_text(&DisplayRange { start: 9_999_981, end: 10_000_000, total: i64::MAX }),
        "9999981-10000000 of 9223372036854775807"
    );
}

#[test]
fn empty_store_shows_that_no_employees_were_found() {
    let store = RecordStore::new();
    let mut controller = Controller::new();
    let fetch = controller.set_search_term(String::from("any term"));
    let found = store.search(&fetch.request);
    assert_eq!(found, Ok(EmployeeResponse { employees: Vec::new(), total_count: 0 }));
    assert!(controller.receive(fetch.ticket, found));
    assert_eq!(table_status(&controller), TableStatus::Empty);
    assert_eq!(
        status_message(table_status(&controller)),
        Some(String::from("No employees found."))
    );
    assert!(!controller.prev_enabled());
    assert!(!controller.next_enabled());
    assert_eq!(controller.total_pages(), 1);
}

#[test]
fn table_shows_loading_rows_or_the_error() {
    let mut controller = Controller::new();
    assert_eq!(table_status(&controller), TableStatus::Loading);
    assert_eq!(status_message(TableStatus::Loading), Some(String::from("Loading…")));

    let loaded = showing(1, 5, 12);
    assert_eq!(table_status(&loaded), TableStatus::Rows);
    assert_eq!(status_message(TableStatus::Rows), None);

    let fetch = controller.refresh();
    controller.receive(fetch.ticket, Err(GatewayError::StoreUnavailable));
    assert_eq!(table_status(&controller), TableStatus::Failed(GatewayError::StoreUnavailable));
}

#[test]
fn error_message_names_the_reason() {
    assert_eq!(
        status_message(TableStatus::Failed(GatewayError::StoreUnavailable)),
        Some(String::from("Error loading data: the store cannot be reached"))
    );
    assert_eq!(
        status_message(TableStatus::Failed(GatewayError::QueryFailed)),
        Some(String::from("Error loading data: the store failed the query"))
    );
    assert_eq!(
        status_message(TableStatus::Failed(GatewayError::ValidationFailed)),
        Some(String::from("Error loading data: the input is not valid"))
    );
    assert_eq!(
        status_message(TableStatus::Failed(GatewayError::NotFound)),
        Some(String::from("Error loading data: the record no longer exists"))
    );
}
