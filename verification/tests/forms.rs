use employee_directory::forms::{
    are_fields_valid, check_fields, is_email_accepted, is_name_given, AddDialog, DeleteDialog,
    EditDialog,
    EmployeeForm,
};
use employee_directory::gateway::GatewayError;
use employee_directory::models::employee::{
    CreateEmployeeRequest, Employee, UpdateEmployeeRequest,
};

fn filled(first: &str, last: &str, email: &str) -> EmployeeForm {
    EmployeeForm {
        first_name: String::from(first),
        last_name: String::from(last),
        email: String::from(email),
    }
}

#[test]
fn email_needs_an_at_sign_and_nothing_more() {
    assert!(!is_email_accepted("no-at-sign"));
    assert!(is_email_accepted("a@b"));
    assert!(is_email_accepted("@"));
    assert!(is_email_accepted("two@@signs"));
    assert!(is_email_accepted(" spaces @ everywhere "));
    assert!(!is_email_accepted(""));
    assert!(!is_email_accepted("full＠width"));
}

#[test]
fn name_needs_more_than_white_space() {
    assert!(is_name_given("Ada"));
    assert!(is_name_given("  Ada  "));
    assert!(is_name_given("x"));
    assert!(!is_name_given(""));
    assert!(!is_name_given(" "));
    assert!(!is_name_given(" \t\r\n"));
    assert!(!is_name_given("\u{a0}\u{2003}\u{3000}"));
    assert!(is_name_given("\u{200b}"));
}

#[test]
fn name_test_agrees_with_trimming() {
    for text in ["", " ", "a", " a", "a ", "\t\n", "\u{85}", "\u{1680} \u{2028}", "_", "\u{feff}"] {
        assert_eq!(is_name_given(text), !text.trim().is_empty());
    }
}

#[test]
fn form_is_valid_when_all_three_fields_pass() {
    assert!(filled("Ada", "Lovelace", "ada@example.org").is_valid());
    assert!(!filled("", "Lovelace", "ada@example.org").is_valid());
    assert!(!filled("Ada", "   ", "ada@example.org").is_valid());
    assert!(!filled("Ada", "Lovelace", "no-at-sign").is_valid());
    assert!(filled("Ada", "Lovelace", "a@b").is_valid());
    assert!(!EmployeeForm::new().is_valid());
    assert!(are_fields_valid("Ada", "Lovelace", "a@b"));
    assert!(!are_fields_valid("Ada", "Lovelace", "ab"));
    assert_eq!(check_fields("Ada", "Lovelace", "a@b"), Ok(()));
    assert_eq!(check_fields("Ada", "", "a@b"), Err(GatewayError::ValidationFailed));
    assert_eq!(check_fields("Ada", "Lovelace", "ab"), Err(GatewayError::ValidationFailed));

    let form = filled(" ", "Lovelace", "x");
    assert!(form.first_name_missing());
    assert!(!form.last_name_missing());
    assert!(form.email_rejected());
}

#[test]
fn form_gives_the_request_with_the_fields_as_entered() {
    let form = filled(" Ada ", "Lovelace", "ada@example.org");
    assert_eq!(
        form.to_create(),
        Ok(CreateEmployeeRequest {
            first_name: String::from(" Ada "),
            last_name: String::from("Lovelace"),
            email: String::from("ada@example.org"),
        })
    );
    assert_eq!(
        form.to_update(17),
        Ok(UpdateEmployeeRequest {
            id: 17,
            first_name: String::from(" Ada "),
            last_name: String::from("Lovelace"),
            email: String::from("ada@example.org"),
        })
    );
    let invalid = filled("Ada", "Lovelace", "no-at-sign");
    assert_eq!(invalid.to_create(), Err(GatewayError::ValidationFailed));
    assert_eq!(invalid.to_update(17), Err(GatewayError::ValidationFailed));
}

#[test]
fn add_dialog_enables_submit_only_for_a_valid_form() {
    let mut dialog = AddDialog::new();
    assert!(!dialog.open);
    assert!(!dialog.submit_enabled());
    assert_eq!(dialog.submit(), Err(GatewayError::ValidationFailed));

    dialog.show();
    assert!(dialog.open);
    assert!(!dialog.submit_enabled());
    dialog.form.first_name = String::from("Ada");
    dialog.form.last_name = String::from("Lovelace");
    dialog.form.email = String::from("no-at-sign");
    assert!(!dialog.submit_enabled());
    assert_eq!(dialog.submit(), Err(GatewayError::ValidationFailed));
    dialog.form.email = String::from("a@b");
    assert!(dialog.submit_enabled());
    assert_eq!(
        dialog.submit(),
        Ok(CreateEmployeeRequest {
            first_name: String::from("Ada"),
            last_name: String::from("Lovelace"),
            email: String::from("a@b"),
        })
    );
}

#[test]
fn add_dialog_closes_on_success_and_stays_on_failure() {
    let mut dialog = AddDialog::new();
    dialog.show();
    dialog.form = filled("Ada", "Lovelace", "ada@example.org");

    dialog.settle(Err(GatewayError::StoreUnavailable));
    assert!(dialog.open);
    assert_eq!(dialog.form, filled("Ada", "Lovelace", "ada@example.org"));
    assert_eq!(dialog.error, Some(GatewayError::StoreUnavailable));

    dialog.settle(Ok(()));
    assert_eq!(dialog, AddDialog::new());
    assert_eq!(dialog.form, EmployeeForm::new());
    assert_eq!(dialog.error, None);
}

#[test]
fn add_dialog_discards_the_fields_on_cancel() {
    let mut dialog = AddDialog::new();
    dialog.show();
    dialog.form = filled("Ada", "Lovelace", "ada@example.org");
    dialog.cancel();
    assert_eq!(dialog, AddDialog::new());
    dialog.show();
    assert_eq!(dialog.form, EmployeeForm::new());
}

#[test]
fn edit_dialog_starts_from_the_record() {
    let employee = Employee {
        id: 4,
        first_name: String::from("Dan"),
        last_name: String::from("Ford"),
        email: String::from("dan@example.org"),
    };
    let mut dialog = EditDialog::new();
    assert!(!dialog.submit_enabled());
    assert_eq!(dialog.submit(), Err(GatewayError::ValidationFailed));

    dialog.show(&employee);
    assert_eq!(dialog.target, Some(4));
    assert_eq!(dialog.form, filled("Dan", "Ford", "dan@example.org"));
    assert!(dialog.submit_enabled());
    dialog.form.last_name = String::from("Fjord");
    assert_eq!(
        dialog.submit(),
        Ok(UpdateEmployeeRequest {
            id: 4,
            first_name: String::from("Dan"),
            last_name: String::from("Fjord"),
            email: String::from("dan@example.org"),
        })
    );
    dialog.form.first_name = String::from(" ");
    assert!(!dialog.submit_enabled());

    dialog.settle(Err(GatewayError::NotFound));
    assert_eq!(dialog.target, Some(4));
    assert_eq!(dialog.error, Some(GatewayError::NotFound));
    dialog.settle(Ok(()));
    assert_eq!(dialog, EditDialog::new());
    dialog.show(&employee);
    dialog.cancel();
    assert_eq!(dialog, EditDialog::new());
}

#[test]
fn delete_dialog_keeps_its_target_until_it_is_done() {
    let mut dialog = DeleteDialog::new();
    assert_eq!(dialog.confirm(), None);
    dialog.show(9);
    assert_eq!(dialog.confirm(), Some(9));
    dialog.settle(Err(GatewayError::QueryFailed));
    assert_eq!(dialog.target, Some(9));
    assert_eq!(dialog.error, Some(GatewayError::QueryFailed));
    dialog.settle(Ok(()));
    assert_eq!(dialog, DeleteDialog::new());
    dialog.show(9);
    dialog.cancel();
    assert_eq!(dialog, DeleteDialog::new());
}
