//! The forms that create, edit and delete a record: what they accept, when
//! their submit button is enabled, and what becomes of them once the gateway
//! has answered.
//!
//! Each dialog has a state of its own. A dialog that is closed holds nothing:
//! cancelling it, and a successful submit, discard what was entered.

use vstd::prelude::*;
use crate::gateway::GatewayError;
use crate::models::employee::{
    CreateEmployeeRequest, Employee, EmployeeFields, EmployeeRecord, UpdateEmployeeRequest,
};
use crate::text::{blank, contains_char, is_blank};

verus! {

/// Whether a name is given: whether something is left of it once white space
/// is trimmed from both its ends.
pub open spec fn name_given(name: Seq<char>) -> bool {
    !is_blank(name)
}

/// Whether an email address is taken: whether it holds an `@`. Nothing more
/// is asked of it.
pub open spec fn email_accepted(email: Seq<char>) -> bool {
    email.contains('@')
}

/// Whether all three fields pass.
pub open spec fn fields_valid(fields: EmployeeFields) -> bool {
    &&& name_given(fields.first_name)
    &&& name_given(fields.last_name)
    &&& email_accepted(fields.email)
}

/// The fields of a form in which nothing is entered.
pub open spec fn no_fields() -> EmployeeFields {
    EmployeeFields { first_name: Seq::empty(), last_name: Seq::empty(), email: Seq::empty() }
}

/// The fields of `record`.
pub open spec fn fields_of(record: EmployeeRecord) -> EmployeeFields {
    EmployeeFields {
        first_name: record.first_name,
        last_name: record.last_name,
        email: record.email,
    }
}

/// The record with the id `id` and the fields `fields`.
pub open spec fn record_of(id: int, fields: EmployeeFields) -> EmployeeRecord {
    EmployeeRecord {
        id,
        first_name: fields.first_name,
        last_name: fields.last_name,
        email: fields.email,
    }
}

/// Whether a name is given.
pub fn is_name_given(name: &str) -> (given: bool)
    ensures
        given == name_given(name@),
{
    !blank(name)
}

/// Whether an email address is taken.
pub fn is_email_accepted(email: &str) -> (accepted: bool)
    ensures
        accepted == email_accepted(email@),
{
    contains_char(email, '@')
}

/// Whether the three fields pass.
pub fn are_fields_valid(first_name: &str, last_name: &str, email: &str) -> (valid: bool)
    ensures
        valid == fields_valid(
            EmployeeFields { first_name: first_name@, last_name: last_name@, email: email@ },
        ),
{
    is_name_given(first_name) && is_name_given(last_name) && is_email_accepted(email)
}

/// Passes the three fields if they are valid; else gives the error that keeps
/// them from the store.
pub fn check_fields(first_name: &str, last_name: &str, email: &str) -> (checked: Result<
    (),
    GatewayError,
>)
    ensures
        checked is Ok <==> fields_valid(
            EmployeeFields { first_name: first_name@, last_name: last_name@, email: email@ },
        ),
        checked matches Err(error) ==> error == GatewayError::ValidationFailed,
{
    if are_fields_valid(first_name, last_name, email) {
        Ok(())
    } else {
        Err(GatewayError::ValidationFailed)
    }
}

/// The three text fields of the create and edit forms, as entered.
#[derive(Debug, Clone, PartialEq)]
pub struct EmployeeForm {
    pub first_name: String,
    pub last_name: String,
    pub email: String,
}

impl View for EmployeeForm {
    type V = EmployeeFields;

    open spec fn view(&self) -> EmployeeFields {
        EmployeeFields {
            first_name: self.first_name@,
            last_name: self.last_name@,
            email: self.email@,
        }
    }
}

impl EmployeeForm {
    /// A form in which nothing is entered.
    pub fn new() -> (form: EmployeeForm)
        ensures
            form@ == no_fields(),
    {
        EmployeeForm { first_name: String::new(), last_name: String::new(), email: String::new() }
    }

    /// A form that holds the fields of `employee`.
    pub fn of(employee: &Employee) -> (form: EmployeeForm)
        ensures
            form@ == fields_of(employee@),
    {
        EmployeeForm {
            first_name: employee.first_name.clone(),
            last_name: employee.last_name.clone(),
            email: employee.email.clone(),
        }
    }

    /// Whether the first name is missing.
    pub fn first_name_missing(&self) -> (missing: bool)
        ensures
            missing == !name_given(self@.first_name),
    {
        !is_name_given(self.first_name.as_str())
    }

    /// Whether the last name is missing.
    pub fn last_name_missing(&self) -> (missing: bool)
        ensures
            missing == !name_given(self@.last_name),
    {
        !is_name_given(self.last_name.as_str())
    }

    /// Whether the email address is not taken.
    pub fn email_rejected(&self) -> (rejected: bool)
        ensures
            rejected == !email_accepted(self@.email),
    {
        !is_email_accepted(self.email.as_str())
    }

    /// Whether the form may be submitted: whether all three fields pass.
    pub fn is_valid(&self) -> (valid: bool)
        ensures
            valid == fields_valid(self@),
    {
        !self.first_name_missing() && !self.last_name_missing() && !self.email_rejected()
    }

    /// The request that creates a record with the fields as entered, if the
    /// form is valid; else the error that keeps it from the gateway.
    pub fn to_create(&self) -> (request: Result<CreateEmployeeRequest, GatewayError>)
        ensures
            request is Ok <==> fields_valid(self@),
            request matches Ok(create) ==> create@ == self@,
            request matches Err(error) ==> error == GatewayError::ValidationFailed,
    {
        if self.is_valid() {
            Ok(
                CreateEmployeeRequest {
                    first_name: self.first_name.clone(),
                    last_name: self.last_name.clone(),
                    email: self.email.clone(),
                },
            )
        } else {
            Err(GatewayError::ValidationFailed)
        }
    }

    /// The request that gives the record `id` the fields as entered, if the
    /// form is valid; else the error that keeps it from the gateway.
    pub fn to_update(&self, id: i64) -> (request: Result<UpdateEmployeeRequest, GatewayError>)
        ensures
            request is Ok <==> fields_valid(self@),
            request matches Ok(update) ==> update@ == record_of(id as int, self@),
            request matches Err(error) ==> error == GatewayError::ValidationFailed,
    {
        if self.is_valid() {
            Ok(
                UpdateEmployeeRequest {
                    id,
                    first_name: self.first_name.clone(),
                    last_name: self.last_name.clone(),
                    email: self.email.clone(),
                },
            )
        } else {
            Err(GatewayError::ValidationFailed)
        }
    }
}

/// The dialog that creates a record.
#[derive(Debug, Clone, PartialEq)]
pub struct AddDialog {
    /// Whether the dialog is on screen.
    pub open: bool,
    /// What is entered.
    pub form: EmployeeForm,
    /// The error of the last submit, until the next one.
    pub error: Option<GatewayError>,
}

impl AddDialog {
    /// Whether the dialog is closed and holds nothing.
    pub open spec fn is_closed(self) -> bool {
        !self.open && self.form@ == no_fields() && self.error is None
    }

    /// A closed dialog.
    pub fn new() -> (dialog: AddDialog)
        ensures
            dialog.is_closed(),
    {
        AddDialog { open: false, form: EmployeeForm::new(), error: None }
    }

    /// Puts the dialog on screen, with nothing entered.
    pub fn show(&mut self)
        ensures
            final(self).open,
            final(self).form@ == no_fields(),
            final(self).error is None,
    {
        self.open = true;
        self.form = EmployeeForm::new();
        self.error = None;
    }

    /// Closes the dialog and discards what was entered.
    pub fn cancel(&mut self)
        ensures
            final(self).is_closed(),
    {
        self.open = false;
        self.form = EmployeeForm::new();
        self.error = None;
    }

    /// Whether the submit button is enabled.
    pub fn submit_enabled(&self) -> (enabled: bool)
        ensures
            enabled == (self.open && fields_valid(self.form@)),
    {
        self.open && self.form.is_valid()
    }

    /// The request to hand to the gateway, if the dialog is open and the form
    /// is valid; else the error that keeps it from the gateway.
    pub fn submit(&self) -> (request: Result<CreateEmployeeRequest, GatewayError>)
        ensures
            request is Ok <==> self.open && fields_valid(self.form@),
            request matches Ok(create) ==> create@ == self.form@,
            request matches Err(error) ==> error == GatewayError::ValidationFailed,
    {
        if self.open {
            self.form.to_create()
        } else {
            Err(GatewayError::ValidationFailed)
        }
    }

    /// Takes the gateway's answer to a submit: a success closes the dialog and
    /// discards what was entered; a failure keeps the dialog as it is and
    /// shows the error.
    pub fn settle(&mut self, outcome: Result<(), GatewayError>)
        ensures
            outcome is Ok ==> final(self).is_closed(),
            outcome matches Err(error) ==> final(self).open == old(self).open,
            outcome matches Err(error) ==> final(self).form@ == old(self).form@,
            outcome matches Err(error) ==> final(self).error == Some(error),
    {
        match outcome {
            Ok(_) => self.cancel(),
            Err(error) => {
                self.error = Some(error);
            },
        }
    }
}

/// The dialog that edits a record.
#[derive(Debug, Clone, PartialEq)]
pub struct EditDialog {
    /// The id of the record that is edited; none while the dialog is closed.
    pub target: Option<i64>,
    /// What is entered.
    pub form: EmployeeForm,
    /// The error of the last submit, until the next one.
    pub error: Option<GatewayError>,
}

impl EditDialog {
    /// Whether the dialog is closed and holds nothing.
    pub open spec fn is_closed(self) -> bool {
        self.target is None && self.form@ == no_fields() && self.error is None
    }

    /// A closed dialog.
    pub fn new() -> (dialog: EditDialog)
        ensures
            dialog.is_closed(),
    {
        EditDialog { target: None, form: EmployeeForm::new(), error: None }
    }

    /// Puts the dialog on screen for `employee`, with its fields entered.
    pub fn show(&mut self, employee: &Employee)
        ensures
            final(self).target == Some(employee.id),
            final(self).form@ == fields_of(employee@),
            final(self).error is None,
    {
        self.target = Some(employee.id);
        self.form = EmployeeForm::of(employee);
        self.error = None;
    }

    /// Closes the dialog and discards what was entered.
    pub fn cancel(&mut self)
        ensures
            final(self).is_closed(),
    {
        self.target = None;
        self.form = EmployeeForm::new();
        self.error = None;
    }

    /// Whether the submit button is enabled.
    pub fn submit_enabled(&self) -> (enabled: bool)
        ensures
            enabled == (self.target is Some && fields_valid(self.form@)),
    {
        self.target.is_some() && self.form.is_valid()
    }

    /// The request to hand to the gateway, if the dialog is open and the form
    /// is valid; else the error that keeps it from the gateway.
    pub fn submit(&self) -> (request: Result<UpdateEmployeeRequest, GatewayError>)
        ensures
            request is Ok <==> self.target is Some && fields_valid(self.form@),
            request matches Ok(update) ==> update@ == record_of(
                self.target.unwrap() as int,
                self.form@,
            ),
            request matches Err(error) ==> error == GatewayError::ValidationFailed,
    {
        match self.target {
            Some(id) => self.form.to_update(id),
            None => Err(GatewayError::ValidationFailed),
        }
    }

    /// Takes the gateway's answer to a submit: a success closes the dialog and
    /// discards what was entered; a failure keeps the dialog as it is and
    /// shows the error.
    pub fn settle(&mut self, outcome: Result<(), GatewayError>)
        ensures
            outcome is Ok ==> final(self).is_closed(),
            outcome matches Err(error) ==> final(self).target == old(self).target,
            outcome matches Err(error) ==> final(self).form@ == old(self).form@,
            outcome matches Err(error) ==> final(self).error == Some(error),
    {
        match outcome {
            Ok(_) => self.cancel(),
            Err(error) => {
                self.error = Some(error);
            },
        }
    }
}

/// The dialog that asks whether a record is to be deleted.
#[derive(Debug, Clone, Copy, PartialEq, Eq)]
pub struct DeleteDialog {
    /// The id of the record to delete; none while the dialog is closed.
    pub target: Option<i64>,
    /// The error of the last attempt, until the next one.
    pub error: Option<GatewayError>,
}

impl DeleteDialog {
    /// Whether the dialog is closed and holds nothing.
    pub open spec fn is_closed(self) -> bool {
        self.target is None && self.error is None
    }

    /// A closed dialog.
    pub fn new() -> (dialog: DeleteDialog)
        ensures
            dialog.is_closed(),
    {
        DeleteDialog { target: None, error: None }
    }

    /// Puts the dialog on screen for the record `id`.
    pub fn show(&mut self, id: i64)
        ensures
            final(self).target == Some(id),
            final(self).error is None,
    {
        self.target = Some(id);
        self.error = None;
    }

    /// Closes the dialog.
    pub fn cancel(&mut self)
        ensures
            final(self).is_closed(),
    {
        self.target = None;
        self.error = None;
    }

    /// The id to hand to the gateway for deletion, if the dialog is open.
    pub fn confirm(&self) -> (id: Option<i64>)
        ensures
            id == self.target,
    {
        self.target
    }

    /// Takes the gateway's answer to a deletion: a success closes the dialog;
    /// a failure keeps the dialog as it is and shows the error.
    pub fn settle(&mut self, outcome: Result<(), GatewayError>)
        ensures
            outcome is Ok ==> final(self).is_closed(),
            outcome matches Err(error) ==> final(self).target == old(self).target,
            outcome matches Err(error) ==> final(self).error == Some(error),
    {
        match outcome {
            Ok(_) => self.cancel(),
            Err(error) => {
                self.error = Some(error);
            },
        }
    }
}

} // verus!
