//! Employee records, and the request and response of a paginated search.
//!
//! Each executable type has a mathematical view over `int` and `Seq<char>`;
//! the contracts of the crate speak of those views.

use vstd::prelude::*;

verus! {

/// What an [`Employee`] stands for: a record of the store.
pub struct EmployeeRecord {
    pub id: int,
    pub first_name: Seq<char>,
    pub last_name: Seq<char>,
    pub email: Seq<char>,
}

/// What an [`EmployeeRequest`] stands for: the query that selects one page.
pub struct SearchQuery {
    pub page: int,
    pub page_size: int,
    pub search_term: Option<Seq<char>>,
}

/// What an [`EmployeeResponse`] stands for: one page of records, and the
/// number of records that the filter matches on all pages together.
pub struct SearchResult {
    pub rows: Seq<EmployeeRecord>,
    pub total_count: int,
}

/// What a [`CreateEmployeeRequest`] stands for: the fields of a record that has
/// no id yet.
pub struct EmployeeFields {
    pub first_name: Seq<char>,
    pub last_name: Seq<char>,
    pub email: Seq<char>,
}

/// The parameters of a paginated search.
#[derive(Debug, Clone, PartialEq)]
pub struct EmployeeRequest {
    pub page: i64,
    pub page_size: i64,
    pub search_term: Option<String>,
}

/// One page of a search, with the count of all matching records.
#[derive(Debug, Clone, PartialEq)]
pub struct EmployeeResponse {
    pub employees: Vec<Employee>,
    pub total_count: i64,
}

/// An employee record as the store holds it.
#[derive(Debug, Clone, PartialEq)]
pub struct Employee {
    pub id: i64,
    pub first_name: String,
    pub last_name: String,
    pub email: String,
}

/// The fields of a record to be created; the store assigns the id.
#[derive(Debug, Clone, PartialEq)]
pub struct CreateEmployeeRequest {
    pub first_name: String,
    pub last_name: String,
    pub email: String,
}

/// The new fields of the record with the given id.
#[derive(Debug, Clone, PartialEq)]
pub struct UpdateEmployeeRequest {
    pub id: i64,
    pub first_name: String,
    pub last_name: String,
    pub email: String,
}

/// The search term that a text stands for: the empty text means no filter.
pub open spec fn normalized(text: Seq<char>) -> Option<Seq<char>> {
    if text.len() == 0 {
        None
    } else {
        Some(text)
    }
}

impl SearchQuery {
    /// The term that this query filters by: none where the query has none or
    /// has the empty text.
    pub open spec fn filter(self) -> Option<Seq<char>> {
        match self.search_term {
            Some(text) => normalized(text),
            None => None,
        }
    }
}

/// The records that a list of employees stands for, in the same order.
pub open spec fn records_of(employees: Seq<Employee>) -> Seq<EmployeeRecord> {
    employees.map_values(|employee: Employee| employee@)
}

/// The text of an optional string, if there is one.
pub open spec fn text_of(term: Option<String>) -> Option<Seq<char>> {
    match term {
        Some(text) => Some(text@),
        None => None,
    }
}

impl View for Employee {
    type V = EmployeeRecord;

    open spec fn view(&self) -> EmployeeRecord {
        EmployeeRecord {
            id: self.id as int,
            first_name: self.first_name@,
            last_name: self.last_name@,
            email: self.email@,
        }
    }
}

impl View for EmployeeRequest {
    type V = SearchQuery;

    open spec fn view(&self) -> SearchQuery {
        SearchQuery {
            page: self.page as int,
            page_size: self.page_size as int,
            search_term: text_of(self.search_term),
        }
    }
}

impl View for EmployeeResponse {
    type V = SearchResult;

    open spec fn view(&self) -> SearchResult {
        SearchResult {
            rows: records_of(self.employees@),
            total_count: self.total_count as int,
        }
    }
}

impl View for CreateEmployeeRequest {
    type V = EmployeeFields;

    open spec fn view(&self) -> EmployeeFields {
        EmployeeFields {
            first_name: self.first_name@,
            last_name: self.last_name@,
            email: self.email@,
        }
    }
}

impl View for UpdateEmployeeRequest {
    type V = EmployeeRecord;

    open spec fn view(&self) -> EmployeeRecord {
        EmployeeRecord {
            id: self.id as int,
            first_name: self.first_name@,
            last_name: self.last_name@,
            email: self.email@,
        }
    }
}

impl Employee {
    /// A record with the same id and fields.
    pub fn duplicate(&self) -> (copy: Employee)
        ensures
            copy@ == self@,
    {
        Employee {
            id: self.id,
            first_name: self.first_name.clone(),
            last_name: self.last_name.clone(),
            email: self.email.clone(),
        }
    }
}

impl EmployeeRequest {
    /// A request for the same page of the same search.
    pub fn duplicate(&self) -> (copy: EmployeeRequest)
        ensures
            copy@ == self@,
    {
        let search_term = match &self.search_term {
            Some(text) => Some(text.clone()),
            None => None,
        };
        EmployeeRequest { page: self.page, page_size: self.page_size, search_term }
    }
}

} // verus!
