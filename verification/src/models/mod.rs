//! The values that travel between the controller and the query gateway.

pub mod employee;

pub use employee::Employee;
