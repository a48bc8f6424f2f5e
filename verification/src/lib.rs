//! The paginated-search controller of an employee directory.
//!
//! The crate keeps a client-visible page window consistent with a filtered,
//! counted, offset-limited query, and moves that window back into range after
//! records are created, changed or deleted.
//!
//! - [`paging`]: the arithmetic of pages, offsets and display ranges.
//! - [`controller`]: the query state, its operations, and the numbering of
//!   fetches by which only the latest outcome is taken.
//! - [`presenter`]: the texts that the table shows.
//! - [`forms`]: the validation and the state of the create, edit and delete
//!   dialogs.
//! - [`gateway`]: the errors of the gateway and what a search asks of a store.
//! - [`store`]: a record store in memory that answers the gateway operations.
//! - [`models`]: the records, requests and responses, with their views.
//! - [`text`]: numerals, white space and substrings.
//!
//! Every executable function is verified against its contract. The contracts
//! speak of mathematical models: the view of each type, and the state of the
//! controller and of the store as plain values.

pub mod controller;
pub mod forms;
pub mod gateway;
pub mod models;
pub mod paging;
pub mod presenter;
pub mod store;
pub mod text;
