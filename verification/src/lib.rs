//! A per-user task list behind an HTTP interface: the ownership guard, the
//! task table with its five operations, the request handlers that map their
//! outcomes to responses, and the check of a bearer credential.
//!
//! Every function here is verified against the contract it carries. The
//! contracts speak of mathematical models: a task is viewed as a
//! [`models::TaskView`], the table as a [`table::Table`] and a response as a
//! [`response::ResponseView`].
//!
//! - [`utils`]: the ownership guard.
//! - [`models`]: the task and the payload it is made from.
//! - [`table`]: the table as a model, its operations, and what holds of them.
//! - [`filters`]: facts about filtered sequences that the table rests on.
//! - [`store`]: a table kept in memory.
//! - [`errors`]: the failures of the store and of a request.
//! - [`response`]: statuses and responses.
//! - [`handlers`]: one handler per route.
//! - [`middleware`]: from an `Authorization` header to the caller's identity.

pub mod errors;
pub mod filters;
pub mod handlers;
pub mod middleware;
pub mod models;
pub mod response;
pub mod store;
pub mod table;
pub mod utils;
