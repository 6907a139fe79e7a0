//! Persistence core of a personal planner: the mapping between clients,
//! projects and tasks and the rows of an embedded relational store.
//!
//! The library never touches the store itself. It hands out the SQL text and
//! the column values to bind, and it turns the rows that come back into
//! entities. Everything here is stated over plain values, so the mapping can
//! be checked without a database at hand.

pub mod client;
pub mod column;
pub mod decimal;
pub mod error;
pub mod list;
pub mod listing;
pub mod project;
pub mod schema;
pub mod stamp;
pub mod task;
pub mod text;
pub mod value;

pub use client::Client;
pub use error::{RowError, StoreError};
pub use project::Project;
pub use schema::Statement;
pub use task::Task;
pub use value::{Real, SqlValue, ValueKind};
