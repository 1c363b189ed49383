//! The users service: its records, the decisions its handlers make, and an
//! in-process table with the semantics of the `users` table.
pub mod user;
pub mod store;
pub mod handlers;
pub mod laws;
