//! A user resource service: the request and record shapes, the pagination
//! arithmetic, the error taxonomy, and the decisions that turn what the
//! relational store reports into the outcome of each operation.
pub mod db;
pub mod error;
pub mod lifecycle;
pub mod models;
pub mod relation;
pub mod user_handlers;

