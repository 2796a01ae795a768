//! The entities that are kept in the database, as far as their identity goes.

pub mod deterministic_id;
pub mod models;
