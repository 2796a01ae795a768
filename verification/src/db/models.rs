//! The rows of the database and the entities that they are made from.

pub mod account_picture;
pub mod dapp;
