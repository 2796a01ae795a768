//! Content-addressed identifiers and backup metadata for a self-custodial wallet.

pub mod backup;
pub mod canonical_json;
pub mod db;
pub mod device;
pub mod error;
pub mod hex;
pub mod mocks;
pub mod resources;
pub mod text;
pub mod utils;
