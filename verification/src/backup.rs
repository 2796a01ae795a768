//! Backups: their scheme, their version, their record, their file names and
//! whether the last one is safe.

pub mod file_name;
pub mod grammar;
pub mod metadata;
pub mod scheme;
pub mod status;
pub mod version;
