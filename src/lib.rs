//! Duplicate-file index: the inode/path/trash store, the duplicate listing,
//! the scanner's decisions and the trash bookkeeping, with their contracts.

pub mod model;
pub mod index;
pub mod text;
pub mod order;
pub mod query;
pub mod scan;
pub mod hash;
pub mod settings;
pub mod delete;
pub mod laws;
