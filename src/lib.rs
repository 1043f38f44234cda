//! Directory browsing: normalized entries for files and directories,
//! built from raw metadata and directory listings.

pub mod entry;
pub mod error;
pub mod identity;
pub mod stamp;
pub mod text;
pub mod walk;

pub use error::Error;
