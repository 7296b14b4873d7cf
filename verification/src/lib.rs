//! Object-storage backend core for an S3-compatible provider.
//!
//! Translates uniform storage operations (create, read, write, stat, delete,
//! copy, list, scan) into canonical HTTP requests and interprets the HTTP
//! responses back into typed outcomes.

pub mod backend;
pub mod context;
pub mod error;
pub mod pager;
pub mod path;
pub mod signing;
pub mod types;
pub mod uri;
pub mod writer;
