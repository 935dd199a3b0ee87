//! The versioned content store of a git-backed wiki: the rules by which page
//! edits are recorded, attributed and rolled back, and by which the history
//! of a page or of an author is read.
//!
//! Everything here works on plain values. The caller performs the repository,
//! filesystem and renderer operations and hands their outcomes in.

pub mod auth;
pub mod config;
pub mod date;
pub mod error;
pub mod front_matter;
pub mod git;
pub mod history;
pub mod mime;
pub mod mutation;
pub mod oid;
pub mod page;
pub mod pandoc;
pub mod path;
pub mod role;
pub mod route;
pub mod text;
pub mod user;
pub mod utf8;
