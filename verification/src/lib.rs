//! Archiving of the media attached to saved posts, and the symlink views built
//! over the archive.
//!
//! The crate holds the decisions of the archiver: which variants of a post are
//! fetched, under which file names they are stored, what the companion metadata
//! file says, and which links each view holds. Reading the catalog, fetching,
//! and touching the file system are left to the caller, who is told what to do
//! one action at a time.

pub mod catalog;
pub mod cli;
pub mod entry;
pub mod error;
pub mod event;
pub mod generators;
pub mod metadata;
pub mod outcome;
pub mod pipeline;
pub mod plan;
pub mod selector;
pub mod utils;
pub mod view_run;
