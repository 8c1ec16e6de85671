//! A snapshot store for a single file.
//!
//! For one tracked file the store keeps a set of named versions, each a copy
//! of the file's text, and knows which of them is checked out. Versions are
//! added, listed, committed to, switched between and removed; the first one,
//! the baseline, is made when the store is initialised and is never removed.
//!
//! The library decides and leaves reading and writing to its caller: an
//! operation is handed the text of the tracked file where it needs it, and
//! hands out what is to be written. Every operation is verified against a
//! mathematical model of the record ([`model`]), and what holds of the store
//! across operations is proved in [`laws`].

pub mod action;
pub mod cit_file;
pub mod confirm;
pub mod digest;
pub mod entries;
pub mod error;
pub mod laws;
pub mod locator;
pub mod model;
pub mod record;

pub use action::Action;
pub use cit_file::{CitFile, Listing};
pub use error::StoreError;
pub use record::{ListedVersion, Snapshot, SnapshotRecord};
