//! Model of the extensions page of a code editor: the state behind a
//! searchable, filterable list of installable extensions.
//!
//! The page itself is drawn by a GUI toolkit and the real work (fetching
//! remote metadata, installing, uninstalling, upgrading, rebuilding) is done
//! by an extension store that the host application owns. This crate holds
//! the decisions the page makes between those two worlds: which entries the
//! active filter admits, which row of the list shows which entry, which
//! buttons an entry gets for its current status, how the search query is
//! normalized, and how the page's state changes when a fetch begins or
//! completes. Every function here is verified against its contract.

pub mod buttons;
pub mod entries;
pub mod filter;
pub mod page;
pub mod query;
pub mod status;
