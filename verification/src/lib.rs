//! State generation and caching for rendered pages, and the slot that guards
//! the rendering scope of the page on display.
//!
//! A page is rendered from a state. The state of a path is generated by the
//! functions that its template declares, at build time or when it is requested,
//! and is kept in a cache until it has gone stale. This crate decides: which
//! functions run for a request, who builds a state when many ask for it at once,
//! what is cached, and when it is generated anew. It performs none of the work
//! that takes time. Its caller invokes the functions, waits where it is told to
//! wait, and reports back.
//!
//! - [`key`], [`entry`], [`error`], [`strategy`], [`template`]: the data.
//! - [`table`], [`cache`]: the store of generated states.
//! - [`revalidation`]: when a cached state is stale.
//! - [`pipeline`]: one generation, function by function.
//! - [`coordinator`]: requests, builds and the build lock of each key.
//! - [`history`], [`contention`]: what holds of the coordinator over time and
//!   under concurrent requests.
//! - [`disposer`]: the handle of the rendering scope that is live.

pub mod cache;
pub mod contention;
pub mod coordinator;
pub mod disposer;
pub mod entry;
pub mod error;
pub mod history;
pub mod key;
pub mod pipeline;
pub mod revalidation;
pub mod strategy;
pub mod table;
pub mod template;
