//! Retrieval, filtering and bulk actions on the posts and comments of one
//! account.
//!
//! The library decides and computes; it performs no input or output. Where
//! work alternates with requests to the remote service or with a prompt, it
//! is given as a step function: the caller performs the action that a step
//! returns and hands back what came of it.
//!
//! Timestamps are whole seconds since the Unix epoch; a time with a fraction
//! of a second is to be rounded down before it is handed over.

pub mod actions;
pub mod cli;
pub mod config;
pub mod export;
pub mod filters;
pub mod models;
pub mod reddit_ops;
pub mod sorting;
pub mod text;
pub mod utils;
