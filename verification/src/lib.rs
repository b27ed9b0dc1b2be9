//! Change tracking for the source side of a backup pipeline.
//!
//! The crate keeps, in an embedded database, which files have been seen, under
//! which identifier, and with which length at each recorded version. On top
//! of that store it decides, step by step, what one pass over the watched
//! roots does with each observed file.

pub mod builder;
pub mod db;
pub mod history;
pub mod model;
pub mod outside;
pub mod pipeline;
pub mod platform;
pub mod store;
