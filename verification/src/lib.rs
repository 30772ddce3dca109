//! Core logic of a desktop-application updater: credential resolution,
//! release-metadata interpretation, and update-check orchestration.
//!
//! All I/O (environment, HTTP, download and install) is left to the caller;
//! this crate holds the decisions and the data shapes, with their contracts.

pub mod client;
pub mod controller;
pub mod credential;
pub mod json;
pub mod text;
pub mod version;
