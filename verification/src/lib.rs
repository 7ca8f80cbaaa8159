//! Core logic of a command-line client for a GPU cloud provider: catalog
//! lookup, capacity polling decisions, launch planning, and table rendering.
//! All network and terminal I/O lives outside this crate; the functions here
//! take plain values (already fetched and decoded) and return plain values.

pub mod catalog;
pub mod launch;
pub mod poller;
pub mod render;
pub mod types;
