//! Locates the first occurrence of a byte pattern (the query) inside a byte
//! buffer (the target) and reports the offset of the leftmost match, or a
//! not-found status.

pub mod cli;
pub mod report;
pub mod search;
