//! A personal journaling library: weekly Markdown log files in a git-backed
//! repository, with idempotent header maintenance and a small git-based
//! synchronization protocol.

pub mod books;
pub mod cli;
pub mod date;
pub mod errs;
pub mod git;
pub mod headers;
pub mod journal;
pub mod toplevel;
