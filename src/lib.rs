//! Picks the SSH key for a working directory from a list of directory rules, and
//! plans the version-control invocation that uses it.

pub mod config;
pub mod dispatch;
pub mod path;
pub mod resolve;
