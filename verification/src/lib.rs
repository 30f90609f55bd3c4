//! Portfolio auditor: checks a repository's top-level file listing against a
//! fixed house policy, derives four compliance badges, a score out of 100,
//! and the lists of missing and forbidden artifacts.

pub mod audit;
pub mod path_name;
pub mod pattern;
pub mod summary;
