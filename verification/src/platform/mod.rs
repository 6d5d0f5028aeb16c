//! Platform facts: the Windows version and what it supports.

pub mod os_info;

pub use os_info::{Features, OsInfo};
