//! The `os` prompt segment: a case-insensitive table of symbols per
//! operating-system family, with user overrides layered over built-in
//! defaults, and the attribute values that the segment's template shows.

pub mod symbol_map;
pub mod config;
pub mod os;
