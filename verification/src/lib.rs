//! Building blocks of a one-line shell prompt: a repository status record and
//! its symbol string, a shortened working-directory path, dialect-specific
//! escaping of styled runs, and the composition of all segments.

pub mod ansi;
pub mod composer;
pub mod formatter;
pub mod git;
pub mod hooks;
pub mod pattern;
pub mod providers;
pub mod shells;
pub mod text;
