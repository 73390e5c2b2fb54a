//! Window-to-process resolution and metadata extraction.
//!
//! The library identifies the process owning a top-level window and extracts
//! identifying metadata about it (executable name, window title and class,
//! product name, monitor placement, command line) so a capture subsystem can
//! decide whether the window is eligible to be captured. Every operating
//! system query is performed by the surrounding application; this crate holds
//! the verified decision and parsing logic that interprets those raw query
//! results: eligibility filtering, UTF-16 text decoding, version-resource
//! validation, monitor correlation, and the bounds-checked interpretation of
//! the foreign process structures that carry the command line.

pub mod cmdline;
pub mod error;
pub mod filter;
pub mod helper;
pub mod monitor;
pub mod version;
pub mod wstr;
