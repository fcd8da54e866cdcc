//! Core of a git post-receive hook relay.
//!
//! Given one `<old-rev> <new-rev> <ref>` line of hook input, the library
//! parses and validates the line, recognises all-zero revisions as a no-op,
//! assembles a structured push-event record from commit data, renders it as
//! JSON or as a flattened URL-encoded form, and computes the HMAC-SHA1
//! signature attached to an outgoing delivery.  Reading the repository and
//! performing the HTTP posts are left to the surrounding program; every
//! decision and every byte of the delivered body is produced here.

pub mod bytes;
pub mod config;
pub mod deliver;
pub mod errors;
pub mod form;
pub mod hexcode;
pub mod json;
pub mod lines;
pub mod payload;
pub mod sign;
pub mod text;
pub mod timefmt;
