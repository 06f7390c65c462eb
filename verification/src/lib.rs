//! Version-information resource scripts for Windows executables.
//!
//! The crate models the fields of a `VERSIONINFO` resource, renders them into
//! the text a resource compiler reads, and guards the rule that a binary
//! carries at most one such resource.

pub mod counter;
pub mod digits;
pub mod guard;
pub mod icon;
pub mod lines;
pub mod link;
pub mod manifest;
pub mod text;
pub mod versioninfo;
