//! Converts a Poetry lockfile into a flat pinned-dependency manifest.
//!
//! The lockfile is deserialized into an ordered list of package records;
//! each selected record is rendered as a `name==version` line, optionally
//! suffixed with an environment-marker expression derived from the record's
//! interpreter-version constraint string.

pub mod constraint;
pub mod laws;
pub mod load;
pub mod model;
pub mod render;
pub mod strutil;
