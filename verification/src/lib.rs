//! Audits GitOps-managed application resources for stale Helm chart pins.
//!
//! The library resolves a Helm repository's version catalog to a single
//! newest qualifying version, decides whether a pinned chart revision is out
//! of date, and builds the minimal merge-patch document that rewrites only
//! the matching source entries' revision field.

pub mod helm;
pub mod kubernetes;
