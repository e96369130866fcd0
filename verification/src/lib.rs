//! A layered fallible-operation pipeline for acquiring a named resource and
//! returning its contents.
//!
//! The pipeline opens a resource by name, recovers from an absent resource by
//! creating it empty, reads the whole content, and classifies every failure
//! along the way. Exactly one recovery path exists (an absent resource is
//! created); every other failure is terminal for the operation. Failures can
//! either be propagated to the caller as values or turned into a terminating
//! diagnostic, as the caller chooses.
//!
//! The filesystem the pipeline works against is modeled as an explicit value
//! ([`fs_model::SimFs`]) so that every step of the pipeline is plain verified
//! logic; a host program performs the same steps against the real filesystem
//! and reuses the classification rules exported here.

pub mod fs_model;
pub mod opener;
pub mod outcome;
pub mod reader;
