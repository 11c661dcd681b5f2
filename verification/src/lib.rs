//! Startup data-integrity layer for a key-value-backed server.
//!
//! At process startup, before any traffic is served, the store is either
//! freshly initialized or brought forward through a strictly ordered sequence
//! of versioned schema migrations, followed by independently gated,
//! idempotent repair passes that fix historical data corruption:
//! byte-level key rewrites and a membership-cache reconciliation.
//!
//! The store itself is modelled as an explicit in-memory value ([`store::Store`]);
//! the physical storage engine, the administrative bootstrap collaborator and
//! the media migration are external collaborators represented only by their
//! effects in the run report.
#![verifier::loop_isolation(false)]

pub mod ident;
pub mod keyfix;
pub mod membership;
pub mod rules;
pub mod runner;
pub mod store;

use vstd::prelude::*;

verus! {

/// The schema version this software writes and expects after migration.
pub const LATEST_VERSION: u64 = 13;

/// A compatible schema version written by an interoperating implementation;
/// accepted as final without any further migration work.
pub const COMPAT_VERSION: u64 = 16;

/// Stores below this version have no supported upgrade path.
pub const MIN_SUPPORTED_VERSION: u64 = 11;

/// The final version check accepts exactly the known-good versions.
pub open spec fn known_good_version(v: u64) -> bool {
    v == LATEST_VERSION || v == COMPAT_VERSION
}

} // verus!
