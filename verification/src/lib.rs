//! Bulk-mirroring of the repositories of a GitHub user or organization.
//!
//! The library holds the decision logic of the mirror tool: paginated
//! discovery of the repository list, the verdict on whether a local path
//! already holds a matching clone, and the per-repository synchronization
//! state machine that picks between cloning, fetching with a fast-forward
//! merge, and re-cloning after deleting an invalid copy. All network and
//! filesystem work is performed by the caller, which drives the state
//! machines here with the observed results.

pub mod github;
pub mod progress;
pub mod repository;
pub mod sync;
