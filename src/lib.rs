//! Supervision and self-update of a locally running backend process.
//!
//! The library holds the decisions: which version is installed and whether a
//! newer one is published, which release asset and which archive entry to
//! install, how the supervisor moves between its lifecycle states, which stale
//! processes may be reclaimed, and how an install proceeds when a step fails.
//! The caller performs the process, network and file operations and hands the
//! outcomes back.

pub mod archive;
pub mod text;
pub mod health;
pub mod install;
pub mod launch;
pub mod reclaim;
pub mod release;
pub mod supervisor;
pub mod version;
