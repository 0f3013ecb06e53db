//! Mirror a remote source-hosting account into a local directory tree.
//!
//! The crate holds the reconciliation engine of the mirror: the decision
//! logic that, for one repository descriptor and one local path, picks
//! between a fresh clone, a fast-forward update, and a hard reset, plus the
//! catalog-listing logic that paginates and filters the remote repository
//! list. Network transport and working-tree mutation are performed by the
//! surrounding application; everything here is pure decision logic over
//! plain values, stated and proved.

pub mod config;
pub mod errors;
pub mod git;
pub mod github;
