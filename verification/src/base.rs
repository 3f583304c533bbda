//! Per-category base-directory resolvers: each tries an application override
//! variable, the standard convention variable, and a filesystem-hierarchy
//! fallback in a caller-settable priority order, verifying every candidate,
//! and returns the first verified path together with the strategy that
//! produced it.

pub mod config;
pub mod data;
pub mod runtime;
pub mod state;

use vstd::prelude::*;

verus! {

#[derive(Debug, Copy, Clone, PartialEq, Eq, Hash, Structural)]
pub enum BaseDirectoryError {
    NoCandidate,
}

} // verus!
