//! Application-facing directory resolution: per-category resolvers layered on
//! the application-level resolvers, deriving per-application subdirectories
//! from a validated application identity, plus the resolver for the installed
//! applications directory.

pub mod applications;
pub mod config;
pub mod data;
pub mod state;

use vstd::prelude::*;
use crate::base::BaseDirectoryError;

verus! {

#[derive(Debug, Copy, Clone, PartialEq, Eq, Hash, Structural)]
pub enum VoxelsDirectoryError {
    /// No strategy in the priority list produced a usable path.
    NoCandidate,
    /// The resolved directory could not be created.
    CreationFailed,
}

impl From<BaseDirectoryError> for VoxelsDirectoryError {
    fn from(err: BaseDirectoryError) -> (r: Self) {
        match err {
            BaseDirectoryError::NoCandidate => VoxelsDirectoryError::NoCandidate,
        }
    }
}

impl vstd::std_specs::convert::FromSpecImpl<BaseDirectoryError> for VoxelsDirectoryError {
    open spec fn obeys_from_spec() -> bool {
        true
    }

    open spec fn from_spec(err: BaseDirectoryError) -> Self {
        VoxelsDirectoryError::NoCandidate
    }
}

} // verus!
