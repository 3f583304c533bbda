//! Locates the filesystem directories an application should use for
//! configuration, data, state and runtime files, following an XDG-style
//! base-directory convention with layered fallbacks.
//!
//! For each category an ordered sequence of resolution strategies is tried:
//! an application-specific override variable, the standard convention
//! variable, a filesystem-hierarchy fallback, and, one layer up, an optional
//! remote override. Every local candidate is verified against the
//! filesystem, the first success is returned together with the strategy that
//! produced it, and the application-level resolvers memoize it. On top of
//! the per-category chain sit per-application directories derived from a
//! validated reverse-domain-style application identity.

pub mod application;
pub mod base;
pub mod environment_variables;
pub mod filesystem;
pub mod paths;
pub mod table;
pub mod voxels;
pub mod voxels_xdg;
