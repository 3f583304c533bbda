//! Application-level resolvers, one per category, layered on the base
//! resolvers: each joins the application namespace segment onto the resolved
//! base directory, memoizes the first success, and optionally accepts a
//! remote override handed in by the caller. The remote override is an answer
//! from a long-lived background directory service reached over an
//! inter-process channel; issuing that request (with its timeout and
//! connection monitoring) happens outside the library, and the answer — a
//! path, or nothing on timeout or connection loss — is passed in as a plain
//! value.

pub mod config;
pub mod data;
pub mod runtime;
pub mod state;

use vstd::prelude::*;

verus! {

/// The view of an optional remote answer.
pub open spec fn opt_view(o: &Option<String>) -> Option<Seq<char>> {
    match o {
        Some(p) => Some(p@),
        None => None,
    }
}

} // verus!
