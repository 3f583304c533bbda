//! The per-application state directory: joins the application's
//! identity segment onto the application-level state directory,
//! caching the first success.

use vstd::prelude::*;
use crate::application::Application;
use crate::filesystem::FsInt;
use crate::paths::{join_model, join_path};
use crate::voxels::VoxelsDirectoryError;
use crate::voxels_xdg::opt_view;
use crate::voxels_xdg::state as base;

verus! {

/// Resolves the state directory of one application, memoizing the
/// first success; a failed attempt caches nothing and may be retried.
pub trait StateDirectoryResolver: Sized {
    /// Whether a resolved path is cached.
    spec fn is_resolved_model(&self) -> bool;

    /// The cached path; meaningful only when resolved.
    spec fn cached_model(&self) -> Seq<char>;

    /// What resolution yields for an application identity and a remote
    /// answer: the cache when resolved, else the application-level directory
    /// with the identity segment joined on.
    spec fn resolve_model(&self, rdn: Seq<char>, remote: Option<Seq<char>>) -> Option<Seq<char>>;

    /// Resolves the directory belonging to `application`; the first success
    /// is cached and returned unchanged by later calls.
    fn resolve(&mut self, application: &Application, remote: &Option<String>) -> (r: Result<
        String,
        VoxelsDirectoryError,
    >)
        ensures
            old(self).is_resolved_model() ==> *final(self) == *old(self) && (r matches Ok(p)
                && p@ == old(self).cached_model()),
            match r {
                Ok(p) => old(self).resolve_model(application.spec_rdn()@, opt_view(remote))
                    == Some(p@) && final(self).is_resolved_model() && final(self).cached_model()
                    == p@,
                Err(e) => old(self).resolve_model(application.spec_rdn()@, opt_view(remote)).is_none()
                    && e == VoxelsDirectoryError::NoCandidate && *final(self) == *old(self)
                    && !final(self).is_resolved_model(),
            },
    ;

    /// Resolves, then ensures the resolved directory exists, creating it and
    /// its missing ancestors if needed; an already existing directory is not
    /// an error. A creation failure is fatal for this call, is distinguished
    /// from exhaustion of the strategies, and can only strike a directory
    /// that did not already exist: repeating the call once the directory is
    /// there succeeds with the same path.
    fn resolve_and_create<FsIntT: FsInt>(
        &mut self,
        fs: &mut FsIntT,
        application: &Application,
        remote: &Option<String>,
    ) -> (r: Result<String, VoxelsDirectoryError>)
        ensures
            match r {
                Ok(p) => old(self).resolve_model(application.spec_rdn()@, opt_view(remote))
                    == Some(p@) && final(self).is_resolved_model() && final(self).cached_model()
                    == p@ && final(fs).is_directory_model(p@),
                Err(e) => *final(fs) == *old(fs) && match e {
                    VoxelsDirectoryError::NoCandidate => old(self).resolve_model(
                        application.spec_rdn()@,
                        opt_view(remote),
                    ).is_none() && *final(self) == *old(self),
                    VoxelsDirectoryError::CreationFailed => final(self).is_resolved_model()
                        && old(self).resolve_model(application.spec_rdn()@, opt_view(remote))
                        == Some(final(self).cached_model()) && !old(fs).is_directory_model(
                        final(self).cached_model(),
                    ),
                },
            },
    ;

    fn is_resolved(&self) -> (r: bool)
        ensures
            r == self.is_resolved_model(),
    ;
}

/// The stock per-application state resolver over an injected
/// application-level resolver, which it owns exclusively.
pub struct StateDirectory<BaseT: base::StateDirectoryResolver> {
    pub data_path: Option<String>,
    pub base: BaseT,
}

impl<BaseT: base::StateDirectoryResolver> StateDirectory<BaseT> {
    pub fn new(base: BaseT) -> (r: Self)
        ensures
            r.base == base,
            r.data_path is None,
            !r.is_resolved_model(),
    {
        Self { data_path: None, base }
    }
}

impl<BaseT: base::StateDirectoryResolver> StateDirectoryResolver for StateDirectory<BaseT> {
    open spec fn is_resolved_model(&self) -> bool {
        self.data_path is Some
    }

    open spec fn cached_model(&self) -> Seq<char> {
        match self.data_path {
            Some(p) => p@,
            None => Seq::empty(),
        }
    }

    open spec fn resolve_model(&self, rdn: Seq<char>, remote: Option<Seq<char>>) -> Option<
        Seq<char>,
    > {
        if self.is_resolved_model() {
            Some(self.cached_model())
        } else {
            match self.base.resolve_model(remote) {
                Some(p) => Some(join_model(p, rdn)),
                None => None,
            }
        }
    }

    fn resolve(&mut self, application: &Application, remote: &Option<String>) -> (r: Result<
        String,
        VoxelsDirectoryError,
    >) {
        if let Some(cached) = &self.data_path {
            return Ok(cached.clone());
        }
        match self.base.resolve(remote) {
            Ok(base_path) => {
                let resolved = join_path(base_path.as_str(), application.rdn().name());
                self.data_path = Some(resolved.clone());
                Ok(resolved)
            },
            Err(_) => Err(VoxelsDirectoryError::NoCandidate),
        }
    }

    fn resolve_and_create<FsIntT: FsInt>(
        &mut self,
        fs: &mut FsIntT,
        application: &Application,
        remote: &Option<String>,
    ) -> (r: Result<String, VoxelsDirectoryError>) {
        match self.resolve(application, remote) {
            Ok(resolved) => {
                match fs.create_dir_all(resolved.as_str()) {
                    Ok(_) => Ok(resolved),
                    Err(_) => Err(VoxelsDirectoryError::CreationFailed),
                }
            },
            Err(e) => Err(e),
        }
    }

    fn is_resolved(&self) -> (r: bool) {
        self.data_path.is_some()
    }
}

/// Idempotence law: once an instance is resolved, resolution yields exactly
/// the cached path, whatever application identity and remote answer are
/// supplied and whatever the underlying layers now hold: later calls are
/// free of the underlying probes.
pub proof fn lemma_state_resolve_idempotent<BaseT: base::StateDirectoryResolver>(
    dir: &StateDirectory<BaseT>,
    rdn: Seq<char>,
    remote: Option<Seq<char>>,
)
    requires
        dir.is_resolved_model(),
    ensures
        dir.resolve_model(rdn, remote) == Some(dir.cached_model()),
{
}

} // verus!
