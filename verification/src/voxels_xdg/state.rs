//! The application-level resolver for the state directory: joins the
//! application namespace segment `voxels` onto the resolved state
//! base directory, caches the first success, and optionally takes a remote
//! override answer first. The remote answer is trusted as already validated,
//! so it bypasses local verification.

use vstd::prelude::*;
use crate::base::state as base;
use crate::filesystem::FsInt;
use crate::paths::{join_model, join_path};
use crate::voxels::VoxelsDirectoryError;
use crate::voxels_xdg::opt_view;
use crate::voxels_xdg::state::StateDirectoryResolutionMethods::{FromDBus, FromXDG};

verus! {

#[derive(Debug, Clone, Copy, PartialEq, Eq, Hash, Structural)]
pub enum StateDirectoryResolutionMethods {
    FromXDG,
    FromDBus,
}

/// The order in which the strategies are tried: one entry per strategy, no
/// duplicates, replaced only as a whole.
pub struct StateDirectoryPriority {
    order: [StateDirectoryResolutionMethods; 2],
}

impl View for StateDirectoryPriority {
    type V = Seq<StateDirectoryResolutionMethods>;

    closed spec fn view(&self) -> Seq<StateDirectoryResolutionMethods> {
        self.order@
    }
}

impl StateDirectoryPriority {
    /// One entry per strategy and no duplicates.
    pub open spec fn wf(&self) -> bool {
        self@.len() == 2 && self@[0] != self@[1]
    }

    /// Replaces the entire order atomically; a partial or duplicated order is
    /// rejected.
    pub fn set_all(&mut self, new_order: [StateDirectoryResolutionMethods; 2])
        requires
            new_order@[0] != new_order@[1],
        ensures
            final(self)@ == new_order@,
            final(self).wf(),
    {
        self.order = new_order;
    }

    /// A copy of the current order; the live table cannot be mutated through
    /// it.
    pub fn get(&self) -> (r: [StateDirectoryResolutionMethods; 2])
        ensures
            r@ == self@,
    {
        self.order
    }
}

impl Default for StateDirectoryPriority {
    /// The default order: the remote override takes precedence over the
    /// standard convention.
    fn default() -> (r: Self)
        ensures
            r@ == seq![FromDBus, FromXDG],
            r.wf(),
    {
        StateDirectoryPriority { order: [FromDBus, FromXDG] }
    }
}

/// Resolves the application-level state directory, memoizing the
/// first success: only `Unresolved -> Resolved` is possible, a failed attempt
/// caches nothing and may be retried.
pub trait StateDirectoryResolver: Sized {
    /// Whether a resolved path is cached.
    spec fn is_resolved_model(&self) -> bool;

    /// The cached path; meaningful only when resolved.
    spec fn cached_model(&self) -> Seq<char>;

    /// What the local standard-convention strategy would yield now.
    spec fn xdg_model(&self) -> Option<Seq<char>>;

    /// What resolution yields for a given remote answer: the cache when
    /// resolved, else the first strategy in priority order that succeeds.
    spec fn resolve_model(&self, remote: Option<Seq<char>>) -> Option<Seq<char>>;

    /// Applies the remote override answer: the cache wins, then the answer is
    /// taken as already validated; no answer fails the strategy.
    fn resolve_using_dbus(&mut self, remote: &Option<String>) -> (r: Result<
        String,
        VoxelsDirectoryError,
    >)
        ensures
            old(self).is_resolved_model() ==> *final(self) == *old(self) && (r matches Ok(p)
                && p@ == old(self).cached_model()),
            !old(self).is_resolved_model() ==> match opt_view(remote) {
                Some(p) => (r matches Ok(q) && q@ == p) && final(self).is_resolved_model()
                    && final(self).cached_model() == p,
                None => (r matches Err(e) && e == VoxelsDirectoryError::NoCandidate) && *final(self) == *old(self),
            },
    ;

    /// Resolves through the base resolver and joins the application
    /// namespace segment; the cache wins.
    fn resolve_using_xdg(&mut self) -> (r: Result<String, VoxelsDirectoryError>)
        ensures
            old(self).is_resolved_model() ==> *final(self) == *old(self) && (r matches Ok(p)
                && p@ == old(self).cached_model()),
            !old(self).is_resolved_model() ==> match old(self).xdg_model() {
                Some(p) => (r matches Ok(q) && q@ == p) && final(self).is_resolved_model()
                    && final(self).cached_model() == p,
                None => (r matches Err(e) && e == VoxelsDirectoryError::NoCandidate) && *final(self) == *old(self),
            },
    ;

    /// Tries the strategies in priority order; the first success is cached
    /// and returned, and later calls return the cache unchanged. Failure
    /// caches nothing.
    fn resolve(&mut self, remote: &Option<String>) -> (r: Result<String, VoxelsDirectoryError>)
        ensures
            old(self).is_resolved_model() ==> *final(self) == *old(self) && (r matches Ok(p)
                && p@ == old(self).cached_model()),
            match r {
                Ok(p) => old(self).resolve_model(opt_view(remote)) == Some(p@) && final(self).is_resolved_model() && final(self).cached_model() == p@,
                Err(e) => old(self).resolve_model(opt_view(remote)).is_none() && e
                    == VoxelsDirectoryError::NoCandidate && *final(self) == *old(self) && !final(self).is_resolved_model(),
            },
    ;

    /// Resolves, then ensures the resolved directory exists, creating it and
    /// its missing ancestors if needed; an already existing directory is not
    /// an error. A creation failure is fatal for this call, is distinguished
    /// from exhaustion of the strategies, and can only strike a directory
    /// that did not already exist: repeating the call once the directory is
    /// there succeeds with the same path.
    fn resolve_and_create<FsIntT: FsInt>(&mut self, fs: &mut FsIntT, remote: &Option<String>) -> (r:
        Result<String, VoxelsDirectoryError>)
        ensures
            match r {
                Ok(p) => old(self).resolve_model(opt_view(remote)) == Some(p@) && final(self).is_resolved_model() && final(self).cached_model() == p@ && final(fs).is_directory_model(p@),
                Err(e) => *final(fs) == *old(fs) && match e {
                    VoxelsDirectoryError::NoCandidate => old(self).resolve_model(
                        opt_view(remote),
                    ).is_none() && *final(self) == *old(self),
                    VoxelsDirectoryError::CreationFailed => final(self).is_resolved_model()
                        && old(self).resolve_model(opt_view(remote)) == Some(
                        final(self).cached_model(),
                    ) && !old(fs).is_directory_model(final(self).cached_model()),
                },
            },
    ;

    fn is_resolved(&self) -> (r: bool)
        ensures
            r == self.is_resolved_model(),
    ;
}

/// The stock application-level state resolver over an injected base
/// resolver, which it owns exclusively.
pub struct StateDirectory<BaseT: base::StateDirectoryResolver> {
    pub path: Option<String>,
    pub priority: StateDirectoryPriority,
    pub base: BaseT,
}

impl<BaseT: base::StateDirectoryResolver> StateDirectory<BaseT> {
    /// What each strategy yields for a given remote answer.
    pub open spec fn method_model(
        &self,
        m: StateDirectoryResolutionMethods,
        remote: Option<Seq<char>>,
    ) -> Option<Seq<char>> {
        match m {
            FromDBus => remote,
            FromXDG => self.xdg_model(),
        }
    }

    /// The first success among the strategies of `order` at or after `i`.
    pub open spec fn resolve_from(
        &self,
        order: Seq<StateDirectoryResolutionMethods>,
        remote: Option<Seq<char>>,
        i: int,
    ) -> Option<Seq<char>>
        decreases order.len() - i,
    {
        if i < 0 || i >= order.len() {
            None
        } else {
            match self.method_model(order[i], remote) {
                Some(p) => Some(p),
                None => self.resolve_from(order, remote, i + 1),
            }
        }
    }

    pub fn new(base: BaseT) -> (r: Self)
        ensures
            r.base == base,
            r.path is None,
            !r.is_resolved_model(),
            r.priority@ == seq![FromDBus, FromXDG],
            r.priority.wf(),
    {
        let priority = StateDirectoryPriority::default();
        Self { path: None, priority, base }
    }
}

impl<BaseT: base::StateDirectoryResolver> StateDirectoryResolver for StateDirectory<BaseT> {
    open spec fn is_resolved_model(&self) -> bool {
        self.path is Some
    }

    open spec fn cached_model(&self) -> Seq<char> {
        match self.path {
            Some(p) => p@,
            None => Seq::empty(),
        }
    }

    open spec fn xdg_model(&self) -> Option<Seq<char>> {
        match self.base.resolve_model() {
            Some(pm) => Some(join_model(pm.0, "voxels"@)),
            None => None,
        }
    }

    open spec fn resolve_model(&self, remote: Option<Seq<char>>) -> Option<Seq<char>> {
        if self.is_resolved_model() {
            Some(self.cached_model())
        } else {
            self.resolve_from(self.priority@, remote, 0)
        }
    }

    fn resolve_using_dbus(&mut self, remote: &Option<String>) -> (r: Result<
        String,
        VoxelsDirectoryError,
    >) {
        if let Some(cached) = &self.path {
            return Ok(cached.clone());
        }
        match remote {
            Some(p) => {
                let state_path = p.clone();
                self.path = Some(state_path.clone());
                Ok(state_path)
            },
            None => Err(VoxelsDirectoryError::NoCandidate),
        }
    }

    fn resolve_using_xdg(&mut self) -> (r: Result<String, VoxelsDirectoryError>) {
        if let Some(cached) = &self.path {
            return Ok(cached.clone());
        }
        match self.base.resolve() {
            Ok(pm) => {
                let state_path = join_path(pm.0.as_str(), "voxels");
                self.path = Some(state_path.clone());
                Ok(state_path)
            },
            Err(e) => Err(VoxelsDirectoryError::from(e)),
        }
    }

    fn resolve(&mut self, remote: &Option<String>) -> (r: Result<String, VoxelsDirectoryError>) {
        if let Some(cached) = &self.path {
            return Ok(cached.clone());
        }
        let order = self.priority.get();
        let mut i: usize = 0;
        while i < 2
            invariant
                0 <= i <= 2,
                *self == *old(self),
                self.path is None,
                order@ == self.priority@,
                self.resolve_from(self.priority@, opt_view(remote), 0) == self.resolve_from(
                    self.priority@,
                    opt_view(remote),
                    i as int,
                ),
            decreases 2 - i,
        {
            let m = order[i];
            let attempt = match m {
                FromDBus => self.resolve_using_dbus(remote),
                FromXDG => self.resolve_using_xdg(),
            };
            match attempt {
                Ok(p) => {
                    return Ok(p);
                },
                Err(_) => {},
            }
            i += 1;
        }
        Err(VoxelsDirectoryError::NoCandidate)
    }

    fn resolve_and_create<FsIntT: FsInt>(&mut self, fs: &mut FsIntT, remote: &Option<String>) -> (r:
        Result<String, VoxelsDirectoryError>) {
        match self.resolve(remote) {
            Ok(resolved) => {
                match fs.create_dir_all(resolved.as_str()) {
                    Ok(_) => Ok(resolved),
                    Err(_) => Err(VoxelsDirectoryError::CreationFailed),
                }
            },
            Err(e) => Err(e),
        }
    }

    fn is_resolved(&self) -> (r: bool) {
        self.path.is_some()
    }
}

/// Idempotence law: once an instance is resolved, resolution yields exactly
/// the cached path, whatever remote answer is supplied and whatever the
/// underlying environment and filesystem now hold: later calls are free of
/// the underlying probes.
pub proof fn lemma_state_resolve_idempotent<BaseT: base::StateDirectoryResolver>(
    dir: &StateDirectory<BaseT>,
    remote: Option<Seq<char>>,
)
    requires
        dir.is_resolved_model(),
    ensures
        dir.resolve_model(remote) == Some(dir.cached_model()),
{
}

/// First-match law for the application-level layer: when an unresolved
/// instance has a strategy at position `i` of the priority order that yields
/// a path for the given remote answer and every earlier strategy yields none,
/// resolution yields exactly that path.
pub proof fn lemma_state_resolve_first_match<BaseT: base::StateDirectoryResolver>(
    dir: &StateDirectory<BaseT>,
    remote: Option<Seq<char>>,
    i: int,
)
    requires
        !dir.is_resolved_model(),
        0 <= i < dir.priority@.len(),
        dir.method_model(dir.priority@[i], remote).is_some(),
        forall|j: int|
            0 <= j < i ==> dir.method_model(#[trigger] dir.priority@[j], remote).is_none(),
    ensures
        dir.resolve_model(remote) == dir.method_model(dir.priority@[i], remote),
{
    lemma_state_first_match_from(dir, dir.priority@, remote, 0, i);
}

/// Exhaustion law for the application-level layer: when an unresolved
/// instance has no strategy that yields a path, nothing resolves.
pub proof fn lemma_state_resolve_exhausted<BaseT: base::StateDirectoryResolver>(
    dir: &StateDirectory<BaseT>,
    remote: Option<Seq<char>>,
)
    requires
        !dir.is_resolved_model(),
        forall|j: int|
            0 <= j < dir.priority@.len() ==> dir.method_model(
                #[trigger] dir.priority@[j],
                remote,
            ).is_none(),
    ensures
        dir.resolve_model(remote).is_none(),
{
    lemma_state_exhausted_from(dir, dir.priority@, remote, 0);
}

proof fn lemma_state_first_match_from<BaseT: base::StateDirectoryResolver>(
    dir: &StateDirectory<BaseT>,
    order: Seq<StateDirectoryResolutionMethods>,
    remote: Option<Seq<char>>,
    k: int,
    i: int,
)
    requires
        0 <= k <= i < order.len(),
        dir.method_model(order[i], remote).is_some(),
        forall|j: int| k <= j < i ==> dir.method_model(#[trigger] order[j], remote).is_none(),
    ensures
        dir.resolve_from(order, remote, k) == dir.method_model(order[i], remote),
    decreases i - k,
{
    if k < i {
        lemma_state_first_match_from(dir, order, remote, k + 1, i);
    }
}

proof fn lemma_state_exhausted_from<BaseT: base::StateDirectoryResolver>(
    dir: &StateDirectory<BaseT>,
    order: Seq<StateDirectoryResolutionMethods>,
    remote: Option<Seq<char>>,
    k: int,
)
    requires
        forall|j: int|
            k <= j < order.len() ==> dir.method_model(#[trigger] order[j], remote).is_none(),
    ensures
        dir.resolve_from(order, remote, k).is_none(),
    decreases order.len() - k,
{
    if 0 <= k < order.len() {
        lemma_state_exhausted_from(dir, order, remote, k + 1);
    }
}

} // verus!
