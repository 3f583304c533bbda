//! The base resolver for the data directory.
//!
//! Strategies, each reading one environment variable: the application
//! override `VOXELS_DATA_HOME`, the standard convention `XDG_DATA_HOME`,
//! and the hierarchy fallback joining `.local/share/` onto `HOME`. A candidate
//! counts only if it verifies: it must exist, be a directory, and be an
//! absolute path.

use vstd::prelude::*;
use crate::base::BaseDirectoryError;
use crate::environment_variables::EnvInt;
use crate::filesystem::FsInt;
use crate::paths::{join_model, join_path};
use crate::base::data::DataDirectoryResolutionMethods::{FromFHS, FromVoxels, FromXDG};

verus! {

/// Checks one candidate path against the filesystem predicates this category
/// requires. No side effects; a pure function of filesystem state at call
/// time.
pub trait DataVerifier: Sized {
    spec fn verify_model(&self, path: Seq<char>) -> bool;

    fn verify(&self, path: &str) -> (r: bool)
        ensures
            r == self.verify_model(path@),
    ;
}

/// The stock verifier: a data candidate must exist, be a directory, and
/// be an absolute path.
pub struct DefaultDataVerifier<FsIntT: FsInt> {
    fs: FsIntT,
}

impl<FsIntT: FsInt> DataVerifier for DefaultDataVerifier<FsIntT> {
    open spec fn verify_model(&self, path: Seq<char>) -> bool {
        self.spec_fs().exists_model(path) && self.spec_fs().is_directory_model(path)
            && self.spec_fs().is_absolute_model(path)
    }

    fn verify(&self, path: &str) -> (r: bool) {
        if !self.fs.path_exists(path) {
            return false;
        }
        if !self.fs.is_directory(path) {
            return false;
        }
        if !self.fs.is_absolute(path) {
            return false;
        }
        true
    }
}

impl<FsIntT: FsInt> DefaultDataVerifier<FsIntT> {
    pub closed spec fn spec_fs(&self) -> FsIntT {
        self.fs
    }

    pub fn new(fs: FsIntT) -> (r: Self)
        ensures
            r.spec_fs() == fs,
    {
        Self { fs }
    }
}

#[derive(Debug, Clone, Copy, PartialEq, Eq, Hash, Structural)]
pub enum DataDirectoryResolutionMethods {
    FromXDG,
    FromFHS,
    FromVoxels,
}

/// The order in which the strategies are tried: one entry per strategy, no
/// duplicates, replaced only as a whole.
pub struct DataDirectoryPriority {
    order: [DataDirectoryResolutionMethods; 3],
}

impl View for DataDirectoryPriority {
    type V = Seq<DataDirectoryResolutionMethods>;

    closed spec fn view(&self) -> Seq<DataDirectoryResolutionMethods> {
        self.order@
    }
}

impl DataDirectoryPriority {
    /// One entry per strategy and no duplicates.
    pub open spec fn wf(&self) -> bool {
        &&& self@.len() == 3
        &&& self@[0] != self@[1]
        &&& self@[0] != self@[2]
        &&& self@[1] != self@[2]
    }

    /// Replaces the entire order atomically; a partial or duplicated order is
    /// rejected.
    pub fn set_all(&mut self, new_order: [DataDirectoryResolutionMethods; 3])
        requires
            new_order@[0] != new_order@[1],
            new_order@[0] != new_order@[2],
            new_order@[1] != new_order@[2],
        ensures
            final(self)@ == new_order@,
            final(self).wf(),
    {
        self.order = new_order;
    }

    /// A copy of the current order; the live table cannot be mutated through
    /// it.
    pub fn get(&self) -> (r: [DataDirectoryResolutionMethods; 3])
        ensures
            r@ == self@,
    {
        self.order
    }
}

impl Default for DataDirectoryPriority {
    /// The default order: application override first, then the standard
    /// convention, then the hierarchy fallback.
    fn default() -> (r: Self)
        ensures
            r@ == seq![FromVoxels, FromXDG, FromFHS],
            r.wf(),
    {
        DataDirectoryPriority { order: [FromVoxels, FromXDG, FromFHS] }
    }
}

/// Resolves the data base directory.
pub trait DataDirectoryResolver: Sized {
    /// The verified candidate of the hierarchy-fallback strategy, if any.
    spec fn fhs_model(&self) -> Option<Seq<char>>;

    /// The verified candidate of the standard-convention strategy, if any.
    spec fn xdg_model(&self) -> Option<Seq<char>>;

    /// The verified candidate of the application-override strategy, if any.
    spec fn voxels_model(&self) -> Option<Seq<char>>;

    /// The first verified candidate in priority order, with its strategy.
    spec fn resolve_model(&self) -> Option<(Seq<char>, DataDirectoryResolutionMethods)>;

    fn using_fhs(&self) -> (r: Result<String, BaseDirectoryError>)
        ensures
            match r {
                Ok(p) => self.fhs_model() == Some(p@),
                Err(e) => self.fhs_model().is_none() && e == BaseDirectoryError::NoCandidate,
            },
    ;

    fn using_xdg(&self) -> (r: Result<String, BaseDirectoryError>)
        ensures
            match r {
                Ok(p) => self.xdg_model() == Some(p@),
                Err(e) => self.xdg_model().is_none() && e == BaseDirectoryError::NoCandidate,
            },
    ;

    fn using_voxels(&self) -> (r: Result<String, BaseDirectoryError>)
        ensures
            match r {
                Ok(p) => self.voxels_model() == Some(p@),
                Err(e) => self.voxels_model().is_none() && e == BaseDirectoryError::NoCandidate,
            },
    ;

    /// Tries the strategies in priority order and returns the first success,
    /// paired with the strategy that produced it; fails with `NoCandidate`
    /// exactly when every strategy fails.
    fn resolve(&self) -> (r: Result<
        (String, DataDirectoryResolutionMethods),
        BaseDirectoryError,
    >)
        ensures
            match r {
                Ok(pm) => self.resolve_model() == Some((pm.0@, pm.1)),
                Err(e) => self.resolve_model().is_none() && e == BaseDirectoryError::NoCandidate,
            },
    ;
}

/// The stock data base resolver over an injected environment
/// accessor and verifier, which it owns exclusively.
pub struct DataDirectory<EnvIntT: EnvInt, VerifierT: DataVerifier> {
    pub verifier: VerifierT,
    pub env: EnvIntT,
    pub priority: DataDirectoryPriority,
}

impl<EnvIntT: EnvInt, VerifierT: DataVerifier> DataDirectory<EnvIntT, VerifierT> {
    /// A raw candidate survives only if it verifies.
    pub open spec fn candidate_model(&self, raw: Option<Seq<char>>) -> Option<Seq<char>> {
        match raw {
            Some(p) => if self.verifier.verify_model(p) {
                Some(p)
            } else {
                None
            },
            None => None,
        }
    }

    /// The verified candidate each strategy yields from the environment.
    pub open spec fn method_model(&self, m: DataDirectoryResolutionMethods) -> Option<
        Seq<char>,
    > {
        match m {
            FromXDG => self.candidate_model(self.env.env_model("XDG_DATA_HOME"@)),
            FromVoxels => self.candidate_model(self.env.env_model("VOXELS_DATA_HOME"@)),
            FromFHS => self.candidate_model(
                match self.env.env_model("HOME"@) {
                    Some(home) => Some(join_model(home, ".local/share/"@)),
                    None => None,
                },
            ),
        }
    }

    /// The first success among the strategies of `order` at or after `i`.
    pub open spec fn resolve_from(
        &self,
        order: Seq<DataDirectoryResolutionMethods>,
        i: int,
    ) -> Option<(Seq<char>, DataDirectoryResolutionMethods)>
        decreases order.len() - i,
    {
        if i < 0 || i >= order.len() {
            None
        } else {
            match self.method_model(order[i]) {
                Some(p) => Some((p, order[i])),
                None => self.resolve_from(order, i + 1),
            }
        }
    }

    pub fn new(env: EnvIntT, verifier: VerifierT) -> (r: Self)
        ensures
            r.env == env,
            r.verifier == verifier,
            r.priority@ == seq![FromVoxels, FromXDG, FromFHS],
            r.priority.wf(),
    {
        let priority = DataDirectoryPriority::default();
        Self { verifier, env, priority }
    }
}

impl<EnvIntT: EnvInt, VerifierT: DataVerifier> DataDirectoryResolver for DataDirectory<
    EnvIntT,
    VerifierT,
> {
    open spec fn fhs_model(&self) -> Option<Seq<char>> {
        self.method_model(FromFHS)
    }

    open spec fn xdg_model(&self) -> Option<Seq<char>> {
        self.method_model(FromXDG)
    }

    open spec fn voxels_model(&self) -> Option<Seq<char>> {
        self.method_model(FromVoxels)
    }

    open spec fn resolve_model(&self) -> Option<
        (Seq<char>, DataDirectoryResolutionMethods),
    > {
        self.resolve_from(self.priority@, 0)
    }

    fn using_fhs(&self) -> (r: Result<String, BaseDirectoryError>) {
        match self.env.get_path_from_environment("HOME") {
            Ok(home) => {
                let data_path = join_path(home.as_str(), ".local/share/");
                if self.verifier.verify(data_path.as_str()) {
                    Ok(data_path)
                } else {
                    Err(BaseDirectoryError::NoCandidate)
                }
            },
            Err(_) => Err(BaseDirectoryError::NoCandidate),
        }
    }

    fn using_xdg(&self) -> (r: Result<String, BaseDirectoryError>) {
        match self.env.get_path_from_environment("XDG_DATA_HOME") {
            Ok(data_path) => {
                if self.verifier.verify(data_path.as_str()) {
                    Ok(data_path)
                } else {
                    Err(BaseDirectoryError::NoCandidate)
                }
            },
            Err(_) => Err(BaseDirectoryError::NoCandidate),
        }
    }

    fn using_voxels(&self) -> (r: Result<String, BaseDirectoryError>) {
        match self.env.get_path_from_environment("VOXELS_DATA_HOME") {
            Ok(path) => {
                if self.verifier.verify(path.as_str()) {
                    Ok(path)
                } else {
                    Err(BaseDirectoryError::NoCandidate)
                }
            },
            Err(_) => Err(BaseDirectoryError::NoCandidate),
        }
    }

    fn resolve(&self) -> (r: Result<
        (String, DataDirectoryResolutionMethods),
        BaseDirectoryError,
    >) {
        let order = self.priority.get();
        let mut i: usize = 0;
        while i < 3
            invariant
                0 <= i <= 3,
                order@ == self.priority@,
                self.resolve_from(self.priority@, 0) == self.resolve_from(
                    self.priority@,
                    i as int,
                ),
            decreases 3 - i,
        {
            let m = order[i];
            let attempt = match m {
                FromXDG => self.using_xdg(),
                FromVoxels => self.using_voxels(),
                FromFHS => self.using_fhs(),
            };
            match attempt {
                Ok(p) => {
                    return Ok((p, m));
                },
                Err(_) => {},
            }
            i += 1;
        }
        Err(BaseDirectoryError::NoCandidate)
    }
}

/// First-match law: when the strategy at position `i` of the priority order
/// yields a verified candidate and every earlier strategy yields none,
/// resolution returns exactly that candidate and that strategy; the earlier
/// failures do not affect the outcome.
pub proof fn lemma_data_resolve_first_match<EnvIntT: EnvInt, VerifierT: DataVerifier>(
    dir: &DataDirectory<EnvIntT, VerifierT>,
    i: int,
)
    requires
        0 <= i < dir.priority@.len(),
        dir.method_model(dir.priority@[i]).is_some(),
        forall|j: int| 0 <= j < i ==> dir.method_model(#[trigger] dir.priority@[j]).is_none(),
    ensures
        dir.resolve_model() == Some(
            (dir.method_model(dir.priority@[i]).unwrap(), dir.priority@[i]),
        ),
{
    lemma_data_first_match_from(dir, dir.priority@, 0, i);
}

/// Exhaustion law: when every strategy in the priority order fails, nothing
/// resolves.
pub proof fn lemma_data_resolve_exhausted<EnvIntT: EnvInt, VerifierT: DataVerifier>(
    dir: &DataDirectory<EnvIntT, VerifierT>,
)
    requires
        forall|j: int|
            0 <= j < dir.priority@.len() ==> dir.method_model(
                #[trigger] dir.priority@[j],
            ).is_none(),
    ensures
        dir.resolve_model().is_none(),
{
    lemma_data_exhausted_from(dir, dir.priority@, 0);
}

proof fn lemma_data_first_match_from<EnvIntT: EnvInt, VerifierT: DataVerifier>(
    dir: &DataDirectory<EnvIntT, VerifierT>,
    order: Seq<DataDirectoryResolutionMethods>,
    k: int,
    i: int,
)
    requires
        0 <= k <= i < order.len(),
        dir.method_model(order[i]).is_some(),
        forall|j: int| k <= j < i ==> dir.method_model(#[trigger] order[j]).is_none(),
    ensures
        dir.resolve_from(order, k) == Some((dir.method_model(order[i]).unwrap(), order[i])),
    decreases i - k,
{
    if k < i {
        lemma_data_first_match_from(dir, order, k + 1, i);
    }
}

proof fn lemma_data_exhausted_from<EnvIntT: EnvInt, VerifierT: DataVerifier>(
    dir: &DataDirectory<EnvIntT, VerifierT>,
    order: Seq<DataDirectoryResolutionMethods>,
    k: int,
)
    requires
        forall|j: int| k <= j < order.len() ==> dir.method_model(#[trigger] order[j]).is_none(),
    ensures
        dir.resolve_from(order, k).is_none(),
    decreases order.len() - k,
{
    if 0 <= k < order.len() {
        lemma_data_exhausted_from(dir, order, k + 1);
    }
}

} // verus!
