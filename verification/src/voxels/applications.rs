//! The installed-applications directory: the data base directory with the
//! application namespace segment joined on, plus the location of one
//! application's manifest beneath it. The manifest itself is a structured
//! text file parsed outside the library; an application's identity is derived
//! from the name of the directory holding its manifest, not from the file.

use vstd::prelude::*;
use vstd::string::StrSliceExecFns;
use vstd::string::StringExecFns;
use crate::application::{valid_rdn, ApplicationErrors, ApplicationRDN};
use crate::base::data as base;
use crate::paths::{join_model, join_path};
use crate::voxels::VoxelsDirectoryError;

verus! {

/// Resolves the installed-applications directory.
pub trait ApplicationsDirectoryResolver: Sized {
    /// Whether a resolved path is cached.
    spec fn is_resolved_model(&self) -> bool;

    /// The cached path; meaningful only when resolved.
    spec fn cached_model(&self) -> Seq<char>;

    /// What resolution yields: the cache when resolved, else the resolved
    /// data base directory with the applications segment joined on.
    spec fn resolve_model(&self) -> Option<Seq<char>>;

    fn resolve(&self) -> (r: Result<String, VoxelsDirectoryError>)
        ensures
            match r {
                Ok(p) => self.resolve_model() == Some(p@),
                Err(e) => self.resolve_model().is_none() && e
                    == VoxelsDirectoryError::NoCandidate,
            },
    ;

    fn is_resolved(&self) -> (r: bool)
        ensures
            r == self.is_resolved_model(),
    ;
}

/// The stock applications-directory resolver over an injected data base
/// resolver, which it owns exclusively.
pub struct ApplicationsDirectory<BaseT: base::DataDirectoryResolver> {
    pub applications_path: Option<String>,
    pub base: BaseT,
}

impl<BaseT: base::DataDirectoryResolver> ApplicationsDirectory<BaseT> {
    pub fn new(base: BaseT) -> (r: Self)
        ensures
            r.base == base,
            r.applications_path is None,
            !r.is_resolved_model(),
    {
        Self { applications_path: None, base }
    }
}

impl<BaseT: base::DataDirectoryResolver> ApplicationsDirectoryResolver for ApplicationsDirectory<
    BaseT,
> {
    open spec fn is_resolved_model(&self) -> bool {
        self.applications_path is Some
    }

    open spec fn cached_model(&self) -> Seq<char> {
        match self.applications_path {
            Some(p) => p@,
            None => Seq::empty(),
        }
    }

    open spec fn resolve_model(&self) -> Option<Seq<char>> {
        if self.is_resolved_model() {
            Some(self.cached_model())
        } else {
            match self.base.resolve_model() {
                Some(pm) => Some(join_model(pm.0, "voxels/applications/"@)),
                None => None,
            }
        }
    }

    fn resolve(&self) -> (r: Result<String, VoxelsDirectoryError>) {
        if let Some(cached) = &self.applications_path {
            return Ok(cached.clone());
        }
        match self.base.resolve() {
            Ok(pm) => Ok(join_path(pm.0.as_str(), "voxels/applications/")),
            Err(e) => Err(VoxelsDirectoryError::from(e)),
        }
    }

    fn is_resolved(&self) -> (r: bool) {
        self.applications_path.is_some()
    }
}

/// The largest index below `end` at which `s` holds `c`, if any.
pub open spec fn last_index_of(s: Seq<char>, c: char, end: int) -> Option<int>
    decreases end,
{
    if end <= 0 {
        None
    } else if s[end - 1] == c {
        Some(end - 1)
    } else {
        last_index_of(s, c, end - 1)
    }
}

/// The name of the directory that directly holds `p`: the non-empty segment
/// between the last separator and the separator before it (or the start of
/// the path).
pub open spec fn parent_segment(p: Seq<char>) -> Option<Seq<char>> {
    match last_index_of(p, '/', p.len() as int) {
        None => None,
        Some(j) => match last_index_of(p, '/', j) {
            None => if j == 0 {
                None
            } else {
                Some(p.subrange(0, j))
            },
            Some(i) => if i + 1 == j {
                None
            } else {
                Some(p.subrange(i + 1, j))
            },
        },
    }
}

/// The last separator of `path` strictly before `end`, if any.
fn last_separator(path: &str, end: usize) -> (r: Option<usize>)
    requires
        end <= path@.len(),
    ensures
        match r {
            Some(i) => last_index_of(path@, '/', end as int) == Some(i as int) && i < end,
            None => last_index_of(path@, '/', end as int).is_none(),
        },
{
    let mut k: usize = end;
    while k > 0
        invariant
            k <= end <= path@.len(),
            last_index_of(path@, '/', end as int) == last_index_of(path@, '/', k as int),
        decreases k,
    {
        if path.get_char(k - 1) == '/' {
            return Some(k - 1);
        }
        k -= 1;
    }
    None
}

/// Derives an application identity from the location of its manifest: the
/// identity is the name of the directory that directly holds the manifest
/// file, and it must be a valid reverse-domain-style name.
pub fn identity_from_manifest_location(path: &str) -> (r: Result<
    ApplicationRDN,
    ApplicationErrors,
>)
    ensures
        match r {
            Ok(rdn) => parent_segment(path@) == Some(rdn@) && rdn.wf(),
            Err(e) => e == ApplicationErrors::InvalidName && (match parent_segment(path@) {
                Some(segment) => !valid_rdn(segment),
                None => true,
            }),
        },
{
    let n = path.unicode_len();
    match last_separator(path, n) {
        None => Err(ApplicationErrors::InvalidName),
        Some(j) => {
            let segment = match last_separator(path, j) {
                None => {
                    if j == 0 {
                        return Err(ApplicationErrors::InvalidName);
                    }
                    path.substring_char(0, j)
                },
                Some(i) => {
                    if i + 1 == j {
                        return Err(ApplicationErrors::InvalidName);
                    }
                    path.substring_char(i + 1, j)
                },
            };
            ApplicationRDN::new(String::from_str(segment))
        },
    }
}

/// Where the manifest of the application identified by `rdn` lives beneath
/// the installed-applications directory:
/// `<applications-dir>/<application-name>/manifest.toml`.
pub fn manifest_path(applications_dir: &str, rdn: &ApplicationRDN) -> (r: String)
    ensures
        r@ == join_model(join_model(applications_dir@, rdn@), "manifest.toml"@),
{
    let with_name = join_path(applications_dir, rdn.name());
    join_path(with_name.as_str(), "manifest.toml")
}

} // verus!
