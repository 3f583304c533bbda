//! The filesystem accessor: existence, is-directory and is-absolute probes, a
//! read of a whole file, and idempotent directory creation (`mkdir -p`
//! semantics). The live accessor performs real filesystem calls and lives
//! outside the library; `MockFsInt` is an in-memory accessor for tests,
//! rigged one probe at a time.

use vstd::prelude::*;
use crate::table::{lookup, lookup_from, lemma_lookup_prepend};

verus! {

#[derive(Debug, Copy, Clone, PartialEq, Eq, Hash, Structural)]
pub enum FsError {
    NotFound,
    CreationFailed,
}

/// Probes and reads the filesystem. The `*_model` spec functions are the
/// accessor's view of filesystem state at call time; callers tolerate a
/// time-of-check/time-of-use race, which is documented, not mitigated, here.
pub trait FsInt: Sized {
    /// An accessor outside the library leaves the model unspecified.
    open spec fn exists_model(&self, path: Seq<char>) -> bool {
        arbitrary()
    }

    /// An accessor outside the library leaves the model unspecified.
    open spec fn is_directory_model(&self, path: Seq<char>) -> bool {
        arbitrary()
    }

    /// An accessor outside the library leaves the model unspecified.
    open spec fn is_absolute_model(&self, path: Seq<char>) -> bool {
        arbitrary()
    }

    /// An accessor outside the library leaves the model unspecified.
    open spec fn file_model(&self, path: Seq<char>) -> Option<Seq<char>> {
        arbitrary()
    }

    fn path_exists(&self, path: &str) -> (r: bool)
        ensures
            r == self.exists_model(path@),
    ;

    fn is_directory(&self, path: &str) -> (r: bool)
        ensures
            r == self.is_directory_model(path@),
    ;

    fn is_absolute(&self, path: &str) -> (r: bool)
        ensures
            r == self.is_absolute_model(path@),
    ;

    fn read_to_string(&self, path: &str) -> (r: Result<String, FsError>)
        ensures
            match r {
                Ok(content) => self.file_model(path@) == Some(content@),
                Err(e) => self.file_model(path@).is_none() && e == FsError::NotFound,
            },
    ;

    /// Ensures `path` and its missing ancestors exist as directories. An
    /// already existing directory is not an error and changes nothing; any
    /// failure changes nothing and is reported.
    fn create_dir_all(&mut self, path: &str) -> (r: Result<(), FsError>)
        ensures
            old(self).is_directory_model(path@) ==> r == Ok::<(), FsError>(()) && *final(self)
                == *old(self),
            r is Ok ==> final(self).is_directory_model(path@),
            r is Err ==> *final(self) == *old(self) && r == Err::<(), FsError>(
                FsError::CreationFailed,
            ),
            forall|q: Seq<char>|
                old(self).is_directory_model(q) ==> final(self).is_directory_model(q),
            forall|q: Seq<char>| old(self).exists_model(q) ==> final(self).exists_model(q),
    ;
}

/// An in-memory filesystem for tests: each probe reads exactly what it was
/// rigged to, newest rigging first; unrigged probes read false, unrigged
/// files are absent. Directory creation rigs the created path itself, and
/// can be denied wholesale to exercise creation failures.
pub struct MockFsInt {
    exists_rig: Vec<(String, bool)>,
    dir_rig: Vec<(String, bool)>,
    absolute_rig: Vec<(String, bool)>,
    files: Vec<(String, String)>,
    create_denied: bool,
}

/// What a rigged probe reads as: the rigged answer, or false when unrigged.
pub open spec fn rigged(rig: Option<bool>) -> bool {
    match rig {
        Some(b) => b,
        None => false,
    }
}

impl FsInt for MockFsInt {
    closed spec fn exists_model(&self, path: Seq<char>) -> bool {
        rigged(lookup(self.exists_rig@, path))
    }

    closed spec fn is_directory_model(&self, path: Seq<char>) -> bool {
        rigged(lookup(self.dir_rig@, path))
    }

    closed spec fn is_absolute_model(&self, path: Seq<char>) -> bool {
        rigged(lookup(self.absolute_rig@, path))
    }

    closed spec fn file_model(&self, path: Seq<char>) -> Option<Seq<char>> {
        match lookup(self.files@, path) {
            Some(content) => Some(content@),
            None => None,
        }
    }

    fn path_exists(&self, path: &str) -> (r: bool) {
        lookup_bool(&self.exists_rig, path)
    }

    fn is_directory(&self, path: &str) -> (r: bool) {
        lookup_bool(&self.dir_rig, path)
    }

    fn is_absolute(&self, path: &str) -> (r: bool) {
        lookup_bool(&self.absolute_rig, path)
    }

    fn read_to_string(&self, path: &str) -> (r: Result<String, FsError>) {
        let key = path.to_owned();
        let n = self.files.len();
        let mut i: usize = 0;
        while i < n
            invariant
                0 <= i <= n,
                n == self.files@.len(),
                key@ == path@,
                lookup(self.files@, path@) == lookup_from(self.files@, path@, i as int),
            decreases n - i,
        {
            if self.files[i].0 == key {
                return Ok(self.files[i].1.clone());
            }
            i += 1;
        }
        Err(FsError::NotFound)
    }

    fn create_dir_all(&mut self, path: &str) -> (r: Result<(), FsError>)
        ensures
            r is Err <==> !old(self).is_directory_model(path@) && old(self).spec_create_denied(),
            final(self).spec_create_denied() == old(self).spec_create_denied(),
    {
        if lookup_bool(&self.dir_rig, path) {
            return Ok(());
        }
        if self.create_denied {
            return Err(FsError::CreationFailed);
        }
        self.rig_is_directory(path, true);
        self.rig_exists(path, true);
        Ok(())
    }
}

/// Reads a rigged boolean probe: the newest rigging for `path`, else false.
fn lookup_bool(rig: &Vec<(String, bool)>, path: &str) -> (r: bool)
    ensures
        r == rigged(lookup(rig@, path@)),
{
    let key = path.to_owned();
    let n = rig.len();
    let mut i: usize = 0;
    while i < n
        invariant
            0 <= i <= n,
            n == rig@.len(),
            key@ == path@,
            lookup(rig@, path@) == lookup_from(rig@, path@, i as int),
        decreases n - i,
    {
        if rig[i].0 == key {
            return rig[i].1;
        }
        i += 1;
    }
    false
}

impl MockFsInt {
    /// Whether this filesystem refuses to create directories.
    pub closed spec fn spec_create_denied(&self) -> bool {
        self.create_denied
    }

    /// A filesystem where nothing exists and creation succeeds.
    pub fn new() -> (r: MockFsInt)
        ensures
            forall|path: Seq<char>| !r.exists_model(path),
            forall|path: Seq<char>| !r.is_directory_model(path),
            forall|path: Seq<char>| !r.is_absolute_model(path),
            forall|path: Seq<char>| r.file_model(path).is_none(),
            !r.spec_create_denied(),
    {
        MockFsInt {
            exists_rig: Vec::new(),
            dir_rig: Vec::new(),
            absolute_rig: Vec::new(),
            files: Vec::new(),
            create_denied: false,
        }
    }

    /// A filesystem where nothing exists and directory creation fails.
    pub fn new_denying_creation() -> (r: MockFsInt)
        ensures
            forall|path: Seq<char>| !r.exists_model(path),
            forall|path: Seq<char>| !r.is_directory_model(path),
            forall|path: Seq<char>| !r.is_absolute_model(path),
            forall|path: Seq<char>| r.file_model(path).is_none(),
            r.spec_create_denied(),
    {
        MockFsInt {
            exists_rig: Vec::new(),
            dir_rig: Vec::new(),
            absolute_rig: Vec::new(),
            files: Vec::new(),
            create_denied: true,
        }
    }

    /// Rigs the existence probe for one path; other probes are unaffected.
    pub fn expect_and_rig_exists(&mut self, path: &str, answer: bool)
        ensures
            final(self).exists_model(path@) == answer,
            forall|q: Seq<char>| q != path@ ==> final(self).exists_model(q) == old(
                self,
            ).exists_model(q),
            forall|q: Seq<char>| final(self).is_directory_model(q) == old(
                self,
            ).is_directory_model(q),
            forall|q: Seq<char>| final(self).is_absolute_model(q) == old(self).is_absolute_model(
                q,
            ),
            forall|q: Seq<char>| final(self).file_model(q) == old(self).file_model(q),
            final(self).spec_create_denied() == old(self).spec_create_denied(),
    {
        self.rig_exists(path, answer);
    }

    /// Rigs the is-directory probe for one path; other probes are unaffected.
    pub fn expect_and_rig_is_directory(&mut self, path: &str, answer: bool)
        ensures
            final(self).is_directory_model(path@) == answer,
            forall|q: Seq<char>| q != path@ ==> final(self).is_directory_model(q) == old(
                self,
            ).is_directory_model(q),
            forall|q: Seq<char>| final(self).exists_model(q) == old(self).exists_model(q),
            forall|q: Seq<char>| final(self).is_absolute_model(q) == old(self).is_absolute_model(
                q,
            ),
            forall|q: Seq<char>| final(self).file_model(q) == old(self).file_model(q),
            final(self).spec_create_denied() == old(self).spec_create_denied(),
    {
        self.rig_is_directory(path, answer);
    }

    /// Rigs the is-absolute probe for one path; other probes are unaffected.
    pub fn expect_and_rig_is_absolute(&mut self, path: &str, answer: bool)
        ensures
            final(self).is_absolute_model(path@) == answer,
            forall|q: Seq<char>| q != path@ ==> final(self).is_absolute_model(q) == old(
                self,
            ).is_absolute_model(q),
            forall|q: Seq<char>| final(self).exists_model(q) == old(self).exists_model(q),
            forall|q: Seq<char>| final(self).is_directory_model(q) == old(
                self,
            ).is_directory_model(q),
            forall|q: Seq<char>| final(self).file_model(q) == old(self).file_model(q),
            final(self).spec_create_denied() == old(self).spec_create_denied(),
    {
        let ghost old_rig = self.absolute_rig@;
        let entry = (path.to_owned(), answer);
        self.absolute_rig.insert(0, entry);
        proof {
            assert forall|q: Seq<char>| q != path@ implies self.is_absolute_model(q) == old(
                self,
            ).is_absolute_model(q) by {
                lemma_lookup_prepend(entry, old_rig, q, 0);
            }
        }
    }

    /// Rigs the content of one file; other files are unaffected.
    pub fn expect_and_rig_file(&mut self, path: &str, content: String)
        ensures
            final(self).file_model(path@) == Some(content@),
            forall|q: Seq<char>| q != path@ ==> final(self).file_model(q) == old(self).file_model(
                q,
            ),
            forall|q: Seq<char>| final(self).exists_model(q) == old(self).exists_model(q),
            forall|q: Seq<char>| final(self).is_directory_model(q) == old(
                self,
            ).is_directory_model(q),
            forall|q: Seq<char>| final(self).is_absolute_model(q) == old(self).is_absolute_model(
                q,
            ),
            final(self).spec_create_denied() == old(self).spec_create_denied(),
    {
        let ghost old_files = self.files@;
        let entry = (path.to_owned(), content);
        self.files.insert(0, entry);
        proof {
            assert forall|q: Seq<char>| q != path@ implies self.file_model(q) == old(
                self,
            ).file_model(q) by {
                lemma_lookup_prepend(entry, old_files, q, 0);
            }
        }
    }

    fn rig_exists(&mut self, path: &str, answer: bool)
        ensures
            final(self).exists_model(path@) == answer,
            forall|q: Seq<char>| q != path@ ==> final(self).exists_model(q) == old(
                self,
            ).exists_model(q),
            forall|q: Seq<char>| final(self).is_directory_model(q) == old(
                self,
            ).is_directory_model(q),
            forall|q: Seq<char>| final(self).is_absolute_model(q) == old(self).is_absolute_model(
                q,
            ),
            forall|q: Seq<char>| final(self).file_model(q) == old(self).file_model(q),
            final(self).create_denied == old(self).create_denied,
            final(self).dir_rig == old(self).dir_rig,
    {
        let ghost old_rig = self.exists_rig@;
        let entry = (path.to_owned(), answer);
        self.exists_rig.insert(0, entry);
        proof {
            assert forall|q: Seq<char>| q != path@ implies self.exists_model(q) == old(
                self,
            ).exists_model(q) by {
                lemma_lookup_prepend(entry, old_rig, q, 0);
            }
        }
    }

    fn rig_is_directory(&mut self, path: &str, answer: bool)
        ensures
            final(self).is_directory_model(path@) == answer,
            forall|q: Seq<char>| q != path@ ==> final(self).is_directory_model(q) == old(
                self,
            ).is_directory_model(q),
            forall|q: Seq<char>| final(self).exists_model(q) == old(self).exists_model(q),
            forall|q: Seq<char>| final(self).is_absolute_model(q) == old(self).is_absolute_model(
                q,
            ),
            forall|q: Seq<char>| final(self).file_model(q) == old(self).file_model(q),
            final(self).create_denied == old(self).create_denied,
    {
        let ghost old_rig = self.dir_rig@;
        let entry = (path.to_owned(), answer);
        self.dir_rig.insert(0, entry);
        proof {
            assert forall|q: Seq<char>| q != path@ implies self.is_directory_model(q) == old(
                self,
            ).is_directory_model(q) by {
                lemma_lookup_prepend(entry, old_rig, q, 0);
            }
        }
    }
}

} // verus!
