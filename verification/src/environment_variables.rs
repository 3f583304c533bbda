//! The environment accessor: a thin read of a named variable returning a path
//! or a "not present" failure. The live accessor reads the process
//! environment and lives outside the library; `MockEnvInt` is an in-memory
//! accessor for tests, rigged one variable at a time.

use vstd::prelude::*;
use crate::table::{lookup, lookup_from, lemma_lookup_prepend};

verus! {

#[derive(Debug, Copy, Clone, PartialEq, Eq, Hash, Structural)]
pub enum EnvError {
    NotPresent,
}

/// Reads environment variables. `env_model` is the accessor's view of the
/// environment: the value of each variable, or `None` where unset.
pub trait EnvInt {
    /// An accessor outside the library leaves the model unspecified.
    open spec fn env_model(&self, name: Seq<char>) -> Option<Seq<char>> {
        arbitrary()
    }

    /// The named variable read as a path.
    fn get_path_from_environment(&self, name: &str) -> (r: Result<String, EnvError>)
        ensures
            match r {
                Ok(p) => self.env_model(name@) == Some(p@),
                Err(e) => self.env_model(name@).is_none() && e == EnvError::NotPresent,
            },
    ;
}

/// What a rigged variable reads as: a value, or explicitly unset.
pub open spec fn rig_value(rig: Option<String>) -> Option<Seq<char>> {
    match rig {
        Some(v) => Some(v@),
        None => None,
    }
}

/// An in-memory environment for tests: variables read exactly what they were
/// rigged to, newest rigging first; everything else is unset.
pub struct MockEnvInt {
    vars: Vec<(String, Option<String>)>,
}

impl EnvInt for MockEnvInt {
    closed spec fn env_model(&self, name: Seq<char>) -> Option<Seq<char>> {
        match lookup(self.vars@, name) {
            Some(rig) => rig_value(rig),
            None => None,
        }
    }

    fn get_path_from_environment(&self, name: &str) -> (r: Result<String, EnvError>)
    {
        let key = name.to_owned();
        let n = self.vars.len();
        let mut i: usize = 0;
        while i < n
            invariant
                0 <= i <= n,
                n == self.vars@.len(),
                key@ == name@,
                lookup(self.vars@, name@) == lookup_from(self.vars@, name@, i as int),
            decreases n - i,
        {
            if self.vars[i].0 == key {
                match &self.vars[i].1 {
                    Some(v) => {
                        return Ok(v.clone());
                    },
                    None => {
                        return Err(EnvError::NotPresent);
                    },
                }
            }
            i += 1;
        }
        Err(EnvError::NotPresent)
    }
}

impl MockEnvInt {
    /// An environment with every variable unset.
    pub fn new() -> (r: MockEnvInt)
        ensures
            forall|name: Seq<char>| r.env_model(name).is_none(),
    {
        MockEnvInt { vars: Vec::new() }
    }

    /// Rigs `name` to read as `value`; other variables are unaffected.
    pub fn expect_and_rig(&mut self, name: &str, value: String)
        ensures
            final(self).env_model(name@) == Some(value@),
            forall|m: Seq<char>|
                m != name@ ==> final(self).env_model(m) == old(self).env_model(m),
    {
        self.rig(name, Some(value));
    }

    /// Rigs `name` to read as unset; other variables are unaffected.
    pub fn expect_and_rig_to_fail(&mut self, name: &str)
        ensures
            final(self).env_model(name@).is_none(),
            forall|m: Seq<char>|
                m != name@ ==> final(self).env_model(m) == old(self).env_model(m),
    {
        self.rig(name, None);
    }

    fn rig(&mut self, name: &str, value: Option<String>)
        ensures
            final(self).env_model(name@) == rig_value(value),
            forall|m: Seq<char>|
                m != name@ ==> final(self).env_model(m) == old(self).env_model(m),
    {
        let ghost old_vars = self.vars@;
        let entry = (name.to_owned(), value);
        self.vars.insert(0, entry);
        proof {
            assert forall|m: Seq<char>| m != name@ implies self.env_model(m) == old(
                self,
            ).env_model(m) by {
                lemma_lookup_prepend(entry, old_vars, m, 0);
            }
        }
    }
}

} // verus!
