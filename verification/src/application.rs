//! Application identities and descriptors.
//!
//! An application is identified by a reverse-domain-style name (RDN) such as
//! `com.example.App`. Validity is checked once, at construction: a valid name
//! is non-empty, at most 255 characters long, contains at least one `.`
//! separator, consists only of alphanumeric characters, `_` and `.`, and each
//! `.`-delimited segment is non-empty and does not start with a numeric
//! character.

use vstd::prelude::*;
use vstd::string::StrSliceExecFns;

verus! {

#[derive(Debug, Copy, Clone, PartialEq, Eq, Hash, Structural)]
pub enum ApplicationErrors {
    InvalidName,
}

#[derive(Debug, Copy, Clone, PartialEq, Eq, Hash, Structural)]
pub enum ApplicationsType {
    Client,
    Server,
}

/// What `char::is_alphanumeric` returns for a character.
pub uninterp spec fn char_alphanumeric(c: char) -> bool;

/// What `char::is_numeric` returns for a character.
pub uninterp spec fn char_numeric(c: char) -> bool;

/// Relies on char::is_alphanumeric: the result depends on the character alone.
pub assume_specification[ char::is_alphanumeric ](c: char) -> (r: bool)
    ensures
        r == char_alphanumeric(c),
;

/// Relies on char::is_numeric: the result depends on the character alone.
pub assume_specification[ char::is_numeric ](c: char) -> (r: bool)
    ensures
        r == char_numeric(c),
;

/// Characters an RDN may contain: alphanumerics, `_`, and the `.` separator.
pub open spec fn rdn_char(c: char) -> bool {
    char_alphanumeric(c) || c == '_' || c == '.'
}

/// Position `i` starts a `.`-delimited segment of `s`.
pub open spec fn segment_start(s: Seq<char>, i: int) -> bool {
    i == 0 || s[i - 1] == '.'
}

/// A valid reverse-domain-style name: non-empty, at most 255 characters,
/// at least one separator, only permitted characters, and every segment
/// non-empty (no leading, trailing or doubled separator) and not starting
/// with a numeric character.
pub open spec fn valid_rdn(s: Seq<char>) -> bool {
    &&& 1 <= s.len() <= 255
    &&& exists|i: int| 0 <= i < s.len() && s[i] == '.'
    &&& forall|i: int| 0 <= i < s.len() ==> rdn_char(#[trigger] s[i])
    &&& forall|i: int|
        0 <= i < s.len() && #[trigger] segment_start(s, i) ==> s[i] != '.' && !char_numeric(s[i])
    &&& s[s.len() - 1] != '.'
}

/// A validated reverse-domain-style application name. Once constructed it is
/// always valid: construction is the only place validity is checked.
#[derive(Debug, Clone)]
pub struct ApplicationRDN {
    name: String,
}

impl View for ApplicationRDN {
    type V = Seq<char>;

    closed spec fn view(&self) -> Seq<char> {
        self.name@
    }
}

impl ApplicationRDN {
    /// Every constructed identity carries a valid name.
    pub open spec fn wf(&self) -> bool {
        valid_rdn(self@)
    }

    /// Validates `name` and wraps it; rejects exactly the invalid names.
    pub fn new(name: String) -> (r: Result<ApplicationRDN, ApplicationErrors>)
        ensures
            match r {
                Ok(rdn) => valid_rdn(name@) && rdn@ == name@ && rdn.wf(),
                Err(e) => !valid_rdn(name@) && e == ApplicationErrors::InvalidName,
            },
    {
        let len = name.as_str().unicode_len();
        if len == 0 || len > 255 {
            return Err(ApplicationErrors::InvalidName);
        }
        let mut seen_dot = false;
        let mut i: usize = 0;
        while i < len
            invariant
                0 < len <= 255,
                len == name@.len(),
                0 <= i <= len,
                forall|j: int| 0 <= j < i ==> rdn_char(#[trigger] name@[j]),
                forall|j: int|
                    0 <= j < i && #[trigger] segment_start(name@, j) ==> name@[j] != '.'
                        && !char_numeric(name@[j]),
                seen_dot == exists|j: int| 0 <= j < i && name@[j] == '.',
            decreases len - i,
        {
            let c = name.as_str().get_char(i);
            if !(c.is_alphanumeric() || c == '_' || c == '.') {
                assert(!rdn_char(name@[i as int]));
                return Err(ApplicationErrors::InvalidName);
            }
            let at_start = i == 0 || name.as_str().get_char(i - 1) == '.';
            if at_start {
                assert(segment_start(name@, i as int));
                if c == '.' {
                    return Err(ApplicationErrors::InvalidName);
                }
                if c.is_numeric() {
                    return Err(ApplicationErrors::InvalidName);
                }
            }
            if c == '.' {
                seen_dot = true;
                assert(name@[i as int] == '.');
            }
            i += 1;
        }
        if !seen_dot {
            return Err(ApplicationErrors::InvalidName);
        }
        if name.as_str().get_char(len - 1) == '.' {
            return Err(ApplicationErrors::InvalidName);
        }
        Ok(ApplicationRDN { name })
    }

    /// The validated name.
    pub fn name(&self) -> (r: &str)
        ensures
            r@ == self@,
    {
        self.name.as_str()
    }
}

/// A per-application descriptor: identity plus the optional homepage,
/// description and application kind read from the application's manifest.
#[derive(Debug, Clone)]
pub struct Application {
    rdn: ApplicationRDN,
    homepage: Option<String>,
    description: Option<String>,
    app_type: Option<ApplicationsType>,
}

impl Application {
    pub closed spec fn spec_rdn(&self) -> ApplicationRDN {
        self.rdn
    }

    pub closed spec fn spec_homepage(&self) -> Option<Seq<char>> {
        match self.homepage {
            Some(h) => Some(h@),
            None => None,
        }
    }

    pub closed spec fn spec_description(&self) -> Option<Seq<char>> {
        match self.description {
            Some(d) => Some(d@),
            None => None,
        }
    }

    pub closed spec fn spec_app_type(&self) -> Option<ApplicationsType> {
        self.app_type
    }

    pub fn new(
        rdn: ApplicationRDN,
        homepage: Option<String>,
        description: Option<String>,
        app_type: Option<ApplicationsType>,
    ) -> (r: Application)
        ensures
            r.spec_rdn() == rdn,
            r.spec_homepage() == (match homepage {
                Some(h) => Some(h@),
                None => None::<Seq<char>>,
            }),
            r.spec_description() == (match description {
                Some(d) => Some(d@),
                None => None::<Seq<char>>,
            }),
            r.spec_app_type() == app_type,
    {
        Application { rdn, homepage, description, app_type }
    }

    /// The identity of the application this descriptor belongs to.
    pub fn rdn(&self) -> (r: &ApplicationRDN)
        ensures
            *r == self.spec_rdn(),
    {
        &self.rdn
    }
}

} // verus!
