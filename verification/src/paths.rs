//! Path values are plain strings; joining follows the platform convention of
//! appending a separator only when one is needed, and letting an absolute
//! suffix replace the base outright.

use vstd::prelude::*;
use vstd::string::StrSliceExecFns;
use vstd::string::StringExecFns;

verus! {

/// What joining `suffix` onto `base` yields.
pub open spec fn join_model(base: Seq<char>, suffix: Seq<char>) -> Seq<char> {
    if suffix.len() > 0 && suffix[0] == '/' {
        suffix
    } else if base.len() == 0 {
        suffix
    } else if base[base.len() - 1] == '/' {
        base + suffix
    } else {
        base + seq!['/'] + suffix
    }
}

/// Joins an application- or category-specific suffix onto a base directory.
pub fn join_path(base: &str, suffix: &str) -> (r: String)
    ensures
        r@ == join_model(base@, suffix@),
{
    let suffix_len = suffix.unicode_len();
    if suffix_len > 0 && suffix.get_char(0) == '/' {
        return suffix.to_owned();
    }
    let base_len = base.unicode_len();
    if base_len == 0 {
        return suffix.to_owned();
    }
    let mut r = String::from_str(base);
    if base.get_char(base_len - 1) != '/' {
        r.append("/");
        proof {
            reveal_strlit("/");
            assert(r@ =~= base@ + seq!['/']);
        }
    }
    r.append(suffix);
    proof {
        if base@[base@.len() - 1] == '/' {
            assert(r@ =~= base@ + suffix@);
        } else {
            assert(r@ =~= base@ + seq!['/'] + suffix@);
        }
    }
    r
}

} // verus!
