//! Reduction of a version-constraint string to a concrete version
//! token: a leading caret or tilde range operator is stripped and the
//! remainder is kept verbatim. This is a documented simplification:
//! the token is treated as an exact version, and real range
//! resolution is out of scope.
use vstd::prelude::*;
use vstd::string::StrSliceExecFns;

verus! {

/// What `normalize` returns: the constraint without a leading `^` or
/// `~`, and otherwise the constraint itself.
pub open spec fn normalize_spec(s: Seq<char>) -> Seq<char> {
    if s.len() > 0 && (s[0] == '^' || s[0] == '~') {
        s.subrange(1, s.len() as int)
    } else {
        s
    }
}

/// Strips one leading `^` or `~` range operator from a constraint and
/// returns the remainder verbatim.
pub fn normalize(constraint: &str) -> (r: String)
    ensures
        r@ == normalize_spec(constraint@),
{
    let n = constraint.unicode_len();
    if n > 0 {
        let c = constraint.get_char(0);
        if c == '^' || c == '~' {
            return constraint.substring_char(1, n).to_owned();
        }
    }
    constraint.to_owned()
}

} // verus!
