//! Paths as text, with `/` as the separator.

use vstd::prelude::*;

verus! {

/// A path is absolute when it starts at the root.
pub open spec fn is_absolute(path: Seq<char>) -> bool {
    path.len() > 0 && path[0] == '/'
}

/// Whether a separator has to be written between `base` and what follows it:
/// not after an empty base, and not after one that already ends in `/`.
pub open spec fn needs_separator(base: Seq<char>) -> bool {
    base.len() > 0 && base.last() != '/'
}

/// `rest` adjoined to `base`. An absolute `rest` replaces `base`; otherwise
/// `rest` is written after `base`, with one separator between them where
/// `base` does not bring it. Nothing is normalised: `.` and `..` stay.
pub open spec fn joined(base: Seq<char>, rest: Seq<char>) -> Seq<char> {
    if is_absolute(rest) {
        rest
    } else if needs_separator(base) {
        base + seq!['/'] + rest
    } else {
        base + rest
    }
}

/// Whether `path` is absolute.
pub fn path_is_absolute(path: &str) -> (r: bool)
    ensures
        r == is_absolute(path@),
{
    !path.is_empty() && path.get_char(0) == '/'
}

/// Adjoins `rest` to `base`.
pub fn join(base: &str, rest: &str) -> (r: String)
    ensures
        r@ == joined(base@, rest@),
{
    if path_is_absolute(rest) {
        return String::from_str(rest);
    }
    let mut r = String::from_str(base);
    let n: usize = base.unicode_len();
    if n > 0 && base.get_char(n - 1) != '/' {
        proof {
            reveal_strlit("/");
        }
        r.append("/");
    }
    r.append(rest);
    r
}

} // verus!
