//! Joining a path segment onto a directory.

use vstd::prelude::*;

verus! {

/// The path `base` followed by the relative segment `seg`: a separator is
/// put between them unless `base` is empty or already ends with one.
pub open spec fn join_path(base: Seq<char>, seg: Seq<char>) -> Seq<char> {
    if base.len() == 0 {
        seg
    } else if base.last() == '/' {
        base + seg
    } else {
        base + seq!['/'] + seg
    }
}

/// Joins the relative segment `seg` onto the directory `base`.
pub fn join(base: &String, seg: &str) -> (r: String)
    ensures
        r@ == join_path(base@, seg@),
{
    let n = base.as_str().unicode_len();
    let mut r = base.clone();
    if n > 0 && base.as_str().get_char(n - 1) != '/' {
        r.append("/");
        proof {
            reveal_strlit("/");
        }
    }
    r.append(seg);
    r
}

/// Joining a segment onto a directory written without a trailing separator
/// puts exactly one separator between the two.
pub proof fn lemma_join_separates(base: Seq<char>, seg: Seq<char>)
    requires
        base.len() > 0,
        base.last() != '/',
    ensures
        join_path(base, seg) == base + seq!['/'] + seg,
{
}

} // verus!
