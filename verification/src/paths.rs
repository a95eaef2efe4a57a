//! Path handling on plain strings with `/` separators: file names, parents,
//! joining, and prefix containment of canonical paths.

use vstd::prelude::*;

use crate::text::{rfind_char, str_eq, str_starts_with, spec_starts_with};
use vstd::string::StringExecFns;

verus! {

/// The index of the last `/` in `p`, or `-1` when there is none.
pub open spec fn spec_last_slash(p: Seq<char>) -> int
    decreases p.len(),
{
    if p.len() == 0 {
        -1
    } else if p.last() == '/' {
        p.len() - 1
    } else {
        spec_last_slash(p.drop_last())
    }
}

/// The part of `p` after its last `/` (all of `p` when it has none).
pub open spec fn spec_file_name(p: Seq<char>) -> Seq<char> {
    p.subrange(spec_last_slash(p) + 1, p.len() as int)
}

/// The part of `p` before its last `/`, or nothing when it has none.
pub open spec fn spec_parent(p: Seq<char>) -> Option<Seq<char>> {
    if spec_last_slash(p) < 0 {
        None
    } else {
        Some(p.subrange(0, spec_last_slash(p)))
    }
}

proof fn lemma_last_slash_of(p: Seq<char>, k: int)
    requires
        -1 <= k < p.len(),
        k >= 0 ==> p[k] == '/',
        forall|j: int| k < j < p.len() ==> p[j] != '/',
    ensures
        spec_last_slash(p) == k,
    decreases p.len(),
{
    if p.len() > 0 && p.last() != '/' {
        assert(k < p.len() - 1);
        lemma_last_slash_of(p.drop_last(), k);
    }
}

/// Executable mirror of `spec_file_name`.
pub fn file_name_of(p: &str) -> (r: String)
    ensures
        r@ == spec_file_name(p@),
{
    let n = p.unicode_len();
    match rfind_char(p, '/') {
        Some(i) => {
            proof {
                lemma_last_slash_of(p@, i as int);
            }
            let sub = p.substring_char(i + 1, n);
            String::from_str(sub)
        },
        None => {
            proof {
                lemma_last_slash_of(p@, -1);
                assert(p@.subrange(0, p@.len() as int) =~= p@);
            }
            String::from_str(p)
        },
    }
}

/// Executable mirror of `spec_parent`.
pub fn parent_of(p: &str) -> (r: Option<String>)
    ensures
        match r {
            Some(q) => spec_parent(p@) == Some(q@),
            None => spec_parent(p@) is None,
        },
{
    match rfind_char(p, '/') {
        Some(i) => {
            proof {
                lemma_last_slash_of(p@, i as int);
            }
            let sub = p.substring_char(0, i);
            Some(String::from_str(sub))
        },
        None => {
            proof {
                lemma_last_slash_of(p@, -1);
            }
            None
        },
    }
}

/// `base` and `rel` joined with a single `/`; an absolute `rel` replaces
/// `base` outright, as filesystem path joining does.
pub open spec fn spec_path_join(base: Seq<char>, rel: Seq<char>) -> Seq<char> {
    if rel.len() > 0 && rel[0] == '/' {
        rel
    } else if base.len() > 0 && base.last() == '/' {
        base + rel
    } else {
        base + seq!['/'] + rel
    }
}

/// Executable mirror of `spec_path_join`.
pub fn path_join(base: &str, rel: &str) -> (r: String)
    ensures
        r@ == spec_path_join(base@, rel@),
{
    let rn = rel.unicode_len();
    if rn > 0 && rel.get_char(0) == '/' {
        return String::from_str(rel);
    }
    let bn = base.unicode_len();
    let mut out = String::from_str(base);
    if !(bn > 0 && base.get_char(bn - 1) == '/') {
        out.append("/");
        proof {
            reveal_strlit("/");
            assert(out@ =~= base@ + seq!['/']);
        }
    }
    out.append(rel);
    proof {
        if bn > 0 && base@.last() == '/' {
        } else {
            assert(out@ =~= base@ + seq!['/'] + rel@);
        }
    }
    out
}

/// Whether canonical path `child` lies at or under canonical path `base`:
/// equal, or extending it across a `/` boundary.
pub open spec fn spec_path_within(child: Seq<char>, base: Seq<char>) -> bool {
    ||| child == base
    ||| (spec_starts_with(child, base) && base.len() > 0 && base.last() == '/')
    ||| (spec_starts_with(child, base) && child.len() > base.len() && child[base.len() as int]
        == '/')
}

/// Executable mirror of `spec_path_within`.
pub fn path_within(child: &str, base: &str) -> (r: bool)
    ensures
        r == spec_path_within(child@, base@),
{
    if str_eq(child, base) {
        return true;
    }
    if !str_starts_with(child, base) {
        return false;
    }
    let bn = base.unicode_len();
    if bn > 0 && base.get_char(bn - 1) == '/' {
        return true;
    }
    let cn = child.unicode_len();
    cn > bn && child.get_char(bn) == '/'
}

} // verus!
