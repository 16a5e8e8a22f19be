//! Path arithmetic on plain strings.
//!
//! The staging planner and the launcher compute every destination path from
//! plain string values; the functions here are the few operations they
//! need: joining with a separator, taking a path's base name, resolving a
//! possibly relative path against a working directory, and prefix tests.

use vstd::prelude::*;
use vstd::string::{StrSliceExecFns, StringExecFns};

verus! {

/// `a` followed by a path separator followed by `b`.
pub open spec fn spec_join(a: Seq<char>, b: Seq<char>) -> Seq<char> {
    a + seq!['/'] + b
}

/// The part of `s` after its last separator: the whole of `s` when it has
/// no separator, and empty when `s` ends in one.
pub open spec fn spec_base_name(s: Seq<char>) -> Seq<char>
    decreases s.len(),
{
    if s.len() == 0 {
        s
    } else if s.last() == '/' {
        Seq::empty()
    } else {
        spec_base_name(s.drop_last()).push(s.last())
    }
}

/// `p` itself when absolute, otherwise `p` joined under `cwd`.
pub open spec fn spec_resolve(cwd: Seq<char>, p: Seq<char>) -> Seq<char> {
    if p.len() > 0 && p[0] == '/' {
        p
    } else {
        spec_join(cwd, p)
    }
}

/// True when `p` is a prefix of `s`.
pub open spec fn spec_is_prefix(p: Seq<char>, s: Seq<char>) -> bool {
    p.len() <= s.len() && s.subrange(0, p.len() as int) == p
}

/// Joins a directory path and an entry name with a separator.
pub fn path_join(a: &str, b: &str) -> (r: String)
    ensures
        r@ == spec_join(a@, b@),
{
    let mut s = String::from_str(a);
    s.append("/");
    s.append(b);
    proof {
        reveal_strlit("/");
        assert(s@ =~= spec_join(a@, b@));
    }
    s
}

/// A path with no separator is its own base name.
proof fn lemma_base_name_no_slash(s: Seq<char>)
    requires
        forall|k: int| 0 <= k < s.len() ==> s[k] != '/',
    ensures
        spec_base_name(s) == s,
    decreases s.len(),
{
    if s.len() > 0 {
        lemma_base_name_no_slash(s.drop_last());
        assert(spec_base_name(s) =~= s);
    } else {
        assert(spec_base_name(s) =~= s);
    }
}

/// The base name is everything after the last separator.
proof fn lemma_base_name_after_slash(s: Seq<char>, j: int)
    requires
        0 <= j < s.len(),
        s[j] == '/',
        forall|k: int| j < k < s.len() ==> s[k] != '/',
    ensures
        spec_base_name(s) == s.subrange(j + 1, s.len() as int),
    decreases s.len(),
{
    if j == s.len() - 1 {
        assert(spec_base_name(s) =~= s.subrange(j + 1, s.len() as int));
    } else {
        assert(s.drop_last()[j] == '/');
        lemma_base_name_after_slash(s.drop_last(), j);
        assert(spec_base_name(s) =~= s.subrange(j + 1, s.len() as int));
    }
}

/// The part of `path` after its last separator.
pub fn base_name(path: &str) -> (r: String)
    ensures
        r@ == spec_base_name(path@),
{
    let n = path.unicode_len();
    let mut j: usize = n;
    while j > 0 && path.get_char(j - 1) != '/'
        invariant
            j <= n,
            n == path@.len(),
            forall|k: int| j <= k < n ==> path@[k] != '/',
        decreases j,
    {
        j = j - 1;
    }
    if j == 0 {
        proof {
            lemma_base_name_no_slash(path@);
        }
        String::from_str(path)
    } else {
        proof {
            lemma_base_name_after_slash(path@, j - 1);
        }
        let r = path.substring_char(j, n);
        String::from_str(r)
    }
}

/// Resolves `p` against the working directory `cwd`: an absolute path is
/// kept as given, a relative one is joined under `cwd`.
pub fn resolve_path(cwd: &str, p: &str) -> (r: String)
    ensures
        r@ == spec_resolve(cwd@, p@),
{
    if p.unicode_len() > 0 && p.get_char(0) == '/' {
        String::from_str(p)
    } else {
        path_join(cwd, p)
    }
}

/// True exactly when `prefix` is a prefix of `s`.
pub fn str_has_prefix(s: &str, prefix: &str) -> (b: bool)
    ensures
        b == spec_is_prefix(prefix@, s@),
{
    let sn = s.unicode_len();
    let pn = prefix.unicode_len();
    if pn > sn {
        return false;
    }
    let mut i: usize = 0;
    while i < pn
        invariant
            i <= pn <= sn,
            sn == s@.len(),
            pn == prefix@.len(),
            forall|k: int| 0 <= k < i ==> s@[k] == prefix@[k],
        decreases pn - i,
    {
        if s.get_char(i) != prefix.get_char(i) {
            proof {
                assert(s@.subrange(0, pn as int)[i as int] != prefix@[i as int]);
            }
            return false;
        }
        i = i + 1;
    }
    proof {
        assert(s@.subrange(0, pn as int) =~= prefix@);
    }
    true
}

/// Appends a suffix to a name.
pub fn with_suffix(name: &str, suffix: &str) -> (r: String)
    ensures
        r@ == name@ + suffix@,
{
    let mut s = String::from_str(name);
    s.append(suffix);
    s
}

} // verus!
