//! Path-text helpers: splitting a `/`-separated path into its parent prefix
//! and final component. Paths are handled as plain text throughout.
use vstd::prelude::*;

verus! {

/// The text after the last `/` of `s` (all of `s` when it has no `/`,
/// empty when `s` ends with `/`).
pub open spec fn after_last_slash(s: Seq<char>) -> Seq<char>
    decreases s.len(),
{
    if s.len() == 0 {
        Seq::empty()
    } else if s.last() == '/' {
        Seq::empty()
    } else {
        after_last_slash(s.drop_last()).push(s.last())
    }
}

/// Whether `s` contains a `/`.
pub open spec fn has_slash(s: Seq<char>) -> bool {
    exists|i: int| 0 <= i < s.len() && s[i] == '/'
}

/// With a last slash at `k`, the final component is everything after `k`.
proof fn lemma_after_last_slash_at(s: Seq<char>, k: int)
    requires
        0 <= k < s.len(),
        s[k] == '/',
        forall|j: int| k < j < s.len() ==> s[j] != '/',
    ensures
        after_last_slash(s) == s.skip(k + 1),
    decreases s.len(),
{
    if k == s.len() - 1 {
        assert(after_last_slash(s) =~= s.skip(k + 1));
    } else {
        lemma_after_last_slash_at(s.drop_last(), k);
        assert(after_last_slash(s.drop_last()).push(s.last()) =~= s.skip(k + 1));
    }
}

/// Without any slash, the final component is the whole text.
proof fn lemma_after_last_slash_none(s: Seq<char>)
    requires
        forall|j: int| 0 <= j < s.len() ==> s[j] != '/',
    ensures
        after_last_slash(s) == s,
    decreases s.len(),
{
    if s.len() > 0 {
        lemma_after_last_slash_none(s.drop_last());
        assert(after_last_slash(s.drop_last()).push(s.last()) =~= s);
    }
}

/// Split a path into the prefix before its last `/` (absent when the path
/// has no `/`) and its final component.
pub fn split_final(path: &str) -> (r: (Option<String>, String))
    ensures
        r.1@ == after_last_slash(path@),
        match r.0 {
            Some(p) => has_slash(path@) && p@ == path@.take(
                path@.len() - after_last_slash(path@).len() - 1,
            ),
            None => !has_slash(path@),
        },
{
    let n = path.unicode_len();
    let mut k = n;
    while k > 0
        invariant
            n == path@.len(),
            0 <= k <= n,
            forall|j: int| k <= j < n ==> path@[j] != '/',
        decreases k,
    {
        if path.get_char(k - 1) == '/' {
            proof {
                lemma_after_last_slash_at(path@, k - 1);
            }
            let parent = path.substring_char(0, k - 1);
            let name = path.substring_char(k, n);
            proof {
                assert(path@.subrange(k as int, n as int) =~= path@.skip(k as int));
                assert(path@.subrange(0, k - 1) =~= path@.take(
                    path@.len() - after_last_slash(path@).len() - 1,
                ));
            }
            return (Some(parent.to_owned()), name.to_owned());
        }
        k -= 1;
    }
    proof {
        lemma_after_last_slash_none(path@);
    }
    (None, path.to_owned())
}

} // verus!
