//! Config-template materialization: three first-occurrence-only textual
//! substitutions (`%world%`, `%dimension%`, `%name%`) applied to the
//! renderer's plain-text config template.
use vstd::prelude::*;
use crate::map::Dimension;

verus! {

/// The pattern occurs in `text` starting at position `i`.
pub open spec fn match_at(text: Seq<char>, pat: Seq<char>, i: int) -> bool {
    &&& 0 <= i
    &&& i + pat.len() <= text.len()
    &&& text.subrange(i, i + pat.len()) == pat
}

/// Position of the first occurrence of `pat` in `text` at or after `i`,
/// if any.
pub open spec fn first_match_from(text: Seq<char>, pat: Seq<char>, i: int) -> Option<int>
    recommends
        0 <= i,
    decreases text.len() + 1 - i,
{
    if i < 0 || i + pat.len() > text.len() {
        None
    } else if match_at(text, pat, i) {
        Some(i)
    } else {
        first_match_from(text, pat, i + 1)
    }
}

/// `text` with the first occurrence of `pat` (and only that occurrence)
/// replaced by `repl`; `text` unchanged when `pat` does not occur.
pub open spec fn replace_first_spec(text: Seq<char>, pat: Seq<char>, repl: Seq<char>) -> Seq<
    char,
> {
    match first_match_from(text, pat, 0) {
        Some(i) => text.take(i) + repl + text.skip(i + pat.len() as int),
        None => text,
    }
}

/// The fully materialized config: `%world%`, `%dimension%` and `%name%`
/// each replaced once, first occurrence only, in that order.
pub open spec fn materialized_config(
    template: Seq<char>,
    world: Seq<char>,
    dimension: Dimension,
    name: Seq<char>,
) -> Seq<char> {
    replace_first_spec(
        replace_first_spec(
            replace_first_spec(template, "%world%"@, world),
            "%dimension%"@,
            dimension.name_spec(),
        ),
        "%name%"@,
        name,
    )
}

/// A first match at or after `j` lies no earlier than `j`, is a real match,
/// and nothing between `j` and it matches.
proof fn lemma_first_match_some(text: Seq<char>, pat: Seq<char>, j: int, i: int)
    requires
        0 <= j,
        first_match_from(text, pat, j) == Some(i),
    ensures
        j <= i,
        match_at(text, pat, i),
        forall|k: int| j <= k < i ==> !match_at(text, pat, k),
    decreases text.len() + 1 - j,
{
    if !match_at(text, pat, j) {
        lemma_first_match_some(text, pat, j + 1, i);
    }
}

/// First-occurrence-only substitution law: when `pat` occurs at `i` and at
/// no earlier position, the replacement touches exactly the occurrence at
/// `i` — the text before it and the text after it (including any later
/// occurrence of `pat`) survive unchanged.
pub proof fn lemma_replace_first_occurrence_only(
    text: Seq<char>,
    pat: Seq<char>,
    repl: Seq<char>,
    i: int,
)
    requires
        match_at(text, pat, i),
        forall|k: int| 0 <= k < i ==> !match_at(text, pat, k),
    ensures
        replace_first_spec(text, pat, repl) == text.take(i) + repl + text.skip(
            i + pat.len() as int,
        ),
        replace_first_spec(text, pat, repl).skip(i + repl.len() as int) == text.skip(
            i + pat.len() as int,
        ),
    decreases i,
{
    lemma_first_match_steps(text, pat, 0, i);
    let r = text.take(i) + repl + text.skip(i + pat.len() as int);
    assert(r.skip(i + repl.len() as int) =~= text.skip(i + pat.len() as int));
}

/// A match at `i` with no earlier match pins the first match from `j <= i`.
proof fn lemma_first_match_steps(text: Seq<char>, pat: Seq<char>, j: int, i: int)
    requires
        0 <= j <= i,
        match_at(text, pat, i),
        forall|k: int| j <= k < i ==> !match_at(text, pat, k),
    ensures
        first_match_from(text, pat, j) == Some(i),
    decreases i - j,
{
    if j < i {
        lemma_first_match_steps(text, pat, j + 1, i);
    }
}

/// Position of the first occurrence of `pat` in `text`, if any.
fn find_first(text: &str, pat: &str) -> (r: Option<usize>)
    ensures
        match r {
            Some(i) => first_match_from(text@, pat@, 0) == Some(i as int),
            None => first_match_from(text@, pat@, 0) is None,
        },
{
    let n = text.unicode_len();
    let m = pat.unicode_len();
    if m > n {
        proof {
            lemma_first_match_none_short(text@, pat@, 0);
        }
        return None;
    }
    let mut i: usize = 0;
    while i <= n - m
        invariant
            n == text@.len(),
            m == pat@.len(),
            m <= n,
            0 <= i <= n - m + 1,
            first_match_from(text@, pat@, 0) == first_match_from(text@, pat@, i as int),
        decreases n - m - i + 1,
    {
        if matches_at(text, pat, i) {
            return Some(i);
        }
        proof {
            assert(!match_at(text@, pat@, i as int));
            if m == 0 {
                assert(text@.subrange(i as int, i as int) =~= pat@);
            }
        }
        i += 1;
    }
    proof {
        assert(first_match_from(text@, pat@, i as int) is None);
    }
    None
}

/// Whether `pat` occurs in `text` starting exactly at position `i`.
fn matches_at(text: &str, pat: &str, i: usize) -> (r: bool)
    requires
        i + pat@.len() <= text@.len(),
        text@.len() <= usize::MAX,
    ensures
        r == match_at(text@, pat@, i as int),
{
    let m = pat.unicode_len();
    let mut j: usize = 0;
    while j < m
        invariant
            m == pat@.len(),
            i + m <= text@.len(),
            text@.len() <= usize::MAX,
            0 <= j <= m,
            forall|k: int| 0 <= k < j ==> text@[i + k] == pat@[k],
        decreases m - j,
    {
        if text.get_char(i + j) != pat.get_char(j) {
            proof {
                assert(text@.subrange(i as int, i + m as int)[j as int] != pat@[j as int]);
            }
            return false;
        }
        j += 1;
    }
    proof {
        assert(text@.subrange(i as int, i + m as int) =~= pat@);
    }
    true
}

/// No match can start where the pattern would overrun the text.
proof fn lemma_first_match_none_short(text: Seq<char>, pat: Seq<char>, j: int)
    requires
        0 <= j,
        j + pat.len() > text.len(),
    ensures
        first_match_from(text, pat, j) is None,
{
}

/// `text` with the first occurrence of `pat` replaced by `repl`; `text`
/// unchanged when `pat` does not occur.
pub fn replace_first(text: &str, pat: &str, repl: &str) -> (r: String)
    ensures
        r@ == replace_first_spec(text@, pat@, repl@),
{
    match find_first(text, pat) {
        None => text.to_owned(),
        Some(i) => {
            proof {
                lemma_first_match_some(text@, pat@, 0, i as int);
            }
            let n = text.unicode_len();
            let m = pat.unicode_len();
            let head = text.substring_char(0, i);
            let tail = text.substring_char(i + m, n);
            let mut out = head.to_owned();
            out.append(repl);
            out.append(tail);
            proof {
                assert(out@ =~= text@.take(i as int) + repl@ + text@.skip(i + m as int));
            }
            out
        },
    }
}

/// Materialize a config template: replace the first occurrence of `%world%`
/// with the extracted-world path, then the first occurrence of
/// `%dimension%` with the dimension's lowercase name, then the first
/// occurrence of `%name%` with the destination's final path component.
pub fn materialize_template(template: &str, world: &str, dimension: Dimension, name: &str) -> (r:
    String)
    ensures
        r@ == materialized_config(template@, world@, dimension, name@),
{
    let a = replace_first(template, "%world%", world);
    let dim = dimension.name();
    let b = replace_first(a.as_str(), "%dimension%", dim.as_str());
    let c = replace_first(b.as_str(), "%name%", name);
    c
}

} // verus!
