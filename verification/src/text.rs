//! Literal substitution on byte strings.
//!
//! The template compositor works by replacing every occurrence of a
//! placeholder token with a substitute, scanning left to right and never
//! rescanning inserted text — the semantics of `str::replace`.

use vstd::prelude::*;

verus! {

/// True when `pat` occurs in `text` starting at index `i`.
pub open spec fn match_at(text: Seq<u8>, pat: Seq<u8>, i: int) -> bool {
    &&& 0 <= i
    &&& i + pat.len() <= text.len()
    &&& text.subrange(i, i + pat.len() as int) == pat
}

/// True when `pat` occurs somewhere in `text`.
pub open spec fn occurs(text: Seq<u8>, pat: Seq<u8>) -> bool {
    exists|i: int| match_at(text, pat, i)
}

/// The least index at or after `from` where `pat` occurs in `text`,
/// or `None` when there is no such index.
pub open spec fn find_from(text: Seq<u8>, pat: Seq<u8>, from: nat) -> Option<int>
    decreases text.len() - from,
    via find_from_decreases
{
    if from + pat.len() > text.len() {
        None
    } else if match_at(text, pat, from as int) {
        Some(from as int)
    } else {
        find_from(text, pat, (from + 1) as nat)
    }
}

#[via_fn]
proof fn find_from_decreases(text: Seq<u8>, pat: Seq<u8>, from: nat) {
    if from + pat.len() <= text.len() && !match_at(text, pat, from as int) && pat.len() == 0 {
        assert(text.subrange(from as int, from as int) =~= pat);
    }
}

/// What `find_from` returns is the first match: a match at the returned
/// index and at no earlier index at or after `from`.
pub proof fn lemma_find_from_first(text: Seq<u8>, pat: Seq<u8>, from: nat)
    ensures
        match find_from(text, pat, from) {
            Some(i) => from <= i && match_at(text, pat, i) && forall|j: int|
                from <= j < i ==> !match_at(text, pat, j),
            None => forall|j: int| from <= j ==> !match_at(text, pat, j),
        },
    decreases text.len() - from,
{
    if from + pat.len() > text.len() {
        assert forall|j: int| from <= j implies !match_at(text, pat, j) by {
            if match_at(text, pat, j) {
                assert(j + pat.len() <= text.len());
            }
        }
    } else if match_at(text, pat, from as int) {
    } else {
        assert(pat.len() > 0) by {
            if pat.len() == 0 {
                assert(text.subrange(from as int, from as int) =~= pat);
            }
        }
        lemma_find_from_first(text, pat, (from + 1) as nat);
    }
}

/// `text` with every occurrence of `pat` replaced by `sub`, scanning left
/// to right; text inserted by a substitution is not scanned again.
pub open spec fn replace_all_spec(text: Seq<u8>, pat: Seq<u8>, sub: Seq<u8>) -> Seq<u8>
    decreases text.len(),
    when pat.len() > 0
    via replace_all_spec_decreases
{
    match find_from(text, pat, 0) {
        None => text,
        Some(i) => text.subrange(0, i) + sub + replace_all_spec(
            text.subrange(i + pat.len() as int, text.len() as int),
            pat,
            sub,
        ),
    }
}

#[via_fn]
proof fn replace_all_spec_decreases(text: Seq<u8>, pat: Seq<u8>, sub: Seq<u8>) {
    lemma_find_from_first(text, pat, 0);
}

/// Substituting a token that does not occur leaves the text unchanged.
pub proof fn lemma_substitution_unchanged(text: Seq<u8>, pat: Seq<u8>, sub: Seq<u8>)
    requires
        pat.len() > 0,
        !occurs(text, pat),
    ensures
        replace_all_spec(text, pat, sub) == text,
{
    lemma_find_from_first(text, pat, 0);
    if find_from(text, pat, 0) is Some {
        let i = find_from(text, pat, 0)->Some_0;
        assert(match_at(text, pat, i));
        assert(occurs(text, pat));
    }
}

/// Substituting a token that occurs somewhere in the text makes the
/// substitute occur in the result.
pub proof fn lemma_substitution_inserts(text: Seq<u8>, pat: Seq<u8>, sub: Seq<u8>)
    requires
        pat.len() > 0,
        occurs(text, pat),
    ensures
        occurs(replace_all_spec(text, pat, sub), sub),
{
    lemma_find_from_first(text, pat, 0);
    let k = choose|k: int| match_at(text, pat, k);
    assert(k + pat.len() <= text.len());
    if find_from(text, pat, 0) is Some {
        let i = find_from(text, pat, 0)->Some_0;
        let out = replace_all_spec(text, pat, sub);
        let rest = replace_all_spec(text.subrange(i + pat.len() as int, text.len() as int), pat, sub);
        assert(out == text.subrange(0, i) + sub + rest);
        assert(out.subrange(i, i + sub.len() as int) =~= sub);
        assert(match_at(out, sub, i));
    }
}

/// Compares `pat` against `text` at position `i`.
fn is_match_at(text: &Vec<u8>, pat: &Vec<u8>, i: usize) -> (r: bool)
    requires
        i + pat@.len() <= text@.len(),
    ensures
        r == match_at(text@, pat@, i as int),
{
    let tlen: usize = text.len();
    let mut k: usize = 0;
    while k < pat.len()
        invariant
            i + pat@.len() <= text@.len(),
            tlen == text@.len(),
            k <= pat@.len(),
            forall|m: int| 0 <= m < k ==> text@[i + m] == pat@[m],
        decreases pat@.len() - k,
    {
        if text[i + k] != pat[k] {
            proof {
                assert(!match_at(text@, pat@, i as int)) by {
                    if match_at(text@, pat@, i as int) {
                        assert(text@.subrange(i as int, i + pat@.len() as int)[k as int]
                            == pat@[k as int]);
                    }
                }
            }
            return false;
        }
        k += 1;
    }
    proof {
        assert(text@.subrange(i as int, i + pat@.len() as int) =~= pat@);
    }
    true
}

/// Finds the first occurrence of `pat` in `text` at or after `from`.
pub fn find_sub(text: &Vec<u8>, pat: &Vec<u8>, from: usize) -> (r: Option<usize>)
    requires
        from <= text@.len(),
    ensures
        match r {
            Some(i) => find_from(text@, pat@, from as nat) == Some(i as int),
            None => find_from(text@, pat@, from as nat) is None,
        },
{
    let mut i: usize = from;
    loop
        invariant
            from <= i <= text@.len(),
            find_from(text@, pat@, from as nat) == find_from(text@, pat@, i as nat),
        decreases text@.len() - i,
    {
        if pat.len() > text.len() - i {
            return None;
        }
        if is_match_at(text, pat, i) {
            return Some(i);
        }
        proof {
            assert(pat@.len() > 0) by {
                if pat@.len() == 0 {
                    assert(text@.subrange(i as int, i as int) =~= pat@);
                }
            }
        }
        i = i + 1;
    }
}

/// Appends `text[start..end]` to `out`.
pub fn push_range(out: &mut Vec<u8>, text: &Vec<u8>, start: usize, end: usize)
    requires
        start <= end <= text@.len(),
    ensures
        final(out)@ == old(out)@ + text@.subrange(start as int, end as int),
{
    let mut k: usize = start;
    while k < end
        invariant
            start <= k <= end <= text@.len(),
            out@ == old(out)@ + text@.subrange(start as int, k as int),
        decreases end - k,
    {
        out.push(text[k]);
        proof {
            assert(text@.subrange(start as int, k + 1 as int) =~= text@.subrange(
                start as int,
                k as int,
            ).push(text@[k as int]));
        }
        k += 1;
    }
}

/// Copies `text[start..end]` into a fresh vector.
pub fn copy_range(text: &Vec<u8>, start: usize, end: usize) -> (r: Vec<u8>)
    requires
        start <= end <= text@.len(),
    ensures
        r@ == text@.subrange(start as int, end as int),
{
    let mut out: Vec<u8> = Vec::new();
    push_range(&mut out, text, start, end);
    out
}

/// Relates a search in a suffix of `text` to a search in `text` itself.
proof fn lemma_find_shift(text: Seq<u8>, pat: Seq<u8>, pos: nat, d: nat)
    requires
        pos <= text.len(),
    ensures
        ({
            let suf = text.subrange(pos as int, text.len() as int);
            match find_from(suf, pat, d) {
                None => find_from(text, pat, (pos + d) as nat) is None,
                Some(i) => find_from(text, pat, (pos + d) as nat) == Some(i + pos),
            }
        }),
    decreases text.len() - pos - d,
{
    let suf = text.subrange(pos as int, text.len() as int);
    if d + pat.len() > suf.len() {
    } else {
        assert(suf.subrange(d as int, d + pat.len() as int) =~= text.subrange(
            (pos + d) as int,
            pos + d + pat.len() as int,
        ));
        if match_at(suf, pat, d as int) {
            assert(match_at(text, pat, (pos + d) as int));
        } else {
            assert(!match_at(text, pat, (pos + d) as int));
            assert(pat.len() > 0) by {
                if pat.len() == 0 {
                    assert(suf.subrange(d as int, d as int) =~= pat);
                }
            }
            lemma_find_shift(text, pat, pos, (d + 1) as nat);
        }
    }
}

/// Replaces every occurrence of `pat` in `text` by `sub`, scanning left to
/// right, as `str::replace` does on byte strings.
pub fn replace_all(text: &Vec<u8>, pat: &Vec<u8>, sub: &Vec<u8>) -> (out: Vec<u8>)
    requires
        pat@.len() > 0,
    ensures
        out@ == replace_all_spec(text@, pat@, sub@),
{
    let mut out: Vec<u8> = Vec::new();
    let mut pos: usize = 0;
    proof {
        assert(text@.subrange(0, text@.len() as int) =~= text@);
        assert(out@ + replace_all_spec(text@, pat@, sub@) =~= replace_all_spec(
            text@,
            pat@,
            sub@,
        ));
    }
    let tlen: usize = text.len();
    loop
        invariant
            pat@.len() > 0,
            pos <= text@.len(),
            tlen == text@.len(),
            replace_all_spec(text@, pat@, sub@) == out@ + replace_all_spec(
                text@.subrange(pos as int, text@.len() as int),
                pat@,
                sub@,
            ),
        decreases text@.len() - pos,
    {
        let ghost suf = text@.subrange(pos as int, text@.len() as int);
        match find_sub(text, pat, pos) {
            None => {
                proof {
                    lemma_find_shift(text@, pat@, pos as nat, 0);
                    assert(find_from(suf, pat@, 0) is None) by {
                        if find_from(suf, pat@, 0) is Some {
                            lemma_find_from_first(suf, pat@, 0);
                        }
                    }
                    assert(replace_all_spec(suf, pat@, sub@) == suf);
                }
                push_range(&mut out, text, pos, text.len());
                return out;
            },
            Some(i) => {
                proof {
                    lemma_find_from_first(text@, pat@, pos as nat);
                    lemma_find_shift(text@, pat@, pos as nat, 0);
                    assert(find_from(suf, pat@, 0) is Some) by {
                        if find_from(suf, pat@, 0) is None {
                            assert(find_from(text@, pat@, pos as nat) is None);
                        }
                    }
                    let j = find_from(suf, pat@, 0)->Some_0;
                    assert(Some(j + pos) == Some(i as int));
                    assert(j == i - pos);
                    assert(i + pat@.len() <= text@.len());
                    assert(replace_all_spec(suf, pat@, sub@) == suf.subrange(0, j) + sub@
                        + replace_all_spec(suf.subrange(j + pat@.len() as int, suf.len() as int), pat@, sub@));
                    lemma_find_from_first(suf, pat@, 0);
                    assert(suf.subrange(0, j) =~= text@.subrange(pos as int, i as int));
                    assert(suf.subrange(j + pat@.len() as int, suf.len() as int) =~= text@.subrange(
                        i + pat@.len() as int,
                        text@.len() as int,
                    ));
                }
                push_range(&mut out, text, pos, i);
                push_range(&mut out, sub, 0, sub.len());
                proof {
                    assert(sub@.subrange(0, sub@.len() as int) =~= sub@);
                }
                pos = i + pat.len();
            },
        }
    }
}

} // verus!
