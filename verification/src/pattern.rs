//! Searching for a fixed pattern in a sequence.
use vstd::prelude::*;

verus! {

pub open spec fn occurs_at<T>(s: Seq<T>, pat: Seq<T>, i: int) -> bool {
    0 <= i && i + pat.len() <= s.len() && s.subrange(i, i + pat.len()) == pat
}

/// Index of the first occurrence of `pat` in `s`, or `-1`.
pub open spec fn find_pat<T>(s: Seq<T>, pat: Seq<T>) -> int
    decreases s.len(),
{
    if s.len() < pat.len() {
        -1
    } else if s.take(pat.len() as int) == pat {
        0
    } else if s.len() == 0 {
        -1
    } else {
        let r = find_pat(s.drop_first(), pat);
        if r < 0 {
            -1
        } else {
            r + 1
        }
    }
}

proof fn lemma_occurs_shift<T>(s: Seq<T>, pat: Seq<T>, k: int)
    requires
        s.len() > 0,
    ensures
        occurs_at(s.drop_first(), pat, k) <==> (k >= 0 && occurs_at(s, pat, k + 1)),
{
    if k >= 0 && k + pat.len() <= s.len() - 1 {
        assert(s.drop_first().subrange(k, k + pat.len()) =~= s.subrange(k + 1, k + 1 + pat.len()));
    }
}

pub proof fn lemma_find_pat<T>(s: Seq<T>, pat: Seq<T>)
    ensures
        -1 <= find_pat(s, pat) <= s.len(),
        find_pat(s, pat) >= 0 ==> occurs_at(s, pat, find_pat(s, pat)),
        forall|k: int|
            0 <= k && (find_pat(s, pat) < 0 || k < find_pat(s, pat)) ==> !#[trigger] occurs_at(
                s,
                pat,
                k,
            ),
    decreases s.len(),
{
    if s.len() < pat.len() {
    } else if s.take(pat.len() as int) == pat {
        assert(s.subrange(0, pat.len() as int) =~= s.take(pat.len() as int));
    } else if s.len() == 0 {
        assert(pat.len() == 0);
        assert(s.take(0) =~= pat);
    } else {
        let t = s.drop_first();
        lemma_find_pat(t, pat);
        assert(!occurs_at(s, pat, 0)) by {
            assert(s.subrange(0, pat.len() as int) =~= s.take(pat.len() as int));
        }
        let r = find_pat(t, pat);
        if r >= 0 {
            lemma_occurs_shift(s, pat, r);
        }
        assert forall|k: int|
            0 <= k && (find_pat(s, pat) < 0 || k < find_pat(s, pat)) implies !#[trigger] occurs_at(
            s,
            pat,
            k,
        ) by {
            if k > 0 {
                lemma_occurs_shift(s, pat, k - 1);
            }
        }
    }
}

/// The first occurrence is the one with no earlier occurrence.
pub proof fn lemma_find_pat_exact<T>(s: Seq<T>, pat: Seq<T>, i: int)
    requires
        forall|k: int| 0 <= k < i ==> !#[trigger] occurs_at(s, pat, k),
        i >= 0 ==> occurs_at(s, pat, i) || i + pat.len() > s.len(),
    ensures
        i >= 0 && occurs_at(s, pat, i) ==> find_pat(s, pat) == i,
        i >= 0 && !occurs_at(s, pat, i) ==> find_pat(s, pat) == -1,
{
    lemma_find_pat(s, pat);
    let f = find_pat(s, pat);
    if i >= 0 && occurs_at(s, pat, i) {
        if f >= 0 && f < i {
            assert(!occurs_at(s, pat, f));
        }
        if f < 0 || f > i {
            assert(!occurs_at(s, pat, i));
        }
    } else if i >= 0 {
        if f >= 0 {
            if f < i {
                assert(!occurs_at(s, pat, f));
            } else {
                assert(occurs_at(s, pat, f));
            }
        }
    }
}

/// Position of the first occurrence of `pat` in `s`.
pub fn find_bytes(s: &[u8], pat: &[u8]) -> (r: Option<usize>)
    requires
        pat.len() > 0,
    ensures
        match r {
            Some(i) => find_pat(s@, pat@) == i,
            None => find_pat(s@, pat@) == -1,
        },
{
    if pat.len() > s.len() {
        proof {
            lemma_find_pat_exact(s@, pat@, 0);
        }
        return None;
    }
    let last = s.len() - pat.len();
    let mut i: usize = 0;
    while i <= last
        invariant
            last == s.len() - pat.len(),
            pat.len() > 0,
            i <= last + 1,
            forall|k: int| 0 <= k < i ==> !#[trigger] occurs_at(s@, pat@, k),
        decreases last + 1 - i,
    {
        let mut j: usize = 0;
        while j < pat.len() && s[i + j] == pat[j]
            invariant
                i <= last,
                last == s.len() - pat.len(),
                j <= pat.len(),
                forall|m: int| 0 <= m < j ==> s@[i + m] == pat@[m],
            decreases pat.len() - j,
        {
            j = j + 1;
        }
        if j == pat.len() {
            proof {
                assert(s@.subrange(i as int, i + pat.len()) =~= pat@);
                lemma_find_pat_exact(s@, pat@, i as int);
            }
            return Some(i);
        }
        proof {
            assert(s@.subrange(i as int, i + pat.len())[j as int] != pat@[j as int]);
        }
        i = i + 1;
    }
    proof {
        lemma_find_pat_exact(s@, pat@, i as int);
    }
    None
}

} // verus!
