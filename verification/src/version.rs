//! Generated Codex package versions (`YYYY.MM.DD.HHMMSS[-release][+metadata]`) and
//! their order.
use vstd::prelude::*;
use crate::text::{before_first, before_first_char, common_prefix_len, parse_u32, parse_u32_chars, split_char, split_on, to_chars, usize_int, views};
use std::cmp::Ordering;

verus! {

/// Parses every piece as a `u32`; `None` when one of them does not parse.
pub open spec fn parse_all(segs: Seq<Seq<char>>) -> Option<Seq<u32>>
    decreases segs.len(),
{
    if segs.len() == 0 {
        Some(Seq::<u32>::empty())
    } else {
        match parse_u32(segs[0]) {
            None => None,
            Some(x) => match parse_all(segs.drop_first()) {
                None => None,
                Some(rest) => Some(seq![x] + rest),
            },
        }
    }
}

/// The numeric parts of a generated package version: the text before any `+` and
/// then before any `-`, split at `.`, each part a `u32`; at least three parts, the
/// first a year from 2000 to 2100.
pub open spec fn generated_version(version: Seq<char>) -> Option<Seq<u32>> {
    let base = before_first(before_first(version, '+'), '-');
    match parse_all(split_on(base, '.')) {
        Some(parts) => if parts.len() >= 3 && 2000 <= parts[0] <= 2100 {
            Some(parts)
        } else {
            None
        },
        None => None,
    }
}

/// Lexicographic order of `u32` sequences, as `Vec<u32>` orders them.
pub open spec fn lex_order(a: Seq<u32>, b: Seq<u32>) -> Ordering
    decreases a.len(),
{
    if a.len() == 0 && b.len() == 0 {
        Ordering::Equal
    } else if a.len() == 0 {
        Ordering::Less
    } else if b.len() == 0 {
        Ordering::Greater
    } else if a[0] < b[0] {
        Ordering::Less
    } else if a[0] > b[0] {
        Ordering::Greater
    } else {
        lex_order(a.drop_first(), b.drop_first())
    }
}

/// The order of two generated package versions, when both are generated versions.
pub open spec fn generated_order(left: Seq<char>, right: Seq<char>) -> Option<Ordering> {
    match (generated_version(left), generated_version(right)) {
        (Some(l), Some(r)) => Some(lex_order(l, r)),
        _ => None,
    }
}

/// Whether `candidate` is a newer generated Codex version than `installed`.
pub open spec fn generated_newer(candidate: Seq<char>, installed: Seq<char>) -> bool {
    generated_order(candidate, installed) == Some(Ordering::Greater)
}

/// Parses a generated Codex package version into its numeric parts.
pub fn parse_generated_package_version(version: &str) -> (r: Option<Vec<u32>>)
    ensures
        match r {
            Some(parts) => generated_version(version@) == Some(parts@),
            None => generated_version(version@) is None,
        },
{
    let chars = to_chars(version);
    let without_metadata = before_first_char(chars.as_slice(), '+');
    let base = before_first_char(without_metadata.as_slice(), '-');
    let segs = split_char(base.as_slice(), '.');
    let ghost all = views(segs@);
    let mut parts: Vec<u32> = Vec::new();
    let mut i: usize = 0;
    assert(all.skip(0) =~= all);
    proof {
        match parse_all(all) {
            Some(rest) => {
                assert(parts@ + rest =~= rest);
            },
            None => {},
        }
    }
    while i < segs.len()
        invariant
            i <= segs.len(),
            all == views(segs@),
            all == split_on(base@, '.'),
            base@ == before_first(before_first(version@, '+'), '-'),
            parse_all(all) == match parse_all(all.skip(i as int)) {
                Some(rest) => Some(parts@ + rest),
                None => None::<Seq<u32>>,
            },
        decreases segs.len() - i,
    {
        let ghost rest = all.skip(i as int);
        assert(rest[0] == segs@[i as int]@);
        assert(rest.drop_first() =~= all.skip(i + 1));
        match parse_u32_chars(segs[i].as_slice()) {
            None => {
                return None;
            },
            Some(x) => {
                proof {
                    match parse_all(all.skip(i + 1)) {
                        Some(tail) => {
                            assert(parts@.push(x) + tail =~= parts@ + (seq![x] + tail));
                        },
                        None => {},
                    }
                }
                parts.push(x);
            },
        }
        i = i + 1;
    }
    assert(all.skip(segs.len() as int) =~= Seq::<Seq<char>>::empty());
    assert(parts@ + Seq::<u32>::empty() =~= parts@);
    if parts.len() < 3 || !(2000 <= parts[0] && parts[0] <= 2100) {
        return None;
    }
    Some(parts)
}

/// The first differing position decides the lexicographic order.
proof fn lemma_lex_order_at(a: Seq<u32>, b: Seq<u32>, i: int)
    requires
        0 <= i <= a.len(),
        i <= b.len(),
        forall|k: int| 0 <= k < i ==> a[k] == b[k],
        i < a.len() && i < b.len() ==> a[i] != b[i],
    ensures
        lex_order(a, b) == (if i == a.len() && i == b.len() {
            Ordering::Equal
        } else if i == a.len() {
            Ordering::Less
        } else if i == b.len() {
            Ordering::Greater
        } else if a[i] < b[i] {
            Ordering::Less
        } else {
            Ordering::Greater
        }),
    decreases i,
{
    if i > 0 {
        assert(a[0] == b[0]);
        lemma_lex_order_at(a.drop_first(), b.drop_first(), i - 1);
    }
}

/// Lexicographic comparison of two `u32` sequences.
pub fn compare_parts(a: &[u32], b: &[u32]) -> (r: Ordering)
    ensures
        r == lex_order(a@, b@),
{
    let i = common_prefix_len(a, b);
    proof {
        lemma_lex_order_at(a@, b@, usize_int(i));
    }
    if i == a.len() && i == b.len() {
        Ordering::Equal
    } else if i == a.len() {
        Ordering::Less
    } else if i == b.len() {
        Ordering::Greater
    } else if a[i] < b[i] {
        Ordering::Less
    } else {
        Ordering::Greater
    }
}

/// Compares two generated package versions; `None` unless both are generated
/// versions.
pub fn compare_generated_package_versions(left: &str, right: &str) -> (r: Option<Ordering>)
    ensures
        r == generated_order(left@, right@),
{
    let l = parse_generated_package_version(left);
    let l = match l {
        Some(l) => l,
        None => return None,
    };
    let r = match parse_generated_package_version(right) {
        Some(r) => r,
        None => return None,
    };
    Some(compare_parts(l.as_slice(), r.as_slice()))
}

/// Whether `candidate` is a strictly newer generated package version than
/// `installed`; false when either is not a generated version.
pub fn generated_package_version_is_newer(candidate: &str, installed: &str) -> (r: bool)
    ensures
        r == (generated_order(candidate@, installed@) == Some(Ordering::Greater)),
{
    match compare_generated_package_versions(candidate, installed) {
        Some(Ordering::Greater) => true,
        _ => false,
    }
}

pub proof fn lemma_lex_order_flip(a: Seq<u32>, b: Seq<u32>)
    ensures
        lex_order(a, b) == Ordering::Greater <==> lex_order(b, a) == Ordering::Less,
        lex_order(a, b) == Ordering::Equal <==> a == b,
    decreases a.len(),
{
    if a.len() > 0 && b.len() > 0 && a[0] == b[0] {
        lemma_lex_order_flip(a.drop_first(), b.drop_first());
        if a.drop_first() == b.drop_first() {
            assert(a =~= seq![a[0]] + a.drop_first());
            assert(b =~= seq![b[0]] + b.drop_first());
        }
    } else if a.len() > 0 && b.len() > 0 {
        assert(a[0] != b[0]);
    } else if a.len() == 0 && b.len() == 0 {
        assert(a =~= b);
    }
}

pub proof fn lemma_lex_order_greater_transitive(a: Seq<u32>, b: Seq<u32>, c: Seq<u32>)
    requires
        lex_order(a, b) == Ordering::Greater,
        lex_order(b, c) == Ordering::Greater,
    ensures
        lex_order(a, c) == Ordering::Greater,
    decreases a.len(),
{
    if a.len() > 0 && b.len() > 0 && c.len() > 0 && a[0] == b[0] && b[0] == c[0] {
        lemma_lex_order_greater_transitive(a.drop_first(), b.drop_first(), c.drop_first());
    }
}

/// A generated package version is never newer than itself.
pub proof fn law_newer_is_irreflexive(v: Seq<char>)
    ensures
        generated_order(v, v) != Some(Ordering::Greater),
{
    if let Some(p) = generated_version(v) {
        lemma_lex_order_flip(p, p);
    }
}

/// Of two generated package versions at most one is newer than the other, and the
/// comparison read in the other direction is its mirror image.
pub proof fn law_newer_is_asymmetric(a: Seq<char>, b: Seq<char>)
    ensures
        generated_order(a, b) == Some(Ordering::Greater) <==> generated_order(b, a) == Some(
            Ordering::Less,
        ),
        generated_order(a, b) == Some(Ordering::Greater) ==> generated_order(b, a) != Some(
            Ordering::Greater,
        ),
{
    if let (Some(x), Some(y)) = (generated_version(a), generated_version(b)) {
        lemma_lex_order_flip(x, y);
        lemma_lex_order_flip(y, x);
    }
}

/// "Newer" between generated package versions is transitive.
pub proof fn law_newer_is_transitive(a: Seq<char>, b: Seq<char>, c: Seq<char>)
    requires
        generated_order(a, b) == Some(Ordering::Greater),
        generated_order(b, c) == Some(Ordering::Greater),
    ensures
        generated_order(a, c) == Some(Ordering::Greater),
{
    let (x, y, z) = (
        generated_version(a).unwrap(),
        generated_version(b).unwrap(),
        generated_version(c).unwrap(),
    );
    lemma_lex_order_greater_transitive(x, y, z);
}

/// Comparison is defined exactly when both sides are generated versions.
pub proof fn law_comparison_needs_generated_versions(a: Seq<char>, b: Seq<char>)
    ensures
        generated_order(a, b) is Some <==> (generated_version(a) is Some && generated_version(
            b,
        ) is Some),
{
}

} // verus!
