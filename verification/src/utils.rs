//! Edit-distance utilities used to re-rank fuzzy title matches.
//!
//! `levenshtein_dist` computes the classic Levenshtein edit distance over
//! Unicode scalar values, with cost 1 for an insertion, a deletion or a
//! substitution, and is proved to agree with the textbook recursive
//! definition `lev`.  Downstream re-ranking derives a similarity score
//! from the distance normalized by the longer length; the laws here give
//! that score its two anchors: the distance never exceeds the longer
//! length (so the normalized distance lies in `[0,1]`), and the distance
//! of a string to itself is zero (so the similarity of identical strings
//! is exactly one).

use vstd::prelude::*;

verus! {

/// The smaller of three values.
pub open spec fn spec_min3(a: int, b: int, c: int) -> int {
    if a <= b && a <= c {
        a
    } else if b <= c {
        b
    } else {
        c
    }
}

/// The Levenshtein edit distance between two character sequences: the
/// least number of single-character insertions, deletions and
/// substitutions that turns one into the other.
pub open spec fn lev(a: Seq<char>, b: Seq<char>) -> int
    decreases a.len() + b.len(),
{
    if a.len() == 0 {
        b.len() as int
    } else if b.len() == 0 {
        a.len() as int
    } else {
        let cost: int = if a.last() == b.last() {
            0int
        } else {
            1int
        };
        spec_min3(
            lev(a.drop_last(), b) + 1,
            lev(a, b.drop_last()) + 1,
            lev(a.drop_last(), b.drop_last()) + cost,
        )
    }
}

/// Law: the edit distance is non-negative and never exceeds the longer of
/// the two lengths, so the distance normalized by the longer length lies
/// in the unit interval.
pub proof fn lemma_lev_bounds(a: Seq<char>, b: Seq<char>)
    ensures
        0 <= lev(a, b),
        lev(a, b) <= if a.len() >= b.len() {
            a.len() as int
        } else {
            b.len() as int
        },
    decreases a.len() + b.len(),
{
    if a.len() == 0 {
    } else if b.len() == 0 {
    } else {
        lemma_lev_bounds(a.drop_last(), b);
        lemma_lev_bounds(a, b.drop_last());
        lemma_lev_bounds(a.drop_last(), b.drop_last());
    }
}

/// Law: a sequence is at distance zero from itself, so the similarity
/// score `1 / (1 + d)` of identical strings is exactly one.
pub proof fn lemma_lev_self_zero(a: Seq<char>)
    ensures
        lev(a, a) == 0,
    decreases a.len(),
{
    if a.len() == 0 {
    } else {
        lemma_lev_self_zero(a.drop_last());
        lemma_lev_bounds(a.drop_last(), a);
        lemma_lev_bounds(a, a.drop_last());
    }
}

/// The smaller of three lengths.
fn min3(a: usize, b: usize, c: usize) -> (r: usize)
    ensures
        r == spec_min3(a as int, b as int, c as int),
{
    if a <= b && a <= c {
        a
    } else if b <= c {
        b
    } else {
        c
    }
}

/// The characters of a string, in order.
fn collect_chars(s: &str) -> (v: Vec<char>)
    ensures
        v@ == s@,
{
    let n = s.unicode_len();
    let mut v: Vec<char> = Vec::new();
    let mut i: usize = 0;
    while i < n
        invariant
            i <= n,
            n == s@.len(),
            v@.len() == i,
            forall|j: int| 0 <= j < i ==> v@[j] == s@[j],
        decreases n - i,
    {
        v.push(s.get_char(i));
        i = i + 1;
    }
    proof {
        assert(v@ =~= s@);
    }
    v
}

/// The Levenshtein edit distance between two strings, by the classic
/// dynamic program over character prefixes.
///
/// The lengths are bounded below `usize::MAX` because the table carries
/// one entry more than each string has characters.
pub fn levenshtein_dist(s1: &str, s2: &str) -> (r: usize)
    requires
        s1@.len() < usize::MAX,
        s2@.len() < usize::MAX,
    ensures
        r == lev(s1@, s2@),
{
    let v1 = collect_chars(s1);
    let v2 = collect_chars(s2);
    let len1 = v1.len();
    let len2 = v2.len();

    let mut matrix: Vec<Vec<usize>> = Vec::new();

    let mut row0: Vec<usize> = Vec::new();
    let mut j: usize = 0;
    while j <= len2
        invariant
            j <= len2 + 1,
            len2 == v2@.len() < usize::MAX,
            row0@.len() == j,
            forall|c: int| 0 <= c < j ==> row0@[c] == lev(v1@.take(0), v2@.take(c)),
        decreases len2 + 1 - j,
    {
        proof {
            assert(v1@.take(0).len() == 0);
            assert(v2@.take(j as int).len() == j);
        }
        row0.push(j);
        j = j + 1;
    }
    matrix.push(row0);

    let mut i: usize = 1;
    while i <= len1
        invariant
            1 <= i <= len1 + 1,
            len1 == v1@.len() < usize::MAX,
            len2 == v2@.len() < usize::MAX,
            v1@ == s1@,
            v2@ == s2@,
            matrix@.len() == i,
            forall|r: int| 0 <= r < i ==> #[trigger] matrix@[r]@.len() == len2 + 1,
            forall|r: int, c: int|
                0 <= r < i && 0 <= c <= len2 ==> #[trigger] matrix@[r]@[c] == lev(
                    v1@.take(r),
                    v2@.take(c),
                ),
        decreases len1 + 1 - i,
    {
        let mut row: Vec<usize> = Vec::new();
        proof {
            assert(v1@.take(i as int).len() == i);
            assert(v2@.take(0).len() == 0);
        }
        row.push(i);
        let mut j: usize = 1;
        while j <= len2
            invariant
                1 <= i <= len1,
                1 <= j <= len2 + 1,
                len1 == v1@.len() < usize::MAX,
                len2 == v2@.len() < usize::MAX,
                matrix@.len() == i,
                forall|r: int| 0 <= r < i ==> #[trigger] matrix@[r]@.len() == len2 + 1,
                forall|r: int, c: int|
                    0 <= r < i && 0 <= c <= len2 ==> #[trigger] matrix@[r]@[c] == lev(
                        v1@.take(r),
                        v2@.take(c),
                    ),
                row@.len() == j,
                forall|c: int| 0 <= c < j ==> row@[c] == lev(v1@.take(i as int), v2@.take(c)),
            decreases len2 + 1 - j,
        {
            let cost: usize = if v1[i - 1] == v2[j - 1] {
                0
            } else {
                1
            };
            let up = matrix[i - 1][j];
            let left = row[j - 1];
            let diag = matrix[i - 1][j - 1];
            proof {
                lemma_lev_bounds(v1@.take(i - 1), v2@.take(j as int));
                lemma_lev_bounds(v1@.take(i as int), v2@.take(j - 1));
                lemma_lev_bounds(v1@.take(i - 1), v2@.take(j - 1));
            }
            let m = min3(up + 1, left + 1, diag + cost);
            proof {
                let a = v1@.take(i as int);
                let b = v2@.take(j as int);
                assert(a.drop_last() =~= v1@.take(i - 1));
                assert(b.drop_last() =~= v2@.take(j - 1));
                assert(a.last() == v1@[i - 1]);
                assert(b.last() == v2@[j - 1]);
            }
            row.push(m);
            j = j + 1;
        }
        matrix.push(row);
        i = i + 1;
    }

    proof {
        assert(v1@.take(len1 as int) =~= v1@);
        assert(v2@.take(len2 as int) =~= v2@);
    }
    matrix[len1][len2]
}

} // verus!
