//! Measures of how much two texts differ, for the search of a feast by an inexact name.

use vstd::prelude::*;
use crate::text::{chars_to_string, to_chars};

verus! {

/// The least of three numbers.
pub open spec fn least(a: int, b: int, c: int) -> int {
    if a <= b && a <= c {
        a
    } else if b <= c {
        b
    } else {
        c
    }
}

/// The least number of characters to take away, to put in or to change that makes one text
/// of the other.
pub open spec fn edit_distance(a: Seq<char>, b: Seq<char>) -> int
    decreases a.len() + b.len(),
{
    if a.len() == 0 {
        b.len() as int
    } else if b.len() == 0 {
        a.len() as int
    } else {
        least(
            edit_distance(a.drop_last(), b) + 1,
            edit_distance(a, b.drop_last()) + 1,
            edit_distance(a.drop_last(), b.drop_last()) + (if a.last() == b.last() {
                0int
            } else {
                1int
            }),
        )
    }
}

/// The distance of two texts is at least 0 and at most the length of the longer one.
pub proof fn lemma_edit_distance_bounds(a: Seq<char>, b: Seq<char>)
    ensures
        0 <= edit_distance(a, b),
        edit_distance(a, b) <= (if a.len() >= b.len() {
            a.len()
        } else {
            b.len()
        }),
    decreases a.len() + b.len(),
{
    if a.len() > 0 && b.len() > 0 {
        lemma_edit_distance_bounds(a.drop_last(), b);
        lemma_edit_distance_bounds(a, b.drop_last());
        lemma_edit_distance_bounds(a.drop_last(), b.drop_last());
    }
}

/// The distance of a text from itself is 0.
pub proof fn lemma_edit_distance_same(a: Seq<char>)
    ensures
        edit_distance(a, a) == 0,
    decreases a.len(),
{
    if a.len() > 0 {
        lemma_edit_distance_same(a.drop_last());
        lemma_edit_distance_bounds(a.drop_last(), a);
        lemma_edit_distance_bounds(a, a.drop_last());
    }
}

/// A row of the table of distances: the distances of the first `i` characters of `a` from
/// every beginning of `b`.
pub open spec fn is_row(row: Seq<usize>, a: Seq<char>, b: Seq<char>, i: int) -> bool {
    &&& row.len() == b.len() + 1
    &&& forall|j: int| 0 <= j <= b.len() ==> #[trigger] row[j] == edit_distance(a.subrange(0, i), b.subrange(0, j))
}

/// The least number of characters to take away, to put in or to change that makes one text
/// of the other.
pub fn levenshtein_distance(s1: &str, s2: &str) -> (out: usize)
    ensures
        out == edit_distance(s1@, s2@),
{
    let a = to_chars(s1);
    let b = to_chars(s2);
    let s1_len = a.len();
    let s2_len = b.len();
    if s1_len == 0 {
        return s2_len;
    }
    if s2_len == 0 {
        return s1_len;
    }
    // the row of the empty beginning of the first text
    let mut previous: Vec<usize> = Vec::new();
    previous.push(0);
    let mut j: usize = 0;
    while j < s2_len
        invariant
            j <= s2_len,
            s2_len == b.len(),
            previous@.len() == j + 1,
            forall|k: int| 0 <= k <= j ==> #[trigger] previous@[k] == k,
        decreases s2_len - j,
    {
        previous.push(j + 1);
        j = j + 1;
    }
    assert(is_row(previous@, a@, b@, 0)) by {
        assert forall|k: int| 0 <= k <= b@.len() implies #[trigger] previous@[k] == edit_distance(
            a@.subrange(0, 0),
            b@.subrange(0, k),
        ) by {
            assert(a@.subrange(0, 0).len() == 0);
        }
    }
    let mut i: usize = 0;
    while i < s1_len
        invariant
            i <= s1_len,
            s1_len == a.len(),
            s2_len == b.len(),
            is_row(previous@, a@, b@, i as int),
        decreases s1_len - i,
    {
        let mut current: Vec<usize> = Vec::new();
        current.push(i + 1);
        proof {
            assert(b@.subrange(0, 0).len() == 0);
        }
        let mut j: usize = 0;
        while j < s2_len
            invariant
                j <= s2_len,
                i < s1_len,
                s1_len == a.len(),
                s2_len == b.len(),
                is_row(previous@, a@, b@, i as int),
                current@.len() == j + 1,
                forall|k: int|
                    0 <= k <= j ==> #[trigger] current@[k] == edit_distance(
                        a@.subrange(0, i + 1),
                        b@.subrange(0, k),
                    ),
            decreases s2_len - j,
        {
            let cost: u128 = if a[i] == b[j] {
                0
            } else {
                1
            };
            proof {
                let x = a@.subrange(0, i + 1);
                let y = b@.subrange(0, j + 1);
                assert(x.drop_last() =~= a@.subrange(0, i as int));
                assert(y.drop_last() =~= b@.subrange(0, j as int));
                assert(x.last() == a@[i as int]);
                assert(y.last() == b@[j as int]);
                lemma_edit_distance_bounds(x, y);
                assert(previous@[j + 1] == edit_distance(x.drop_last(), y));
                assert(previous@[j as int] == edit_distance(x.drop_last(), y.drop_last()));
                assert(current@[j as int] == edit_distance(x, y.drop_last()));
            }
            let deletion: u128 = previous[j + 1] as u128 + 1;
            let insertion: u128 = current[j] as u128 + 1;
            let substitution: u128 = previous[j] as u128 + cost;
            let mut best = deletion;
            if insertion < best {
                best = insertion;
            }
            if substitution < best {
                best = substitution;
            }
            current.push(best as usize);
            j = j + 1;
        }
        previous = current;
        i = i + 1;
    }
    assert(a@.subrange(0, s1_len as int) =~= a@);
    assert(b@.subrange(0, s2_len as int) =~= b@);
    previous[s2_len]
}

/// The pieces of `n` characters of a text, from every place at which one begins. A text
/// of fewer characters has one piece, itself.
pub open spec fn ngrams_of(s: Seq<char>, n: int) -> Seq<Seq<char>> {
    if s.len() < n {
        seq![s]
    } else {
        Seq::new((s.len() - n + 1) as nat, |i: int| s.subrange(i, i + n))
    }
}

/// The texts of a list of strings.
pub open spec fn string_texts(strings: Seq<String>) -> Seq<Seq<char>> {
    strings.map_values(|s: String| s@)
}

/// The pieces of `n` characters of a text.
pub fn get_ngrams(s: &str, n: usize) -> (out: Vec<String>)
    ensures
        string_texts(out@) == ngrams_of(s@, n as int),
{
    let chars = to_chars(s);
    if chars.len() < n {
        let whole = chars_to_string(&chars, 0, chars.len());
        assert(chars@.subrange(0, chars@.len() as int) =~= chars@);
        let mut out: Vec<String> = Vec::new();
        out.push(whole);
        assert(string_texts(out@) =~= seq![s@]);
        return out;
    }
    let mut ngrams: Vec<String> = Vec::new();
    let last = chars.len() - n;
    let mut i: usize = 0;
    while i < last
        invariant
            i <= last,
            last == chars.len() - n,
            n <= chars.len(),
            ngrams@.len() == i,
            forall|k: int| 0 <= k < i ==> (#[trigger] ngrams@[k])@ == chars@.subrange(k, k + n),
        decreases last - i,
    {
        let ngram = chars_to_string(&chars, i, i + n);
        ngrams.push(ngram);
        i = i + 1;
    }
    let ngram = chars_to_string(&chars, last, last + n);
    ngrams.push(ngram);
    assert(string_texts(ngrams@).len() == ngrams_of(s@, n as int).len());
    assert forall|k: int| 0 <= k < ngrams@.len() implies string_texts(ngrams@)[k] == ngrams_of(s@, n as int)[k] by {
        assert(ngrams@[k]@ == chars@.subrange(k, k + n));
    }
    assert(string_texts(ngrams@) =~= ngrams_of(s@, n as int));
    ngrams
}

} // verus!
