//! The box-model shorthand: one attribute text that gives up to four sides.

use vstd::prelude::*;
use crate::size::{parse_size, range_value, MAX_MAGNITUDE};
use crate::text::to_chars;

verus! {

/// How many characters other than a space `s` starts with.
pub open spec fn word_len(s: Seq<char>) -> nat
    decreases s.len(),
{
    if s.len() == 0 || s[0] == ' ' {
        0
    } else {
        1 + word_len(s.drop_first())
    }
}

/// A first word is never longer than the text.
pub proof fn lemma_word_len_bound(s: Seq<char>)
    ensures
        word_len(s) <= s.len(),
    decreases s.len(),
{
    if s.len() > 0 && s[0] != ' ' {
        lemma_word_len_bound(s.drop_first());
    }
}

/// The words of `s`: its maximal runs of characters other than a space, in
/// order.
pub open spec fn words(s: Seq<char>) -> Seq<Seq<char>>
    decreases s.len(),
{
    if s.len() == 0 {
        Seq::empty()
    } else if s[0] == ' ' {
        words(s.drop_first())
    } else {
        proof {
            lemma_word_len_bound(s);
        }
        seq![s.take(word_len(s) as int)] + words(s.skip(word_len(s) as int))
    }
}

/// The magnitude of one side, as written in a shorthand.
pub open spec fn side_value(word: Seq<char>) -> int {
    parse_size(word).value()
}

/// The left and right sides of a shorthand, added up. One word gives all
/// four sides; of two, the second gives left and right; of three, the
/// second does too; of four, the second gives the right side and the fourth
/// the left. A shorthand of no word, or of more than four, has no sides.
pub open spec fn horizontal_of(w: Seq<Seq<char>>) -> int {
    if w.len() == 1 {
        2 * side_value(w[0])
    } else if w.len() == 2 || w.len() == 3 {
        2 * side_value(w[1])
    } else if w.len() == 4 {
        side_value(w[1]) + side_value(w[3])
    } else {
        0
    }
}

/// The horizontal padding that a `padding` attribute text asks for.
pub open spec fn horizontal_padding(text: Seq<char>) -> int {
    horizontal_of(words(text))
}

/// The first word of `s` is exactly its first `k` characters.
pub proof fn lemma_word_len(s: Seq<char>, k: int)
    requires
        0 <= k <= s.len(),
        forall|j: int| 0 <= j < k ==> #[trigger] s[j] != ' ',
        k == s.len() || s[k] == ' ',
    ensures
        word_len(s) == k,
    decreases k,
{
    if k > 0 {
        let t = s.drop_first();
        assert forall|j: int| 0 <= j < k - 1 implies #[trigger] t[j] != ' ' by {
            assert(t[j] == s[j + 1]);
        }
        lemma_word_len(t, k - 1);
    }
}

/// Adds up the left and right sides of a box-model shorthand.
pub fn horizontal_padding_of(text: &str) -> (r: i64)
    ensures
        r == horizontal_padding(text@),
        0 <= r <= 2 * MAX_MAGNITUDE,
{
    let chars = to_chars(text);
    let n = chars.len();
    let ghost s = chars@;
    let ghost mut done: Seq<Seq<char>> = Seq::empty();
    let mut count: usize = 0;
    let mut first: i64 = 0;
    let mut second: i64 = 0;
    let mut fourth: i64 = 0;
    let mut i: usize = 0;
    assert(s.skip(0) =~= s);
    while i < n
        invariant
            i <= n == chars.len(),
            s == chars@,
            words(s) == done + words(s.skip(i as int)),
            count == if done.len() > 5 {
                5
            } else {
                done.len()
            },
            done.len() > 0 ==> first == side_value(done[0]),
            done.len() > 1 ==> second == side_value(done[1]),
            done.len() > 3 ==> fourth == side_value(done[3]),
            0 <= first <= MAX_MAGNITUDE,
            0 <= second <= MAX_MAGNITUDE,
            0 <= fourth <= MAX_MAGNITUDE,
        decreases n - i,
    {
        let ghost rest = s.skip(i as int);
        assert(rest[0] == s[i as int]);
        if chars[i] == ' ' {
            assert(rest.drop_first() =~= s.skip(i + 1));
            i += 1;
        } else {
            let start: usize = i;
            while i < n && chars[i] != ' '
                invariant
                    start <= i <= n == chars.len(),
                    s == chars@,
                    forall|j: int| start <= j < i ==> #[trigger] s[j] != ' ',
                decreases n - i,
            {
                i += 1;
            }
            let ghost k = i - start;
            proof {
                assert forall|j: int| 0 <= j < k implies #[trigger] rest[j] != ' ' by {
                    assert(rest[j] == s[start + j]);
                }
                if k < rest.len() {
                    assert(rest[k] == s[i as int]);
                }
                lemma_word_len(rest, k);
                assert(rest.take(k) =~= s.subrange(start as int, i as int));
                assert(rest.skip(k) =~= s.skip(i as int));
            }
            let value = range_value(&chars, start, i);
            if count == 0 {
                first = value;
            } else if count == 1 {
                second = value;
            } else if count == 3 {
                fourth = value;
            }
            if count < 5 {
                count += 1;
            }
            proof {
                let word = s.subrange(start as int, i as int);
                assert(done + (seq![word] + words(s.skip(i as int))) =~= done.push(word) + words(
                    s.skip(i as int),
                ));
                done = done.push(word);
            }
        }
    }
    assert(words(s) =~= done);
    if count == 1 {
        2 * first
    } else if count == 2 || count == 3 {
        2 * second
    } else if count == 4 {
        second + fourth
    } else {
        0
    }
}

} // verus!
