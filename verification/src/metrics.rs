//! Performance metrics derived from a phrase attempt: the word count of
//! the target text, the count of correctly graded characters, accuracy,
//! and words per minute.
//!
//! Accuracy is reported in hundredths of a percent (0 ..= 10000) and
//! speed in thousandths of a word per minute, so that every value the
//! engine computes is an exact integer.

use vstd::prelude::*;
use vstd::arithmetic::div_mod::{lemma_div_is_ordered, lemma_div_multiples_vanish};
use vstd::string::StrSliceExecFns;
use crate::engine::CharStatus;

verus! {

/// A word separator for counting: any character with the Unicode
/// White_Space property (the set `char::is_whitespace` recognizes).
pub open spec fn is_separator(c: char) -> bool {
    let u = c as u32;
    ||| u == 0x20
    ||| (0x09 <= u && u <= 0x0d)
    ||| u == 0x85
    ||| u == 0xa0
    ||| u == 0x1680
    ||| (0x2000 <= u && u <= 0x200a)
    ||| u == 0x2028
    ||| u == 0x2029
    ||| u == 0x202f
    ||| u == 0x205f
    ||| u == 0x3000
}

/// Whether `c` separates words when counting them.
pub fn is_separator_char(c: char) -> (r: bool)
    ensures
        r == is_separator(c),
{
    let u = c as u32;
    u == 0x20 || (0x09 <= u && u <= 0x0d) || u == 0x85 || u == 0xa0 || u == 0x1680 || (0x2000 <= u
        && u <= 0x200a) || u == 0x2028 || u == 0x2029 || u == 0x202f || u == 0x205f || u == 0x3000
}

/// Position `i` begins a word: it holds a non-separator preceded by the
/// start of the text or by a separator.
pub open spec fn is_word_start(s: Seq<char>, i: int) -> bool {
    &&& 0 <= i < s.len()
    &&& !is_separator(s[i])
    &&& (i == 0 || is_separator(s[i - 1]))
}

/// Number of word starts among the first `n` positions.
pub open spec fn word_count_up_to(s: Seq<char>, n: int) -> nat
    decreases n,
{
    if n <= 0 {
        0
    } else {
        word_count_up_to(s, n - 1) + (if is_word_start(s, n - 1) {
            1nat
        } else {
            0nat
        })
    }
}

/// Number of whitespace-delimited words in the text.
pub open spec fn word_count(s: Seq<char>) -> nat {
    word_count_up_to(s, s.len() as int)
}

/// Number of characters graded `Correct` among the first `n` statuses.
pub open spec fn correct_count_up_to(s: Seq<CharStatus>, n: int) -> nat
    decreases n,
{
    if n <= 0 {
        0
    } else {
        correct_count_up_to(s, n - 1) + (if s[n - 1] is Correct {
            1nat
        } else {
            0nat
        })
    }
}

/// Number of characters graded `Correct` in the whole status sequence.
pub open spec fn correct_count(s: Seq<CharStatus>) -> nat {
    correct_count_up_to(s, s.len() as int)
}

pub proof fn lemma_correct_count_le(s: Seq<CharStatus>, n: int)
    requires
        n >= 0,
    ensures
        correct_count_up_to(s, n) <= n,
    decreases n,
{
    if n > 0 {
        lemma_correct_count_le(s, n - 1);
    }
}

/// Accuracy in hundredths of a percent: `100 * 100 * correct / total`,
/// with an empty attempt counting as fully accurate.
pub open spec fn accuracy_x100(correct: nat, total: nat) -> nat {
    if total == 0 {
        10000
    } else {
        correct * 10000 / total
    }
}

/// Words per minute, in thousandths: `words / (duration_ms / 60000)`,
/// taken over a positive duration in milliseconds.
pub open spec fn wpm_milli(words: nat, duration_ms: nat) -> nat
    recommends
        duration_ms > 0,
{
    words * 60_000_000 / duration_ms
}

/// Accuracy of one phrase attempt as the exact ratio of correctly graded
/// characters to graded positions.
#[derive(Clone, Copy, Debug, PartialEq, Eq, Structural)]
pub struct Accuracy {
    pub correct: usize,
    pub total: usize,
}

impl Accuracy {
    pub open spec fn wf(self) -> bool {
        self.correct <= self.total
    }

    /// The ratio as a percentage scaled by 100, rounded down.
    pub fn percent_x100(&self) -> (p: u64)
        requires
            self.wf(),
        ensures
            p == accuracy_x100(self.correct as nat, self.total as nat),
            p <= 10000,
    {
        if self.total == 0 {
            10000
        } else {
            let num: u128 = (self.correct as u128) * 10000;
            let p: u128 = num / (self.total as u128);
            proof {
                lemma_div_is_ordered(
                    self.correct as int * 10000,
                    self.total as int * 10000,
                    self.total as int,
                );
                lemma_div_multiples_vanish(10000, self.total as int);
            }
            p as u64
        }
    }

    /// Whether every graded position was correct (an empty attempt counts
    /// as perfect), which is exactly an accuracy of 100 percent.
    pub fn is_perfect(&self) -> (r: bool)
        ensures
            r == (self.correct == self.total),
    {
        self.correct == self.total
    }
}

/// Accuracy never leaves the scale: whatever statuses a sequence of
/// keystrokes and backspaces has produced, the derived accuracy lies
/// between 0 and 100 percent.
pub proof fn lemma_accuracy_in_range(s: Seq<CharStatus>)
    ensures
        accuracy_x100(correct_count(s), s.len()) <= 10000,
{
    if s.len() > 0 {
        lemma_correct_count_le(s, s.len() as int);
        lemma_div_is_ordered(
            correct_count(s) as int * 10000,
            s.len() as int * 10000,
            s.len() as int,
        );
        lemma_div_multiples_vanish(10000, s.len() as int);
    }
}

/// Count the whitespace-delimited words of a text.
pub fn count_words_str(s: &str) -> (n: usize)
    ensures
        n == word_count(s@),
{
    let len = s.unicode_len();
    let mut count: usize = 0;
    let mut i: usize = 0;
    while i < len
        invariant
            i <= len,
            len == s@.len(),
            count == word_count_up_to(s@, i as int),
            count <= i,
        decreases len - i,
    {
        let c = s.get_char(i);
        let starts = !is_separator_char(c) && (i == 0 || is_separator_char(s.get_char(i - 1)));
        if starts {
            count = count + 1;
        }
        i = i + 1;
    }
    count
}

} // verus!
