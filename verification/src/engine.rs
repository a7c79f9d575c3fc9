//! Per-character input automaton: grades one phrase attempt keystroke by
//! keystroke, tracking the cursor, per-character statuses and the
//! timestamps needed by the metrics.

use vstd::prelude::*;
use vstd::string::StrSliceExecFns;
use crate::metrics::{
    accuracy_x100, correct_count, correct_count_up_to, count_words_str, word_count, wpm_milli,
    Accuracy,
};
use vstd::arithmetic::div_mod::lemma_div_multiples_vanish;

verus! {

/// Grade attached to one character position of the target phrase.
#[derive(Clone, Copy, Debug, PartialEq, Eq, Structural)]
pub enum CharStatus {
    Pending,
    Correct,
    Incorrect,
}

/// One phrase attempt: the target text, the cursor, one status per
/// character, and the timestamps captured at the first keystroke and at
/// completion (milliseconds of a monotonic clock supplied by the caller).
#[derive(Clone, Debug)]
pub struct TypingState {
    pub text: String,
    pub current_index: usize,
    pub char_statuses: Vec<CharStatus>,
    pub is_complete: bool,
    pub started: bool,
    pub start_time: Option<u64>,
    pub end_time: Option<u64>,
}

impl TypingState {
    /// Structural invariant of a phrase attempt: one status per character,
    /// the cursor inside the text, everything at or past the cursor still
    /// ungraded, and the completion flag and timestamps in step with the
    /// cursor.
    pub open spec fn wf(self) -> bool {
        &&& self.text@.len() > 0
        &&& self.char_statuses@.len() == self.text@.len()
        &&& self.current_index <= self.text@.len()
        &&& (forall|i: int|
            self.current_index <= i < self.char_statuses@.len()
                ==> self.char_statuses@[i] is Pending)
        &&& (self.is_complete <==> self.current_index == self.text@.len())
        &&& (self.started <==> self.start_time is Some)
        &&& (self.is_complete <==> self.end_time is Some)
        &&& (self.is_complete ==> self.started)
        &&& (match (self.start_time, self.end_time) {
            (Some(st), Some(en)) => st <= en,
            _ => true,
        })
    }

    /// How one accepted keystroke takes the attempt from `pre` to `post`:
    /// the character under the cursor is graded, the cursor advances, the
    /// start timestamp is captured on the first keystroke and the end
    /// timestamp exactly when the cursor reaches the end of the text.
    pub open spec fn key_transition(
        pre: TypingState,
        post: TypingState,
        key: char,
        now_ms: u64,
        correct: bool,
    ) -> bool {
        &&& correct == (key == pre.text@[pre.current_index as int])
        &&& post.text@ == pre.text@
        &&& post.current_index == pre.current_index + 1
        &&& post.char_statuses@ == pre.char_statuses@.update(
            pre.current_index as int,
            if correct {
                CharStatus::Correct
            } else {
                CharStatus::Incorrect
            },
        )
        &&& post.started
        &&& post.start_time == (if pre.started {
            pre.start_time
        } else {
            Some(now_ms)
        })
        &&& (post.is_complete <==> pre.current_index + 1 == pre.text@.len())
        &&& post.end_time == (if post.is_complete {
            Some(now_ms)
        } else {
            None::<u64>
        })
    }

    /// How one accepted backspace takes the attempt from `pre` to `post`:
    /// the cursor moves one position left, that character becomes pending
    /// again, and completion (with its timestamp) is withdrawn.
    pub open spec fn backspace_transition(pre: TypingState, post: TypingState) -> bool {
        &&& post.text@ == pre.text@
        &&& post.current_index == pre.current_index - 1
        &&& post.char_statuses@ == pre.char_statuses@.update(
            pre.current_index - 1,
            CharStatus::Pending,
        )
        &&& !post.is_complete
        &&& post.end_time is None
        &&& post.started == pre.started
        &&& post.start_time == pre.start_time
    }

    /// `s` is an untouched attempt at `text`: cursor at zero, every
    /// character pending, not started and not complete.
    pub open spec fn is_fresh_attempt(s: TypingState, text: Seq<char>) -> bool {
        &&& s.text@ == text
        &&& s.current_index == 0
        &&& s.char_statuses@.len() == text.len()
        &&& (forall|i: int| 0 <= i < s.char_statuses@.len() ==> s.char_statuses@[i] is Pending)
        &&& !s.is_complete
        &&& !s.started
        &&& s.start_time is None
        &&& s.end_time is None
    }

    /// Fresh attempt at `text`: cursor at zero, every character pending,
    /// not started and not complete.
    pub fn new(text: String) -> (s: TypingState)
        requires
            text@.len() > 0,
        ensures
            s.wf(),
            TypingState::is_fresh_attempt(s, text@),
    {
        let n = text.as_str().unicode_len();
        let mut statuses: Vec<CharStatus> = Vec::new();
        let mut i: usize = 0;
        while i < n
            invariant
                i <= n,
                n == text@.len(),
                statuses@.len() == i,
                forall|j: int| 0 <= j < i ==> statuses@[j] is Pending,
            decreases n - i,
        {
            statuses.push(CharStatus::Pending);
            i = i + 1;
        }
        TypingState {
            text,
            current_index: 0,
            char_statuses: statuses,
            is_complete: false,
            started: false,
            start_time: None,
            end_time: None,
        }
    }

    /// Grade one keystroke at `now_ms` against the character under the
    /// cursor. A keystroke after completion is a silent no-op. Otherwise
    /// the character under the cursor is marked correct or incorrect, the
    /// cursor advances, the start timestamp is captured on the first
    /// keystroke and the end timestamp when the cursor reaches the end.
    pub fn handle_key(&mut self, key: char, now_ms: u64) -> (correct: bool)
        requires
            old(self).wf(),
            old(self).start_time matches Some(st) ==> st <= now_ms,
        ensures
            final(self).wf(),
            old(self).is_complete ==> *final(self) == *old(self) && !correct,
            !old(self).is_complete ==> TypingState::key_transition(
                *old(self),
                *final(self),
                key,
                now_ms,
                correct,
            ),
    {
        if self.is_complete {
            return false;
        }
        if !self.started {
            self.started = true;
            self.start_time = Some(now_ms);
        }
        let len = self.char_statuses.len();
        let expected = self.text.as_str().get_char(self.current_index);
        let correct = key == expected;
        if correct {
            self.char_statuses.set(self.current_index, CharStatus::Correct);
        } else {
            self.char_statuses.set(self.current_index, CharStatus::Incorrect);
        }
        self.current_index = self.current_index + 1;
        if self.current_index == len {
            self.is_complete = true;
            self.end_time = Some(now_ms);
        }
        correct
    }

    /// Take back the most recent keystroke: move the cursor one position
    /// left and mark that character pending again. A backspace with the
    /// cursor at zero is a silent no-op. Taking back the keystroke that
    /// completed the attempt also withdraws completion and its timestamp.
    pub fn handle_backspace(&mut self) -> (moved: bool)
        requires
            old(self).wf(),
        ensures
            final(self).wf(),
            moved == (old(self).current_index > 0),
            !moved ==> *final(self) == *old(self),
            moved ==> TypingState::backspace_transition(*old(self), *final(self)),
    {
        if self.current_index > 0 {
            self.current_index = self.current_index - 1;
            self.char_statuses.set(self.current_index, CharStatus::Pending);
            if self.is_complete {
                self.is_complete = false;
                self.end_time = None;
            }
            true
        } else {
            false
        }
    }

    /// Number of whitespace-delimited words in the target text (the
    /// reference phrase's word count, not the words the player typed).
    pub fn count_words(&self) -> (n: usize)
        ensures
            n == word_count(self.text@),
    {
        count_words_str(self.text.as_str())
    }

    /// Speed over the whole attempt, in thousandths of a word per minute:
    /// the target's word count divided by the minutes between the first
    /// keystroke and completion. Undefined (`None`) while either
    /// timestamp is missing, for a duration too short to measure, and for
    /// a value beyond the integer range.
    pub fn get_wpm(&self) -> (r: Option<u64>)
        ensures
            (match (self.start_time, self.end_time) {
                (Some(st), Some(en)) => r == (if st < en && wpm_milli(
                    word_count(self.text@),
                    (en - st) as nat,
                ) <= u64::MAX {
                    Some(wpm_milli(word_count(self.text@), (en - st) as nat) as u64)
                } else {
                    None::<u64>
                }),
                _ => r is None,
            }),
    {
        match (self.start_time, self.end_time) {
            (Some(st), Some(en)) => {
                if st < en {
                    let words = self.count_words();
                    let dur = en - st;
                    let num: u128 = (words as u128) * 60_000_000;
                    let w: u128 = num / (dur as u128);
                    if w <= u64::MAX as u128 {
                        Some(w as u64)
                    } else {
                        None
                    }
                } else {
                    None
                }
            },
            _ => None,
        }
    }

    /// Accuracy so far: the exact ratio of characters graded `Correct` to
    /// all graded positions (pending and incorrect positions both count
    /// against it).
    pub fn get_accuracy(&self) -> (acc: Accuracy)
        ensures
            acc.correct == correct_count(self.char_statuses@),
            acc.total == self.char_statuses@.len(),
            acc.wf(),
    {
        let len = self.char_statuses.len();
        let mut count: usize = 0;
        let mut i: usize = 0;
        while i < len
            invariant
                i <= len,
                len == self.char_statuses@.len(),
                count == correct_count_up_to(self.char_statuses@, i as int),
                count <= i,
            decreases len - i,
        {
            if matches!(self.char_statuses[i], CharStatus::Correct) {
                count = count + 1;
            }
            i = i + 1;
        }
        Accuracy { correct: count, total: len }
    }
}

/// The attempt `s` has been typed correctly through its first `k`
/// characters and not past them.
pub open spec fn typed_correct_prefix(s: TypingState, k: int) -> bool {
    &&& s.wf()
    &&& s.current_index == k
    &&& forall|i: int| 0 <= i < k ==> s.char_statuses@[i] is Correct
}

/// Law: a fresh attempt is a correctly typed prefix of length zero — the
/// base case of typing a phrase exactly.
pub proof fn lemma_fresh_attempt_starts_exact(s: TypingState)
    requires
        s.wf(),
        TypingState::is_fresh_attempt(s, s.text@),
    ensures
        typed_correct_prefix(s, 0),
{
}

/// Law: a keystroke that matches the character under the cursor extends a
/// correctly typed prefix by one, and completes the attempt exactly when
/// it was the last character. Applied from a fresh attempt (a correctly
/// typed prefix of length 0) once per character of the text, this shows
/// that typing a phrase exactly drives the automaton to `is_complete`
/// with the cursor at the text's length.
pub proof fn lemma_exact_typing_advances(
    pre: TypingState,
    post: TypingState,
    key: char,
    now_ms: u64,
)
    requires
        typed_correct_prefix(pre, pre.current_index as int),
        !pre.is_complete,
        key == pre.text@[pre.current_index as int],
        pre.start_time matches Some(st) ==> st <= now_ms,
        TypingState::key_transition(pre, post, key, now_ms, true),
    ensures
        typed_correct_prefix(post, pre.current_index + 1),
        post.current_index == pre.current_index + 1,
        post.is_complete <==> post.current_index == post.text@.len(),
{
    let k = pre.current_index as int;
    assert forall|i: int| 0 <= i < k + 1 implies post.char_statuses@[i] is Correct by {
        if i < k {
            assert(post.char_statuses@[i] == pre.char_statuses@[i]);
        }
    }
    assert forall|i: int|
        post.current_index <= i < post.char_statuses@.len() implies post.char_statuses@[i]
        is Pending by {
        assert(post.char_statuses@[i] == pre.char_statuses@[i]);
    }
}

/// Law: an attempt completed with every character graded `Correct` has
/// accuracy exactly 100 percent.
pub proof fn lemma_exact_typing_accuracy(s: TypingState)
    requires
        s.wf(),
        s.is_complete,
        forall|i: int| 0 <= i < s.char_statuses@.len() ==> s.char_statuses@[i] is Correct,
    ensures
        s.current_index == s.text@.len(),
        accuracy_x100(correct_count(s.char_statuses@), s.char_statuses@.len()) == 10000,
{
    let n = s.char_statuses@.len() as int;
    lemma_correct_count_all(s.char_statuses@, n);
    lemma_div_multiples_vanish(10000, n);
    assert(correct_count(s.char_statuses@) * 10000 == 10000 * n);
}

proof fn lemma_correct_count_all(s: Seq<CharStatus>, n: int)
    requires
        0 <= n <= s.len(),
        forall|i: int| 0 <= i < s.len() ==> s[i] is Correct,
    ensures
        correct_count_up_to(s, n) == n,
    decreases n,
{
    if n > 0 {
        lemma_correct_count_all(s, n - 1);
    }
}

/// Law: one wrong keystroke undone by an immediately following backspace
/// restores the statuses, the cursor and the completion flag to their
/// state before the error.
pub proof fn lemma_wrong_key_backspace_round_trip(
    pre: TypingState,
    mid: TypingState,
    post: TypingState,
    key: char,
    now_ms: u64,
)
    requires
        pre.wf(),
        !pre.is_complete,
        key != pre.text@[pre.current_index as int],
        TypingState::key_transition(pre, mid, key, now_ms, false),
        TypingState::backspace_transition(mid, post),
    ensures
        post.char_statuses@ == pre.char_statuses@,
        post.current_index == pre.current_index,
        post.is_complete == pre.is_complete,
        post.text@ == pre.text@,
{
    assert(pre.char_statuses@[pre.current_index as int] is Pending);
    assert(post.char_statuses@ =~= pre.char_statuses@);
}

} // verus!
