//! Orchestration of one phrase attempt: feeds keystrokes and backspaces
//! to the automaton and turns them into the word-level events the game
//! loops consume — a word is credited the instant its trailing space is
//! typed correctly, and the final word of a phrase is credited at
//! completion.

use vstd::prelude::*;
use vstd::string::StrSliceExecFns;
use crate::engine::{CharStatus, TypingState};

verus! {

/// What one keystroke produced at the word level.
#[derive(Clone, Copy, Debug, PartialEq, Eq, Structural)]
pub struct KeyOutcome {
    /// The keystroke was accepted: it was neither a stray space before
    /// the cursor ever advanced nor a keystroke after completion.
    pub consumed: bool,
    /// The keystroke matched the character under the cursor.
    pub correct: bool,
    /// A word was credited: a space was typed correctly, or the phrase
    /// completed without a trailing space and its final word is credited.
    pub word_typed: bool,
    /// The phrase completed on this keystroke.
    pub completed: bool,
}

/// What one backspace produced at the word level.
#[derive(Clone, Copy, Debug, PartialEq, Eq, Structural)]
pub struct BackspaceOutcome {
    /// The cursor moved (it was not already at the start).
    pub moved: bool,
    /// The erased character was a space previously graded correct, so a
    /// previously credited word was taken back.
    pub word_deleted: bool,
}

/// Drives one `TypingState` and derives word-level events from it. It
/// owns no cross-phrase state; a fresh orchestrator is built per phrase.
#[derive(Clone, Debug)]
pub struct SessionOrchestrator {
    pub state: TypingState,
}

/// A keystroke is accepted unless the attempt is already complete or it
/// is a space while the cursor is still at the start of the phrase.
pub open spec fn key_accepted(s: TypingState, key: char) -> bool {
    &&& !s.is_complete
    &&& !(s.current_index == 0 && key == ' ')
}

/// Erasing the character before the cursor takes back a credited word
/// exactly when that character is a space graded correct.
pub open spec fn deletes_word(s: TypingState) -> bool {
    &&& s.current_index > 0
    &&& s.text@[s.current_index - 1] == ' '
    &&& s.char_statuses@[s.current_index - 1] is Correct
}

impl SessionOrchestrator {
    /// Fresh orchestrator over a fresh attempt at `text`.
    pub fn new(text: String) -> (s: SessionOrchestrator)
        requires
            text@.len() > 0,
        ensures
            s.state.wf(),
            TypingState::is_fresh_attempt(s.state, text@),
    {
        SessionOrchestrator { state: TypingState::new(text) }
    }

    /// Feed one keystroke. A rejected keystroke (stray leading space,
    /// keystroke after completion) changes nothing and reports no events;
    /// an accepted one is graded by the automaton, and the outcome says
    /// whether a word was credited and whether the phrase completed.
    pub fn handle_key(&mut self, key: char, now_ms: u64) -> (oc: KeyOutcome)
        requires
            old(self).state.wf(),
            old(self).state.start_time matches Some(st) ==> st <= now_ms,
        ensures
            final(self).state.wf(),
            oc.consumed == key_accepted(old(self).state, key),
            !oc.consumed ==> *final(self) == *old(self) && !oc.correct && !oc.word_typed
                && !oc.completed,
            oc.consumed ==> {
                &&& TypingState::key_transition(
                    old(self).state,
                    final(self).state,
                    key,
                    now_ms,
                    oc.correct,
                )
                &&& oc.completed == final(self).state.is_complete
                &&& oc.word_typed == ({
                    ||| (oc.correct && old(self).state.text@[old(self).state.current_index as int]
                        == ' ')
                    ||| (oc.completed && old(self).state.text@[old(self).state.text@.len() - 1]
                        != ' ')
                })
            },
    {
        if self.state.is_complete || (self.state.current_index == 0 && key == ' ') {
            return KeyOutcome { consumed: false, correct: false, word_typed: false, completed: false };
        }
        let typed_index = self.state.current_index;
        let correct = self.state.handle_key(key, now_ms);
        let completed = self.state.is_complete;
        let mut word_typed = false;
        if correct {
            let typed_char = self.state.text.as_str().get_char(typed_index);
            if typed_char == ' ' {
                word_typed = true;
            }
        }
        if completed {
            let len = self.state.char_statuses.len();
            let last_char = self.state.text.as_str().get_char(len - 1);
            if last_char != ' ' {
                word_typed = true;
            }
        }
        KeyOutcome { consumed: true, correct, word_typed, completed }
    }

    /// Feed one backspace. Reports, from the state before the deletion,
    /// whether a previously credited word is being taken back.
    pub fn handle_backspace(&mut self) -> (oc: BackspaceOutcome)
        requires
            old(self).state.wf(),
        ensures
            final(self).state.wf(),
            oc.moved == (old(self).state.current_index > 0),
            oc.word_deleted == deletes_word(old(self).state),
            !oc.moved ==> *final(self) == *old(self),
            oc.moved ==> TypingState::backspace_transition(old(self).state, final(self).state),
    {
        let mut word_deleted = false;
        if self.state.current_index > 0 {
            let idx = self.state.current_index - 1;
            let erased = self.state.text.as_str().get_char(idx);
            if erased == ' ' && matches!(self.state.char_statuses[idx], CharStatus::Correct) {
                word_deleted = true;
            }
        }
        let moved = self.state.handle_backspace();
        BackspaceOutcome { moved, word_deleted }
    }
}

} // verus!
