//! The complete timed game loop: one `TimedGame` wired to the session
//! orchestrator of the phrase currently being typed. Keystrokes,
//! backspaces and countdown ticks come in; streak events, phrase
//! completions and the run's end come out.

use vstd::prelude::*;
use crate::combo::{ComboState, ComboType};
use crate::engine::{CharStatus, TypingState};
use crate::metrics::{correct_count, word_count, wpm_milli, Accuracy};
use crate::session::{deletes_word, key_accepted, SessionOrchestrator};
use crate::timed::{GameState, TimedGame, TimedMode};

verus! {

/// The speed reported for an attempt completed at `now_ms` from state
/// `pre`: its words-per-minute value over the time since the first
/// keystroke, or zero when the duration is too short to measure or the
/// value exceeds the integer range.
pub open spec fn completion_wpm_milli(pre: TypingState, now_ms: u64) -> u64 {
    match pre.start_time {
        Some(st) => if st < now_ms && wpm_milli(word_count(pre.text@), (now_ms - st) as nat)
            <= u64::MAX {
            wpm_milli(word_count(pre.text@), (now_ms - st) as nat) as u64
        } else {
            0
        },
        None => 0,
    }
}

/// The accuracy reported for an attempt completed from state `pre` by a
/// final keystroke graded `correct`.
pub open spec fn completion_accuracy(pre: TypingState, correct: bool) -> Accuracy {
    Accuracy {
        correct: correct_count(
            pre.char_statuses@.update(
                pre.current_index as int,
                if correct {
                    CharStatus::Correct
                } else {
                    CharStatus::Incorrect
                },
            ),
        ) as usize,
        total: pre.char_statuses@.len() as usize,
    }
}

/// Everything one input event produced.
#[derive(Clone, Copy, Debug, PartialEq, Eq, Structural)]
pub struct RunEvents {
    /// The input was accepted and counted.
    pub consumed: bool,
    /// The keystroke matched the character under the cursor.
    pub correct: bool,
    /// A word was credited.
    pub word_typed: bool,
    /// A previously credited word was taken back by a backspace.
    pub word_deleted: bool,
    /// The current phrase completed and the run moved to the next one.
    pub completed: bool,
    /// Streak event fired by this input: a milestone or a broken streak.
    pub combo_event: Option<ComboType>,
    /// The completed phrase had no errors.
    pub perfect_phrase: bool,
}

impl RunEvents {
    /// No events: the input changed nothing.
    pub open spec fn quiet() -> RunEvents {
        RunEvents {
            consumed: false,
            correct: false,
            word_typed: false,
            word_deleted: false,
            completed: false,
            combo_event: None,
            perfect_phrase: false,
        }
    }
}

/// One timed game run together with the orchestrator of the phrase
/// currently being typed.
#[derive(Clone, Debug)]
pub struct GameRun {
    pub game: TimedGame,
    /// The attempt at the current phrase; `None` exactly while the run
    /// waits for a non-empty phrase sequence.
    pub session: Option<SessionOrchestrator>,
}

impl GameRun {
    /// Invariant: the game is well formed, there is a session exactly
    /// when phrases were supplied, and the session's attempt is well
    /// formed.
    pub open spec fn wf(self) -> bool {
        &&& self.game.wf()
        &&& ((self.game.phrases@.len() > 0) <==> (self.session is Some))
        &&& (self.session matches Some(s) ==> s.state.wf())
    }

    /// Fresh run of `mode` over `phrases`, with a fresh attempt at the
    /// first phrase (or waiting, when no phrases were supplied).
    pub fn new(mode: TimedMode, phrases: Vec<String>) -> (r: GameRun)
        requires
            forall|i: int| 0 <= i < phrases@.len() ==> phrases@[i]@.len() > 0,
        ensures
            r.wf(),
            TimedGame::is_fresh_run(r.game, mode, phrases@),
            phrases@.len() > 0 ==> (r.session matches Some(s) && TypingState::is_fresh_attempt(
                s.state,
                phrases@[0]@,
            )),
            phrases@.len() == 0 ==> r.session is None,
    {
        let game = TimedGame::new(mode, phrases);
        let session = match game.current_phrase() {
            Some(p) => Some(SessionOrchestrator::new(p.clone())),
            None => None,
        };
        GameRun { game, session }
    }

    /// Abandon the current run and start over with a freshly supplied
    /// phrase sequence.
    pub fn restart(&mut self, phrases: Vec<String>)
        requires
            forall|i: int| 0 <= i < phrases@.len() ==> phrases@[i]@.len() > 0,
        ensures
            final(self).wf(),
            TimedGame::is_fresh_run(final(self).game, old(self).game.mode, phrases@),
            phrases@.len() > 0 ==> (final(self).session matches Some(s)
                && TypingState::is_fresh_attempt(s.state, phrases@[0]@)),
            phrases@.len() == 0 ==> final(self).session is None,
    {
        self.game.restart(phrases);
        self.session = match self.game.current_phrase() {
            Some(p) => Some(SessionOrchestrator::new(p.clone())),
            None => None,
        };
    }

    /// Feed one keystroke at `now_ms`. A keystroke while the run has
    /// finished or still waits for phrases changes nothing. An accepted
    /// keystroke starts a pending run, is graded and counted, may break
    /// or extend the streak, and on phrase completion records the
    /// phrase's speed and accuracy, grants the Rush time bonus, and
    /// starts a fresh attempt at the next phrase of the rotation.
    pub fn key(&mut self, ch: char, now_ms: u64) -> (ev: RunEvents)
        requires
            old(self).wf(),
            TimedGame::can_record(old(self).game),
            (match old(self).session {
                Some(s) => match s.state.start_time {
                    Some(st) => st <= now_ms,
                    None => true,
                },
                None => true,
            }),
        ensures
            final(self).wf(),
            old(self).game.state is Finished || old(self).session is None ==> *final(self) == *old(
                self,
            ) && ev == RunEvents::quiet(),
            !(old(self).game.state is Finished) ==> (old(self).session matches Some(s0) ==> {
                &&& ev.consumed == key_accepted(s0.state, ch)
                &&& !ev.word_deleted
                &&& (!ev.consumed ==> *final(self) == *old(self) && ev == RunEvents::quiet())
                &&& (ev.consumed ==> {
                    let g1 = TimedGame::char_typed_step(old(self).game);
                    let g2 = if !ev.correct {
                        TimedGame::char_error_step(g1)
                    } else {
                        g1
                    };
                    let g3 = if ev.word_typed {
                        TimedGame::word_typed_step(g2)
                    } else {
                        g2
                    };
                    let broken_ev = if !ev.correct {
                        ComboState::broken_event(g1.combo)
                    } else {
                        None::<ComboType>
                    };
                    let word_ev = if ev.word_typed {
                        ComboState::word_completed_event(g2.combo)
                    } else {
                        None::<ComboType>
                    };
                    &&& ev.combo_event == (if word_ev is Some {
                        word_ev
                    } else {
                        broken_ev
                    })
                    &&& (!ev.completed ==> {
                        &&& final(self).game == g3
                        &&& !ev.perfect_phrase
                        &&& (final(self).session matches Some(s1)
                            && TypingState::key_transition(
                            s0.state,
                            s1.state,
                            ch,
                            now_ms,
                            ev.correct,
                        ))
                    })
                    &&& (ev.completed ==> {
                        let g4 = TimedGame::complete_step(
                            g3,
                            completion_wpm_milli(s0.state, now_ms),
                            completion_accuracy(s0.state, ev.correct),
                        );
                        &&& final(self).game == g4
                        &&& ev.perfect_phrase == (ComboState::phrase_completed_event(g3.combo)
                            is Some)
                        &&& (final(self).session matches Some(s1)
                            && TypingState::is_fresh_attempt(
                            s1.state,
                            g4.phrases@[g4.phrase_index as int]@,
                        ))
                    })
                })
            }),
    {
        let quiet = RunEvents {
            consumed: false,
            correct: false,
            word_typed: false,
            word_deleted: false,
            completed: false,
            combo_event: None,
            perfect_phrase: false,
        };
        if matches!(self.game.state, GameState::Finished) {
            return quiet;
        }
        let (oc, wpm_measured, acc_measured) = match &mut self.session {
            None => {
                return quiet;
            },
            Some(sess) => {
                let oc = sess.handle_key(ch, now_ms);
                if oc.completed {
                    let wpm = sess.state.get_wpm();
                    let acc = sess.state.get_accuracy();
                    (oc, wpm, Some(acc))
                } else {
                    (oc, None, None)
                }
            },
        };
        if !oc.consumed {
            return quiet;
        }
        self.game.on_char_typed();
        let broken_ev: Option<ComboType> = if !oc.correct {
            self.game.on_char_error()
        } else {
            None
        };
        let word_ev: Option<ComboType> = if oc.word_typed {
            self.game.on_word_typed()
        } else {
            None
        };
        let mut perfect_phrase = false;
        if oc.completed {
            let acc = match acc_measured {
                Some(a) => a,
                None => Accuracy { correct: 0, total: 0 },
            };
            let wpm_val = match wpm_measured {
                Some(w) => w,
                None => 0,
            };
            let complete_ev = self.game.on_complete(wpm_val, acc);
            perfect_phrase = complete_ev.is_some();
            self.session = match self.game.current_phrase() {
                Some(p) => Some(SessionOrchestrator::new(p.clone())),
                None => None,
            };
        }
        RunEvents {
            consumed: true,
            correct: oc.correct,
            word_typed: oc.word_typed,
            word_deleted: false,
            completed: oc.completed,
            combo_event: if word_ev.is_some() {
                word_ev
            } else {
                broken_ev
            },
            perfect_phrase,
        }
    }

    /// Feed one backspace. It never completes a phrase; erasing the
    /// space of a previously credited word takes that word back and
    /// breaks the streak.
    pub fn backspace(&mut self) -> (ev: RunEvents)
        requires
            old(self).wf(),
        ensures
            final(self).wf(),
            old(self).game.state is Finished || old(self).session is None ==> *final(self) == *old(
                self,
            ) && ev == RunEvents::quiet(),
            !(old(self).game.state is Finished) ==> (old(self).session matches Some(s0) ==> {
                &&& ev.consumed == (s0.state.current_index > 0)
                &&& ev.word_deleted == deletes_word(s0.state)
                &&& !ev.correct && !ev.word_typed && !ev.completed && !ev.perfect_phrase
                &&& final(self).game == (if ev.word_deleted {
                    TimedGame::word_deleted_step(old(self).game)
                } else {
                    old(self).game
                })
                &&& ev.combo_event == (if ev.word_deleted {
                    ComboState::broken_event(old(self).game.combo)
                } else {
                    None::<ComboType>
                })
                &&& (final(self).session matches Some(s1) && (if ev.consumed {
                    TypingState::backspace_transition(s0.state, s1.state)
                } else {
                    s1 == s0
                }))
            }),
    {
        let quiet = RunEvents {
            consumed: false,
            correct: false,
            word_typed: false,
            word_deleted: false,
            completed: false,
            combo_event: None,
            perfect_phrase: false,
        };
        if matches!(self.game.state, GameState::Finished) {
            return quiet;
        }
        let oc = match &mut self.session {
            None => {
                return quiet;
            },
            Some(sess) => sess.handle_backspace(),
        };
        let combo_event: Option<ComboType> = if oc.word_deleted {
            self.game.on_word_deleted()
        } else {
            None
        };
        RunEvents {
            consumed: oc.moved,
            correct: false,
            word_typed: false,
            word_deleted: oc.word_deleted,
            completed: false,
            combo_event,
            perfect_phrase: false,
        }
    }

    /// One firing of the recurring countdown tick; the phrase attempt is
    /// untouched, and after the run has finished nothing changes.
    pub fn tick(&mut self) -> (finished_now: bool)
        requires
            old(self).wf(),
            old(self).game.elapsed_tenths < u64::MAX,
        ensures
            final(self).wf(),
            final(self).session == old(self).session,
            !(old(self).game.state is Running) ==> final(self).game == old(self).game
                && !finished_now,
            old(self).game.state is Running ==> final(self).game == TimedGame::tick_step(
                old(self).game,
            ) && finished_now == (old(self).game.time_remaining_tenths == 1),
    {
        self.game.tick()
    }
}

} // verus!
