//! Timed game runs (Rush and Marathon): the Pending/Running/Finished
//! state machine, the countdown driven by a fixed 100 ms tick, the
//! accuracy-tiered time bonuses of Rush, the end score of Marathon, and
//! the aggregate totals of one run.
//!
//! Time is kept in tenths of a second, so one tick subtracts exactly 1.

use vstd::prelude::*;
use crate::combo::{ComboState, ComboType};
use crate::metrics::{accuracy_x100, Accuracy};

verus! {

/// Which timed mode a run plays.
#[derive(Clone, Copy, Debug, PartialEq, Eq, Structural)]
pub enum TimedMode {
    Rush,
    Marathon,
}

/// Life cycle of one run: `Pending` until the first keystroke, then
/// `Running` until the countdown reaches zero, then `Finished` until an
/// explicit restart.
#[derive(Clone, Copy, Debug, PartialEq, Eq, Structural)]
pub enum GameState {
    Pending,
    Running,
    Finished,
}

/// Milliseconds between two countdown ticks.
pub const TICK_MILLIS: u64 = 100;

/// Initial countdown of a Rush run, in tenths of a second (20 seconds).
pub const RUSH_INITIAL_TENTHS: u64 = 200;

/// Initial countdown of a Marathon run, in tenths of a second (2 minutes).
pub const MARATHON_INITIAL_TENTHS: u64 = 1200;

/// Initial countdown of a mode, in tenths of a second.
pub open spec fn initial_tenths(mode: TimedMode) -> u64 {
    match mode {
        TimedMode::Rush => RUSH_INITIAL_TENTHS,
        TimedMode::Marathon => MARATHON_INITIAL_TENTHS,
    }
}

/// Rush time bonus, in tenths of a second, for a phrase finished with
/// `correct` of `total` characters right: 5 s at exactly 100% accuracy,
/// 3 s above 75%, 2 s above 50%, 1 s above 25%, nothing otherwise. The
/// tiers compare the exact ratio, not a rounded percentage.
pub open spec fn rush_bonus_tenths(correct: nat, total: nat) -> nat {
    if correct == total {
        50
    } else if 100 * correct > 75 * total {
        30
    } else if 100 * correct > 50 * total {
        20
    } else if 100 * correct > 25 * total {
        10
    } else {
        0
    }
}

/// Marathon end score: every word typed counts 1, plus 1 for each full
/// five words of the highest streak.
pub open spec fn marathon_score(words: nat, highest_combo: nat) -> nat {
    words + highest_combo / 5
}

/// Totals accumulated over one timed run.
#[derive(Clone, Copy, Debug, PartialEq, Eq, Structural)]
pub struct RunAggregate {
    pub total_words_typed: u64,
    pub total_chars_typed: u64,
    pub phrases_completed: u64,
    /// Sum over completed phrases of their speed, in thousandths of a
    /// word per minute.
    pub wpm_sum_milli: u64,
    /// Sum over completed phrases of their accuracy, in hundredths of a
    /// percent.
    pub accuracy_sum_x100: u64,
    pub last_wpm_milli: u64,
    pub last_accuracy_x100: u64,
}

impl RunAggregate {
    /// Zeroed totals; the last reported accuracy starts at 100%.
    pub fn new() -> (a: RunAggregate)
        ensures
            a == (RunAggregate {
                total_words_typed: 0,
                total_chars_typed: 0,
                phrases_completed: 0,
                wpm_sum_milli: 0,
                accuracy_sum_x100: 0,
                last_wpm_milli: 0,
                last_accuracy_x100: 10000,
            }),
    {
        RunAggregate {
            total_words_typed: 0,
            total_chars_typed: 0,
            phrases_completed: 0,
            wpm_sum_milli: 0,
            accuracy_sum_x100: 0,
            last_wpm_milli: 0,
            last_accuracy_x100: 10000,
        }
    }
}

/// One timed game run: mode, life cycle state, countdown, phrase
/// rotation, run totals and streak state.
#[derive(Clone, Debug)]
pub struct TimedGame {
    pub mode: TimedMode,
    pub state: GameState,
    /// The phrase sequence supplied for this run, already ordered (or
    /// shuffled) by the caller. An empty sequence keeps the run waiting.
    pub phrases: Vec<String>,
    pub phrase_index: usize,
    pub time_remaining_tenths: u64,
    pub elapsed_tenths: u64,
    pub aggregate: RunAggregate,
    pub combo: ComboState,
}

impl TimedGame {
    /// Invariant of a run: the streak state is well formed, the run is
    /// finished exactly when the countdown stands at zero, the phrase
    /// cursor stays inside a non-empty phrase list, and every supplied
    /// phrase is non-empty.
    pub open spec fn wf(self) -> bool {
        &&& self.combo.wf()
        &&& ((self.state is Finished) <==> self.time_remaining_tenths == 0)
        &&& (self.phrases@.len() > 0 ==> self.phrase_index < self.phrases@.len())
        &&& (self.phrases@.len() == 0 ==> self.phrase_index == 0)
        &&& (forall|i: int| 0 <= i < self.phrases@.len() ==> self.phrases@[i]@.len() > 0)
    }

    /// `g` is what a fresh run of `mode` over `phrases` looks like:
    /// pending, full countdown, zeroed totals, fresh streak.
    pub open spec fn is_fresh_run(g: TimedGame, mode: TimedMode, phrases: Seq<String>) -> bool {
        &&& g.mode == mode
        &&& g.state is Pending
        &&& g.phrases@ == phrases
        &&& g.phrase_index == 0
        &&& g.time_remaining_tenths == initial_tenths(mode)
        &&& g.elapsed_tenths == 0
        &&& g.aggregate == (RunAggregate {
            total_words_typed: 0,
            total_chars_typed: 0,
            phrases_completed: 0,
            wpm_sum_milli: 0,
            accuracy_sum_x100: 0,
            last_wpm_milli: 0,
            last_accuracy_x100: 10000,
        })
        &&& g.combo == (ComboState {
            consecutive_correct_words: 0,
            last_milestone_reached: 0,
            highest_combo: 0,
            phrase_has_errors: false,
        })
    }

    /// Fresh run of `mode` over `phrases`: pending, full countdown,
    /// zeroed totals, fresh streak.
    pub fn new(mode: TimedMode, phrases: Vec<String>) -> (g: TimedGame)
        requires
            forall|i: int| 0 <= i < phrases@.len() ==> phrases@[i]@.len() > 0,
        ensures
            g.wf(),
            TimedGame::is_fresh_run(g, mode, phrases@),
    {
        let initial = match mode {
            TimedMode::Rush => RUSH_INITIAL_TENTHS,
            TimedMode::Marathon => MARATHON_INITIAL_TENTHS,
        };
        TimedGame {
            mode,
            state: GameState::Pending,
            phrases,
            phrase_index: 0,
            time_remaining_tenths: initial,
            elapsed_tenths: 0,
            aggregate: RunAggregate::new(),
            combo: ComboState::new(),
        }
    }

    /// Abandon the current run and start over with a freshly supplied
    /// phrase sequence, exactly as a new run of the same mode.
    pub fn restart(&mut self, phrases: Vec<String>)
        requires
            forall|i: int| 0 <= i < phrases@.len() ==> phrases@[i]@.len() > 0,
        ensures
            final(self).wf(),
            TimedGame::is_fresh_run(*final(self), old(self).mode, phrases@),
    {
        let mode = self.mode;
        *self = TimedGame::new(mode, phrases);
    }

    /// The run has no phrases yet and waits for the provider.
    pub fn waiting_for_phrases(&self) -> (r: bool)
        ensures
            r == (self.phrases@.len() == 0),
    {
        self.phrases.len() == 0
    }

    /// The phrase to type next: `None` while the supplied sequence is
    /// empty (the waiting sub-state), never an out-of-bounds access.
    pub fn current_phrase(&self) -> (r: Option<&String>)
        requires
            self.wf(),
        ensures
            self.phrases@.len() == 0 ==> r is None,
            self.phrases@.len() > 0 ==> (r matches Some(p) && p@ == self.phrases@[self.phrase_index as int]@
                && p@.len() > 0),
    {
        if self.phrases.len() == 0 {
            None
        } else {
            Some(&self.phrases[self.phrase_index])
        }
    }

    /// State after an accepted keystroke (when the run has not finished).
    pub open spec fn char_typed_step(g: TimedGame) -> TimedGame
        recommends
            g.aggregate.total_chars_typed < u64::MAX,
    {
        TimedGame {
            state: GameState::Running,
            aggregate: RunAggregate {
                total_chars_typed: (g.aggregate.total_chars_typed + 1) as u64,
                ..g.aggregate
            },
            ..g
        }
    }

    /// State after a wrongly typed character: the streak breaks.
    pub open spec fn char_error_step(g: TimedGame) -> TimedGame {
        TimedGame { combo: ComboState::broken_state(g.combo), ..g }
    }

    /// State after a correctly typed word: it is counted, the streak
    /// grows.
    pub open spec fn word_typed_step(g: TimedGame) -> TimedGame
        recommends
            g.aggregate.total_words_typed < u64::MAX,
            g.combo.consecutive_correct_words < u64::MAX,
    {
        TimedGame {
            aggregate: RunAggregate {
                total_words_typed: (g.aggregate.total_words_typed + 1) as u64,
                ..g.aggregate
            },
            combo: ComboState::word_completed_state(g.combo),
            ..g
        }
    }

    /// State after a credited word was deleted: the word count goes back
    /// down (never below zero) and the streak breaks.
    pub open spec fn word_deleted_step(g: TimedGame) -> TimedGame {
        TimedGame {
            aggregate: RunAggregate {
                total_words_typed: (if g.aggregate.total_words_typed > 0 {
                    (g.aggregate.total_words_typed - 1) as u64
                } else {
                    0
                }),
                ..g.aggregate
            },
            combo: ComboState::broken_state(g.combo),
            ..g
        }
    }

    /// State after a completed phrase: totals updated (the speed sum
    /// saturating at the integer bound), per-phrase streak flag reset,
    /// the Rush time bonus granted, and the phrase cursor advanced with
    /// wrap-around.
    pub open spec fn complete_step(g: TimedGame, wpm_milli: u64, acc: Accuracy) -> TimedGame
        recommends
            g.aggregate.phrases_completed < u64::MAX,
            g.aggregate.accuracy_sum_x100 + 10000 <= u64::MAX,
            g.time_remaining_tenths + 50 <= u64::MAX,
            acc.wf(),
    {
        TimedGame {
            aggregate: RunAggregate {
                phrases_completed: (g.aggregate.phrases_completed + 1) as u64,
                wpm_sum_milli: (if g.aggregate.wpm_sum_milli + wpm_milli > u64::MAX {
                    u64::MAX
                } else {
                    (g.aggregate.wpm_sum_milli + wpm_milli) as u64
                }),
                accuracy_sum_x100: (g.aggregate.accuracy_sum_x100 + accuracy_x100(
                    acc.correct as nat,
                    acc.total as nat,
                )) as u64,
                last_wpm_milli: wpm_milli,
                last_accuracy_x100: accuracy_x100(acc.correct as nat, acc.total as nat) as u64,
                ..g.aggregate
            },
            combo: ComboState::phrase_completed_state(g.combo),
            time_remaining_tenths: (g.time_remaining_tenths + (if g.mode is Rush {
                rush_bonus_tenths(acc.correct as nat, acc.total as nat)
            } else {
                0
            })) as u64,
            phrase_index: (if g.phrases@.len() > 0 {
                (g.phrase_index + 1) % g.phrases@.len() as int
            } else {
                0
            }) as usize,
            ..g
        }
    }

    /// State after one countdown tick of a running game.
    pub open spec fn tick_step(g: TimedGame) -> TimedGame
        recommends
            g.elapsed_tenths < u64::MAX,
            g.time_remaining_tenths > 0,
    {
        TimedGame {
            time_remaining_tenths: (g.time_remaining_tenths - 1) as u64,
            elapsed_tenths: (g.elapsed_tenths + 1) as u64,
            state: (if g.time_remaining_tenths == 1 {
                GameState::Finished
            } else {
                GameState::Running
            }),
            ..g
        }
    }

    /// The run can still record a keystroke, a word, a phrase and a time
    /// bonus without leaving the integer range of its counters.
    pub open spec fn can_record(g: TimedGame) -> bool {
        &&& g.aggregate.total_chars_typed < u64::MAX
        &&& g.aggregate.total_words_typed < u64::MAX
        &&& g.combo.consecutive_correct_words < u64::MAX
        &&& g.aggregate.phrases_completed < u64::MAX
        &&& g.aggregate.accuracy_sum_x100 + 10000 <= u64::MAX
        &&& g.time_remaining_tenths + 50 <= u64::MAX
    }

    /// Whether the run's counters can still take another keystroke,
    /// word and phrase.
    pub fn has_capacity(&self) -> (r: bool)
        ensures
            r == TimedGame::can_record(*self),
    {
        self.aggregate.total_chars_typed < u64::MAX
            && self.aggregate.total_words_typed < u64::MAX
            && self.combo.consecutive_correct_words < u64::MAX
            && self.aggregate.phrases_completed < u64::MAX
            && self.aggregate.accuracy_sum_x100 <= u64::MAX - 10000
            && self.time_remaining_tenths <= u64::MAX - 50
    }

    /// An accepted keystroke: the first one of a run starts it
    /// (`Pending` becomes `Running`), and every one is counted. After
    /// the run has finished, keystrokes change nothing.
    pub fn on_char_typed(&mut self)
        requires
            old(self).wf(),
            old(self).aggregate.total_chars_typed < u64::MAX,
        ensures
            final(self).wf(),
            old(self).state is Finished ==> *final(self) == *old(self),
            !(old(self).state is Finished) ==> *final(self) == TimedGame::char_typed_step(
                *old(self),
            ),
    {
        if matches!(self.state, GameState::Finished) {
            return ;
        }
        self.state = GameState::Running;
        self.aggregate.total_chars_typed = self.aggregate.total_chars_typed + 1;
    }

    /// A wrongly typed character: the streak breaks.
    pub fn on_char_error(&mut self) -> (ev: Option<ComboType>)
        requires
            old(self).wf(),
        ensures
            final(self).wf(),
            *final(self) == TimedGame::char_error_step(*old(self)),
            ev == ComboState::broken_event(old(self).combo),
    {
        self.combo.on_char_error()
    }

    /// A word typed correctly: it is counted and the streak grows,
    /// firing a milestone event when one is reached.
    pub fn on_word_typed(&mut self) -> (ev: Option<ComboType>)
        requires
            old(self).wf(),
            old(self).aggregate.total_words_typed < u64::MAX,
            old(self).combo.consecutive_correct_words < u64::MAX,
        ensures
            final(self).wf(),
            *final(self) == TimedGame::word_typed_step(*old(self)),
            ev == ComboState::word_completed_event(old(self).combo),
    {
        self.aggregate.total_words_typed = self.aggregate.total_words_typed + 1;
        self.combo.on_word_completed()
    }

    /// A previously credited word was deleted: the word count goes back
    /// down (never below zero) and the streak breaks like on an error.
    pub fn on_word_deleted(&mut self) -> (ev: Option<ComboType>)
        requires
            old(self).wf(),
        ensures
            final(self).wf(),
            *final(self) == TimedGame::word_deleted_step(*old(self)),
            ev == ComboState::broken_event(old(self).combo),
    {
        if self.aggregate.total_words_typed > 0 {
            self.aggregate.total_words_typed = self.aggregate.total_words_typed - 1;
        }
        self.combo.on_char_error()
    }

    /// A phrase was completed at speed `wpm_milli` with accuracy `acc`:
    /// record it in the totals, fire `PerfectPhrase` when the phrase had
    /// no errors, grant the accuracy-tiered time bonus in Rush, and move
    /// to the next phrase, wrapping to the start of the sequence when it
    /// is exhausted.
    pub fn on_complete(&mut self, wpm_milli: u64, acc: Accuracy) -> (ev: Option<ComboType>)
        requires
            old(self).wf(),
            acc.wf(),
            old(self).state is Running,
            old(self).aggregate.phrases_completed < u64::MAX,
            old(self).aggregate.accuracy_sum_x100 + 10000 <= u64::MAX,
            old(self).time_remaining_tenths + 50 <= u64::MAX,
        ensures
            final(self).wf(),
            ev == ComboState::phrase_completed_event(old(self).combo),
            *final(self) == TimedGame::complete_step(*old(self), wpm_milli, acc),
    {
        let ev = self.combo.on_phrase_completed();
        let acc_x100 = acc.percent_x100();
        self.aggregate.last_wpm_milli = wpm_milli;
        self.aggregate.last_accuracy_x100 = acc_x100;
        self.aggregate.wpm_sum_milli = if wpm_milli > u64::MAX - self.aggregate.wpm_sum_milli {
            u64::MAX
        } else {
            self.aggregate.wpm_sum_milli + wpm_milli
        };
        self.aggregate.accuracy_sum_x100 = self.aggregate.accuracy_sum_x100 + acc_x100;
        self.aggregate.phrases_completed = self.aggregate.phrases_completed + 1;
        let bonus = match self.mode {
            TimedMode::Rush => rush_time_bonus_tenths(&acc),
            TimedMode::Marathon => 0,
        };
        self.time_remaining_tenths = self.time_remaining_tenths + bonus;
        let len = self.phrases.len();
        if len > 0 {
            self.phrase_index = (self.phrase_index + 1) % len;
        }
        ev
    }

    /// One firing of the recurring 100 ms countdown tick. While the run
    /// is `Running` it subtracts one tenth of a second and finishes the
    /// run the moment the countdown reaches zero; in `Pending` or
    /// `Finished` it changes nothing, so a finished run sees no further
    /// decrements.
    pub fn tick(&mut self) -> (finished_now: bool)
        requires
            old(self).wf(),
            old(self).elapsed_tenths < u64::MAX,
        ensures
            final(self).wf(),
            !(old(self).state is Running) ==> *final(self) == *old(self) && !finished_now,
            old(self).state is Running ==> *final(self) == TimedGame::tick_step(*old(self)),
            old(self).state is Running ==> finished_now == (old(self).time_remaining_tenths == 1),
    {
        if !matches!(self.state, GameState::Running) {
            return false;
        }
        self.time_remaining_tenths = self.time_remaining_tenths - 1;
        self.elapsed_tenths = self.elapsed_tenths + 1;
        if self.time_remaining_tenths == 0 {
            self.state = GameState::Finished;
            true
        } else {
            false
        }
    }

    /// Marathon end score of this run: total words typed plus one point
    /// per full five words of the highest streak.
    pub fn final_score(&self) -> (score: u64)
        requires
            self.aggregate.total_words_typed + self.combo.highest_combo / 5 <= u64::MAX,
        ensures
            score == marathon_score(
                self.aggregate.total_words_typed as nat,
                self.combo.highest_combo as nat,
            ),
    {
        self.aggregate.total_words_typed + self.combo.highest_combo / 5
    }

    /// Average speed over the completed phrases, in thousandths of a
    /// word per minute; 0 when no phrase was completed.
    pub fn avg_wpm_milli(&self) -> (r: u64)
        ensures
            r == (if self.aggregate.phrases_completed == 0 {
                0
            } else {
                self.aggregate.wpm_sum_milli / self.aggregate.phrases_completed
            }),
    {
        if self.aggregate.phrases_completed == 0 {
            0
        } else {
            self.aggregate.wpm_sum_milli / self.aggregate.phrases_completed
        }
    }

    /// Average accuracy over the completed phrases, in hundredths of a
    /// percent; 0 when no phrase was completed.
    pub fn avg_accuracy_x100(&self) -> (r: u64)
        ensures
            r == (if self.aggregate.phrases_completed == 0 {
                0
            } else {
                self.aggregate.accuracy_sum_x100 / self.aggregate.phrases_completed
            }),
    {
        if self.aggregate.phrases_completed == 0 {
            0
        } else {
            self.aggregate.accuracy_sum_x100 / self.aggregate.phrases_completed
        }
    }
}

/// Law: the Rush time bonus is tiered on the exact accuracy ratio, for
/// all counts of correct and graded characters — 5 s at exactly 100%,
/// 3 s above 75%, 2 s above 50%, 1 s above 25%, nothing at or below 25%.
pub proof fn lemma_rush_bonus_tiers(correct: nat, total: nat)
    ensures
        correct == total ==> rush_bonus_tenths(correct, total) == 50,
        correct != total && 100 * correct > 75 * total ==> rush_bonus_tenths(correct, total) == 30,
        correct != total && 100 * correct <= 75 * total && 100 * correct > 50 * total
            ==> rush_bonus_tenths(correct, total) == 20,
        correct != total && 100 * correct <= 50 * total && 100 * correct > 25 * total
            ==> rush_bonus_tenths(correct, total) == 10,
        correct != total && 100 * correct <= 25 * total ==> rush_bonus_tenths(correct, total) == 0,
{
}

/// Law: completing a phrase adds exactly the accuracy-tiered bonus to
/// the remaining time in Rush, and nothing in Marathon, whatever the
/// rest of the run's state. Remaining time is unbounded but for the
/// integer range of the counter, which the one precondition reserves.
pub proof fn lemma_complete_time_bonus(g: TimedGame, wpm_milli: u64, acc: Accuracy)
    requires
        acc.wf(),
        g.time_remaining_tenths + 50 <= u64::MAX,
    ensures
        g.mode is Rush ==> TimedGame::complete_step(g, wpm_milli, acc).time_remaining_tenths
            == g.time_remaining_tenths + rush_bonus_tenths(acc.correct as nat, acc.total as nat),
        g.mode is Marathon ==> TimedGame::complete_step(g, wpm_milli, acc).time_remaining_tenths
            == g.time_remaining_tenths,
        rush_bonus_tenths(acc.correct as nat, acc.total as nat) <= 50,
{
}

/// Law: the Marathon end score counts every typed word once plus one
/// point per full five words of the highest streak, for all counts.
pub proof fn lemma_marathon_score_formula(words: nat, highest_combo: nat)
    ensures
        marathon_score(words, highest_combo) == words + highest_combo / 5,
{
}

/// Rush time bonus of one completed phrase, in tenths of a second.
pub fn rush_time_bonus_tenths(acc: &Accuracy) -> (b: u64)
    requires
        acc.wf(),
    ensures
        b == rush_bonus_tenths(acc.correct as nat, acc.total as nat),
        b <= 50,
{
    if acc.correct == acc.total {
        50
    } else {
        let c: u128 = (acc.correct as u128) * 100;
        let t: u128 = acc.total as u128;
        if c > t * 75 {
            30
        } else if c > t * 50 {
            20
        } else if c > t * 25 {
            10
        } else {
            0
        }
    }
}

} // verus!
