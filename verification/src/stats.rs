//! Lifetime player statistics: totals, personal records and running
//! averages over all recorded games, updated once per finished run.
//!
//! Durations are kept in tenths of a second, speeds in thousandths of a
//! word per minute and accuracies in hundredths of a percent, matching
//! the units of the run aggregates.

use vstd::prelude::*;
use vstd::arithmetic::div_mod::{lemma_div_is_ordered, lemma_div_multiples_vanish};
use vstd::arithmetic::mul::lemma_mul_inequality;

verus! {

/// Which game produced a recorded result.
#[derive(Clone, Copy, Debug, PartialEq, Eq, Structural)]
pub enum GameMode {
    Zen,
    Rush,
    Marathon,
}

/// The running average after folding one more sample into an average
/// over `n - 1` earlier samples (rounded down).
pub open spec fn running_avg(prev_avg: nat, sample: nat, n: nat) -> int
    recommends
        n > 0,
{
    (prev_avg * (n - 1) + sample) / (n as int)
}

/// Aggregate statistics of all games a player has recorded.
#[derive(Clone, Copy, Debug, PartialEq, Eq, Structural)]
pub struct GameStats {
    pub total_games_played: u64,
    pub total_words_typed: u64,
    pub total_chars_typed: u64,
    /// Total play time, in tenths of a second.
    pub total_time_played_tenths: u64,
    pub best_wpm_milli: u64,
    pub best_accuracy_x100: u64,
    pub highest_combo: u64,
    pub average_wpm_milli: u64,
    pub average_accuracy_x100: u64,
    pub zen_games: u64,
    pub rush_games: u64,
    pub marathon_games: u64,
    pub marathon_best_score: u64,
}

impl Default for GameStats {
    /// Statistics of a player who has not recorded any game yet.
    fn default() -> (s: GameStats)
        ensures
            s == (GameStats {
                total_games_played: 0,
                total_words_typed: 0,
                total_chars_typed: 0,
                total_time_played_tenths: 0,
                best_wpm_milli: 0,
                best_accuracy_x100: 0,
                highest_combo: 0,
                average_wpm_milli: 0,
                average_accuracy_x100: 0,
                zen_games: 0,
                rush_games: 0,
                marathon_games: 0,
                marathon_best_score: 0,
            }),
    {
        GameStats {
            total_games_played: 0,
            total_words_typed: 0,
            total_chars_typed: 0,
            total_time_played_tenths: 0,
            best_wpm_milli: 0,
            best_accuracy_x100: 0,
            highest_combo: 0,
            average_wpm_milli: 0,
            average_accuracy_x100: 0,
            zen_games: 0,
            rush_games: 0,
            marathon_games: 0,
            marathon_best_score: 0,
        }
    }
}

impl GameStats {
    /// At least one game has been recorded.
    pub fn has_played(&self) -> (r: bool)
        ensures
            r == (self.total_games_played > 0),
    {
        self.total_games_played > 0
    }

    /// Fold one finished game into the statistics: bump the totals and
    /// the per-mode counter, keep the best speed, accuracy, streak and
    /// (for Marathon) score, and update the running averages.
    pub fn record_game(
        &mut self,
        mode: GameMode,
        words: u64,
        chars: u64,
        time_tenths: u64,
        wpm_milli: u64,
        accuracy_x100: u64,
        combo: u64,
        marathon_score: Option<u64>,
    )
        requires
            old(self).total_games_played < u64::MAX,
            old(self).total_words_typed + words <= u64::MAX,
            old(self).total_chars_typed + chars <= u64::MAX,
            old(self).total_time_played_tenths + time_tenths <= u64::MAX,
            old(self).zen_games < u64::MAX,
            old(self).rush_games < u64::MAX,
            old(self).marathon_games < u64::MAX,
        ensures
            final(self).total_games_played == old(self).total_games_played + 1,
            final(self).total_words_typed == old(self).total_words_typed + words,
            final(self).total_chars_typed == old(self).total_chars_typed + chars,
            final(self).total_time_played_tenths == old(self).total_time_played_tenths
                + time_tenths,
            final(self).best_wpm_milli == (if wpm_milli > old(self).best_wpm_milli {
                wpm_milli
            } else {
                old(self).best_wpm_milli
            }),
            final(self).best_accuracy_x100 == (if accuracy_x100 > old(self).best_accuracy_x100 {
                accuracy_x100
            } else {
                old(self).best_accuracy_x100
            }),
            final(self).highest_combo == (if combo > old(self).highest_combo {
                combo
            } else {
                old(self).highest_combo
            }),
            final(self).average_wpm_milli == running_avg(
                old(self).average_wpm_milli as nat,
                wpm_milli as nat,
                (old(self).total_games_played + 1) as nat,
            ),
            final(self).average_accuracy_x100 == running_avg(
                old(self).average_accuracy_x100 as nat,
                accuracy_x100 as nat,
                (old(self).total_games_played + 1) as nat,
            ),
            final(self).zen_games == old(self).zen_games + (if mode is Zen {
                1int
            } else {
                0int
            }),
            final(self).rush_games == old(self).rush_games + (if mode is Rush {
                1int
            } else {
                0int
            }),
            final(self).marathon_games == old(self).marathon_games + (if mode is Marathon {
                1int
            } else {
                0int
            }),
            final(self).marathon_best_score == (if mode is Marathon && (marathon_score matches Some(
                sc,
            ) && sc > old(self).marathon_best_score) {
                marathon_score.unwrap()
            } else {
                old(self).marathon_best_score
            }),
    {
        let n = self.total_games_played + 1;
        self.total_games_played = n;
        self.total_words_typed = self.total_words_typed + words;
        self.total_chars_typed = self.total_chars_typed + chars;
        self.total_time_played_tenths = self.total_time_played_tenths + time_tenths;
        if wpm_milli > self.best_wpm_milli {
            self.best_wpm_milli = wpm_milli;
        }
        if accuracy_x100 > self.best_accuracy_x100 {
            self.best_accuracy_x100 = accuracy_x100;
        }
        if combo > self.highest_combo {
            self.highest_combo = combo;
        }
        self.average_wpm_milli = fold_avg(self.average_wpm_milli, wpm_milli, n);
        self.average_accuracy_x100 = fold_avg(self.average_accuracy_x100, accuracy_x100, n);
        match mode {
            GameMode::Zen => {
                self.zen_games = self.zen_games + 1;
            },
            GameMode::Rush => {
                self.rush_games = self.rush_games + 1;
            },
            GameMode::Marathon => {
                self.marathon_games = self.marathon_games + 1;
                if let Some(score) = marathon_score {
                    if score > self.marathon_best_score {
                        self.marathon_best_score = score;
                    }
                }
            },
        }
    }
}

/// Fold one more sample into a running average over `n - 1` samples.
fn fold_avg(prev_avg: u64, sample: u64, n: u64) -> (avg: u64)
    requires
        n > 0,
    ensures
        avg == running_avg(prev_avg as nat, sample as nat, n as nat),
{
    proof {
        assert(prev_avg * (n - 1) + sample <= u128::MAX) by (nonlinear_arith)
            requires
                prev_avg <= u64::MAX,
                sample <= u64::MAX,
                1 <= n <= u64::MAX,
        ;
    }
    let num: u128 = (prev_avg as u128) * ((n - 1) as u128) + (sample as u128);
    let avg: u128 = num / (n as u128);
    proof {
        let m = (if prev_avg >= sample {
            prev_avg
        } else {
            sample
        }) as int;
        lemma_mul_inequality(prev_avg as int, m, n - 1 as int);
        lemma_div_is_ordered(
            prev_avg as int * (n - 1) + sample as int,
            m * (n - 1) + m,
            n as int,
        );
        assert(m * (n - 1) + m == m * (n as int)) by (nonlinear_arith);
        lemma_div_multiples_vanish(m, n as int);
    }
    avg as u64
}

} // verus!
