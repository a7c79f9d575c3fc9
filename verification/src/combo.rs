//! Streak tracking: counts consecutive correctly typed words across
//! phrases of one game run, fires each milestone of a streak exactly
//! once, and reports perfect phrases and broken streaks.

use vstd::prelude::*;

verus! {

/// Discrete event fired by the streak tracker: a milestone was reached,
/// a phrase was completed without errors, or a streak of at least five
/// words was broken.
#[derive(Clone, Copy, Debug, PartialEq, Eq, Structural)]
pub enum ComboType {
    Streak5,
    Streak10,
    Streak15,
    Streak20,
    Streak40,
    Streak80,
    Streak160,
    Streak320,
    Streak640,
    Streak1000,
    PerfectPhrase,
    ComboBroken,
}

/// The fixed set of streak lengths that fire a milestone event.
pub open spec fn is_milestone(n: int) -> bool {
    ||| n == 5
    ||| n == 10
    ||| n == 15
    ||| n == 20
    ||| n == 40
    ||| n == 80
    ||| n == 160
    ||| n == 320
    ||| n == 640
    ||| n == 1000
}

/// The event fired when a streak reaches milestone `n`.
pub open spec fn streak_event(n: int) -> ComboType
    recommends
        is_milestone(n),
{
    if n == 5 {
        ComboType::Streak5
    } else if n == 10 {
        ComboType::Streak10
    } else if n == 15 {
        ComboType::Streak15
    } else if n == 20 {
        ComboType::Streak20
    } else if n == 40 {
        ComboType::Streak40
    } else if n == 80 {
        ComboType::Streak80
    } else if n == 160 {
        ComboType::Streak160
    } else if n == 320 {
        ComboType::Streak320
    } else if n == 640 {
        ComboType::Streak640
    } else {
        ComboType::Streak1000
    }
}

/// The largest milestone at or below `n`, or 0 when `n` lies below the
/// first milestone.
pub open spec fn largest_milestone_le(n: int) -> int {
    if n >= 1000 {
        1000
    } else if n >= 640 {
        640
    } else if n >= 320 {
        320
    } else if n >= 160 {
        160
    } else if n >= 80 {
        80
    } else if n >= 40 {
        40
    } else if n >= 20 {
        20
    } else if n >= 15 {
        15
    } else if n >= 10 {
        10
    } else if n >= 5 {
        5
    } else {
        0
    }
}

/// Streak state of one game run. It survives phrase changes: the streak
/// is run-scoped, only an error (or deleting a completed word) breaks it.
#[derive(Clone, Copy, Debug, PartialEq, Eq, Structural)]
pub struct ComboState {
    pub consecutive_correct_words: u64,
    pub last_milestone_reached: u64,
    pub highest_combo: u64,
    pub phrase_has_errors: bool,
}

impl ComboState {
    /// Invariant: the last milestone notified is a milestone (or 0), lies
    /// within the current streak, and the current streak never exceeds
    /// the highest one observed.
    pub open spec fn wf(self) -> bool {
        &&& (self.last_milestone_reached == 0 || is_milestone(self.last_milestone_reached as int))
        &&& self.last_milestone_reached <= self.consecutive_correct_words
        &&& self.consecutive_correct_words <= self.highest_combo
    }

    /// State after a streak break: the streak and its milestone are
    /// cleared, the current phrase is marked as having errors, and only
    /// the highest streak of the run is kept.
    pub open spec fn broken_state(s: ComboState) -> ComboState {
        ComboState {
            consecutive_correct_words: 0,
            last_milestone_reached: 0,
            highest_combo: s.highest_combo,
            phrase_has_errors: true,
        }
    }

    /// Event fired by a streak break: `ComboBroken` when at least five
    /// words were in the streak, nothing otherwise.
    pub open spec fn broken_event(s: ComboState) -> Option<ComboType> {
        if s.consecutive_correct_words >= 5 {
            Some(ComboType::ComboBroken)
        } else {
            None
        }
    }

    /// State after one more correctly typed word: the streak grows by
    /// one, the highest streak follows it, and the milestone marker moves
    /// up exactly when the new length is an unreached milestone.
    pub open spec fn word_completed_state(s: ComboState) -> ComboState
        recommends
            s.consecutive_correct_words < u64::MAX,
    {
        let c = s.consecutive_correct_words + 1;
        ComboState {
            consecutive_correct_words: c as u64,
            last_milestone_reached: if is_milestone(c) && s.last_milestone_reached < c {
                c as u64
            } else {
                s.last_milestone_reached
            },
            highest_combo: if c > s.highest_combo {
                c as u64
            } else {
                s.highest_combo
            },
            phrase_has_errors: s.phrase_has_errors,
        }
    }

    /// Event fired by one more correctly typed word: the milestone event
    /// for the new streak length, exactly when that length is a milestone
    /// the current streak has not yet announced.
    pub open spec fn word_completed_event(s: ComboState) -> Option<ComboType> {
        let c = s.consecutive_correct_words + 1;
        if is_milestone(c) && s.last_milestone_reached < c {
            Some(streak_event(c))
        } else {
            None
        }
    }

    /// State after a phrase ends: only the per-phrase error flag resets;
    /// the streak persists across phrases.
    pub open spec fn phrase_completed_state(s: ComboState) -> ComboState {
        ComboState { phrase_has_errors: false, ..s }
    }

    /// Event fired when a phrase ends: `PerfectPhrase` exactly when no
    /// error occurred during the phrase.
    pub open spec fn phrase_completed_event(s: ComboState) -> Option<ComboType> {
        if !s.phrase_has_errors {
            Some(ComboType::PerfectPhrase)
        } else {
            None
        }
    }

    /// Fresh streak state: no words, no milestone, no errors.
    pub fn new() -> (s: ComboState)
        ensures
            s.consecutive_correct_words == 0,
            s.last_milestone_reached == 0,
            s.highest_combo == 0,
            !s.phrase_has_errors,
            s.wf(),
    {
        ComboState {
            consecutive_correct_words: 0,
            last_milestone_reached: 0,
            highest_combo: 0,
            phrase_has_errors: false,
        }
    }

    /// A wrongly typed character breaks the streak.
    pub fn on_char_error(&mut self) -> (ev: Option<ComboType>)
        requires
            old(self).wf(),
        ensures
            *final(self) == ComboState::broken_state(*old(self)),
            ev == ComboState::broken_event(*old(self)),
            final(self).wf(),
    {
        let ev: Option<ComboType> = if self.consecutive_correct_words >= 5 {
            Some(ComboType::ComboBroken)
        } else {
            None
        };
        self.consecutive_correct_words = 0;
        self.last_milestone_reached = 0;
        self.phrase_has_errors = true;
        ev
    }

    /// Deleting a previously completed word breaks the streak exactly as
    /// an error does.
    pub fn on_word_uncompleted(&mut self) -> (ev: Option<ComboType>)
        requires
            old(self).wf(),
        ensures
            *final(self) == ComboState::broken_state(*old(self)),
            ev == ComboState::broken_event(*old(self)),
            final(self).wf(),
    {
        self.on_char_error()
    }

    /// One more word typed correctly: grow the streak and fire the
    /// milestone event for the new length if it is one.
    pub fn on_word_completed(&mut self) -> (ev: Option<ComboType>)
        requires
            old(self).wf(),
            old(self).consecutive_correct_words < u64::MAX,
        ensures
            *final(self) == ComboState::word_completed_state(*old(self)),
            ev == ComboState::word_completed_event(*old(self)),
            final(self).wf(),
    {
        let c = self.consecutive_correct_words + 1;
        self.consecutive_correct_words = c;
        if c > self.highest_combo {
            self.highest_combo = c;
        }
        let milestone = c == 5 || c == 10 || c == 15 || c == 20 || c == 40 || c == 80 || c == 160
            || c == 320 || c == 640 || c == 1000;
        if milestone && self.last_milestone_reached < c {
            self.last_milestone_reached = c;
            let ev = if c == 5 {
                ComboType::Streak5
            } else if c == 10 {
                ComboType::Streak10
            } else if c == 15 {
                ComboType::Streak15
            } else if c == 20 {
                ComboType::Streak20
            } else if c == 40 {
                ComboType::Streak40
            } else if c == 80 {
                ComboType::Streak80
            } else if c == 160 {
                ComboType::Streak160
            } else if c == 320 {
                ComboType::Streak320
            } else if c == 640 {
                ComboType::Streak640
            } else {
                ComboType::Streak1000
            };
            Some(ev)
        } else {
            None
        }
    }

    /// A phrase was completed: report it as perfect when it had no
    /// errors, and reset the per-phrase error flag for the next phrase.
    pub fn on_phrase_completed(&mut self) -> (ev: Option<ComboType>)
        requires
            old(self).wf(),
        ensures
            *final(self) == ComboState::phrase_completed_state(*old(self)),
            ev == ComboState::phrase_completed_event(*old(self)),
            final(self).wf(),
    {
        let ev: Option<ComboType> = if !self.phrase_has_errors {
            Some(ComboType::PerfectPhrase)
        } else {
            None
        };
        self.phrase_has_errors = false;
        ev
    }

    /// Streak state after `k` consecutive correctly typed words from `s`.
    pub open spec fn words_run(s: ComboState, k: nat) -> ComboState
        decreases k,
    {
        if k == 0 {
            s
        } else {
            ComboState::word_completed_state(ComboState::words_run(s, (k - 1) as nat))
        }
    }

    /// Event fired by the `k`-th of those word completions (`k >= 1`).
    pub open spec fn words_run_event(s: ComboState, k: nat) -> Option<ComboType>
        recommends
            k >= 1,
    {
        ComboState::word_completed_event(ComboState::words_run(s, (k - 1) as nat))
    }
}

/// Law: within one unbroken streak started from a fresh streak state, the
/// `k`-th consecutive word completion fires the milestone event for `k`
/// exactly when `k` is a milestone — so milestones fire in strictly
/// increasing order and each exactly once per streak, and a milestone
/// beyond the streak's length never fires.
pub proof fn lemma_milestones_fire_once(s: ComboState, k: nat)
    requires
        s.wf(),
        s.consecutive_correct_words == 0,
        s.last_milestone_reached == 0,
        k <= u64::MAX,
    ensures
        ComboState::words_run(s, k).consecutive_correct_words == k,
        ComboState::words_run(s, k).last_milestone_reached == largest_milestone_le(k as int),
        ComboState::words_run(s, k).highest_combo == (if k > s.highest_combo {
            k as u64
        } else {
            s.highest_combo
        }),
        ComboState::words_run(s, k).phrase_has_errors == s.phrase_has_errors,
        forall|j: nat|
            1 <= j <= k ==> ComboState::words_run_event(s, j) == (if is_milestone(j as int) {
                Some(streak_event(j as int))
            } else {
                None::<ComboType>
            }),
    decreases k,
{
    if k > 0 {
        lemma_milestones_fire_once(s, (k - 1) as nat);
        assert(largest_milestone_le(k as int - 1) <= k - 1);
        assert(ComboState::words_run_event(s, k) == ComboState::word_completed_event(
            ComboState::words_run(s, (k - 1) as nat),
        ));
    }
}

/// Badge (emoji and label) shown for a streak length.
pub fn get_combo_badge(combo: usize) -> (r: (&'static str, &'static str))
    ensures
        combo < 5 ==> r.0@ == ""@ && r.1@ == "Nessun Combo"@,
        5 <= combo < 10 ==> r.0@ == "🔥"@ && r.1@ == "Combo"@,
        10 <= combo < 15 ==> r.0@ == "⚡"@ && r.1@ == "Combo"@,
        15 <= combo < 20 ==> r.0@ == "💫"@ && r.1@ == "Combo"@,
        20 <= combo < 40 ==> r.0@ == "🌟"@ && r.1@ == "Grande Combo"@,
        40 <= combo < 80 ==> r.0@ == "💥"@ && r.1@ == "Mega Combo"@,
        80 <= combo < 160 ==> r.0@ == "🚀"@ && r.1@ == "Mega Combo"@,
        160 <= combo < 320 ==> r.0@ == "⭐"@ && r.1@ == "Ultra Combo"@,
        320 <= combo < 640 ==> r.0@ == "👑"@ && r.1@ == "Legendary"@,
        640 <= combo < 1000 ==> r.0@ == "🔱"@ && r.1@ == "Godlike"@,
        combo >= 1000 ==> r.0@ == "🏆"@ && r.1@ == "Unstoppable"@,
{
    if combo < 5 {
        ("", "Nessun Combo")
    } else if combo < 10 {
        ("🔥", "Combo")
    } else if combo < 15 {
        ("⚡", "Combo")
    } else if combo < 20 {
        ("💫", "Combo")
    } else if combo < 40 {
        ("🌟", "Grande Combo")
    } else if combo < 80 {
        ("💥", "Mega Combo")
    } else if combo < 160 {
        ("🚀", "Mega Combo")
    } else if combo < 320 {
        ("⭐", "Ultra Combo")
    } else if combo < 640 {
        ("👑", "Legendary")
    } else if combo < 1000 {
        ("🔱", "Godlike")
    } else {
        ("🏆", "Unstoppable")
    }
}

impl ComboType {
    /// Popup message shown for this event.
    pub fn message(&self) -> (r: &'static str)
        ensures
            self is Streak5 ==> r@ == "🔥 Combo +5!"@,
            self is Streak10 ==> r@ == "⚡ Combo +10!"@,
            self is Streak15 ==> r@ == "💫 Combo +15!"@,
            self is Streak20 ==> r@ == "🌟 Combo +20!"@,
            self is Streak40 ==> r@ == "💥 COMBO +40!"@,
            self is Streak80 ==> r@ == "🚀 MEGA COMBO +80!"@,
            self is Streak160 ==> r@ == "⭐ ULTRA COMBO +160!"@,
            self is Streak320 ==> r@ == "👑 LEGENDARY +320!"@,
            self is Streak640 ==> r@ == "🔱 GODLIKE +640!"@,
            self is Streak1000 ==> r@ == "🏆 UNSTOPPABLE +1000!"@,
            self is PerfectPhrase ==> r@ == "✨ Frase Perfetta!"@,
            self is ComboBroken ==> r@ == "💔 Combo Interrotta!"@,
    {
        match self {
            ComboType::Streak5 => "🔥 Combo +5!",
            ComboType::Streak10 => "⚡ Combo +10!",
            ComboType::Streak15 => "💫 Combo +15!",
            ComboType::Streak20 => "🌟 Combo +20!",
            ComboType::Streak40 => "💥 COMBO +40!",
            ComboType::Streak80 => "🚀 MEGA COMBO +80!",
            ComboType::Streak160 => "⭐ ULTRA COMBO +160!",
            ComboType::Streak320 => "👑 LEGENDARY +320!",
            ComboType::Streak640 => "🔱 GODLIKE +640!",
            ComboType::Streak1000 => "🏆 UNSTOPPABLE +1000!",
            ComboType::PerfectPhrase => "✨ Frase Perfetta!",
            ComboType::ComboBroken => "💔 Combo Interrotta!",
        }
    }

    /// Popup accent color shown for this event.
    pub fn color(&self) -> (r: &'static str)
        ensures
            self is Streak5 ==> r@ == "#ffc107"@,
            self is Streak10 ==> r@ == "#ff9800"@,
            self is Streak15 ==> r@ == "#ff5722"@,
            self is Streak20 ==> r@ == "#e91e63"@,
            self is Streak40 ==> r@ == "#9c27b0"@,
            self is Streak80 ==> r@ == "#673ab7"@,
            self is Streak160 ==> r@ == "#3f51b5"@,
            self is Streak320 ==> r@ == "#2196f3"@,
            self is Streak640 ==> r@ == "#00bcd4"@,
            self is Streak1000 ==> r@ == "#ffd700"@,
            self is PerfectPhrase ==> r@ == "#f74c00"@,
            self is ComboBroken ==> r@ == "#666666"@,
    {
        match self {
            ComboType::Streak5 => "#ffc107",
            ComboType::Streak10 => "#ff9800",
            ComboType::Streak15 => "#ff5722",
            ComboType::Streak20 => "#e91e63",
            ComboType::Streak40 => "#9c27b0",
            ComboType::Streak80 => "#673ab7",
            ComboType::Streak160 => "#3f51b5",
            ComboType::Streak320 => "#2196f3",
            ComboType::Streak640 => "#00bcd4",
            ComboType::Streak1000 => "#ffd700",
            ComboType::PerfectPhrase => "#f74c00",
            ComboType::ComboBroken => "#666666",
        }
    }
}

} // verus!
