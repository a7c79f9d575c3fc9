use litterix::metrics::Accuracy;
use litterix::timed::{
    rush_time_bonus_tenths, GameState, TimedGame, TimedMode, MARATHON_INITIAL_TENTHS,
    RUSH_INITIAL_TENTHS,
};

fn phrases() -> Vec<String> {
    vec![String::from("uno due"), String::from("tre quattro")]
}

#[test]
fn rush_starts_pending_with_twenty_seconds() {
    let g = TimedGame::new(TimedMode::Rush, phrases());
    assert_eq!(g.state, GameState::Pending);
    assert_eq!(g.time_remaining_tenths, RUSH_INITIAL_TENTHS);
    assert_eq!(g.time_remaining_tenths, 200);
}

#[test]
fn marathon_starts_with_two_minutes() {
    let g = TimedGame::new(TimedMode::Marathon, phrases());
    assert_eq!(g.time_remaining_tenths, MARATHON_INITIAL_TENTHS);
    assert_eq!(g.time_remaining_tenths, 1200);
}

#[test]
fn rush_bonus_tiers_match_the_accuracy() {
    // accuracy 100 -> +5.0 s, 80 -> +3.0, 60 -> +2.0, 30 -> +1.0, 10 -> +0.0
    assert_eq!(rush_time_bonus_tenths(&Accuracy { correct: 5, total: 5 }), 50);
    assert_eq!(rush_time_bonus_tenths(&Accuracy { correct: 4, total: 5 }), 30);
    assert_eq!(rush_time_bonus_tenths(&Accuracy { correct: 3, total: 5 }), 20);
    assert_eq!(rush_time_bonus_tenths(&Accuracy { correct: 3, total: 10 }), 10);
    assert_eq!(rush_time_bonus_tenths(&Accuracy { correct: 1, total: 10 }), 0);
}

#[test]
fn rush_bonus_tiers_compare_the_exact_ratio() {
    // 76% is above the 75% tier; exactly 75% is not.
    assert_eq!(rush_time_bonus_tenths(&Accuracy { correct: 76, total: 100 }), 30);
    assert_eq!(rush_time_bonus_tenths(&Accuracy { correct: 3, total: 4 }), 20);
    // exactly 50% and 25% fall through to the next tier
    assert_eq!(rush_time_bonus_tenths(&Accuracy { correct: 1, total: 2 }), 10);
    assert_eq!(rush_time_bonus_tenths(&Accuracy { correct: 1, total: 4 }), 0);
}

#[test]
fn completing_a_perfect_phrase_adds_five_seconds_in_rush() {
    let mut g = TimedGame::new(TimedMode::Rush, phrases());
    g.on_char_typed();
    assert_eq!(g.state, GameState::Running);
    let before = g.time_remaining_tenths;
    g.on_complete(12_000, Accuracy { correct: 7, total: 7 });
    assert_eq!(g.time_remaining_tenths, before + 50);
    assert_eq!(g.aggregate.phrases_completed, 1);
    assert_eq!(g.aggregate.last_wpm_milli, 12_000);
    assert_eq!(g.aggregate.last_accuracy_x100, 10000);
}

#[test]
fn marathon_grants_no_time_bonus() {
    let mut g = TimedGame::new(TimedMode::Marathon, phrases());
    g.on_char_typed();
    let before = g.time_remaining_tenths;
    g.on_complete(12_000, Accuracy { correct: 7, total: 7 });
    assert_eq!(g.time_remaining_tenths, before);
}

#[test]
fn marathon_end_score_adds_one_point_per_five_combo() {
    let mut g = TimedGame::new(TimedMode::Marathon, phrases());
    g.aggregate.total_words_typed = 47;
    g.combo.highest_combo = 23;
    assert_eq!(g.final_score(), 47 + 23 / 5);
    assert_eq!(g.final_score(), 51);
}

#[test]
fn rush_countdown_runs_out_and_stays_out() {
    // Pending with 20.0 s; the first keystroke starts the run; 250 ticks
    // (25 s) with no bonuses: the countdown clamps at 0, the run is
    // finished, and no further tick changes anything.
    let mut g = TimedGame::new(TimedMode::Rush, phrases());
    assert_eq!(g.state, GameState::Pending);
    assert_eq!(g.time_remaining_tenths, 200);

    // A tick before the first keystroke changes nothing.
    assert!(!g.tick());
    assert_eq!(g.time_remaining_tenths, 200);

    g.on_char_typed();
    assert_eq!(g.state, GameState::Running);

    let mut finished_at: Option<u32> = None;
    for i in 0..250u32 {
        if g.tick() {
            finished_at = Some(i);
        }
    }
    assert_eq!(finished_at, Some(199));
    assert_eq!(g.state, GameState::Finished);
    assert_eq!(g.time_remaining_tenths, 0);
    assert_eq!(g.elapsed_tenths, 200);

    // Keystrokes after the end change nothing either.
    let chars_before = g.aggregate.total_chars_typed;
    g.on_char_typed();
    assert_eq!(g.aggregate.total_chars_typed, chars_before);
    assert_eq!(g.state, GameState::Finished);
}

#[test]
fn phrase_rotation_wraps_around() {
    let mut g = TimedGame::new(TimedMode::Rush, phrases());
    g.on_char_typed();
    assert_eq!(g.current_phrase().unwrap().as_str(), "uno due");
    g.on_complete(0, Accuracy { correct: 7, total: 7 });
    assert_eq!(g.current_phrase().unwrap().as_str(), "tre quattro");
    g.on_complete(0, Accuracy { correct: 11, total: 11 });
    assert_eq!(g.current_phrase().unwrap().as_str(), "uno due");
}

#[test]
fn empty_phrase_sequence_keeps_the_run_waiting() {
    let g = TimedGame::new(TimedMode::Rush, Vec::new());
    assert!(g.waiting_for_phrases());
    assert!(g.current_phrase().is_none());
}

#[test]
fn word_deletion_never_goes_below_zero() {
    let mut g = TimedGame::new(TimedMode::Rush, phrases());
    g.on_word_deleted();
    assert_eq!(g.aggregate.total_words_typed, 0);
    g.on_word_typed();
    g.on_word_typed();
    g.on_word_deleted();
    assert_eq!(g.aggregate.total_words_typed, 1);
}

#[test]
fn averages_are_zero_when_nothing_completed() {
    let g = TimedGame::new(TimedMode::Rush, phrases());
    assert_eq!(g.avg_wpm_milli(), 0);
    assert_eq!(g.avg_accuracy_x100(), 0);
}

#[test]
fn averages_divide_the_sums() {
    let mut g = TimedGame::new(TimedMode::Rush, phrases());
    g.on_char_typed();
    g.on_complete(10_000, Accuracy { correct: 7, total: 7 });
    g.on_complete(20_000, Accuracy { correct: 4, total: 5 });
    assert_eq!(g.aggregate.phrases_completed, 2);
    assert_eq!(g.avg_wpm_milli(), 15_000);
    assert_eq!(g.avg_accuracy_x100(), (10000 + 8000) / 2);
}

#[test]
fn restart_resets_the_whole_run() {
    let mut g = TimedGame::new(TimedMode::Rush, phrases());
    g.on_char_typed();
    g.on_word_typed();
    g.tick();
    g.restart(phrases());
    assert_eq!(g.state, GameState::Pending);
    assert_eq!(g.time_remaining_tenths, 200);
    assert_eq!(g.elapsed_tenths, 0);
    assert_eq!(g.aggregate.total_words_typed, 0);
    assert_eq!(g.aggregate.total_chars_typed, 0);
    assert_eq!(g.combo.consecutive_correct_words, 0);
}
