use litterix::settings::{AppSettings, DatasetDifficulty};
use litterix::stats::{GameMode, GameStats};

#[test]
fn difficulty_names_round_trip() {
    for d in [
        DatasetDifficulty::Base,
        DatasetDifficulty::Intermediate,
        DatasetDifficulty::Advanced,
    ] {
        assert_eq!(DatasetDifficulty::from_str(d.to_str()), d);
    }
}

#[test]
fn unknown_difficulty_falls_back_to_base() {
    assert_eq!(DatasetDifficulty::from_str("expert"), DatasetDifficulty::Base);
    assert_eq!(DatasetDifficulty::from_str(""), DatasetDifficulty::Base);
    assert_eq!(DatasetDifficulty::from_str("Intermediate"), DatasetDifficulty::Base);
}

#[test]
fn default_settings_use_base_difficulty() {
    let s = AppSettings::default();
    assert_eq!(s.difficulty, DatasetDifficulty::Base);
}

#[test]
fn fresh_stats_have_no_games() {
    let s = GameStats::default();
    assert!(!s.has_played());
    assert_eq!(s.total_games_played, 0);
    assert_eq!(s.marathon_best_score, 0);
}

#[test]
fn recording_a_game_updates_totals_and_records() {
    let mut s = GameStats::default();
    s.record_game(GameMode::Rush, 30, 150, 200, 42_000, 9_500, 12, None);
    assert!(s.has_played());
    assert_eq!(s.total_games_played, 1);
    assert_eq!(s.total_words_typed, 30);
    assert_eq!(s.total_chars_typed, 150);
    assert_eq!(s.total_time_played_tenths, 200);
    assert_eq!(s.best_wpm_milli, 42_000);
    assert_eq!(s.best_accuracy_x100, 9_500);
    assert_eq!(s.highest_combo, 12);
    assert_eq!(s.average_wpm_milli, 42_000);
    assert_eq!(s.average_accuracy_x100, 9_500);
    assert_eq!(s.rush_games, 1);
    assert_eq!(s.zen_games, 0);
    assert_eq!(s.marathon_games, 0);
}

#[test]
fn running_averages_fold_each_new_game() {
    let mut s = GameStats::default();
    s.record_game(GameMode::Zen, 10, 50, 100, 40_000, 9_000, 5, None);
    s.record_game(GameMode::Zen, 10, 50, 100, 50_000, 10_000, 5, None);
    assert_eq!(s.average_wpm_milli, 45_000);
    assert_eq!(s.average_accuracy_x100, 9_500);
    assert_eq!(s.zen_games, 2);
}

#[test]
fn records_only_improve() {
    let mut s = GameStats::default();
    s.record_game(GameMode::Rush, 10, 50, 100, 50_000, 9_000, 8, None);
    s.record_game(GameMode::Rush, 10, 50, 100, 30_000, 8_000, 3, None);
    assert_eq!(s.best_wpm_milli, 50_000);
    assert_eq!(s.best_accuracy_x100, 9_000);
    assert_eq!(s.highest_combo, 8);
}

#[test]
fn marathon_best_score_tracks_the_maximum() {
    let mut s = GameStats::default();
    s.record_game(GameMode::Marathon, 47, 200, 1200, 40_000, 9_800, 23, Some(51));
    assert_eq!(s.marathon_games, 1);
    assert_eq!(s.marathon_best_score, 51);
    s.record_game(GameMode::Marathon, 30, 150, 1200, 35_000, 9_000, 10, Some(32));
    assert_eq!(s.marathon_best_score, 51);
    // A marathon recorded without a score leaves the best untouched.
    s.record_game(GameMode::Marathon, 20, 100, 1200, 30_000, 8_500, 7, None);
    assert_eq!(s.marathon_best_score, 51);
}
