use litterix::combo::{get_combo_badge, ComboState, ComboType};

#[test]
fn fresh_streak_state_is_zeroed() {
    let s = ComboState::new();
    assert_eq!(s.consecutive_correct_words, 0);
    assert_eq!(s.last_milestone_reached, 0);
    assert_eq!(s.highest_combo, 0);
    assert!(!s.phrase_has_errors);
}

#[test]
fn milestones_fire_in_order_and_once_per_streak() {
    let mut s = ComboState::new();

    // 39 consecutive correct words: milestones 5, 10, 15, 20, never 40.
    let mut fired: Vec<(u64, ComboType)> = Vec::new();
    for _ in 0..39 {
        if let Some(ev) = s.on_word_completed() {
            fired.push((s.consecutive_correct_words, ev));
        }
    }
    assert_eq!(
        fired,
        vec![
            (5, ComboType::Streak5),
            (10, ComboType::Streak10),
            (15, ComboType::Streak15),
            (20, ComboType::Streak20),
        ]
    );
    assert_eq!(s.consecutive_correct_words, 39);
    assert_eq!(s.last_milestone_reached, 20);

    // One error: the streak of 39 breaks audibly.
    let broken = s.on_char_error();
    assert_eq!(broken, Some(ComboType::ComboBroken));
    assert_eq!(s.consecutive_correct_words, 0);
    assert_eq!(s.last_milestone_reached, 0);
    assert!(s.phrase_has_errors);

    // 40 more: 5, 10, 15, 20 fire again, then 40.
    let mut fired2: Vec<(u64, ComboType)> = Vec::new();
    for _ in 0..40 {
        if let Some(ev) = s.on_word_completed() {
            fired2.push((s.consecutive_correct_words, ev));
        }
    }
    assert_eq!(
        fired2,
        vec![
            (5, ComboType::Streak5),
            (10, ComboType::Streak10),
            (15, ComboType::Streak15),
            (20, ComboType::Streak20),
            (40, ComboType::Streak40),
        ]
    );
    assert_eq!(s.highest_combo, 40);
}

#[test]
fn short_streak_breaks_silently() {
    let mut s = ComboState::new();
    for _ in 0..4 {
        s.on_word_completed();
    }
    assert_eq!(s.on_char_error(), None);
    assert_eq!(s.consecutive_correct_words, 0);
}

#[test]
fn deleting_a_word_breaks_like_an_error() {
    let mut s = ComboState::new();
    for _ in 0..6 {
        s.on_word_completed();
    }
    assert_eq!(s.on_word_uncompleted(), Some(ComboType::ComboBroken));
    assert_eq!(s.consecutive_correct_words, 0);
    assert_eq!(s.last_milestone_reached, 0);
    assert!(s.phrase_has_errors);
}

#[test]
fn perfect_phrase_fires_only_without_errors() {
    let mut s = ComboState::new();
    s.on_word_completed();
    assert_eq!(s.on_phrase_completed(), Some(ComboType::PerfectPhrase));

    s.on_char_error();
    assert_eq!(s.on_phrase_completed(), None);
    // The flag resets for the next phrase.
    assert!(!s.phrase_has_errors);
    assert_eq!(s.on_phrase_completed(), Some(ComboType::PerfectPhrase));
}

#[test]
fn streak_persists_across_phrases() {
    let mut s = ComboState::new();
    for _ in 0..3 {
        s.on_word_completed();
    }
    s.on_phrase_completed();
    for _ in 0..2 {
        s.on_word_completed();
    }
    assert_eq!(s.consecutive_correct_words, 5);
}

#[test]
fn highest_combo_survives_a_break() {
    let mut s = ComboState::new();
    for _ in 0..7 {
        s.on_word_completed();
    }
    s.on_char_error();
    assert_eq!(s.highest_combo, 7);
    for _ in 0..3 {
        s.on_word_completed();
    }
    assert_eq!(s.highest_combo, 7);
}

#[test]
fn badges_follow_the_streak_ranges() {
    assert_eq!(get_combo_badge(0), ("", "Nessun Combo"));
    assert_eq!(get_combo_badge(5), ("\u{1f525}", "Combo"));
    assert_eq!(get_combo_badge(12), ("\u{26a1}", "Combo"));
    assert_eq!(get_combo_badge(19), ("\u{1f4ab}", "Combo"));
    assert_eq!(get_combo_badge(25), ("\u{1f31f}", "Grande Combo"));
    assert_eq!(get_combo_badge(79), ("\u{1f4a5}", "Mega Combo"));
    assert_eq!(get_combo_badge(100), ("\u{1f680}", "Mega Combo"));
    assert_eq!(get_combo_badge(200), ("\u{2b50}", "Ultra Combo"));
    assert_eq!(get_combo_badge(400), ("\u{1f451}", "Legendary"));
    assert_eq!(get_combo_badge(999), ("\u{1f531}", "Godlike"));
    assert_eq!(get_combo_badge(1000), ("\u{1f3c6}", "Unstoppable"));
}

#[test]
fn popup_messages_match_the_events() {
    assert_eq!(ComboType::Streak5.message(), "\u{1f525} Combo +5!");
    assert_eq!(ComboType::Streak1000.message(), "\u{1f3c6} UNSTOPPABLE +1000!");
    assert_eq!(ComboType::PerfectPhrase.message(), "\u{2728} Frase Perfetta!");
    assert_eq!(ComboType::ComboBroken.message(), "\u{1f494} Combo Interrotta!");
}

#[test]
fn popup_colors_match_the_events() {
    assert_eq!(ComboType::Streak5.color(), "#ffc107");
    assert_eq!(ComboType::Streak1000.color(), "#ffd700");
    assert_eq!(ComboType::PerfectPhrase.color(), "#f74c00");
    assert_eq!(ComboType::ComboBroken.color(), "#666666");
}
