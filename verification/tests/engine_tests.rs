use litterix::engine::{CharStatus, TypingState};
use litterix::metrics::Accuracy;

fn type_all(state: &mut TypingState, text: &str, start_ms: u64, step_ms: u64) {
    let mut now = start_ms;
    for ch in text.chars() {
        state.handle_key(ch, now);
        now += step_ms;
    }
}

#[test]
fn fresh_attempt_is_pending_everywhere() {
    let s = TypingState::new(String::from("hello"));
    assert_eq!(s.current_index, 0);
    assert_eq!(s.char_statuses.len(), 5);
    assert!(s.char_statuses.iter().all(|c| *c == CharStatus::Pending));
    assert!(!s.is_complete);
    assert!(!s.started);
    assert!(s.start_time.is_none());
    assert!(s.end_time.is_none());
}

#[test]
fn typing_a_phrase_exactly_completes_with_full_accuracy() {
    let text = "hello world";
    let mut s = TypingState::new(String::from(text));
    type_all(&mut s, text, 1000, 100);
    assert!(s.is_complete);
    assert_eq!(s.current_index, text.chars().count());
    assert!(s.char_statuses.iter().all(|c| *c == CharStatus::Correct));
    let acc = s.get_accuracy();
    assert_eq!(acc.percent_x100(), 10000);
    assert!(acc.is_perfect());
}

#[test]
fn correct_key_advances_and_grades() {
    let mut s = TypingState::new(String::from("abc"));
    let correct = s.handle_key('a', 5);
    assert!(correct);
    assert_eq!(s.current_index, 1);
    assert_eq!(s.char_statuses[0], CharStatus::Correct);
    assert!(s.started);
    assert_eq!(s.start_time, Some(5));
    assert!(!s.is_complete);
}

#[test]
fn wrong_key_still_advances_but_grades_incorrect() {
    let mut s = TypingState::new(String::from("abc"));
    let correct = s.handle_key('x', 5);
    assert!(!correct);
    assert_eq!(s.current_index, 1);
    assert_eq!(s.char_statuses[0], CharStatus::Incorrect);
}

#[test]
fn key_after_completion_is_a_no_op() {
    let mut s = TypingState::new(String::from("ab"));
    s.handle_key('a', 1);
    s.handle_key('b', 2);
    assert!(s.is_complete);
    let snapshot_index = s.current_index;
    let correct = s.handle_key('c', 3);
    assert!(!correct);
    assert_eq!(s.current_index, snapshot_index);
    assert!(s.is_complete);
}

#[test]
fn backspace_at_start_is_a_no_op() {
    let mut s = TypingState::new(String::from("ab"));
    assert!(!s.handle_backspace());
    assert_eq!(s.current_index, 0);
}

#[test]
fn wrong_key_then_backspace_restores_the_previous_state() {
    let mut s = TypingState::new(String::from("abcd"));
    s.handle_key('a', 1);
    s.handle_key('b', 2);
    let statuses_before: Vec<CharStatus> = s.char_statuses.clone();
    let cursor_before = s.current_index;
    s.handle_key('x', 3);
    assert!(s.handle_backspace());
    assert_eq!(s.char_statuses, statuses_before);
    assert_eq!(s.current_index, cursor_before);
    assert!(!s.is_complete);
}

#[test]
fn backspacing_the_completing_key_withdraws_completion() {
    let mut s = TypingState::new(String::from("ab"));
    s.handle_key('a', 1);
    s.handle_key('b', 2);
    assert!(s.is_complete);
    assert!(s.handle_backspace());
    assert!(!s.is_complete);
    assert!(s.end_time.is_none());
    assert_eq!(s.current_index, 1);
}

#[test]
fn accuracy_counts_pending_and_incorrect_against_the_player() {
    let mut s = TypingState::new(String::from("abcd"));
    s.handle_key('a', 1);
    s.handle_key('x', 2);
    // two graded (one correct), two still pending: 1/4 = 25%
    let acc = s.get_accuracy();
    assert_eq!(acc.correct, 1);
    assert_eq!(acc.total, 4);
    assert_eq!(acc.percent_x100(), 2500);
}

#[test]
fn accuracy_stays_within_the_scale_under_any_inputs() {
    let mut s = TypingState::new(String::from("ab cd"));
    let inputs = ['x', 'a', ' ', 'q', 'b', ' ', 'c', 'z'];
    let mut now = 10;
    for ch in inputs {
        s.handle_key(ch, now);
        if ch == 'q' {
            s.handle_backspace();
        }
        now += 7;
    }
    let p = s.get_accuracy().percent_x100();
    assert!(p <= 10000);
}

#[test]
fn wpm_is_undefined_until_completion() {
    let mut s = TypingState::new(String::from("ab"));
    assert!(s.get_wpm().is_none());
    s.handle_key('a', 1000);
    assert!(s.get_wpm().is_none());
}

#[test]
fn wpm_divides_reference_words_by_elapsed_minutes() {
    // "hello world" has 2 words; typed over 12 seconds: 10 wpm.
    let text = "hello world";
    let mut s = TypingState::new(String::from(text));
    let chars: Vec<char> = text.chars().collect();
    s.handle_key(chars[0], 1000);
    for c in &chars[1..chars.len() - 1] {
        s.handle_key(*c, 2000);
    }
    s.handle_key(chars[chars.len() - 1], 13000);
    assert!(s.is_complete);
    assert_eq!(s.start_time, Some(1000));
    assert_eq!(s.end_time, Some(13000));
    assert_eq!(s.get_wpm(), Some(10_000));
}

#[test]
fn word_count_ignores_repeated_separators() {
    let s = TypingState::new(String::from("one  two   three"));
    assert_eq!(s.count_words(), 3);
}

#[test]
fn word_count_treats_any_whitespace_as_separator() {
    let s = TypingState::new(String::from("one\ttwo\nthree four"));
    assert_eq!(s.count_words(), 4);
    let t = TypingState::new(String::from(" \t leading and trailing \n"));
    assert_eq!(t.count_words(), 3);
}

#[test]
fn empty_accuracy_is_perfect() {
    let acc = Accuracy { correct: 0, total: 0 };
    assert_eq!(acc.percent_x100(), 10000);
    assert!(acc.is_perfect());
}
