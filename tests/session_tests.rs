use typing_trainer::keys::{classify, Action, KeyCode, KeyEventKind, KeyInput, MOD_ALT, MOD_CONTROL, MOD_NONE, MOD_SHIFT};
use typing_trainer::session::{delete_last_word, run_game, same_text, AppState, Args};

fn key(code: KeyCode, modifiers: u8) -> KeyInput {
    KeyInput { code, modifiers, kind: KeyEventKind::Press }
}

fn ch(c: char) -> KeyInput {
    key(KeyCode::Char(c), MOD_NONE)
}

fn chars(s: &str) -> Vec<char> {
    s.chars().collect()
}

fn text(v: &[char]) -> String {
    v.iter().collect()
}

fn args() -> Args {
    Args { top: 2, combi: 2, rep: 1 }
}

fn state_with(lesson: &str) -> AppState {
    let mut s = AppState::new(vec!["ab".to_string(), "cd".to_string()], 0, 0, false);
    s.current_lesson_string = chars(lesson);
    s.current_lesson_number = 1;
    s
}

fn type_str(s: &mut AppState, t: &str, now: u64) {
    for c in t.chars() {
        assert!(!run_game(&args(), s, Some(ch(c)), None, now));
    }
}

#[test]
fn delete_word_keeps_space_before_word() {
    let mut t = chars("cat dog ");
    delete_last_word(&mut t);
    assert_eq!(text(&t), "cat ");
    let mut t = chars("cat dog");
    delete_last_word(&mut t);
    assert_eq!(text(&t), "cat ");
    let mut t = chars("cat");
    delete_last_word(&mut t);
    assert_eq!(text(&t), "");
    let mut t = Vec::new();
    delete_last_word(&mut t);
    assert!(t.is_empty());
}

#[test]
fn word_delete_keys() {
    let mut s = state_with("cat dog cow");
    s.current_typed_string = chars("cat dog ");
    s.handle_key(&key(KeyCode::Backspace, MOD_ALT), None, 0);
    assert_eq!(text(&s.current_typed_string), "cat ");
    s.handle_key(&key(KeyCode::Char('h'), MOD_CONTROL), None, 0);
    assert_eq!(text(&s.current_typed_string), "");
}

#[test]
fn backspace_on_empty_is_noop_and_tab_clears() {
    let mut s = state_with("ab");
    s.handle_key(&key(KeyCode::Backspace, MOD_NONE), None, 0);
    assert!(s.current_typed_string.is_empty());
    assert_eq!(s.acc_key_hits, 0);
    s.current_typed_string = chars("a");
    s.handle_key(&key(KeyCode::Backspace, MOD_SHIFT), None, 0);
    assert!(s.current_typed_string.is_empty());
    s.current_typed_string = chars("a");
    s.handle_key(&key(KeyCode::Tab, MOD_NONE), None, 0);
    assert!(s.current_typed_string.is_empty());
    s.handle_key(&key(KeyCode::Tab, MOD_NONE), None, 0);
    assert!(s.current_typed_string.is_empty());
}

#[test]
fn insertion_capped_but_enter_is_not() {
    let mut s = state_with("ab");
    s.current_typed_string = chars("ax");
    s.handle_key(&ch('c'), None, 0);
    assert_eq!(text(&s.current_typed_string), "ax");
    assert_eq!(s.acc_key_hits, 0);
    s.handle_key(&key(KeyCode::Enter, MOD_NONE), None, 0);
    assert_eq!(text(&s.current_typed_string), "ax ");
    assert!(!same_text(&s.current_typed_string, &s.current_lesson_string));
}

#[test]
fn only_letters_and_space_are_typed() {
    let mut s = state_with("a1 b");
    s.handle_key(&ch('a'), None, 5);
    s.handle_key(&ch('1'), None, 6);
    s.handle_key(&ch('-'), None, 6);
    assert_eq!(text(&s.current_typed_string), "a");
    s.handle_key(&ch(' '), None, 7);
    s.handle_key(&ch('é'), None, 7);
    assert_eq!(text(&s.current_typed_string), "a é");
    assert_eq!(s.acc_key_hits, 3);
    assert_eq!(s.acc_key_misses, 2);
    assert_eq!(s.wpm_start_time, 5);
}

#[test]
fn accuracy_counts_every_keystroke() {
    let mut s = state_with("ab");
    type_str(&mut s, "ax", 0);
    assert_eq!((s.acc_key_hits, s.acc_key_misses), (2, 1));
    run_game(&args(), &mut s, Some(key(KeyCode::Backspace, MOD_NONE)), None, 0);
    type_str(&mut s, "b", 60_000);
    assert_eq!(s.acc_history, vec![75]);
    assert_eq!(s.acc_key_hits, 0);
    assert_eq!(s.acc_key_misses, 0);
}

#[test]
fn end_to_end_the_the() {
    let mut s = state_with("the the");
    assert!(!run_game(&args(), &mut s, Some(ch('t')), None, 1_000));
    type_str(&mut s, "he th", 30_000);
    type_str(&mut s, "e", 61_000);
    assert_eq!(s.wpm_history, vec![1]);
    assert_eq!(s.acc_history, vec![100]);
    assert_eq!(s.average_wpm, 1);
    assert_eq!(s.average_accuracy, 100);
    assert_eq!(s.current_lesson_number, 2);
    assert!(s.current_typed_string.is_empty());
    let next = text(&s.current_lesson_string);
    assert!(next.split(' ').all(|w| w == "ab" || w == "cd"));
    assert_eq!(s.succeeded_lessons, 1);
}

#[test]
fn lesson_zero_is_not_scored() {
    let mut s = AppState::new(vec!["ab".to_string()], 0, 0, false);
    assert!(!run_game(&args(), &mut s, None, None, 0));
    assert!(s.wpm_history.is_empty());
    assert!(s.acc_history.is_empty());
    assert_eq!(s.current_lesson_number, 1);
    assert_eq!(text(&s.current_lesson_string), "ab ab");
    type_str(&mut s, "ab ab", 0);
    assert_eq!(s.wpm_history.len(), 1);
    assert_eq!(s.current_lesson_number, 2);
}

#[test]
fn rolling_averages() {
    let mut s = state_with("x");
    let scores = [(60_000u64, 10usize), (30_000, 10), (60_000, 35)];
    let mut sum = 0u32;
    for (i, (ms, n)) in scores.iter().enumerate() {
        s.current_typed_string = vec!['a'; *n];
        s.wpm_start_time = 1_000;
        s.acc_key_hits = 1;
        s.acc_key_misses = i as u64;
        s.complete_lesson(vec!['x'], 1_000 + ms);
        sum += s.wpm_history[i];
        assert_eq!(s.average_wpm, sum / (i as u32 + 1));
        let acc_sum: u32 = s.acc_history.iter().sum();
        assert_eq!(s.average_accuracy, acc_sum / (i as u32 + 1));
    }
    assert_eq!(s.wpm_history, vec![2, 4, 7]);
    assert_eq!(s.acc_history, vec![100, 50, 33]);
    assert_eq!(s.average_wpm, 4);
    assert_eq!(s.average_accuracy, 61);
}

#[test]
fn pass_needs_both_thresholds() {
    let mut s = state_with("x");
    s.need_wpm = 5;
    s.need_acc = 90;
    s.current_typed_string = vec!['a'; 50];
    s.acc_key_hits = 1;
    s.acc_key_misses = 1;
    s.complete_lesson(vec!['x'], 60_000);
    assert_eq!((s.succeeded_lessons, s.failed_lessons), (0, 1));
    s.current_typed_string = vec!['a'; 50];
    s.acc_key_hits = 1;
    s.complete_lesson(vec!['x'], 60_000);
    assert_eq!((s.succeeded_lessons, s.failed_lessons), (1, 1));
    s.current_typed_string = vec!['a'; 2];
    s.acc_key_hits = 1;
    s.complete_lesson(vec!['x'], 60_000);
    assert_eq!((s.succeeded_lessons, s.failed_lessons), (1, 2));
}

#[test]
fn quit_keys() {
    let mut s = state_with("ab");
    s.current_typed_string = chars("a");
    assert!(run_game(&args(), &mut s, Some(key(KeyCode::Esc, MOD_NONE)), None, 0));
    assert!(run_game(&args(), &mut s, Some(key(KeyCode::Char('c'), MOD_CONTROL)), None, 0));
    assert_eq!(text(&s.current_typed_string), "a");
    assert!(!run_game(&args(), &mut s, Some(key(KeyCode::Char('c'), MOD_NONE)), None, 0));
    let released = KeyInput { code: KeyCode::Esc, modifiers: MOD_NONE, kind: KeyEventKind::Release };
    assert!(!run_game(&args(), &mut s, Some(released), None, 0));
}

#[test]
fn no_input_without_lesson() {
    let mut s = AppState::new(vec!["ab".to_string()], 0, 0, false);
    s.current_typed_string = chars("a");
    assert!(!run_game(&args(), &mut s, Some(key(KeyCode::Esc, MOD_NONE)), None, 0));
    assert_eq!(text(&s.current_typed_string), "a");
    assert!(s.current_lesson_string.is_empty());
}

#[test]
fn emulation_substitutes_characters() {
    let mut s = state_with("zy");
    s.use_emulation = true;
    s.handle_key(&ch('y'), Some('z'), 0);
    s.handle_key(&ch('y'), None, 0);
    assert_eq!(text(&s.current_typed_string), "zy");
    let mut s = state_with("zy");
    s.handle_key(&ch('y'), Some('z'), 0);
    assert_eq!(text(&s.current_typed_string), "y");
}

#[test]
fn classify_priority() {
    assert_eq!(classify(&key(KeyCode::Char('h'), MOD_CONTROL)), Action::DeleteWord);
    assert_eq!(classify(&key(KeyCode::Char('h'), MOD_CONTROL | MOD_SHIFT)), Action::Insert('h'));
    assert_eq!(classify(&key(KeyCode::Backspace, MOD_ALT)), Action::DeleteWord);
    assert_eq!(classify(&key(KeyCode::Esc, MOD_ALT)), Action::Quit);
    assert_eq!(classify(&key(KeyCode::Other, MOD_NONE)), Action::Ignore);
    let repeat = KeyInput { code: KeyCode::Char('a'), modifiers: MOD_NONE, kind: KeyEventKind::Repeat };
    assert_eq!(classify(&repeat), Action::Ignore);
}
