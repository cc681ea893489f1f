use verbquiz::record::Conjugation;
use verbquiz::person::Person;
use verbquiz::session::{Effect, InputEvent, Judgment, Session, Terminal};
use verbquiz::tense::Tense;
use verbquiz::verb::Verb;

fn record(verb: Verb, german: &str) -> Conjugation {
    Conjugation {
        verb,
        tense: Tense::Present,
        person: Person::I,
        english: "I go".to_string(),
        german: german.to_string(),
    }
}

fn asking_session(total: u8, answers: &[&str]) -> Session {
    let mut s = Session::new(total, Vec::new());
    let dataset: Vec<Conjugation> = answers.iter().map(|a| record(Verb::Gehen, a)).collect();
    s.install_dataset(Verb::Gehen, dataset);
    s
}

fn type_word(s: &mut Session, word: &str) {
    for c in word.chars() {
        s.handle_event(InputEvent::Character(c));
    }
}

#[test]
fn single_question_answered_correctly_completes() {
    let mut s = asking_session(1, &["bin"]);
    type_word(&mut s, "bin");
    assert_eq!(s.response_buffer, "bin");
    s.handle_event(InputEvent::Submit);
    assert_eq!(s.answer_feedback, Judgment::Correct);
    assert_eq!(s.correct_count, 1);
    s.handle_event(InputEvent::Submit);
    assert_eq!(s.correct_count, 1);
    assert_eq!(s.incorrect_count, 0);
    assert_eq!(s.question_index, 1);
    assert_eq!(s.terminal, Some(Terminal::Completed));
}

#[test]
fn empty_submission_changes_nothing() {
    let mut s = asking_session(1, &["bin"]);
    let index_before = s.current_record_index;
    s.handle_event(InputEvent::Submit);
    assert_eq!(s.answer_feedback, Judgment::Unjudged);
    assert_eq!(s.correct_count, 0);
    assert_eq!(s.incorrect_count, 0);
    assert_eq!(s.question_index, 0);
    assert_eq!(s.current_record_index, index_before);
    assert_eq!(s.terminal, None);
}

#[test]
fn comparison_is_case_insensitive() {
    let mut s = asking_session(1, &["gehe"]);
    type_word(&mut s, "GEHE");
    s.handle_event(InputEvent::Submit);
    assert_eq!(s.answer_feedback, Judgment::Correct);
    assert_eq!(s.correct_count, 1);
    assert_eq!(s.incorrect_count, 0);
}

#[test]
fn comparison_is_whitespace_sensitive() {
    let mut s = asking_session(1, &["gehe"]);
    type_word(&mut s, " gehe");
    s.handle_event(InputEvent::Submit);
    assert_eq!(s.answer_feedback, Judgment::Incorrect);
    assert_eq!(s.correct_count, 0);
    assert_eq!(s.incorrect_count, 1);
}

#[test]
fn wrong_answer_shows_incorrect_and_counts() {
    let mut s = asking_session(2, &["gehe"]);
    type_word(&mut s, "gehst");
    s.handle_event(InputEvent::Submit);
    assert_eq!(s.answer_feedback, Judgment::Incorrect);
    assert_eq!(s.incorrect_count, 1);
    s.handle_event(InputEvent::Submit);
    assert_eq!(s.question_index, 1);
    assert_eq!(s.answer_feedback, Judgment::Unjudged);
    assert_eq!(s.response_buffer, "");
    assert_eq!(s.terminal, None);
}

#[test]
fn counters_account_for_question_index_while_unjudged() {
    let mut s = asking_session(3, &["ja"]);
    for _ in 0..2 {
        type_word(&mut s, "ja");
        s.handle_event(InputEvent::Submit);
        s.handle_event(InputEvent::Submit);
        assert_eq!(
            s.correct_count as u32 + s.incorrect_count as u32,
            s.question_index as u32
        );
    }
}

#[test]
fn question_index_only_resets_via_restart() {
    let mut s = asking_session(1, &["ja"]);
    let mut last = s.question_index;
    type_word(&mut s, "ja");
    for e in [InputEvent::Submit, InputEvent::Submit] {
        s.handle_event(e);
        assert!(s.question_index >= last);
        last = s.question_index;
    }
    assert_eq!(s.terminal, Some(Terminal::Completed));
    s.handle_event(InputEvent::Submit);
    assert_eq!(s.question_index, 0);
}

#[test]
fn completion_rolls_no_further_question() {
    let mut s = asking_session(1, &["a", "b", "c", "d", "e"]);
    type_word(&mut s, "a");
    s.handle_event(InputEvent::Submit);
    let index_before = s.current_record_index;
    s.handle_event(InputEvent::Submit);
    assert_eq!(s.terminal, Some(Terminal::Completed));
    assert_eq!(s.current_record_index, index_before);
}

#[test]
fn restart_resets_counters_and_keeps_dataset() {
    let mut s = asking_session(1, &["ja"]);
    type_word(&mut s, "nein");
    s.handle_event(InputEvent::Submit);
    s.handle_event(InputEvent::Submit);
    assert_eq!(s.terminal, Some(Terminal::Completed));
    s.handle_event(InputEvent::Submit);
    assert_eq!(s.correct_count, 0);
    assert_eq!(s.incorrect_count, 0);
    assert_eq!(s.question_index, 0);
    assert_eq!(s.terminal, None);
    assert_eq!(s.verb, Some(Verb::Gehen));
    assert_eq!(s.dataset.len(), 1);
}

#[test]
fn other_key_after_completion_returns_to_selection() {
    let mut s = asking_session(1, &["ja"]);
    type_word(&mut s, "ja");
    s.handle_event(InputEvent::Submit);
    s.handle_event(InputEvent::Submit);
    s.handle_event(InputEvent::Character('x'));
    assert_eq!(s.verb, None);
    assert_eq!(s.dataset.len(), 0);
    assert_eq!(s.correct_count, 0);
    assert_eq!(s.incorrect_count, 0);
    assert_eq!(s.question_index, 0);
    assert_eq!(s.terminal, None);
}

#[test]
fn abort_sets_quit_from_any_screen() {
    let mut selecting = Session::new(5, vec!["gehen".to_string()]);
    selecting.handle_event(InputEvent::Abort);
    assert_eq!(selecting.terminal, Some(Terminal::Quit));

    let mut asking = asking_session(5, &["ja"]);
    asking.handle_event(InputEvent::Abort);
    assert_eq!(asking.terminal, Some(Terminal::Quit));

    let mut done = asking_session(1, &["ja"]);
    type_word(&mut done, "ja");
    done.handle_event(InputEvent::Submit);
    done.handle_event(InputEvent::Submit);
    done.handle_event(InputEvent::Abort);
    assert_eq!(done.terminal, Some(Terminal::Quit));
}

#[test]
fn erase_removes_last_character_and_is_safe_on_empty() {
    let mut s = asking_session(1, &["ja"]);
    s.handle_event(InputEvent::Erase);
    assert_eq!(s.response_buffer, "");
    type_word(&mut s, "jaa");
    s.handle_event(InputEvent::Erase);
    assert_eq!(s.response_buffer, "ja");
}

#[test]
fn navigation_wraps_backwards() {
    let mut s = Session::new(3, vec!["gehen".to_string(), "haben".to_string()]);
    assert_eq!(s.highlighted_index, 0);
    s.handle_event(InputEvent::NavigatePrevious);
    assert_eq!(s.highlighted_index, 1);
}

#[test]
fn navigation_wraps_forwards() {
    let mut s = Session::new(3, vec!["gehen".to_string(), "haben".to_string()]);
    s.handle_event(InputEvent::NavigateNext);
    assert_eq!(s.highlighted_index, 1);
    s.handle_event(InputEvent::NavigateNext);
    assert_eq!(s.highlighted_index, 0);
}

#[test]
fn navigation_on_single_and_empty_lists() {
    let mut one = Session::new(3, vec!["essen".to_string()]);
    one.handle_event(InputEvent::NavigateNext);
    assert_eq!(one.highlighted_index, 0);
    one.handle_event(InputEvent::NavigatePrevious);
    assert_eq!(one.highlighted_index, 0);

    let mut none = Session::new(3, Vec::new());
    none.handle_event(InputEvent::NavigateNext);
    assert_eq!(none.highlighted_index, 0);
    none.handle_event(InputEvent::NavigatePrevious);
    assert_eq!(none.highlighted_index, 0);
}

#[test]
fn confirming_a_selection_asks_for_a_load() {
    let mut s = Session::new(3, vec!["gehen".to_string(), "haben".to_string()]);
    s.handle_event(InputEvent::NavigateNext);
    let eff = s.handle_event(InputEvent::Submit);
    assert!(matches!(eff, Effect::LoadDataset(Verb::Haben)));
    assert_eq!(s.verb, None);
}

#[test]
fn confirming_an_unsupported_candidate_is_reported() {
    let mut s = Session::new(3, vec!["zzz".to_string()]);
    let eff = s.handle_event(InputEvent::Submit);
    assert!(matches!(eff, Effect::UnknownCandidate));
}

#[test]
fn install_dataset_rolls_a_valid_first_question() {
    let mut s = Session::new(3, Vec::new());
    let dataset = vec![record(Verb::Essen, "esse")];
    s.install_dataset(Verb::Essen, dataset);
    assert_eq!(s.verb, Some(Verb::Essen));
    assert_eq!(s.current_record_index, 0);
    assert_eq!(s.response_buffer, "");
}

#[test]
fn typing_while_judged_does_not_move_counters() {
    let mut s = asking_session(2, &["ja"]);
    type_word(&mut s, "ja");
    s.handle_event(InputEvent::Submit);
    assert_eq!(s.answer_feedback, Judgment::Correct);
    s.handle_event(InputEvent::Character('x'));
    assert_eq!(s.answer_feedback, Judgment::Correct);
    assert_eq!(s.correct_count, 1);
    assert_eq!(s.question_index, 0);
}
