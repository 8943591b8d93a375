use wordle_helper::chooser::choose_word;
use wordle_helper::feedback::FeedbackError;
use wordle_helper::session::{advance_round, start_session, RoundOutcome};

fn words(entries: &[&str]) -> Vec<String> {
    entries.iter().map(|w| w.to_string()).collect()
}

#[test]
fn chooser_on_singleton_returns_that_word() {
    let list = words(&["crane"]);
    assert_eq!(choose_word(&list), Some("crane".to_string()));
}

#[test]
fn chooser_on_empty_list_is_absent() {
    let list = words(&[]);
    assert_eq!(choose_word(&list), None);
}

#[test]
fn chooser_returns_a_list_member() {
    let list = words(&["audio", "crane", "zesty"]);
    let chosen = choose_word(&list).expect("non-empty list");
    assert!(list.contains(&chosen));
}

#[test]
fn start_on_empty_dictionary_is_exhausted() {
    assert_eq!(start_session(words(&[])), RoundOutcome::Exhausted);
}

#[test]
fn start_prefers_vowel_rich_openers() {
    match start_session(words(&["audio", "crane", "zesty"])) {
        RoundOutcome::Awaiting { candidates, guess } => {
            assert_eq!(candidates, words(&["audio", "crane", "zesty"]));
            assert_eq!(guess, "audio".to_string());
        },
        other => panic!("expected an awaiting state, got {other:?}"),
    }
}

#[test]
fn start_falls_back_to_full_dictionary() {
    let dictionary = words(&["crane", "zesty"]);
    match start_session(dictionary.clone()) {
        RoundOutcome::Awaiting { candidates, guess } => {
            assert_eq!(candidates, dictionary);
            assert!(dictionary.contains(&guess));
        },
        other => panic!("expected an awaiting state, got {other:?}"),
    }
}

#[test]
fn all_correct_code_solves_without_pruning() {
    let list = words(&["audio", "crane", "zesty"]);
    let outcome = advance_round(&list, &"zesty".to_string(), &"GGGGG".to_string());
    assert_eq!(outcome, RoundOutcome::Solved);
}

#[test]
fn rejected_guess_is_removed_and_play_goes_on() {
    let list = words(&["audio", "crane", "zesty"]);
    match advance_round(&list, &"zesty".to_string(), &"ERROR".to_string()) {
        RoundOutcome::Awaiting { candidates, guess } => {
            assert_eq!(candidates, words(&["audio", "crane"]));
            assert!(candidates.contains(&guess));
        },
        other => panic!("expected an awaiting state, got {other:?}"),
    }
}

#[test]
fn rejecting_the_last_candidate_exhausts() {
    let list = words(&["zesty"]);
    let outcome = advance_round(&list, &"zesty".to_string(), &"ERROR".to_string());
    assert_eq!(outcome, RoundOutcome::Exhausted);
}

#[test]
fn pruning_to_one_candidate_guesses_it() {
    let list = words(&["audio", "crane", "zesty"]);
    match advance_round(&list, &"zesty".to_string(), &"_Y___".to_string()) {
        RoundOutcome::Awaiting { candidates, guess } => {
            assert_eq!(candidates, words(&["crane"]));
            assert_eq!(guess, "crane".to_string());
        },
        other => panic!("expected an awaiting state, got {other:?}"),
    }
}

#[test]
fn pruning_away_every_candidate_exhausts() {
    let list = words(&["crane"]);
    let outcome = advance_round(&list, &"audio".to_string(), &"G____".to_string());
    assert_eq!(outcome, RoundOutcome::Exhausted);
}

#[test]
fn malformed_character_is_reported_not_fatal() {
    let list = words(&["audio", "crane", "zesty"]);
    let outcome = advance_round(&list, &"zesty".to_string(), &"HELLO".to_string());
    assert_eq!(outcome, RoundOutcome::Malformed { error: FeedbackError::InvalidChar });
}

#[test]
fn malformed_length_is_reported_not_fatal() {
    let list = words(&["audio", "crane", "zesty"]);
    let outcome = advance_round(&list, &"zesty".to_string(), &"GG".to_string());
    assert_eq!(outcome, RoundOutcome::Malformed { error: FeedbackError::WrongLength });
}
