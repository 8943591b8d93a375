use wordle_helper::candidates::{guess_candidates, remove_word};
use wordle_helper::feedback::{FeedbackError, LetterType, Response};
use wordle_helper::prune::prune_list;

fn words(entries: &[&str]) -> Vec<String> {
    entries.iter().map(|w| w.to_string()).collect()
}

#[test]
fn parse_maps_each_code_character() {
    let resp = Response::parse("_YGR_").expect("valid code");
    assert_eq!(
        resp.judgments(),
        &vec![
            LetterType::Blank,
            LetterType::Yellow,
            LetterType::Green,
            LetterType::Repeat,
            LetterType::Blank,
        ]
    );
    assert_eq!(resp.judgment_at(2), LetterType::Green);
}

#[test]
fn parse_rejects_short_code() {
    assert_eq!(Response::parse("GG_"), Err(FeedbackError::WrongLength));
    assert_eq!(Response::parse(""), Err(FeedbackError::WrongLength));
}

#[test]
fn parse_rejects_long_code() {
    assert_eq!(Response::parse("GGGGGG"), Err(FeedbackError::WrongLength));
}

#[test]
fn parse_rejects_unknown_character() {
    assert_eq!(Response::parse("GGXGG"), Err(FeedbackError::InvalidChar));
    assert_eq!(Response::parse("ggggg"), Err(FeedbackError::InvalidChar));
}

#[test]
fn prune_green_demands_the_position() {
    // The green 'c' keeps only words with 'c' at position 0; the blank
    // judgments on r, a, n, e then reject every word holding them, the
    // guess itself included.
    let list = words(&["audio", "crane", "zesty"]);
    let guess = "crane".to_string();
    let resp = Response::parse("G____").expect("valid code");
    let pruned = prune_list(&list, &guess, resp);
    assert_eq!(pruned, words(&[]));
}

#[test]
fn prune_green_with_noop_rest_keeps_position_matches() {
    // With the other positions marked already-accounted, the green 'c'
    // alone decides: only the guess itself has 'c' at position 0.
    let list = words(&["audio", "crane", "zesty"]);
    let guess = "crane".to_string();
    let resp = Response::parse("GRRRR").expect("valid code");
    let pruned = prune_list(&list, &guess, resp);
    assert_eq!(pruned, words(&["crane"]));
}

#[test]
fn prune_yellow_demands_letter_elsewhere() {
    let list = words(&["audio", "crane", "zesty"]);
    let guess = "zesty".to_string();
    let resp = Response::parse("_Y___").expect("valid code");
    let pruned = prune_list(&list, &guess, resp);
    assert_eq!(pruned, words(&["crane"]));
}

#[test]
fn prune_all_repeat_changes_nothing() {
    let list = words(&["audio", "crane", "zesty"]);
    let guess = "zesty".to_string();
    let resp = Response::parse("RRRRR").expect("valid code");
    let pruned = prune_list(&list, &guess, resp);
    assert_eq!(pruned, list);
}

#[test]
fn prune_twice_equals_prune_once() {
    let list = words(&["audio", "crane", "zesty", "crate", "caves"]);
    let guess = "crate".to_string();
    let once = prune_list(&list, &guess, Response::parse("GG___").expect("valid code"));
    let twice = prune_list(&once, &guess, Response::parse("GG___").expect("valid code"));
    assert_eq!(twice, once);
}

#[test]
fn prune_keeps_order_and_duplicates() {
    let list = words(&["crane", "caves", "crane"]);
    let guess = "cures".to_string();
    // green 'c' at position 0, everything else already accounted for
    let resp = Response::parse("GRRRR").expect("valid code");
    let pruned = prune_list(&list, &guess, resp);
    assert_eq!(pruned, words(&["crane", "caves", "crane"]));
}

#[test]
fn opener_heuristic_empty_dictionary_is_absent() {
    let list = words(&[]);
    assert_eq!(guess_candidates(&list), None);
}

#[test]
fn opener_heuristic_no_match_is_present_and_empty() {
    let list = words(&["crane", "zesty"]);
    assert_eq!(guess_candidates(&list), Some(words(&[])));
}

#[test]
fn opener_heuristic_keeps_vowel_rich_words() {
    let list = words(&["audio", "crane", "zesty", "adieu"]);
    assert_eq!(guess_candidates(&list), Some(words(&["audio", "adieu"])));
}

#[test]
fn remove_word_drops_exactly_that_word() {
    let list = words(&["audio", "crane", "zesty"]);
    let removed = remove_word(&list, &"zesty".to_string());
    assert_eq!(removed, words(&["audio", "crane"]));
}

#[test]
fn remove_word_drops_every_copy() {
    let list = words(&["crane", "zesty", "crane"]);
    let removed = remove_word(&list, &"crane".to_string());
    assert_eq!(removed, words(&["zesty"]));
}

#[test]
fn remove_word_absent_word_changes_nothing() {
    let list = words(&["audio", "crane"]);
    let removed = remove_word(&list, &"zesty".to_string());
    assert_eq!(removed, list);
}
