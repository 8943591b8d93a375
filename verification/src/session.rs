use vstd::prelude::*;

use crate::candidates::{guess_candidates, openers_of, remove_word, removed_of};
use crate::chooser::choose_word;
use crate::feedback::{code_valid, judgments_of_code, FeedbackError, Response};
use crate::prune::{prune_list, prune_spec};
use crate::words::all_words_len5;

verus! {

/// Where the session stands after one step of the loop. The loop itself
/// only performs I/O: it presents the guess, reads one feedback line and
/// hands it back to `advance_round`.
#[derive(Debug, PartialEq)]
pub enum RoundOutcome {
    /// Await feedback for `guess` against the remaining `candidates`.
    Awaiting { candidates: Vec<String>, guess: String },
    /// The external collaborator reported the guess fully correct.
    Solved,
    /// No candidate is left: the feedback history is inconsistent with
    /// every dictionary entry. A normal terminal state, not an error.
    Exhausted,
    /// The feedback code did not parse; the caller reports the error and
    /// asks for a fresh line, with the candidate set unchanged.
    Malformed { error: FeedbackError },
}

/// Begin a session: the full dictionary becomes the candidate set and a
/// first guess is drawn, from the vowel-rich openers when any exist,
/// else from the whole dictionary.
pub fn start_session(dictionary: Vec<String>) -> (r: RoundOutcome)
    ensures
        match r {
            RoundOutcome::Awaiting { candidates, guess } => {
                &&& dictionary@.len() > 0
                &&& candidates@ == dictionary@
                &&& if openers_of(dictionary@).len() > 0 {
                    openers_of(dictionary@).contains(guess)
                } else {
                    dictionary@.contains(guess)
                }
            },
            RoundOutcome::Exhausted => dictionary@.len() == 0,
            _ => false,
        },
{
    match guess_candidates(&dictionary) {
        None => RoundOutcome::Exhausted,
        Some(openers) => {
            let chosen = if openers.len() > 0 {
                choose_word(&openers)
            } else {
                choose_word(&dictionary)
            };
            match chosen {
                Some(guess) => RoundOutcome::Awaiting { candidates: dictionary, guess },
                None => vstd::pervasive::unreached(),
            }
        },
    }
}

/// One turn of the session loop: interpret the feedback line received
/// for the current guess and produce the next state. `GGGGG` solves the
/// session outright; `ERROR` marks the guess as a word the external
/// checker rejects, so every copy of it is removed; any other line is
/// parsed as a feedback code and the candidates are pruned by it. After
/// a removal or a pruning, a fresh guess is drawn from what is left, and
/// an empty remainder exhausts the session.
pub fn advance_round(candidates: &Vec<String>, guess: &String, line: &String) -> (r: RoundOutcome)
    requires
        guess@.len() == 5,
        all_words_len5(candidates@),
    ensures
        match r {
            RoundOutcome::Solved => line@ == "GGGGG"@,
            RoundOutcome::Awaiting { candidates: next, guess: g2 } => {
                &&& line@ != "GGGGG"@
                &&& if line@ == "ERROR"@ {
                    next@ == removed_of(candidates@, guess@)
                } else {
                    code_valid(line@) && next@ == prune_spec(
                        candidates@,
                        guess@,
                        judgments_of_code(line@),
                    )
                }
                &&& next@.len() > 0
                &&& next@.contains(g2)
            },
            RoundOutcome::Exhausted => {
                &&& line@ != "GGGGG"@
                &&& if line@ == "ERROR"@ {
                    removed_of(candidates@, guess@).len() == 0
                } else {
                    code_valid(line@) && prune_spec(
                        candidates@,
                        guess@,
                        judgments_of_code(line@),
                    ).len() == 0
                }
            },
            RoundOutcome::Malformed { error } => {
                &&& line@ != "GGGGG"@
                &&& line@ != "ERROR"@
                &&& !code_valid(line@)
                &&& (error is WrongLength <==> line@.len() != 5)
            },
        },
{
    let solved_code: String = "GGGGG".to_owned();
    if *line == solved_code {
        return RoundOutcome::Solved;
    }
    let reject_code: String = "ERROR".to_owned();
    let next = if *line == reject_code {
        remove_word(candidates, guess)
    } else {
        match Response::parse(line.as_str()) {
            Ok(resp) => prune_list(candidates, guess, resp),
            Err(error) => {
                return RoundOutcome::Malformed { error };
            },
        }
    };
    match choose_word(&next) {
        Some(g2) => RoundOutcome::Awaiting { candidates: next, guess: g2 },
        None => RoundOutcome::Exhausted,
    }
}

} // verus!
