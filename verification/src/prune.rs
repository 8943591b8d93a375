use vstd::prelude::*;

use crate::feedback::{LetterType, Response};
use crate::subseq::{
    is_subsequence_of, lemma_filter_agree, lemma_filter_all_kept, lemma_filter_idempotent,
    lemma_filter_is_subsequence, lemma_filter_push,
};
use crate::words::{all_words_len5, contains_char};

verus! {

/// What one judgment demands of a candidate word: `c` is the guessed
/// letter and `i` its position in the guess. A `Green` word must hold
/// the letter somewhere and at the position; a `Yellow` word must hold
/// it somewhere but not at the position; a `Blank` word must not hold
/// it at all; a `Repeat` judgment demands nothing.
pub open spec fn keeps(word: Seq<char>, c: char, i: int, r: LetterType) -> bool {
    match r {
        LetterType::Green => word.contains(c) && word[i] == c,
        LetterType::Yellow => word.contains(c) && word[i] != c,
        LetterType::Blank => !word.contains(c),
        LetterType::Repeat => true,
    }
}

/// A candidate word is consistent with a round's feedback when every
/// position's judgment keeps it.
pub open spec fn consistent(word: Seq<char>, guess: Seq<char>, resp: Seq<LetterType>) -> bool {
    forall|i: int| 0 <= i < resp.len() ==> #[trigger] keeps(word, guess[i], i, resp[i])
}

/// The pruning predicate as one function value, so that every statement
/// about pruning speaks of one and the same filter.
pub open spec fn consistent_pred(guess: Seq<char>, resp: Seq<LetterType>) -> spec_fn(String) -> bool {
    |w: String| consistent(w@, guess, resp)
}

/// The words of a candidate list that one round's feedback keeps.
pub open spec fn prune_spec(words: Seq<String>, guess: Seq<char>, resp: Seq<LetterType>) -> Seq<String> {
    words.filter(consistent_pred(guess, resp))
}

/// Whether one candidate word survives every judgment of the feedback.
pub fn word_consistent(word: &String, choice: &String, response: &Response) -> (r: bool)
    requires
        word@.len() == 5,
        choice@.len() == 5,
        response@.len() == 5,
    ensures
        r == consistent(word@, choice@, response@),
{
    let w = word.as_str();
    let mut i: usize = 0;
    while i < 5
        invariant
            i <= 5,
            word@.len() == 5,
            choice@.len() == 5,
            response@.len() == 5,
            w@ == word@,
            forall|j: int| 0 <= j < i ==> #[trigger] keeps(word@, choice@[j], j, response@[j]),
        decreases 5 - i,
    {
        let c = choice.as_str().get_char(i);
        let keep = match response.judgment_at(i) {
            LetterType::Green => contains_char(w, c) && w.get_char(i) == c,
            LetterType::Yellow => contains_char(w, c) && w.get_char(i) != c,
            LetterType::Blank => !contains_char(w, c),
            LetterType::Repeat => true,
        };
        if !keep {
            assert(!keeps(word@, choice@[i as int], i as int, response@[i as int]));
            return false;
        }
        i += 1;
    }
    true
}

/// Apply one round's feedback: the result holds exactly the words of the
/// list that are consistent with it, in their original order. An empty
/// result is not an error; it means no candidate matches the feedback.
pub fn prune_list(word_list: &Vec<String>, choice: &String, response: Response) -> (r: Vec<String>)
    requires
        choice@.len() == 5,
        response@.len() == 5,
        all_words_len5(word_list@),
    ensures
        r@ == prune_spec(word_list@, choice@, response@),
{
    let mut kept: Vec<String> = Vec::new();
    let mut i: usize = 0;
    while i < word_list.len()
        invariant
            i <= word_list@.len(),
            choice@.len() == 5,
            response@.len() == 5,
            all_words_len5(word_list@),
            kept@ == prune_spec(word_list@.take(i as int), choice@, response@),
        decreases word_list@.len() - i,
    {
        let w = &word_list[i];
        proof {
            lemma_filter_push(
                word_list@.take(i as int),
                word_list@[i as int],
                consistent_pred(choice@, response@),
            );
            assert(word_list@.take(i as int + 1) =~= word_list@.take(i as int).push(
                word_list@[i as int],
            ));
        }
        if word_consistent(w, choice, &response) {
            kept.push(w.clone());
        }
        i += 1;
    }
    proof {
        assert(word_list@.take(word_list@.len() as int) =~= word_list@);
    }
    kept
}

/// Pruning is monotonic: the pruned list is a subsequence of the input,
/// so no word is ever added and the order never changes.
pub proof fn lemma_prune_monotonic(words: Seq<String>, guess: Seq<char>, resp: Seq<LetterType>)
    ensures
        is_subsequence_of(prune_spec(words, guess, resp), words),
{
    lemma_filter_is_subsequence(words, consistent_pred(guess, resp));
}

/// Pruning twice with the same guess and feedback prunes no further than
/// once: the second application is a no-op on an already-filtered list.
pub proof fn lemma_prune_idempotent(words: Seq<String>, guess: Seq<char>, resp: Seq<LetterType>)
    ensures
        prune_spec(prune_spec(words, guess, resp), guess, resp) == prune_spec(words, guess, resp),
{
    lemma_filter_idempotent(words, consistent_pred(guess, resp));
}

/// Soundness: a word of the list that is consistent with the feedback is
/// never pruned away.
pub proof fn lemma_prune_sound(
    words: Seq<String>,
    guess: Seq<char>,
    resp: Seq<LetterType>,
    answer: String,
)
    requires
        words.contains(answer),
        consistent(answer@, guess, resp),
    ensures
        prune_spec(words, guess, resp).contains(answer),
{
    broadcast use vstd::seq_lib::group_filter_ensures;

    let k = choose|k: int| 0 <= k < words.len() && words[k] == answer;
    assert(consistent_pred(guess, resp)(words[k]));
    assert(words.filter(consistent_pred(guess, resp)).contains(words[k]));
}

/// Consistency with every judgment except the one at position `skip`.
pub open spec fn consistent_except(
    word: Seq<char>,
    guess: Seq<char>,
    resp: Seq<LetterType>,
    skip: int,
) -> bool {
    forall|j: int|
        0 <= j < resp.len() && j != skip ==> #[trigger] keeps(word, guess[j], j, resp[j])
}

/// The predicate of `consistent_except` as one function value.
pub open spec fn consistent_except_pred(
    guess: Seq<char>,
    resp: Seq<LetterType>,
    skip: int,
) -> spec_fn(String) -> bool {
    |w: String| consistent_except(w@, guess, resp, skip)
}

/// An AlreadyAccounted judgment never alters the candidate set: pruning
/// with it equals pruning that ignores its position outright, whatever
/// the position and whatever the letter standing there.
pub proof fn lemma_already_accounted_ignored(
    words: Seq<String>,
    guess: Seq<char>,
    resp: Seq<LetterType>,
    i: int,
)
    requires
        0 <= i < resp.len(),
        resp[i] is Repeat,
    ensures
        prune_spec(words, guess, resp) == words.filter(consistent_except_pred(guess, resp, i)),
{
    assert forall|k: int| 0 <= k < words.len() implies (consistent_pred(guess, resp)(
        #[trigger] words[k],
    ) <==> consistent_except_pred(guess, resp, i)(words[k])) by {
        let w = words[k]@;
        if consistent_except(w, guess, resp, i) {
            assert(keeps(w, guess[i], i, resp[i]));
            assert forall|j: int| 0 <= j < resp.len() implies #[trigger] keeps(
                w,
                guess[j],
                j,
                resp[j],
            ) by {
                if j != i {
                    assert(keeps(w, guess[j], j, resp[j]));
                }
            }
        }
    }
    lemma_filter_agree(words, consistent_pred(guess, resp), consistent_except_pred(guess, resp, i));
}

/// Feedback made of AlreadyAccounted judgments alone changes nothing.
pub proof fn lemma_all_already_accounted(
    words: Seq<String>,
    guess: Seq<char>,
    resp: Seq<LetterType>,
)
    requires
        forall|i: int| 0 <= i < resp.len() ==> #[trigger] resp[i] is Repeat,
    ensures
        prune_spec(words, guess, resp) == words,
{
    assert forall|k: int| 0 <= k < words.len() implies consistent_pred(guess, resp)(
        #[trigger] words[k],
    ) by {
        assert forall|i: int| 0 <= i < resp.len() implies #[trigger] keeps(
            words[k]@,
            guess[i],
            i,
            resp[i],
        ) by {
            assert(resp[i] is Repeat);
        }
    }
    lemma_filter_all_kept(words, consistent_pred(guess, resp));
}

} // verus!
