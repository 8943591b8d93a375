use vstd::prelude::*;

use crate::subseq::lemma_filter_push;
use crate::words::contains_char;

verus! {

/// How many of the five vowels the word contains. Each vowel counts
/// once, however often it occurs.
pub open spec fn vowel_variety(w: Seq<char>) -> int {
    (if w.contains('a') {
        1int
    } else {
        0int
    }) + (if w.contains('e') {
        1int
    } else {
        0int
    }) + (if w.contains('i') {
        1int
    } else {
        0int
    }) + (if w.contains('o') {
        1int
    } else {
        0int
    }) + (if w.contains('u') {
        1int
    } else {
        0int
    })
}

/// A strong opening guess covers at least four distinct vowels.
pub open spec fn strong_opener(w: Seq<char>) -> bool {
    vowel_variety(w) >= 4
}

/// The opener predicate as one function value.
pub open spec fn opener_pred() -> spec_fn(String) -> bool {
    |w: String| strong_opener(w@)
}

/// The words of a dictionary that make strong opening guesses.
pub open spec fn openers_of(words: Seq<String>) -> Seq<String> {
    words.filter(opener_pred())
}

/// Pre-filter the dictionary to vowel-rich opening guesses, a cheap
/// static heuristic for high letter coverage before any feedback exists.
/// An empty dictionary yields `None`; a dictionary where no word meets
/// the threshold yields `Some` of an empty list, so the two cases stay
/// distinguishable.
pub fn guess_candidates(word_list: &Vec<String>) -> (r: Option<Vec<String>>)
    ensures
        match r {
            Option::None => word_list@.len() == 0,
            Option::Some(c) => word_list@.len() > 0 && c@ == openers_of(word_list@),
        },
{
    if word_list.len() == 0 {
        return None;
    }
    let mut candidates: Vec<String> = Vec::new();
    let mut i: usize = 0;
    while i < word_list.len()
        invariant
            i <= word_list@.len(),
            candidates@ == openers_of(word_list@.take(i as int)),
        decreases word_list@.len() - i,
    {
        let word = &word_list[i];
        let w = word.as_str();
        let mut score: u8 = 0;
        if contains_char(w, 'a') {
            score += 1;
        }
        if contains_char(w, 'e') {
            score += 1;
        }
        if contains_char(w, 'i') {
            score += 1;
        }
        if contains_char(w, 'o') {
            score += 1;
        }
        if contains_char(w, 'u') {
            score += 1;
        }
        assert(score as int == vowel_variety(word@));
        proof {
            lemma_filter_push(word_list@.take(i as int), word_list@[i as int], opener_pred());
            assert(word_list@.take(i as int + 1) =~= word_list@.take(i as int).push(
                word_list@[i as int],
            ));
        }
        if score >= 4 {
            candidates.push(word.clone());
        }
        i += 1;
    }
    proof {
        assert(word_list@.take(word_list@.len() as int) =~= word_list@);
    }
    Some(candidates)
}

/// Every word the opener heuristic returns covers at least four
/// distinct vowels.
pub proof fn lemma_openers_strong(words: Seq<String>, k: int)
    requires
        0 <= k < openers_of(words).len(),
    ensures
        strong_opener(openers_of(words)[k]@),
{
    broadcast use vstd::seq_lib::group_filter_ensures;

    assert(opener_pred()(words.filter(opener_pred())[k]));
}

/// The removal predicate as one function value.
pub open spec fn remove_pred(word: Seq<char>) -> spec_fn(String) -> bool {
    |x: String| x@ != word
}

/// The list with every copy of one word removed, order kept.
pub open spec fn removed_of(words: Seq<String>, word: Seq<char>) -> Seq<String> {
    words.filter(remove_pred(word))
}

/// Drop a rejected guess from the candidate list; everything else stays,
/// in its original order.
pub fn remove_word(word_list: &Vec<String>, word: &String) -> (r: Vec<String>)
    ensures
        r@ == removed_of(word_list@, word@),
{
    let mut kept: Vec<String> = Vec::new();
    let mut i: usize = 0;
    while i < word_list.len()
        invariant
            i <= word_list@.len(),
            kept@ == removed_of(word_list@.take(i as int), word@),
        decreases word_list@.len() - i,
    {
        let x = &word_list[i];
        proof {
            lemma_filter_push(word_list@.take(i as int), word_list@[i as int], remove_pred(word@));
            assert(word_list@.take(i as int + 1) =~= word_list@.take(i as int).push(
                word_list@[i as int],
            ));
        }
        if !(*x == *word) {
            kept.push(x.clone());
        }
        i += 1;
    }
    proof {
        assert(word_list@.take(word_list@.len() as int) =~= word_list@);
    }
    kept
}

} // verus!
