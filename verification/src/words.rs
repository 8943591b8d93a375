use vstd::prelude::*;

verus! {

/// Every entry of a candidate list is a five-letter word. Dictionary
/// loading is expected to enforce this before the core ever runs.
pub open spec fn all_words_len5(words: Seq<String>) -> bool {
    forall|k: int| 0 <= k < words.len() ==> (#[trigger] words[k])@.len() == 5
}

/// Whether the word contains the character anywhere.
pub fn contains_char(w: &str, c: char) -> (r: bool)
    ensures
        r == w@.contains(c),
{
    let n: usize = w.unicode_len();
    let mut i: usize = 0;
    while i < n
        invariant
            i <= n,
            n == w@.len(),
            forall|j: int| 0 <= j < i ==> w@[j] != c,
        decreases n - i,
    {
        if w.get_char(i) == c {
            assert(w@.contains(c)) by {
                assert(w@[i as int] == c);
            }
            return true;
        }
        i += 1;
    }
    assert(!w@.contains(c));
    false
}

} // verus!
