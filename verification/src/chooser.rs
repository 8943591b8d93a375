use rand::Rng;
use vstd::prelude::*;

verus! {

/// Relies on rand's `Rng::gen_range` over `0..n`: the sample lies in the
/// half-open range. The call panics only when the range is empty, which
/// `n > 0` rules out. Nothing more is assumed of the sample: callers
/// hold for every index below `n`.
#[verifier::external_body]
fn random_below(n: usize) -> (r: usize)
    requires
        n > 0,
    ensures
        r < n,
{
    rand::thread_rng().gen_range(0..n)
}

/// Pick the next guess from the candidate list, uniformly at random;
/// `None` on an empty list. The selection policy is deliberately loose:
/// any function returning one element of a non-empty list meets this
/// contract, so a deterministic or entropy-guided chooser can replace
/// this one without touching the rest of the library.
pub fn choose_word(word_list: &Vec<String>) -> (r: Option<String>)
    ensures
        match r {
            Option::None => word_list@.len() == 0,
            Option::Some(w) => word_list@.contains(w),
        },
{
    if word_list.len() == 0 {
        return None;
    }
    let i: usize = random_below(word_list.len());
    let w = word_list[i].clone();
    assert(word_list@.contains(w)) by {
        assert(word_list@[i as int] == w);
    }
    Some(w)
}

} // verus!
