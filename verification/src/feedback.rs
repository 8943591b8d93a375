use vstd::prelude::*;

verus! {

/// One per-position judgment of a round's feedback.
#[derive(Clone, Copy, Debug, PartialEq, Eq, Structural)]
pub enum LetterType {
    /// The guessed letter sits at this exact position in the answer.
    Green,
    /// The letter is in the answer, but not at this position.
    Yellow,
    /// The letter is not in the answer at all.
    Blank,
    /// The letter was already accounted for by an earlier occurrence in
    /// the same guess; no pruning action is taken for this position.
    /// The feedback scheme cannot express letter multiplicities, and a
    /// dedicated no-op tag avoids wrongly eliminating valid candidates.
    Repeat,
}

/// Why a feedback code failed to parse. Both failures are recoverable:
/// the caller reports them and asks for a fresh code.
#[derive(Clone, Copy, Debug, PartialEq, Eq, Structural)]
pub enum FeedbackError {
    /// The code did not hold exactly five characters.
    WrongLength,
    /// The code held a character other than `_`, `Y`, `G` or `R`.
    InvalidChar,
}

/// The characters a feedback code may hold.
pub open spec fn valid_code_char(c: char) -> bool {
    c == '_' || c == 'Y' || c == 'G' || c == 'R'
}

/// The judgment a single feedback character stands for.
pub open spec fn judgment_of(c: char) -> LetterType {
    if c == 'Y' {
        LetterType::Yellow
    } else if c == 'G' {
        LetterType::Green
    } else if c == 'R' {
        LetterType::Repeat
    } else {
        LetterType::Blank
    }
}

/// A feedback code parses when it has exactly five recognized characters.
pub open spec fn code_valid(s: Seq<char>) -> bool {
    s.len() == 5 && forall|i: int| 0 <= i < s.len() ==> valid_code_char(#[trigger] s[i])
}

/// The judgments a feedback code stands for, position by position.
pub open spec fn judgments_of_code(s: Seq<char>) -> Seq<LetterType> {
    Seq::new(s.len(), |i: int| judgment_of(s[i]))
}

/// One round's feedback: exactly five judgments, one per guess position.
#[derive(Debug, PartialEq)]
pub struct Response {
    response: Vec<LetterType>,
}

impl View for Response {
    type V = Seq<LetterType>;

    closed spec fn view(&self) -> Seq<LetterType> {
        self.response@
    }
}

impl Response {
    /// Parse a raw feedback code: `_` absent, `Y` present, `G` correct,
    /// `R` already accounted for. Exactly five characters are required.
    pub fn parse(s: &str) -> (r: Result<Response, FeedbackError>)
        ensures
            match r {
                Ok(resp) => code_valid(s@) && resp@ == judgments_of_code(s@),
                Err(e) => !code_valid(s@) && (e is WrongLength <==> s@.len() != 5),
            },
    {
        let n: usize = s.unicode_len();
        if n != 5 {
            return Err(FeedbackError::WrongLength);
        }
        let mut response: Vec<LetterType> = Vec::new();
        let mut i: usize = 0;
        while i < 5
            invariant
                i <= 5,
                s@.len() == 5,
                response@.len() == i as int,
                forall|j: int| 0 <= j < i ==> valid_code_char(#[trigger] s@[j]),
                forall|j: int| 0 <= j < i ==> #[trigger] response@[j] == judgment_of(s@[j]),
            decreases 5 - i,
        {
            let c = s.get_char(i);
            let judgment = match c {
                '_' => LetterType::Blank,
                'Y' => LetterType::Yellow,
                'G' => LetterType::Green,
                'R' => LetterType::Repeat,
                _ => {
                    assert(!valid_code_char(s@[i as int]));
                    return Err(FeedbackError::InvalidChar);
                },
            };
            response.push(judgment);
            i += 1;
        }
        let resp = Response { response };
        assert(resp@ =~= judgments_of_code(s@));
        Ok(resp)
    }

    /// The judgment at one guess position.
    pub fn judgment_at(&self, i: usize) -> (r: LetterType)
        requires
            i < self@.len(),
        ensures
            r == self@[i as int],
    {
        self.response[i]
    }

    /// All judgments in position order.
    pub fn judgments(&self) -> (r: &Vec<LetterType>)
        ensures
            r@ == self@,
    {
        &self.response
    }
}

} // verus!
