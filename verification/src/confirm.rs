//! Reading the answer to the question whether a switch may go ahead.

use vstd::prelude::*;

verus! {

/// Whether `c` is white space: a character with the Unicode property
/// `White_Space`.
pub open spec fn is_whitespace(c: char) -> bool {
    let code = c as u32;
    ||| 0x09 <= code <= 0x0d
    ||| code == 0x20
    ||| code == 0x85
    ||| code == 0xa0
    ||| code == 0x1680
    ||| 0x2000 <= code <= 0x200a
    ||| code == 0x2028
    ||| code == 0x2029
    ||| code == 0x202f
    ||| code == 0x205f
    ||| code == 0x3000
}

/// Whether `answer` refuses: it is the letter `n`, with nothing but white
/// space before and behind it. Every other answer lets the switch go ahead.
pub open spec fn declines(answer: Seq<char>) -> bool {
    exists|i: int|
        0 <= i < answer.len() && answer[i] == 'n' && forall|j: int|
            0 <= j < answer.len() && j != i ==> is_whitespace(#[trigger] answer[j])
}

/// Whether `c` is white space.
pub fn char_is_whitespace(c: char) -> (white: bool)
    ensures
        white == is_whitespace(c),
{
    let code: u32 = c as u32;
    (0x09 <= code && code <= 0x0d) || code == 0x20 || code == 0x85 || code == 0xa0 || code
        == 0x1680 || (0x2000 <= code && code <= 0x200a) || code == 0x2028 || code == 0x2029
        || code == 0x202f || code == 0x205f || code == 0x3000
}

/// What has been read of an answer so far.
enum Reading {
    /// Only white space.
    Blank,
    /// One `n`, and white space.
    Refusal,
    /// Something else: the answer does not refuse, whatever follows.
    Other,
}

/// Whether `answer` refuses.
pub fn is_decline(answer: &str) -> (refused: bool)
    ensures
        refused == declines(answer@),
{
    let mut reading = Reading::Blank;
    let ghost mut at: int = 0;
    let ghost mut first: int = 0;
    let ghost mut second: int = 0;
    for c in it: answer.chars()
        invariant
            it.seq() == answer@,
            reading is Blank ==> forall|j: int|
                0 <= j < it.index() ==> is_whitespace(#[trigger] answer@[j]),
            reading is Refusal ==> 0 <= at < it.index() && answer@[at] == 'n' && forall|j: int|
                0 <= j < it.index() && j != at ==> is_whitespace(#[trigger] answer@[j]),
            reading is Other ==> 0 <= first < it.index() && !is_whitespace(answer@[first]) && (
            answer@[first] != 'n' || (0 <= second < it.index() && second != first
                && !is_whitespace(answer@[second]))),
    {
        let white = char_is_whitespace(c);
        let ghost here = it.index() as int;
        if !white {
            match reading {
                Reading::Blank => {
                    if c == 'n' {
                        reading = Reading::Refusal;
                        proof {
                            at = here;
                        }
                    } else {
                        reading = Reading::Other;
                        proof {
                            first = here;
                        }
                    }
                },
                Reading::Refusal => {
                    reading = Reading::Other;
                    proof {
                        first = at;
                        second = here;
                    }
                },
                Reading::Other => {},
            }
        }
    }
    match reading {
        Reading::Refusal => true,
        Reading::Blank => false,
        Reading::Other => false,
    }
}

} // verus!
