//! The fizzbuzz decision: which word (or number) is shouted for each count.
//! The printing loops around it live with the callers.

use vstd::prelude::*;
use crate::decimal::decimal_digits;
use crate::decimal::decimal_string;

verus! {

/// What is shouted for one count.
#[derive(Clone, Copy, Debug, PartialEq, Eq, Structural)]
pub enum FizzBuzz {
    Fizz,
    Buzz,
    FizzBuzz,
    Number(u32),
}

/// Whether `n` counts as divisible by `d`: zero is deliberately not
/// divisible by anything, so a count of zero is shouted as itself.
pub open spec fn spec_divisible(n: u32, d: u32) -> bool {
    n != 0 && n % d == 0
}

/// The shout for the count `n`.
pub open spec fn fizzbuzz_word(n: u32) -> FizzBuzz {
    if spec_divisible(n, 3) && spec_divisible(n, 5) {
        FizzBuzz::FizzBuzz
    } else if spec_divisible(n, 3) {
        FizzBuzz::Fizz
    } else if spec_divisible(n, 5) {
        FizzBuzz::Buzz
    } else {
        FizzBuzz::Number(n)
    }
}

/// The characters of a shout: the word itself, or the count in decimal.
pub open spec fn word_text(word: FizzBuzz) -> Seq<char> {
    match word {
        FizzBuzz::Fizz => seq!['F', 'i', 'z', 'z'],
        FizzBuzz::Buzz => seq!['B', 'u', 'z', 'z'],
        FizzBuzz::FizzBuzz => seq!['F', 'i', 'z', 'z', 'B', 'u', 'z', 'z'],
        FizzBuzz::Number(n) => decimal_digits(n as nat),
    }
}

/// Whether `n` is divisible by `by_n`, with the edge case that zero is
/// divisible by nothing.
pub fn is_divisible_by(n: u32, by_n: u32) -> (divisible: bool)
    requires
        by_n != 0,
    ensures
        divisible == spec_divisible(n, by_n),
{
    if n == 0 {
        return false;
    }
    n % by_n == 0
}

/// The shout for the count `n`.
pub fn fizzbuzz(n: u32) -> (word: FizzBuzz)
    ensures
        word == fizzbuzz_word(n),
{
    let by_three = is_divisible_by(n, 3);
    let by_five = is_divisible_by(n, 5);
    if by_three && by_five {
        FizzBuzz::FizzBuzz
    } else if by_three {
        FizzBuzz::Fizz
    } else if by_five {
        FizzBuzz::Buzz
    } else {
        FizzBuzz::Number(n)
    }
}

/// The shouts for the counts `1` through `n`, in order.
pub fn fizzbuzz_to(n: u32) -> (words: Vec<FizzBuzz>)
    ensures
        words@.len() == n,
        forall|i: int| 0 <= i < n ==> #[trigger] words@[i] == fizzbuzz_word((i + 1) as u32),
{
    let mut words: Vec<FizzBuzz> = Vec::new();
    let mut i: u32 = 0;
    while i < n
        invariant
            i <= n,
            words@.len() == i,
            forall|j: int| 0 <= j < i ==> #[trigger] words@[j] == fizzbuzz_word((j + 1) as u32),
        decreases n - i,
    {
        i = i + 1;
        words.push(fizzbuzz(i));
    }
    words
}

impl FizzBuzz {
    /// The shout as text.
    pub fn text(&self) -> (s: String)
        ensures
            s@ == word_text(*self),
    {
        match self {
            FizzBuzz::Fizz => {
                let s = "Fizz".to_owned();
                proof {
                    reveal_strlit("Fizz");
                    assert(s@ =~= word_text(*self));
                }
                s
            },
            FizzBuzz::Buzz => {
                let s = "Buzz".to_owned();
                proof {
                    reveal_strlit("Buzz");
                    assert(s@ =~= word_text(*self));
                }
                s
            },
            FizzBuzz::FizzBuzz => {
                let s = "FizzBuzz".to_owned();
                proof {
                    reveal_strlit("FizzBuzz");
                    assert(s@ =~= word_text(*self));
                }
                s
            },
            FizzBuzz::Number(n) => decimal_string(*n),
        }
    }
}

} // verus!
