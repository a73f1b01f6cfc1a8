//! FizzBuzz: each positive number is named by its divisibility by three and five.
use vstd::prelude::*;

verus! {

/// Whether `lhs` is a multiple of `rhs`; nothing is a multiple of zero here.
pub open spec fn divides(lhs: int, rhs: int) -> bool {
    rhs != 0 && lhs % rhs == 0
}

/// What FizzBuzz says for one number.
#[derive(Debug, Clone, Copy, PartialEq, Eq, Structural)]
pub enum Word {
    /// A multiple of fifteen.
    FizzBuzz,
    /// A multiple of three but not of five.
    Fizz,
    /// A multiple of five but not of three.
    Buzz,
    /// Neither: the number itself.
    Number(u32),
}

/// The word for `n`.
pub open spec fn word_of(n: u32) -> Word {
    if divides(n as int, 15) {
        Word::FizzBuzz
    } else if divides(n as int, 3) {
        Word::Fizz
    } else if divides(n as int, 5) {
        Word::Buzz
    } else {
        Word::Number(n)
    }
}

/// The words for `1, 2, ..., n`, in that order.
pub open spec fn words_to(n: u32) -> Seq<Word> {
    Seq::new(n as nat, |i: int| word_of((i + 1) as u32))
}

/// Whether `lhs` is a multiple of `rhs`; `false` whenever `rhs` is zero.
pub fn is_divisible_by(lhs: u32, rhs: u32) -> (r: bool)
    ensures
        r == divides(lhs as int, rhs as int),
{
    if rhs == 0 {
        return false;
    }
    lhs % rhs == 0
}

/// The word for `n`: `FizzBuzz` for multiples of fifteen, else `Fizz` for
/// multiples of three, else `Buzz` for multiples of five, else `n` itself.
pub fn fizzbuzz(n: u32) -> (r: Word)
    ensures
        r == word_of(n),
{
    if is_divisible_by(n, 15) {
        Word::FizzBuzz
    } else if is_divisible_by(n, 3) {
        Word::Fizz
    } else if is_divisible_by(n, 5) {
        Word::Buzz
    } else {
        Word::Number(n)
    }
}

/// The words for every number from one up to `n`, both included.
pub fn fizzbuzz_to(n: u32) -> (r: Vec<Word>)
    ensures
        r@ == words_to(n),
{
    let mut out: Vec<Word> = Vec::new();
    let mut k: u32 = 0;
    while k < n
        invariant
            k <= n,
            out@ == words_to(k),
        decreases n - k,
    {
        k = k + 1;
        out.push(fizzbuzz(k));
        assert(out@ =~= words_to(k));
    }
    out
}

} // verus!
