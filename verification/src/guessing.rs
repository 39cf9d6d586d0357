//! A number-guessing game: a secret between 1 and 100, and the answer to
//! each line the player types.
use vstd::prelude::*;

verus! {

/// The smallest secret.
pub const SECRET_MIN: u32 = 1;

/// The largest secret.
pub const SECRET_MAX: u32 = 100;

/// Calls rand's `Rng::gen_range` on the thread-local generator with the
/// inclusive range from `low` to `high`. The contract claims only that the
/// number lies in the range, which the range must not be empty for; which
/// number comes is left to chance.
#[verifier::external_body]
fn random_in_range(low: u32, high: u32) -> (number: u32)
    requires
        low <= high,
    ensures
        low <= number <= high,
{
    rand::Rng::gen_range(&mut rand::thread_rng(), low..=high)
}

/// A secret number, drawn at random, from 1 to 100.
pub fn secret_number() -> (secret: u32)
    ensures
        SECRET_MIN <= secret <= SECRET_MAX,
{
    random_in_range(SECRET_MIN, SECRET_MAX)
}

/// Whether `c` has the Unicode property White_Space, which is what
/// `char::is_whitespace` tests.
pub open spec fn is_white_space(c: char) -> bool {
    let n = c as u32;
    ||| 0x09 <= n <= 0x0d
    ||| n == 0x20
    ||| n == 0x85
    ||| n == 0xa0
    ||| n == 0x1680
    ||| 0x2000 <= n <= 0x200a
    ||| n == 0x2028
    ||| n == 0x2029
    ||| n == 0x202f
    ||| n == 0x205f
    ||| n == 0x3000
}

/// `s` without the white space at its start.
pub open spec fn trim_start(s: Seq<char>) -> Seq<char>
    decreases s.len(),
{
    if s.len() > 0 && is_white_space(s[0]) {
        trim_start(s.drop_first())
    } else {
        s
    }
}

/// `s` without the white space at its end.
pub open spec fn trim_end(s: Seq<char>) -> Seq<char>
    decreases s.len(),
{
    if s.len() > 0 && is_white_space(s.last()) {
        trim_end(s.drop_last())
    } else {
        s
    }
}

/// `s` without the white space at either end.
pub open spec fn trimmed(s: Seq<char>) -> Seq<char> {
    trim_end(trim_start(s))
}

/// Calls std's `str::trim`. The contract claims what its documentation
/// says: the result is the string without leading and trailing white space,
/// as `char::is_whitespace` defines it.
#[verifier::external_body]
fn trim_white_space(s: &str) -> (t: &str)
    ensures
        t@ == trimmed(s@),
{
    s.trim()
}

/// Whether `c` is one of the ASCII digits `0` to `9`.
pub open spec fn is_decimal_digit(c: char) -> bool {
    0x30 <= (c as u32) <= 0x39
}

/// The number that a string of decimal digits writes.
pub open spec fn decimal_value(digits: Seq<char>) -> int
    decreases digits.len(),
{
    if digits.len() == 0 {
        0
    } else {
        decimal_value(digits.drop_last()) * 10 + ((digits.last() as u32) - 0x30)
    }
}

/// What `u32::from_str` gives for `s`: the number written by an optional
/// `+` and one or more decimal digits, where it fits in a `u32`; otherwise
/// nothing.
pub open spec fn parsed_u32(s: Seq<char>) -> Option<u32> {
    let digits = if s.len() > 0 && s[0] == '+' {
        s.drop_first()
    } else {
        s
    };
    if digits.len() == 0 {
        None
    } else if exists|i: int| 0 <= i < digits.len() && !is_decimal_digit(#[trigger] digits[i]) {
        None
    } else if decimal_value(digits) > u32::MAX {
        None
    } else {
        Some(decimal_value(digits) as u32)
    }
}

/// Calls std's `str::parse::<u32>` (`u32::from_str`). The contract claims
/// what its documentation says: an optional `+` followed by decimal digits
/// is read as the number they write, unless it is too large; anything else,
/// the empty string and a lone sign included, is refused.
#[verifier::external_body]
fn parse_u32(s: &str) -> (n: Option<u32>)
    ensures
        n == parsed_u32(s@),
{
    s.parse::<u32>().ok()
}

/// The guess that a line of input holds: the number its text writes once
/// the white space around it is removed, or nothing where it writes none.
pub fn read_guess(line: &str) -> (guess: Option<u32>)
    ensures
        guess == parsed_u32(trimmed(line@)),
{
    parse_u32(trim_white_space(line))
}

/// How a guess compares with the secret.
#[derive(Clone, Copy, Debug, PartialEq, Eq, Structural)]
pub enum GuessOutcome {
    TooSmall,
    TooBig,
    Win,
}

/// The answer to `guess` when the secret is `secret`.
pub open spec fn guess_outcome(guess: u32, secret: u32) -> GuessOutcome {
    if guess < secret {
        GuessOutcome::TooSmall
    } else if guess > secret {
        GuessOutcome::TooBig
    } else {
        GuessOutcome::Win
    }
}

/// The answer to `guess` when the secret is `secret`.
pub fn compare_guess(guess: u32, secret: u32) -> (outcome: GuessOutcome)
    ensures
        outcome == guess_outcome(guess, secret),
{
    if guess < secret {
        GuessOutcome::TooSmall
    } else if guess > secret {
        GuessOutcome::TooBig
    } else {
        GuessOutcome::Win
    }
}

/// The text the game answers with.
pub open spec fn outcome_text(outcome: GuessOutcome) -> Seq<char> {
    match outcome {
        GuessOutcome::TooSmall => "Too small!"@,
        GuessOutcome::TooBig => "Too big!"@,
        GuessOutcome::Win => "You win!"@,
    }
}

impl GuessOutcome {
    /// The text the game answers with.
    pub fn message(&self) -> (text: &'static str)
        ensures
            text@ == outcome_text(*self),
    {
        match self {
            GuessOutcome::TooSmall => "Too small!",
            GuessOutcome::TooBig => "Too big!",
            GuessOutcome::Win => "You win!",
        }
    }

    /// Whether the game ends with this answer.
    pub fn ends_game(&self) -> (ends: bool)
        ensures
            ends == (*self == GuessOutcome::Win),
    {
        match self {
            GuessOutcome::Win => true,
            _ => false,
        }
    }
}

} // verus!
