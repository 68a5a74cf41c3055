//! The guessing game's rules: a secret number from 1 to 100 and the verdict
//! on a guess. Reading guesses and printing verdicts is the caller's job.

use rand::Rng;
use vstd::prelude::*;

verus! {

/// The verdict on one guess.
#[derive(Clone, Copy, Debug, PartialEq, Eq)]
pub enum GuessOutcome {
    TooSmall,
    TooBig,
    Correct,
}

/// Relies on `rand::thread_rng` and `rand::Rng::gen_range`: a sample from
/// `low..high` lies in that half-open range; the call panics only when the
/// range is empty.
#[verifier::external_body]
fn sample_in_range(low: u32, high: u32) -> (r: u32)
    requires
        low < high,
    ensures
        low <= r < high,
{
    rand::thread_rng().gen_range(low..high)
}

/// Draws the secret number for a round: some value from 1 to 100.
pub fn new_secret() -> (s: u32)
    ensures
        1 <= s <= 100,
{
    sample_in_range(1, 101)
}

/// Compares a guess with the secret number.
pub fn guess_outcome(guess: u32, secret: u32) -> (o: GuessOutcome)
    ensures
        o == GuessOutcome::TooSmall <==> guess < secret,
        o == GuessOutcome::TooBig <==> guess > secret,
        o == GuessOutcome::Correct <==> guess == secret,
{
    if guess < secret {
        GuessOutcome::TooSmall
    } else if guess > secret {
        GuessOutcome::TooBig
    } else {
        GuessOutcome::Correct
    }
}

} // verus!
