//! Decisions of a number-guessing game: drawing the secret and judging a
//! guess against it.
use vstd::prelude::*;

verus! {

/// The smallest number the game draws.
pub const LOWEST: i64 = 1;

/// The largest number the game draws.
pub const HIGHEST: i64 = 100;

/// What a guess tells the player.
#[derive(Debug, Clone, Copy, PartialEq, Eq, Structural)]
pub enum Verdict {
    /// The guess lies outside the range the secret is drawn from.
    OutOfRange,
    /// The guess is above the secret.
    GuessLower,
    /// The guess is below the secret.
    GuessHigher,
    /// The guess is the secret.
    Correct,
}

/// Relies on `rand::random_range`: a value drawn from the thread-local
/// generator, at least `low` and below `high`; it panics on an empty range.
#[verifier::external_body]
fn random_in(low: i64, high: i64) -> (r: i64)
    requires
        low < high,
    ensures
        low <= r < high,
{
    rand::random_range(low..high)
}

/// Draws the secret, a number from 1 to 100.
pub fn generate_number() -> (r: i64)
    ensures
        LOWEST <= r <= HIGHEST,
{
    random_in(LOWEST, HIGHEST + 1)
}

/// Judges `guess` against `secret_num`: out of range first, then too high,
/// too low or right.
pub fn judge_guess(secret_num: i64, guess: i64) -> (r: Verdict)
    ensures
        (guess < LOWEST || guess > HIGHEST) ==> r == Verdict::OutOfRange,
        LOWEST <= guess <= HIGHEST && guess > secret_num ==> r == Verdict::GuessLower,
        LOWEST <= guess <= HIGHEST && guess < secret_num ==> r == Verdict::GuessHigher,
        LOWEST <= guess <= HIGHEST && guess == secret_num ==> r == Verdict::Correct,
{
    if guess < LOWEST || guess > HIGHEST {
        Verdict::OutOfRange
    } else if guess > secret_num {
        Verdict::GuessLower
    } else if guess < secret_num {
        Verdict::GuessHigher
    } else {
        Verdict::Correct
    }
}

} // verus!
