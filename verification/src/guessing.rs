//! The number-guessing game: input parsing, guess classification and the
//! multi-round session with its guess counter.

use vstd::prelude::*;
use vstd::string::StringExecFns;
use rand::rngs::StdRng;
use crate::random::draw_number;
use crate::text::dec_string;
use crate::text::parse_u32;
use crate::text::spec_dec;
use crate::text::spec_parse_u32;

verus! {

/// The classified outcome of one round of input.
#[derive(Copy, Clone, Debug, PartialEq, Eq, Structural)]
pub enum GuessResult {
    ParseError,
    Less(u32),
    Greater(u32),
    Equal(u32),
}

/// The number of successfully parsed rounds so far.
#[derive(Copy, Clone, Debug, PartialEq, Eq, Structural)]
pub struct Guesses(pub usize);

/// The classification of a guess against the target: equal, or else greater
/// or less, echoing the guessed value.
pub open spec fn spec_classify(guess: u32, target: u32) -> GuessResult {
    if guess == target {
        GuessResult::Equal(guess)
    } else if guess > target {
        GuessResult::Greater(guess)
    } else {
        GuessResult::Less(guess)
    }
}

/// A guess is classified as exactly one of equal, greater or less, each if
/// and only if the numeric comparison says so, and never as a parse error.
pub proof fn lemma_classify_consistent(guess: u32, target: u32)
    ensures
        spec_classify(guess, target) == GuessResult::Equal(guess) <==> guess == target,
        spec_classify(guess, target) == GuessResult::Greater(guess) <==> guess > target,
        spec_classify(guess, target) == GuessResult::Less(guess) <==> guess < target,
        !(spec_classify(guess, target) is ParseError),
{
}

/// Classification is idempotent: evaluating the same guess against the same
/// target any number of times gives the same outcome.
pub proof fn lemma_classify_deterministic(g1: u32, t1: u32, g2: u32, t2: u32)
    requires
        g1 == g2,
        t1 == t2,
    ensures
        spec_classify(g1, t1) == spec_classify(g2, t2),
{
}

/// The count with its singular or plural noun: "1 guess", "3 guesses".
pub open spec fn spec_guesses_text(n: nat) -> Seq<char> {
    spec_dec(n) + (if n == 1 {
        " guess"@
    } else {
        " guesses"@
    })
}

impl Guesses {
    /// The count with its singular or plural noun.
    pub fn message(&self) -> (r: String)
        ensures
            r@ == spec_guesses_text(self.0 as nat),
    {
        let word: &'static str = if self.0 == 1 {
            " guess"
        } else {
            " guesses"
        };
        dec_string(self.0 as u64).concat(word)
    }
}

/// The greeting written when a session starts.
pub open spec fn spec_guessing_greeting() -> Seq<char> {
    "Hello dear friend. Guess my secret number!"@
}

/// The retry message for an input that is no non-negative integer.
pub open spec fn spec_parse_error_message() -> Seq<char> {
    "Input cannot be parsed as a positive integer, try again!"@
}

/// The feedback line for a guess above the target.
pub open spec fn spec_too_big_message(g: u32) -> Seq<char> {
    "The number "@ + spec_dec(g as nat) + " is too big, try again!"@
}

/// The feedback line for a guess below the target.
pub open spec fn spec_too_small_message(g: u32) -> Seq<char> {
    "The number "@ + spec_dec(g as nat) + " is too small, try again!"@
}

/// The terminal feedback line for the correct guess, reporting the total
/// round count.
pub open spec fn spec_success_message(g: u32, rounds: nat) -> Seq<char> {
    "You guessed correctly, the number is "@ + spec_dec(g as nat) + "! It took you "@
        + spec_guesses_text(rounds) + "."@
}

/// One guessing session: the target is drawn once at construction and never
/// changes; the counter grows by one per successfully parsed round.
pub struct GuessingGame {
    number_of_guesses: Guesses,
    number_to_guess: u32,
}

impl GuessingGame {
    /// The hidden number the player is guessing.
    pub closed spec fn target(self) -> u32 {
        self.number_to_guess
    }

    /// How many rounds have been counted.
    pub closed spec fn rounds(self) -> nat {
        self.number_of_guesses.0 as nat
    }

    /// Starts a session with a target drawn from `[0, max]`.
    pub fn new(max: u32, rng: &mut StdRng) -> (g: Self)
        ensures
            g.rounds() == 0,
            g.target() <= max,
    {
        GuessingGame { number_of_guesses: Guesses(0), number_to_guess: draw_number(rng, 0, max) }
    }

    /// Starts a session with the given target, so that a test or a caller
    /// can substitute a deterministic source.
    pub fn with_target(target: u32) -> (g: Self)
        ensures
            g.rounds() == 0,
            g.target() == target,
    {
        GuessingGame { number_of_guesses: Guesses(0), number_to_guess: target }
    }

    /// How many rounds have been counted.
    pub fn number_of_guesses(&self) -> (n: usize)
        ensures
            n == self.rounds(),
    {
        self.number_of_guesses.0
    }

    /// Counts and classifies one parsed guess.
    pub fn make_guess(&mut self, guess: u32) -> (r: GuessResult)
        requires
            old(self).rounds() < usize::MAX,
        ensures
            final(self).target() == old(self).target(),
            final(self).rounds() == old(self).rounds() + 1,
            r == spec_classify(guess, old(self).target()),
    {
        self.number_of_guesses = Guesses(self.number_of_guesses.0 + 1);
        if guess == self.number_to_guess {
            GuessResult::Equal(guess)
        } else if guess > self.number_to_guess {
            GuessResult::Greater(guess)
        } else {
            GuessResult::Less(guess)
        }
    }

    /// Evaluates one line of input: a parse failure is a normal outcome that
    /// leaves the counter untouched, a parsed guess is counted and
    /// classified.
    pub fn evaluate_user_input(&mut self, input: &str) -> (r: GuessResult)
        requires
            old(self).rounds() < usize::MAX,
        ensures
            final(self).target() == old(self).target(),
            spec_parse_u32(input@) is None ==> r is ParseError && final(self).rounds() == old(
                self,
            ).rounds(),
            spec_parse_u32(input@) matches Some(g) ==> r == spec_classify(
                g,
                old(self).target(),
            ) && final(self).rounds() == old(self).rounds() + 1,
    {
        match parse_u32(input) {
            Some(num) => self.make_guess(num),
            None => GuessResult::ParseError,
        }
    }

    /// Plays one round on an input line, returning whether the session is
    /// still active and the feedback line. An unparseable input keeps the
    /// counter and the session; only the correct guess ends the session.
    pub fn user_round(&mut self, input: &str) -> (r: (bool, String))
        requires
            old(self).rounds() < usize::MAX,
        ensures
            final(self).target() == old(self).target(),
            spec_parse_u32(input@) is None ==> final(self).rounds() == old(self).rounds() && r.0
                && r.1@ == spec_parse_error_message(),
            spec_parse_u32(input@) matches Some(g) ==> final(self).rounds() == old(self).rounds()
                + 1,
            spec_parse_u32(input@) matches Some(g) ==> (g == old(self).target() ==> !r.0 && r.1@
                == spec_success_message(g, old(self).rounds() + 1)),
            spec_parse_u32(input@) matches Some(g) ==> (g > old(self).target() ==> r.0 && r.1@
                == spec_too_big_message(g)),
            spec_parse_u32(input@) matches Some(g) ==> (g < old(self).target() ==> r.0 && r.1@
                == spec_too_small_message(g)),
    {
        match self.evaluate_user_input(input) {
            GuessResult::ParseError => (
                true,
                String::from_str("Input cannot be parsed as a positive integer, try again!"),
            ),
            GuessResult::Equal(guess) => {
                let msg = String::from_str("You guessed correctly, the number is ").concat(
                    dec_string(guess as u64).as_str(),
                ).concat("! It took you ").concat(self.number_of_guesses.message().as_str()).concat(
                    ".",
                );
                (false, msg)
            },
            GuessResult::Greater(guess) => {
                let msg = String::from_str("The number ").concat(
                    dec_string(guess as u64).as_str(),
                ).concat(" is too big, try again!");
                (true, msg)
            },
            GuessResult::Less(guess) => {
                let msg = String::from_str("The number ").concat(
                    dec_string(guess as u64).as_str(),
                ).concat(" is too small, try again!");
                (true, msg)
            },
        }
    }

    /// Begins the session: the counter starts at zero and the greeting line
    /// is produced.
    pub fn start(&mut self) -> (r: String)
        ensures
            final(self).target() == old(self).target(),
            final(self).rounds() == 0,
            r@ == spec_guessing_greeting(),
    {
        self.number_of_guesses = Guesses(0);
        String::from_str("Hello dear friend. Guess my secret number!")
    }
}

} // verus!
