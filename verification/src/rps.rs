//! The rock-paper-scissors game: shape parsing, the cyclic-dominance verdict
//! and the single-round session state machine.

use vstd::prelude::*;
use vstd::string::StringExecFns;
use rand::rngs::StdRng;
use crate::random::draw_number;
use crate::text::matches_ci;
use crate::text::text_matches_ci;

verus! {

/// A player or computer shape, or an input that named none of the three.
#[derive(Copy, Clone, Debug, PartialEq, Eq, Structural)]
pub enum ShapesInput {
    Rock,
    Paper,
    Scissors,
    Unrecognized,
}

/// The verdict of one round, seen from the player's side.
#[derive(Copy, Clone, Debug, PartialEq, Eq, Structural)]
pub enum RoundState {
    Draw,
    Win,
    Lose,
}

/// Whether a shape is one of the three playable shapes.
pub open spec fn shape_recognized(s: ShapesInput) -> bool {
    !(s is Unrecognized)
}

/// The cyclic index of a shape: rock 0, paper 1, scissors 2.
pub open spec fn shape_index(s: ShapesInput) -> int {
    match s {
        ShapesInput::Rock => 0,
        ShapesInput::Paper => 1,
        ShapesInput::Scissors => 2,
        ShapesInput::Unrecognized => 0,
    }
}

/// The cyclic index of a playable shape, `None` for an unrecognized input.
pub open spec fn spec_shape_to_int(s: ShapesInput) -> Option<i32> {
    match s {
        ShapesInput::Rock => Some(0),
        ShapesInput::Paper => Some(1),
        ShapesInput::Scissors => Some(2),
        ShapesInput::Unrecognized => None,
    }
}

/// The verdict by cyclic dominance: with `d` the distance
/// `(player - computer) mod 3` of the shape indices, `d == 0` is a draw,
/// `d == 1` a win for the player, `d == 2` a loss.
pub open spec fn spec_verdict(player: ShapesInput, computer: ShapesInput) -> RoundState {
    let d = (shape_index(player) - shape_index(computer)) % 3;
    if d == 0 {
        RoundState::Draw
    } else if d == 1 {
        RoundState::Win
    } else {
        RoundState::Lose
    }
}

/// The shape an input line names once lower-cased; anything that is not
/// `rock`, `paper` or `scissors` is unrecognized.
pub open spec fn spec_parse_shape(s: Seq<char>) -> ShapesInput {
    if text_matches_ci(s, "rock"@) {
        ShapesInput::Rock
    } else if text_matches_ci(s, "paper"@) {
        ShapesInput::Paper
    } else if text_matches_ci(s, "scissors"@) {
        ShapesInput::Scissors
    } else {
        ShapesInput::Unrecognized
    }
}

/// The displayed name of a shape.
pub open spec fn spec_shape_name(s: ShapesInput) -> Seq<char> {
    match s {
        ShapesInput::Rock => "Rock"@,
        ShapesInput::Paper => "Paper"@,
        ShapesInput::Scissors => "Scissors"@,
        ShapesInput::Unrecognized => "Unrecognized"@,
    }
}

/// The word used for a verdict in the round message.
pub open spec fn spec_round_word(v: RoundState) -> Seq<char> {
    match v {
        RoundState::Lose => "lost"@,
        RoundState::Draw => "a draw"@,
        RoundState::Win => "won"@,
    }
}

/// The feedback sentence for a verdict.
pub open spec fn spec_round_state_message(v: RoundState) -> Seq<char> {
    "The round was "@ + spec_round_word(v) + "."@
}

/// The retry message for an unrecognized input.
pub open spec fn spec_unrecognized_message() -> Seq<char> {
    "Input cannot be parsed as a rock / paper / scissors, try again!"@
}

/// The feedback line for a completed round.
pub open spec fn spec_round_message(player: ShapesInput, computer: ShapesInput) -> Seq<char> {
    "You played "@ + spec_shape_name(player) + ", the computer played "@ + spec_shape_name(
        computer,
    ) + ". "@ + spec_round_state_message(spec_verdict(player, computer))
}

/// The greeting written when a session starts.
pub open spec fn spec_rps_greeting() -> Seq<char> {
    "Hello dear friend. Rock/paper/scissors?"@
}

/// Rotating both shapes of a round by the same amount (rock to paper, paper
/// to scissors, scissors to rock) leaves the verdict unchanged.
pub proof fn lemma_verdict_rotation(player: ShapesInput, computer: ShapesInput)
    requires
        shape_recognized(player),
        shape_recognized(computer),
    ensures
        spec_verdict(rotate_shape(player), rotate_shape(computer)) == spec_verdict(
            player,
            computer,
        ),
{
}

/// A round of two equal shapes is a draw.
pub proof fn lemma_verdict_self_draw(s: ShapesInput)
    requires
        shape_recognized(s),
    ensures
        spec_verdict(s, s) == RoundState::Draw,
{
}

/// The next shape in the cyclic order rock, paper, scissors.
pub open spec fn rotate_shape(s: ShapesInput) -> ShapesInput {
    match s {
        ShapesInput::Rock => ShapesInput::Paper,
        ShapesInput::Paper => ShapesInput::Scissors,
        ShapesInput::Scissors => ShapesInput::Rock,
        ShapesInput::Unrecognized => ShapesInput::Unrecognized,
    }
}

impl ShapesInput {
    /// The displayed name of the shape.
    pub fn name(&self) -> (r: &'static str)
        ensures
            r@ == spec_shape_name(*self),
    {
        match self {
            ShapesInput::Rock => "Rock",
            ShapesInput::Paper => "Paper",
            ShapesInput::Scissors => "Scissors",
            ShapesInput::Unrecognized => "Unrecognized",
        }
    }
}

impl RoundState {
    /// The feedback sentence for this verdict.
    pub fn message(&self) -> (r: String)
        ensures
            r@ == spec_round_state_message(*self),
    {
        let word: &'static str = match self {
            RoundState::Lose => "lost",
            RoundState::Draw => "a draw",
            RoundState::Win => "won",
        };
        String::from_str("The round was ").concat(word).concat(".")
    }
}

/// Draws one of the three shapes at random.
pub fn draw_shape(rng: &mut StdRng) -> (s: ShapesInput)
    ensures
        shape_recognized(s),
{
    let idx = draw_number(rng, 0, 2);
    if idx == 0 {
        ShapesInput::Rock
    } else if idx == 1 {
        ShapesInput::Paper
    } else {
        ShapesInput::Scissors
    }
}

/// One rock-paper-scissors session: the computer's shape is drawn once at
/// construction, and a single recognized input ends the session.
pub struct RockPaperScissorsGame {
    computer_shape: ShapesInput,
}

impl RockPaperScissorsGame {
    /// The shape the computer committed to at construction.
    pub closed spec fn computer(self) -> ShapesInput {
        self.computer_shape
    }

    /// A session is well formed when the computer holds a playable shape.
    pub open spec fn wf(self) -> bool {
        shape_recognized(self.computer())
    }

    /// Starts a session with a randomly drawn computer shape.
    pub fn new(rng: &mut StdRng) -> (g: Self)
        ensures
            g.wf(),
    {
        RockPaperScissorsGame { computer_shape: draw_shape(rng) }
    }

    /// Starts a session with the given computer shape, so that a test or a
    /// caller can substitute a deterministic source.
    pub fn with_shape(shape: ShapesInput) -> (g: Self)
        requires
            shape_recognized(shape),
        ensures
            g.wf(),
            g.computer() == shape,
    {
        RockPaperScissorsGame { computer_shape: shape }
    }

    /// The computer's shape.
    pub fn computer_shape(&self) -> (s: ShapesInput)
        ensures
            s == self.computer(),
    {
        self.computer_shape
    }

    /// Classifies one line of player input as a shape.
    pub fn evaluate_user_input(&mut self, input: &str) -> (r: ShapesInput)
        ensures
            r == spec_parse_shape(input@),
            *final(self) == *old(self),
    {
        if matches_ci(input, "rock") {
            ShapesInput::Rock
        } else if matches_ci(input, "paper") {
            ShapesInput::Paper
        } else if matches_ci(input, "scissors") {
            ShapesInput::Scissors
        } else {
            ShapesInput::Unrecognized
        }
    }

    /// The cyclic index of a shape, `None` for an unrecognized input.
    pub fn transform_shape_to_int(&mut self, shape: ShapesInput) -> (r: Option<i32>)
        ensures
            r == spec_shape_to_int(shape),
            *final(self) == *old(self),
    {
        match shape {
            ShapesInput::Rock => Some(0),
            ShapesInput::Paper => Some(1),
            ShapesInput::Scissors => Some(2),
            _ => None,
        }
    }

    /// The verdict of `left` played against `right`, seen from `left`.
    pub fn evaluate_game_as_left(&mut self, left: ShapesInput, right: ShapesInput) -> (r:
        RoundState)
        requires
            shape_recognized(left),
            shape_recognized(right),
        ensures
            r == spec_verdict(left, right),
            *final(self) == *old(self),
    {
        let left_int = self.transform_shape_to_int(left).unwrap();
        let right_int = self.transform_shape_to_int(right).unwrap();
        if left_int == right_int {
            RoundState::Draw
        } else {
            let d = (left_int + 3 - right_int) % 3;
            if d == 1 {
                RoundState::Win
            } else {
                RoundState::Lose
            }
        }
    }

    /// Plays one round on an input line. An unrecognized input keeps the
    /// session active and asks for a retry; a recognized shape ends the
    /// session with the round's feedback line.
    pub fn play_round(&mut self, input: &str) -> (r: (bool, String))
        requires
            old(self).wf(),
        ensures
            *final(self) == *old(self),
            spec_parse_shape(input@) is Unrecognized ==> r.0 && r.1@
                == spec_unrecognized_message(),
            shape_recognized(spec_parse_shape(input@)) ==> !r.0 && r.1@ == spec_round_message(
                spec_parse_shape(input@),
                old(self).computer(),
            ),
    {
        let input_shape = self.evaluate_user_input(input);
        match input_shape {
            ShapesInput::Unrecognized => (
                true,
                String::from_str("Input cannot be parsed as a rock / paper / scissors, try again!"),
            ),
            shape_played => {
                let computer_shape = self.computer_shape;
                let result = self.evaluate_game_as_left(shape_played, computer_shape);
                let msg = String::from_str("You played ").concat(shape_played.name()).concat(
                    ", the computer played ",
                ).concat(computer_shape.name()).concat(". ").concat(result.message().as_str());
                (false, msg)
            },
        }
    }

    /// Begins the session, producing the greeting line.
    pub fn start(&mut self) -> (r: String)
        ensures
            *final(self) == *old(self),
            r@ == spec_rps_greeting(),
    {
        String::from_str("Hello dear friend. Rock/paper/scissors?")
    }
}

} // verus!
