use rand::rngs::StdRng;
use rand::SeedableRng;
use round_games::rps::{RockPaperScissorsGame, RoundState, ShapesInput};
use ShapesInput::{Paper, Rock, Scissors};

#[test]
fn new_session_holds_a_playable_shape() {
    for seed in 0..100u64 {
        let mut rng = StdRng::seed_from_u64(seed);
        let game = RockPaperScissorsGame::new(&mut rng);
        assert_ne!(game.computer_shape(), ShapesInput::Unrecognized);
    }
}

#[test]
fn input_is_parsed_case_insensitively() {
    let mut game = RockPaperScissorsGame::with_shape(ShapesInput::Paper);
    assert_eq!(game.evaluate_user_input("rock"), ShapesInput::Rock);
    assert_eq!(game.evaluate_user_input("ROCK"), ShapesInput::Rock);
    assert_eq!(game.evaluate_user_input("Paper"), ShapesInput::Paper);
    assert_eq!(game.evaluate_user_input("sciSSors"), ShapesInput::Scissors);
    assert_eq!(game.evaluate_user_input("banana"), ShapesInput::Unrecognized);
    assert_eq!(game.evaluate_user_input(""), ShapesInput::Unrecognized);
    assert_eq!(game.evaluate_user_input("rock "), ShapesInput::Unrecognized);
    // U+212A, the Kelvin sign, lower-cases to 'k'.
    assert_eq!(game.evaluate_user_input("roc\u{212a}"), ShapesInput::Rock);
}

#[test]
fn shapes_map_to_their_cyclic_indices() {
    let mut game = RockPaperScissorsGame::with_shape(ShapesInput::Rock);
    assert_eq!(game.transform_shape_to_int(ShapesInput::Rock), Some(0));
    assert_eq!(game.transform_shape_to_int(ShapesInput::Paper), Some(1));
    assert_eq!(game.transform_shape_to_int(ShapesInput::Scissors), Some(2));
    assert_eq!(game.transform_shape_to_int(ShapesInput::Unrecognized), None);
}

#[test]
fn verdicts_follow_cyclic_dominance() {
    let mut game = RockPaperScissorsGame::with_shape(ShapesInput::Rock);
    assert_eq!(game.evaluate_game_as_left(Rock, Scissors), RoundState::Win);
    assert_eq!(game.evaluate_game_as_left(Scissors, Paper), RoundState::Win);
    assert_eq!(game.evaluate_game_as_left(Paper, Rock), RoundState::Win);
    assert_eq!(game.evaluate_game_as_left(Scissors, Rock), RoundState::Lose);
    assert_eq!(game.evaluate_game_as_left(Paper, Scissors), RoundState::Lose);
    assert_eq!(game.evaluate_game_as_left(Rock, Paper), RoundState::Lose);
    assert_eq!(game.evaluate_game_as_left(Rock, Rock), RoundState::Draw);
    assert_eq!(game.evaluate_game_as_left(Paper, Paper), RoundState::Draw);
    assert_eq!(game.evaluate_game_as_left(Scissors, Scissors), RoundState::Draw);
}

#[test]
fn rotating_both_shapes_preserves_the_verdict() {
    let rotate = |s: ShapesInput| match s {
        Rock => Paper,
        Paper => Scissors,
        Scissors => Rock,
        other => other,
    };
    let mut game = RockPaperScissorsGame::with_shape(Rock);
    for player in [Rock, Paper, Scissors] {
        for computer in [Rock, Paper, Scissors] {
            let plain = game.evaluate_game_as_left(player, computer);
            let turned = game.evaluate_game_as_left(rotate(player), rotate(computer));
            assert_eq!(plain, turned);
        }
    }
}

#[test]
fn scenario_against_fixed_paper() {
    let mut game = RockPaperScissorsGame::with_shape(ShapesInput::Paper);
    let greeting = game.start();
    assert_eq!(greeting, "Hello dear friend. Rock/paper/scissors?");

    let (again, msg) = game.play_round("rock");
    assert!(!again);
    assert_eq!(
        msg,
        "You played Rock, the computer played Paper. The round was lost."
    );

    let mut game = RockPaperScissorsGame::with_shape(ShapesInput::Paper);
    let (again, msg) = game.play_round("scissors");
    assert!(!again);
    assert_eq!(
        msg,
        "You played Scissors, the computer played Paper. The round was won."
    );

    let mut game = RockPaperScissorsGame::with_shape(ShapesInput::Paper);
    let (again, msg) = game.play_round("paper");
    assert!(!again);
    assert_eq!(
        msg,
        "You played Paper, the computer played Paper. The round was a draw."
    );
}

#[test]
fn scenario_unrecognized_input_keeps_the_session_active() {
    let mut game = RockPaperScissorsGame::with_shape(ShapesInput::Paper);
    let (again, msg) = game.play_round("banana");
    assert!(again);
    assert_eq!(
        msg,
        "Input cannot be parsed as a rock / paper / scissors, try again!"
    );
    // A later valid input still plays a normal round.
    let (again, msg) = game.play_round("rock");
    assert!(!again);
    assert!(msg.contains("The round was lost."));
}

#[test]
fn verdict_message_names_both_shapes() {
    let mut game = RockPaperScissorsGame::with_shape(ShapesInput::Scissors);
    let (_, msg) = game.play_round("ROCK");
    assert_eq!(
        msg,
        "You played Rock, the computer played Scissors. The round was won."
    );
}
