use rand::rngs::StdRng;
use rand::SeedableRng;
use round_games::guessing::{Guesses, GuessingGame, GuessResult};

#[test]
fn new_session_draws_target_within_bounds() {
    for seed in 0..100u64 {
        let mut rng = StdRng::seed_from_u64(seed);
        let mut game = GuessingGame::new(100, &mut rng);
        assert_eq!(game.number_of_guesses(), 0);
        // The target is hidden; guessing every bound pins it inside [0, 100].
        let mut found = false;
        for guess in 0..=100u32 {
            if matches!(game.make_guess(guess), GuessResult::Equal(_)) {
                found = true;
                break;
            }
        }
        assert!(found);
    }
}

#[test]
fn guesses_are_classified_by_numeric_comparison() {
    let mut game = GuessingGame::with_target(42);
    assert_eq!(game.make_guess(50), GuessResult::Greater(50));
    assert_eq!(game.make_guess(41), GuessResult::Less(41));
    assert_eq!(game.make_guess(42), GuessResult::Equal(42));
    assert_eq!(game.number_of_guesses(), 3);
}

#[test]
fn evaluation_is_idempotent_on_equal_inputs() {
    let mut first = GuessingGame::with_target(42);
    let mut second = GuessingGame::with_target(42);
    assert_eq!(first.make_guess(50), second.make_guess(50));
    // Repeating the same guess on the same target gives the same outcome.
    assert_eq!(first.make_guess(50), GuessResult::Greater(50));
}

#[test]
fn scenario_too_big_then_correct() {
    let mut game = GuessingGame::with_target(42);
    let greeting = game.start();
    assert_eq!(greeting, "Hello dear friend. Guess my secret number!");
    let (again, msg) = game.user_round("50");
    assert!(again);
    assert!(msg.contains("too big"));
    assert_eq!(msg, "The number 50 is too big, try again!");
    let (again, msg) = game.user_round("42");
    assert!(!again);
    assert!(msg.contains("2 guesses"));
    assert_eq!(
        msg,
        "You guessed correctly, the number is 42! It took you 2 guesses."
    );
}

#[test]
fn scenario_too_small() {
    let mut game = GuessingGame::with_target(42);
    let (again, msg) = game.user_round("7");
    assert!(again);
    assert_eq!(msg, "The number 7 is too small, try again!");
}

#[test]
fn single_round_win_reports_one_guess() {
    let mut game = GuessingGame::with_target(13);
    let (again, msg) = game.user_round("13");
    assert!(!again);
    assert_eq!(
        msg,
        "You guessed correctly, the number is 13! It took you 1 guess."
    );
}

#[test]
fn scenario_unparseable_input_keeps_session_and_count() {
    let mut game = GuessingGame::with_target(42);
    game.start();
    let (again, msg) = game.user_round("abc");
    assert!(again);
    assert!(msg.contains("cannot be parsed"));
    assert_eq!(msg, "Input cannot be parsed as a positive integer, try again!");
    assert_eq!(game.number_of_guesses(), 0);
    // The session is still active: a valid input is processed normally.
    let (again, msg) = game.user_round("42");
    assert!(!again);
    assert_eq!(
        msg,
        "You guessed correctly, the number is 42! It took you 1 guess."
    );
}

#[test]
fn parse_error_does_not_increment_count() {
    let mut game = GuessingGame::with_target(5);
    assert_eq!(game.evaluate_user_input("not a number"), GuessResult::ParseError);
    assert_eq!(game.evaluate_user_input(""), GuessResult::ParseError);
    assert_eq!(game.number_of_guesses(), 0);
    assert_eq!(game.evaluate_user_input(" 5 "), GuessResult::Equal(5));
    assert_eq!(game.number_of_guesses(), 1);
}

#[test]
fn guess_count_message_uses_singular_and_plural() {
    assert_eq!(Guesses(1).message(), "1 guess");
    assert_eq!(Guesses(0).message(), "0 guesses");
    assert_eq!(Guesses(3).message(), "3 guesses");
}

#[test]
fn start_resets_the_counter() {
    let mut game = GuessingGame::with_target(9);
    game.user_round("4");
    assert_eq!(game.number_of_guesses(), 1);
    game.start();
    assert_eq!(game.number_of_guesses(), 0);
}

#[test]
fn boundary_targets_are_playable() {
    let mut game = GuessingGame::with_target(0);
    let (again, msg) = game.user_round("0");
    assert!(!again);
    assert!(msg.contains("the number is 0"));
    let mut game = GuessingGame::with_target(u32::MAX);
    let (again, msg) = game.user_round("4294967295");
    assert!(!again);
    assert!(msg.contains("4294967295"));
}
