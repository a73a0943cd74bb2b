use guessing_game::config::GameConfig;
use guessing_game::game::{Feedback, GameState, Outcome};
use guessing_game::input::InputError;
use guessing_game::session::play;

fn lines(xs: &[&str]) -> Vec<Vec<u8>> {
    xs.iter().map(|s| s.as_bytes().to_vec()).collect()
}

#[test]
fn scenario_defensive_secret_seven() {
    let config = GameConfig::defensive();
    let mut state = GameState::with_secret(config, 7);
    assert!(state.invariant_holds());

    assert_eq!(
        state.submit(Some(b"abc")),
        Feedback::Rejected(InputError::NonNumeric)
    );
    assert_eq!(state.attempts, 0);

    assert_eq!(
        state.submit(Some(b"15")),
        Feedback::Rejected(InputError::OutOfRange)
    );
    assert_eq!(state.attempts, 0);

    assert_eq!(state.submit(Some(b"   5  ")), Feedback::TooSmall);
    assert_eq!(state.attempts, 1);

    assert_eq!(state.submit(Some(b"9")), Feedback::TooBig);
    assert_eq!(state.attempts, 2);

    assert_eq!(state.submit(Some(b"7")), Feedback::Correct);
    assert_eq!(state.attempts, 3);
}

#[test]
fn scenario_defensive_secret_seven_whole_session() {
    let config = GameConfig::defensive();
    let inputs = lines(&["abc", "15", "   5  ", "9", "7"]);
    assert_eq!(play(config, 7, &inputs), Some(Outcome::Won(3)));
}

#[test]
fn overlong_line_rejected_before_parsing() {
    let config = GameConfig::defensive();
    let mut state = GameState::with_secret(config, 7);
    assert_eq!(
        state.submit(Some(b"12345678901")),
        Feedback::Rejected(InputError::TooLong)
    );
    assert_eq!(state.attempts, 0);
    // Eleven digits that would parse to an in-range number: the length cap
    // still turns the line away first.
    assert_eq!(
        state.submit(Some(b"00000000007")),
        Feedback::Rejected(InputError::TooLong)
    );
    assert_eq!(state.attempts, 0);
    // Surrounding whitespace does not count against the cap.
    assert_eq!(state.submit(Some(b"     000000007     ")), Feedback::Correct);
    assert_eq!(state.attempts, 1);
}

#[test]
fn boundary_guesses_are_accepted() {
    let config = GameConfig::defensive();
    let mut state = GameState::with_secret(config, 5);
    assert_eq!(state.submit(Some(b"1")), Feedback::TooSmall);
    assert_eq!(state.attempts, 1);
    assert_eq!(state.submit(Some(b"10")), Feedback::TooBig);
    assert_eq!(state.attempts, 2);
}

#[test]
fn rejected_lines_never_consume_attempts() {
    let config = GameConfig::defensive();
    // Nine valid wrong guesses, a burst of invalid lines, then the secret:
    // the win lands exactly on the tenth attempt.
    let inputs = lines(&[
        "1", "2", "3", "4", "5", "6", "8", "9", "10", // nine valid, all wrong
        "abc", "", "0", "11", "999999999999", "  -3 ", // all rejected
        "7",
    ]);
    assert_eq!(play(config, 7, &inputs), Some(Outcome::Won(10)));
}

#[test]
fn exhaustion_reveals_the_secret() {
    let config = GameConfig::defensive();
    let inputs = lines(&["1", "2", "3", "4", "5", "6", "8", "9", "10", "1"]);
    assert_eq!(play(config, 7, &inputs), Some(Outcome::Exhausted(7)));
    // The winning guess arrives one valid guess too late.
    let late = lines(&["1", "2", "3", "4", "5", "6", "8", "9", "10", "1", "7"]);
    assert_eq!(play(config, 7, &late), Some(Outcome::Exhausted(7)));
}

#[test]
fn session_without_enough_lines_has_no_outcome() {
    let config = GameConfig::defensive();
    assert_eq!(play(config, 7, &lines(&[])), None);
    assert_eq!(play(config, 7, &lines(&["3", "junk", "8"])), None);
}

#[test]
fn relaxed_rules_never_exhaust() {
    let config = GameConfig::relaxed();
    let mut state = GameState::with_secret(config, 42);
    for _ in 0..30 {
        assert!(!state.is_exhausted());
        assert_eq!(state.submit(Some(b"41")), Feedback::TooSmall);
    }
    assert_eq!(state.attempts, 30);
    assert!(!state.is_exhausted());
    assert_eq!(state.submit(Some(b"42")), Feedback::Correct);
}

#[test]
fn failed_read_is_reported_and_costs_nothing() {
    let config = GameConfig::defensive();
    let mut state = GameState::with_secret(config, 7);
    assert_eq!(
        state.submit(None),
        Feedback::Rejected(InputError::ReadFailed)
    );
    assert_eq!(state.attempts, 0);
    assert_eq!(state.submit(Some(b"7")), Feedback::Correct);
    assert_eq!(state.attempts, 1);
}

#[test]
fn random_secret_lies_within_the_range() {
    for _ in 0..100 {
        let state = GameState::new_random(GameConfig::defensive());
        assert!(state.invariant_holds());
        assert!(1 <= state.secret && state.secret <= 10);
        assert_eq!(state.attempts, 0);
    }
    let wide = GameState::new_random(GameConfig::new(500, 501, None, 10));
    assert!(500 <= wide.secret && wide.secret <= 501);
}
