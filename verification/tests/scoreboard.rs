use click_teleport::decimal::decimal_string;
use click_teleport::game::Game;
use click_teleport::label::ScoreLabel;
use click_teleport::systems::update_scoreboard;

#[test]
fn zero_is_written_as_one_digit() {
    assert_eq!(decimal_string(0), "0");
}

#[test]
fn single_digits_are_written_as_themselves() {
    let expected = ["0", "1", "2", "3", "4", "5", "6", "7", "8", "9"];
    for n in 0..10usize {
        assert_eq!(decimal_string(n), expected[n]);
    }
}

#[test]
fn numbers_are_written_most_significant_digit_first() {
    assert_eq!(decimal_string(10), "10");
    assert_eq!(decimal_string(42), "42");
    assert_eq!(decimal_string(99), "99");
    assert_eq!(decimal_string(100), "100");
    assert_eq!(decimal_string(305), "305");
    assert_eq!(decimal_string(12345), "12345");
    assert_eq!(decimal_string(1_000_000), "1000000");
    assert_eq!(decimal_string(4_294_967_295), "4294967295");
}

#[test]
fn decimal_string_agrees_with_std_formatting() {
    for n in 0..3000usize {
        assert_eq!(decimal_string(n), format!("{}", n));
    }
    for n in [usize::MAX, usize::MAX - 1, usize::MAX / 10, usize::MAX / 2] {
        assert_eq!(decimal_string(n), format!("{}", n));
    }
}

#[test]
fn new_label_shows_no_value() {
    let label = ScoreLabel::new(String::from("Score: "));
    assert_eq!(label.prefix, "Score: ");
    assert_eq!(label.value, "");
}

#[test]
fn scoreboard_shows_score_and_keeps_caption() {
    let mut game = Game::new();
    let mut label = ScoreLabel::new(String::from("Score: "));
    update_scoreboard(&game, &mut label);
    assert_eq!(label.value, "0");
    assert_eq!(label.prefix, "Score: ");
    game.state.score = 17;
    update_scoreboard(&game, &mut label);
    assert_eq!(label.value, "17");
    assert_eq!(label.prefix, "Score: ");
}

#[test]
fn scoreboard_overwrites_a_longer_value() {
    let mut game = Game::new();
    game.state.score = 1000;
    let mut label = ScoreLabel { prefix: String::from("Points "), value: String::from("stale") };
    update_scoreboard(&game, &mut label);
    assert_eq!(label.value, "1000");
    game.state.score = 9;
    update_scoreboard(&game, &mut label);
    assert_eq!(label.value, "9");
    assert_eq!(label.prefix, "Points ");
}
