use pebbles_game::strategy::{choose_move, find_best_move};
use pebbles_game::types::DifficultyLevel;

#[test]
fn hard_move_leaves_a_multiple_of_cap_plus_one() {
    // cap 5: 20 % 6 == 2, so remove 2, leaving 18 == 3 * 6
    assert_eq!(find_best_move(5, 20), 2);
    // cap 3: 10 % 4 == 2
    assert_eq!(find_best_move(3, 10), 2);
    // cap 2: 7 % 3 == 1
    assert_eq!(find_best_move(2, 7), 1);
    // a pile below the cap is taken whole: 2 % 4 == 2
    assert_eq!(find_best_move(3, 2), 2);
}

#[test]
fn hard_move_from_lost_position_takes_the_cap() {
    // cap 3: 8 % 4 == 0, no winning reduction exists
    assert_eq!(find_best_move(3, 8), 3);
    // cap 5: 18 % 6 == 0
    assert_eq!(find_best_move(5, 18), 5);
    // cap 1: 2 % 2 == 0
    assert_eq!(find_best_move(1, 2), 1);
}

#[test]
fn easy_move_stays_within_the_cap() {
    for draw in 0..32u32 {
        for cap in 1..6u32 {
            let amount = choose_move(DifficultyLevel::Easy, cap, 50, draw);
            assert!(amount >= 1);
            assert!(amount <= cap);
        }
    }
}

#[test]
fn easy_move_follows_the_draw() {
    // draw 4 with cap 3 picks 4 % 3 + 1 == 2
    assert_eq!(choose_move(DifficultyLevel::Easy, 3, 50, 4), 2);
    // draw 0 always picks 1
    assert_eq!(choose_move(DifficultyLevel::Easy, 7, 50, 0), 1);
    // a cap of 1 leaves no choice
    assert_eq!(choose_move(DifficultyLevel::Easy, 1, 50, 9), 1);
}

#[test]
fn hard_move_ignores_the_draw() {
    for draw in 0..8u32 {
        assert_eq!(choose_move(DifficultyLevel::Hard, 3, 10, draw), 2);
    }
}
