use pocket_cube::orientation::compose_orientation;
use pocket_cube::Cube;

#[test]
fn applying_identity_move_leaves_scrambled_state_unchanged() {
    let identity_move = Cube::new([0, 1, 2, 3, 4, 5, 6, 7], [0; 8]);
    let scrambled = Cube::new([3, 0, 1, 2, 7, 4, 5, 6], [1, 2, 0, 0, 2, 1, 0, 0]);
    assert_eq!(scrambled.apply(&identity_move), scrambled);
}

#[test]
fn right_four_times_returns_solved() {
    let cube = Cube::new([0, 1, 2, 3, 4, 5, 6, 7], [0; 8]);
    assert!(cube.right().right().right().right().is_solved());
}

#[test]
fn down_four_times_returns_solved() {
    let cube = Cube::new([0, 1, 2, 3, 4, 5, 6, 7], [0; 8]);
    assert!(cube.down().down().down().down().is_solved());
}

#[test]
fn left_four_times_returns_solved() {
    let cube = Cube::new([0, 1, 2, 3, 4, 5, 6, 7], [0; 8]);
    assert!(cube.left().left().left().left().is_solved());
}

#[test]
fn up_four_times_returns_solved() {
    let cube = Cube::new([0, 1, 2, 3, 4, 5, 6, 7], [0; 8]);
    assert!(cube.up().up().up().up().is_solved());
}

#[test]
fn right_then_right_prime_returns_solved() {
    let cube = Cube::new([0, 1, 2, 3, 4, 5, 6, 7], [0; 8]);
    assert!(cube.right().right_prime().is_solved());
}

#[test]
fn down_then_down_prime_returns_solved() {
    let cube = Cube::new([0, 1, 2, 3, 4, 5, 6, 7], [0; 8]);
    assert!(cube.down().down_prime().is_solved());
}

#[test]
fn left_then_left_prime_returns_solved() {
    let cube = Cube::new([0, 1, 2, 3, 4, 5, 6, 7], [0; 8]);
    assert!(cube.left().left_prime().is_solved());
}

#[test]
fn up_then_up_prime_returns_solved() {
    let cube = Cube::new([0, 1, 2, 3, 4, 5, 6, 7], [0; 8]);
    assert!(cube.up().up_prime().is_solved());
}

#[test]
fn single_twisted_corner_is_not_solved() {
    let cube = Cube::new([0, 1, 2, 3, 4, 5, 6, 7], [0, 0, 0, 0, 0, 1, 0, 0]);
    assert!(!cube.is_solved());
}

#[test]
fn orientation_table_matches_modular_addition() {
    for a in 0u8..3 {
        for b in 0u8..3 {
            assert_eq!(compose_orientation(a, b), (a + b) % 3);
        }
    }
}

#[test]
fn back_turns_are_unimplemented() {
    let cube = Cube::new([0, 1, 2, 3, 4, 5, 6, 7], [0; 8]);
    assert!(cube.back().is_none());
    assert!(cube.back2().is_none());
    assert!(cube.back_prime().is_none());
}

#[test]
fn front_turns_are_unimplemented() {
    let cube = Cube::new([0, 1, 2, 3, 4, 5, 6, 7], [0; 8]);
    assert!(cube.front().is_none());
    assert!(cube.front2().is_none());
    assert!(cube.front_prime().is_none());
}

#[test]
fn apply_composes_two_turns_into_a_macro() {
    let right_move = Cube::new([0, 5, 1, 3, 4, 6, 2, 7], [0, 2, 1, 0, 0, 1, 2, 0]);
    let down_move = Cube::new([0, 1, 2, 3, 7, 4, 5, 6], [0; 8]);
    let combined = right_move.apply(&down_move);
    let cube = Cube::new([0, 1, 2, 3, 4, 5, 6, 7], [0; 8]);
    assert_eq!(cube.right().down(), cube.apply(&combined));
}
