//! Face grids: solvedness, quarter-turn index permutations, and the
//! mirroring helpers used when cells cross between faces.

use rubiks_cube::face::{invert_face_index_x, invert_face_index_y, Face, FaceState};
use rubiks_cube::slice::{has_edge_on_negative_side, has_edge_on_positive_side};

#[test]
fn test_face_state_is_solved() {
    let unsolved_face_state = FaceState(vec![Face::Left, Face::Left, Face::Right]);
    let solved_face_state = FaceState(vec![Face::Left, Face::Left, Face::Left]);

    assert!(!unsolved_face_state.is_solved());
    assert!(solved_face_state.is_solved());
}

#[test]
fn rotate_face_index_left() {
    // 2x2
    assert_eq!(2, FaceState::rotate_face_index_left(0, 2));
    assert_eq!(0, FaceState::rotate_face_index_left(1, 2));
    assert_eq!(3, FaceState::rotate_face_index_left(2, 2));
    assert_eq!(1, FaceState::rotate_face_index_left(3, 2));

    // 3x3
    assert_eq!(6, FaceState::rotate_face_index_left(0, 3));
    assert_eq!(3, FaceState::rotate_face_index_left(1, 3));
    assert_eq!(0, FaceState::rotate_face_index_left(2, 3));
    assert_eq!(7, FaceState::rotate_face_index_left(3, 3));
    assert_eq!(4, FaceState::rotate_face_index_left(4, 3));
    assert_eq!(1, FaceState::rotate_face_index_left(5, 3));
    assert_eq!(8, FaceState::rotate_face_index_left(6, 3));
    assert_eq!(5, FaceState::rotate_face_index_left(7, 3));
    assert_eq!(2, FaceState::rotate_face_index_left(8, 3));
}

#[test]
fn rotate_face_index_right() {
    // 2x2
    assert_eq!(1, FaceState::rotate_face_index_right(0, 2));
    assert_eq!(3, FaceState::rotate_face_index_right(1, 2));
    assert_eq!(0, FaceState::rotate_face_index_right(2, 2));
    assert_eq!(2, FaceState::rotate_face_index_right(3, 2));

    // 3x3
    assert_eq!(2, FaceState::rotate_face_index_right(0, 3));
    assert_eq!(5, FaceState::rotate_face_index_right(1, 3));
    assert_eq!(8, FaceState::rotate_face_index_right(2, 3));
    assert_eq!(1, FaceState::rotate_face_index_right(3, 3));
    assert_eq!(4, FaceState::rotate_face_index_right(4, 3));
    assert_eq!(7, FaceState::rotate_face_index_right(5, 3));
    assert_eq!(0, FaceState::rotate_face_index_right(6, 3));
    assert_eq!(3, FaceState::rotate_face_index_right(7, 3));
    assert_eq!(6, FaceState::rotate_face_index_right(8, 3));
}

#[test]
fn test_rotate_face_state_3x3() {
    let original_state = FaceState(vec![
        Face::Left,     Face::Top,      Face::Right,
        Face::Right,    Face::Bottom,   Face::Left,
        Face::Top,      Face::Left,     Face::Bottom,
    ]);

    let mut current_state = original_state.clone();

    let face_state_after_rotate_right = FaceState(vec![
        Face::Top,      Face::Right,    Face::Left,
        Face::Left,     Face::Bottom,   Face::Top,
        Face::Bottom,   Face::Left,     Face::Right,
    ]);

    current_state.rotate_right(3);
    assert_eq!(face_state_after_rotate_right, current_state);
    current_state.rotate_left(3);
    assert_eq!(original_state, current_state);
}

#[test]
fn test_rotate_face_state_4x4() {
    let original_state = FaceState(vec![
        Face::Left,     Face::Top,      Face::Right,    Face::Back,
        Face::Right,    Face::Back,     Face::Left,     Face::Top,
        Face::Top,      Face::Front,    Face::Bottom,   Face::Right,
        Face::Bottom,   Face::Right,    Face::Top,      Face::Front,
    ]);

    let mut current_state = original_state.clone();

    let face_state_after_rotate_right = FaceState(vec![
        Face::Bottom,   Face::Top,      Face::Right,    Face::Left,
        Face::Right,    Face::Front,    Face::Back,     Face::Top,
        Face::Top,      Face::Bottom,   Face::Left,     Face::Right,
        Face::Front,    Face::Right,    Face::Top,      Face::Back,
    ]);

    current_state.rotate_right(4);
    assert_eq!(face_state_after_rotate_right, current_state);
    current_state.rotate_left(4);
    assert_eq!(original_state, current_state);
}

#[test]
fn test_has_edge_on_positive_side() {
    // 3x3
    assert_eq!(false, has_edge_on_positive_side(&-1, 3));
    assert_eq!(false, has_edge_on_positive_side(&0, 3));
    assert_eq!(true, has_edge_on_positive_side(&1, 3));

    // 4x4
    assert_eq!(false, has_edge_on_positive_side(&-2, 4));
    assert_eq!(false, has_edge_on_positive_side(&-1, 4));
    assert_eq!(false, has_edge_on_positive_side(&1, 4));
    assert_eq!(true, has_edge_on_positive_side(&2, 4));
}

#[test]
fn test_has_edge_on_negative_side() {
    // 3x3
    assert_eq!(true, has_edge_on_negative_side(&-1, 3));
    assert_eq!(false, has_edge_on_negative_side(&0, 3));
    assert_eq!(false, has_edge_on_negative_side(&1, 3));

    // 4x4
    assert_eq!(true, has_edge_on_negative_side(&-2, 4));
    assert_eq!(false, has_edge_on_negative_side(&-1, 4));
    assert_eq!(false, has_edge_on_negative_side(&1, 4));
    assert_eq!(false, has_edge_on_negative_side(&2, 4));
}

#[test]
fn test_invert_face_index_x() {
    // 3x3
    assert_eq!(2, invert_face_index_x(0, 3));
    assert_eq!(1, invert_face_index_x(1, 3));
    assert_eq!(0, invert_face_index_x(2, 3));

    assert_eq!(5, invert_face_index_x(3, 3));
    assert_eq!(4, invert_face_index_x(4, 3));
    assert_eq!(3, invert_face_index_x(5, 3));

    assert_eq!(8, invert_face_index_x(6, 3));
    assert_eq!(7, invert_face_index_x(7, 3));
    assert_eq!(6, invert_face_index_x(8, 3));

    // 4x4
    assert_eq!(3, invert_face_index_x(0, 4));
    assert_eq!(2, invert_face_index_x(1, 4));
    assert_eq!(1, invert_face_index_x(2, 4));
    assert_eq!(0, invert_face_index_x(3, 4));

    assert_eq!(7, invert_face_index_x(4, 4));
    assert_eq!(6, invert_face_index_x(5, 4));
    assert_eq!(5, invert_face_index_x(6, 4));
    assert_eq!(4, invert_face_index_x(7, 4));
}

#[test]
fn test_invert_face_index_y() {
    // 3x3
    assert_eq!(6, invert_face_index_y(0, 3));
    assert_eq!(3, invert_face_index_y(3, 3));
    assert_eq!(0, invert_face_index_y(6, 3));

    assert_eq!(7, invert_face_index_y(1, 3));
    assert_eq!(4, invert_face_index_y(4, 3));
    assert_eq!(1, invert_face_index_y(7, 3));

    assert_eq!(8, invert_face_index_y(2, 3));
    assert_eq!(5, invert_face_index_y(5, 3));
    assert_eq!(2, invert_face_index_y(8, 3));

    // 4x4
    assert_eq!(12, invert_face_index_y(0, 4));
    assert_eq!(8, invert_face_index_y(4, 4));
    assert_eq!(4, invert_face_index_y(8, 4));
    assert_eq!(0, invert_face_index_y(12, 4));

    assert_eq!(13, invert_face_index_y(1, 4));
    assert_eq!(9, invert_face_index_y(5, 4));
    assert_eq!(5, invert_face_index_y(9, 4));
    assert_eq!(1, invert_face_index_y(13, 4));
}
