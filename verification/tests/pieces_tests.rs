//! The piece-coordinate model: slice membership queries and the
//! coordinate swap/negation rules of each rotation.

use rubiks_cube::pieces::{rotate_pieces, Piece};
use rubiks_cube::rotation::{Axis, CubeRotationEvent, Rotation};

fn piece(x: i32, y: i32, z: i32) -> Piece {
    Piece { current_x: x, current_y: y, current_z: z }
}

#[test]
fn get_piece_indices_finds_the_slice_members() {
    let pieces = vec![
        piece(1, 0, -1),
        piece(-1, 1, 1),
        piece(1, 1, 0),
        piece(0, -1, 1),
    ];

    assert_eq!(Piece::get_piece_indices(&pieces, Axis::X, 1), vec![0, 2]);
    assert_eq!(Piece::get_piece_indices(&pieces, Axis::Y, 1), vec![1, 2]);
    assert_eq!(Piece::get_piece_indices(&pieces, Axis::Z, 1), vec![1, 3]);
    assert_eq!(Piece::get_piece_indices(&pieces, Axis::X, 0), vec![3]);
    assert_eq!(Piece::get_piece_indices(&pieces, Axis::Z, 2), Vec::<usize>::new());
}

#[test]
fn face_rotation_turns_only_the_named_slice() {
    // An x turn in the default direction: (x, y, z) -> (x, -z, y).
    let mut pieces = vec![piece(1, 1, 0), piece(-1, 1, 0), piece(1, 0, -1)];
    let event = CubeRotationEvent {
        rotation: Rotation::face_x(1),
        negative_direction: false,
        twice: false,
    };
    rotate_pieces(&mut pieces, 3, &event);
    assert_eq!(pieces[0], piece(1, 0, 1));
    assert_eq!(pieces[1], piece(-1, 1, 0));
    assert_eq!(pieces[2], piece(1, 1, 0));
}

#[test]
fn face_rotation_reversed_direction() {
    // An x turn in the negative direction: (x, y, z) -> (x, z, -y).
    let mut pieces = vec![piece(1, 1, 0)];
    let event = CubeRotationEvent {
        rotation: Rotation::face_x(1),
        negative_direction: true,
        twice: false,
    };
    rotate_pieces(&mut pieces, 3, &event);
    assert_eq!(pieces[0], piece(1, 0, -1));
}

#[test]
fn half_turn_negates_both_orthogonal_coordinates() {
    let mut pieces = vec![piece(0, 1, -1), piece(1, 1, -1)];
    let event = CubeRotationEvent {
        rotation: Rotation::face_y(1),
        negative_direction: false,
        twice: true,
    };
    rotate_pieces(&mut pieces, 3, &event);
    // Only pieces with y == 1 are affected: (x, y, z) -> (-x, y, -z).
    assert_eq!(pieces[0], piece(0, 1, 1));
    assert_eq!(pieces[1], piece(-1, 1, 1));
}

#[test]
fn whole_cube_rotation_turns_every_piece() {
    // A z turn in the default direction: (x, y, z) -> (-y, x, z).
    let mut pieces = vec![piece(1, 0, -1), piece(-1, -1, 1), piece(0, 1, 0)];
    let event = CubeRotationEvent {
        rotation: Rotation::cube_z(),
        negative_direction: false,
        twice: false,
    };
    rotate_pieces(&mut pieces, 3, &event);
    assert_eq!(pieces[0], piece(0, 1, -1));
    assert_eq!(pieces[1], piece(1, -1, 1));
    assert_eq!(pieces[2], piece(-1, 0, 0));
}

#[test]
fn four_quarter_turns_restore_the_pieces() {
    let start = vec![piece(1, 1, -1), piece(-1, 0, 1), piece(1, -1, 0)];
    let mut pieces = start.clone();
    let event = CubeRotationEvent {
        rotation: Rotation::face_x(1),
        negative_direction: false,
        twice: false,
    };
    for _ in 0..4 {
        rotate_pieces(&mut pieces, 3, &event);
    }
    assert_eq!(pieces, start);
}
