//! The facelet state under rotation events: four equal turns restore it,
//! whole-cube rotations keep it solved, invalid slices are skipped, and
//! the classic algorithms behave as advertised.

use rubiks_cube::algorithms::{flipped_pieces, sexy_right, super_flip};
use rubiks_cube::cube_state::CubeState;
use rubiks_cube::rotation::{CubeRotationEvent, FaceRotation, Rotation};
use rubiks_cube::scramble::create_scramble_sequence_from_algorithm;

fn face_event(rotation: Rotation, invert_direction: bool) -> CubeRotationEvent {
    CubeRotationEvent { rotation, negative_direction: invert_direction, twice: false }
}

fn test_4_face_rotations(cube_size: usize, rotation: FaceRotation, invert_direction: bool) {
    let mut cube_state = CubeState::new(cube_size);
    assert!(cube_state.is_solved());

    for i in 1..=4 {
        cube_state.handle_rotate_event(&face_event(
            Rotation::Face(rotation.clone()),
            invert_direction,
        ));

        if i < 4 {
            assert!(!cube_state.is_solved());
        }
    }

    assert!(cube_state.is_solved());
}

#[test]
fn test_handle_face_rotation_event() {
    // The cube returns to the solved state after four equal quarter turns,
    // and is visibly scrambled in between.
    for cube_size in 2..=4usize {
        let highest: i32 = if cube_size % 2 == 0 {
            (cube_size / 2) as i32
        } else {
            ((cube_size - 1) / 2) as i32
        };
        let mut slices: Vec<i32> = vec![-1, 1];
        if cube_size % 2 == 1 {
            slices.push(0);
        }
        if highest > 1 {
            slices.push(highest);
            slices.push(-highest);
        }
        for slice in slices {
            test_4_face_rotations(cube_size, FaceRotation::x(slice), false);
            test_4_face_rotations(cube_size, FaceRotation::x(slice), true);
            test_4_face_rotations(cube_size, FaceRotation::y(slice), false);
            test_4_face_rotations(cube_size, FaceRotation::y(slice), true);
            test_4_face_rotations(cube_size, FaceRotation::z(slice), false);
            test_4_face_rotations(cube_size, FaceRotation::z(slice), true);
        }
    }

    // A rotation sequence after which the pieces sit in their places but
    // two edges are flipped: running it once scrambles, running it twice
    // restores.
    let mut cube_state = CubeState::new(3);
    assert!(cube_state.is_solved());
    let scramble = create_scramble_sequence_from_algorithm(&flipped_pieces());

    for event in &scramble {
        cube_state.handle_rotate_event(event);
    }
    assert!(!cube_state.is_solved());

    for event in &scramble {
        cube_state.handle_rotate_event(event);
    }
    assert!(cube_state.is_solved());
}

#[test]
fn center_slice_of_even_cube_is_skipped() {
    // Even cubes have no slice 0: such a rotation is a logged no-op and
    // the state stays solved.
    for cube_size in [2usize, 4usize] {
        let mut cube_state = CubeState::new(cube_size);
        cube_state.handle_rotate_event(&face_event(Rotation::face_x(0), false));
        cube_state.handle_rotate_event(&face_event(Rotation::face_y(0), true));
        cube_state.handle_rotate_event(&face_event(Rotation::face_z(0), false));
        assert!(cube_state.is_solved());
    }
}

#[test]
fn out_of_range_slice_is_skipped_but_others_apply() {
    // One invalid slice within a multi-slice event does not abort the
    // valid one: the event below still turns slice 1 and therefore
    // scrambles the cube.
    let mut cube_state = CubeState::new(3);
    let event = CubeRotationEvent {
        rotation: Rotation::Face(FaceRotation::X(vec![7, 1])),
        negative_direction: false,
        twice: false,
    };
    cube_state.handle_rotate_event(&event);
    assert!(!cube_state.is_solved());

    // An event naming only invalid slices is a complete no-op.
    let mut untouched = CubeState::new(3);
    let bogus = CubeRotationEvent {
        rotation: Rotation::Face(FaceRotation::Y(vec![9, -5])),
        negative_direction: true,
        twice: true,
    };
    untouched.handle_rotate_event(&bogus);
    assert!(untouched.is_solved());
}

fn test_4_cube_rotations(cube_size: usize, rotation: Rotation, invert_direction: bool) {
    let mut cube_state = CubeState::new(cube_size);
    assert!(cube_state.is_solved());

    for _ in 1..=4 {
        cube_state.handle_rotate_event(&CubeRotationEvent {
            rotation: rotation.clone(),
            negative_direction: invert_direction,
            twice: false,
        });

        assert!(cube_state.is_solved());
    }
}

#[test]
fn test_handle_cube_rotation_event() {
    test_4_cube_rotations(3, Rotation::cube_x(), true);
    test_4_cube_rotations(3, Rotation::cube_x(), false);
    test_4_cube_rotations(3, Rotation::cube_y(), true);
    test_4_cube_rotations(3, Rotation::cube_y(), false);
    test_4_cube_rotations(3, Rotation::cube_z(), true);
    test_4_cube_rotations(3, Rotation::cube_z(), false);

    test_4_cube_rotations(4, Rotation::cube_x(), true);
    test_4_cube_rotations(4, Rotation::cube_x(), false);
    test_4_cube_rotations(4, Rotation::cube_y(), true);
    test_4_cube_rotations(4, Rotation::cube_y(), false);
    test_4_cube_rotations(4, Rotation::cube_z(), true);
    test_4_cube_rotations(4, Rotation::cube_z(), false);
}

#[test]
fn new_cube_exposes_homogeneous_face_grids() {
    let cube_state = CubeState::new(2);
    assert_eq!(cube_state.size(), 2);
    let faces = cube_state.face_states();
    assert_eq!(faces.top.0, vec![rubiks_cube::face::Face::Top; 4]);
    assert_eq!(faces.left.0, vec![rubiks_cube::face::Face::Left; 4]);
    assert_eq!(faces.front.0, vec![rubiks_cube::face::Face::Front; 4]);
    assert_eq!(faces.back.0, vec![rubiks_cube::face::Face::Back; 4]);
    assert_eq!(faces.right.0, vec![rubiks_cube::face::Face::Right; 4]);
    assert_eq!(faces.bottom.0, vec![rubiks_cube::face::Face::Bottom; 4]);
}

#[test]
fn sexy_move_six_times_restores_the_cube() {
    // R, U, R', U' applied six times returns a 3x3 cube to solved.
    let mut cube_state = CubeState::new(3);
    let sexy = create_scramble_sequence_from_algorithm(&sexy_right());

    for round in 1..=6 {
        cube_state.handle_rotate_events(&sexy);
        if round < 6 {
            assert!(!cube_state.is_solved());
        }
    }
    assert!(cube_state.is_solved());
}

#[test]
fn super_flip_scrambles_the_cube() {
    let mut cube_state = CubeState::new(3);
    let events = create_scramble_sequence_from_algorithm(&super_flip());
    cube_state.handle_rotate_events(&events);
    assert!(!cube_state.is_solved());
    // The super flip is its own inverse: a second run restores the cube.
    cube_state.handle_rotate_events(&events);
    assert!(cube_state.is_solved());
}

#[test]
fn half_turn_equals_two_quarter_turns() {
    let mut doubled = CubeState::new(3);
    doubled.handle_rotate_event(&CubeRotationEvent {
        rotation: Rotation::face_x(1),
        negative_direction: false,
        twice: true,
    });

    let mut twice_single = CubeState::new(3);
    let single = CubeRotationEvent {
        rotation: Rotation::face_x(1),
        negative_direction: false,
        twice: false,
    };
    twice_single.handle_rotate_event(&single);
    twice_single.handle_rotate_event(&single);

    assert_eq!(doubled.size(), 3);
    assert!(!doubled.is_solved());
    // Two more quarter turns bring the doubled state back to solved.
    twice_single.handle_rotate_event(&single);
    twice_single.handle_rotate_event(&single);
    assert!(twice_single.is_solved());
    let mut undone = doubled;
    undone.handle_rotate_event(&CubeRotationEvent {
        rotation: Rotation::face_x(1),
        negative_direction: false,
        twice: true,
    });
    assert!(undone.is_solved());
}
