//! Scramble generation: length, the anti-redundancy rules, and
//! reproducibility from a fixed candidate stream.

use rubiks_cube::rotation::{CubeRotationEvent, Rotation};
use rubiks_cube::scramble::{
    create_random_scramble_sequence, create_scramble_sequence_from_candidates,
};
use rubiks_cube::slice::CubeSize;

fn event(rotation: Rotation, negative_direction: bool) -> CubeRotationEvent {
    CubeRotationEvent { rotation, negative_direction, twice: false }
}

#[test]
fn test_create_random_scramble_sequence() {
    let cube_size = CubeSize(3);
    let sequence_length = 5;
    let sequence = create_random_scramble_sequence(&cube_size, sequence_length);
    assert_eq!(sequence.len(), sequence_length);
}

#[test]
fn test_scramble_sequence_skips_directly_negating_sequence() {
    let cube_size = CubeSize(3);
    assert_eq!(cube_size.0, 3);

    // The 2nd candidate negates the 1st.
    let candidates = vec![
        event(Rotation::face_y(1), true),
        event(Rotation::face_y(1), false),
        event(Rotation::face_z(1), false),
    ];

    let sequence = create_scramble_sequence_from_candidates(&candidates, 2);

    assert_eq!(sequence.len(), 2);
    assert!(sequence[0].equals(&candidates[0]));
    assert!(sequence[1].equals(&candidates[2]));
}

#[test]
fn test_scramble_sequence_skips_triple_same_rotation() {
    let cube_size = CubeSize(3);
    assert_eq!(cube_size.0, 3);

    // The 3rd candidate is the same as the 1st and the 2nd.
    let candidates = vec![
        event(Rotation::face_y(1), true),
        event(Rotation::face_y(1), true),
        event(Rotation::face_y(1), true),
        event(Rotation::face_x(1), true),
    ];

    let sequence = create_scramble_sequence_from_candidates(&candidates, 3);

    assert_eq!(sequence.len(), 3);
    assert!(sequence[0].equals(&candidates[0]));
    assert!(sequence[1].equals(&candidates[1]));
    assert!(sequence[2].equals(&candidates[3]));
}

#[test]
fn scramble_from_candidates_is_reproducible() {
    // The same candidate stream always yields the same scramble.
    let candidates = vec![
        event(Rotation::face_x(-1), false),
        event(Rotation::face_x(-1), true),
        event(Rotation::face_y(1), false),
        event(Rotation::face_y(1), false),
        event(Rotation::face_y(1), false),
        event(Rotation::face_z(-1), true),
    ];
    let first = create_scramble_sequence_from_candidates(&candidates, 4);
    let second = create_scramble_sequence_from_candidates(&candidates, 4);
    assert_eq!(first.len(), second.len());
    for i in 0..first.len() {
        assert!(first[i].equals(&second[i]));
    }
    // And the filter's output on this stream is fixed: the negation and
    // the third repetition are dropped.
    assert_eq!(first.len(), 4);
    assert!(first[0].equals(&candidates[0]));
    assert!(first[1].equals(&candidates[2]));
    assert!(first[2].equals(&candidates[3]));
    assert!(first[3].equals(&candidates[5]));
}

#[test]
fn scramble_stops_when_candidates_run_out() {
    let candidates = vec![event(Rotation::face_x(1), false)];
    let sequence = create_scramble_sequence_from_candidates(&candidates, 3);
    assert_eq!(sequence.len(), 1);
}

#[test]
fn random_scramble_has_no_redundant_moves() {
    for cube_size in 2..=4i32 {
        let size = CubeSize(cube_size);
        let sequence = create_random_scramble_sequence(&size, 40);
        assert_eq!(sequence.len(), 40);
        for i in 0..sequence.len() {
            assert!(!sequence[i].twice);
        }
        for i in 0..sequence.len() - 1 {
            assert!(!sequence[i + 1].negates(&sequence[i]));
        }
        for i in 0..sequence.len() - 2 {
            let triple = sequence[i + 2].equals(&sequence[i + 1])
                && sequence[i + 2].equals(&sequence[i]);
            assert!(!triple);
        }
    }
}
