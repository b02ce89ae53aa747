//! Rotation events: negation, equality, random draws, and the cubing
//! notation table.

use rubiks_cube::notation::{CubeRotation, Rotation2x2, Rotation3x3};
use rubiks_cube::rotation::{CubeRotationEvent, FaceRotation, Rotation};
use rubiks_cube::slice::CubeSize;

#[test]
fn cube_rotation_event_negates() {
    let rotation_event = CubeRotationEvent {
        rotation: Rotation::face_x(-1),
        negative_direction: true,
        twice: false,
    };

    assert_eq!(rotation_event.negates(&rotation_event), false);

    let negating_event = CubeRotationEvent {
        rotation: Rotation::face_x(-1),
        negative_direction: false,
        twice: false,
    };

    assert!(negating_event.negates(&rotation_event));

    // It does not negate because it is on a different axis.
    let non_negating_event = CubeRotationEvent {
        rotation: Rotation::face_y(-1),
        negative_direction: false,
        twice: false,
    };

    assert_eq!(non_negating_event.negates(&rotation_event), false);
}

#[test]
fn negation_requires_equal_twice_flag() {
    let single = CubeRotationEvent {
        rotation: Rotation::face_z(1),
        negative_direction: false,
        twice: false,
    };
    let doubled_reverse = CubeRotationEvent {
        rotation: Rotation::face_z(1),
        negative_direction: true,
        twice: true,
    };
    let single_reverse = CubeRotationEvent {
        rotation: Rotation::face_z(1),
        negative_direction: true,
        twice: false,
    };
    assert!(!single.negates(&doubled_reverse));
    assert!(single.negates(&single_reverse));
    assert!(single_reverse.negates(&single));
}

#[test]
fn event_equality_compares_rotation_direction_and_twice() {
    let a = CubeRotationEvent {
        rotation: Rotation::face_y(1),
        negative_direction: true,
        twice: false,
    };
    let same = CubeRotationEvent {
        rotation: Rotation::face_y(1),
        negative_direction: true,
        twice: false,
    };
    let other_slice = CubeRotationEvent {
        rotation: Rotation::face_y(-1),
        negative_direction: true,
        twice: false,
    };
    let other_direction = CubeRotationEvent {
        rotation: Rotation::face_y(1),
        negative_direction: false,
        twice: false,
    };
    let whole_cube = CubeRotationEvent {
        rotation: Rotation::cube_y(),
        negative_direction: true,
        twice: false,
    };
    assert!(a.equals(&same));
    assert!(!a.equals(&other_slice));
    assert!(!a.equals(&other_direction));
    assert!(!a.equals(&whole_cube));
}

#[test]
fn random_face_rotation_draws_valid_single_slice_moves() {
    for cube_size in 2..=5i32 {
        let size = CubeSize(cube_size);
        for _ in 0..50 {
            let event = CubeRotationEvent::random_face_rotation(&size);
            assert!(!event.twice);
            let slices = match &event.rotation {
                Rotation::Face(FaceRotation::X(s)) => s,
                Rotation::Face(FaceRotation::Y(s)) => s,
                Rotation::Face(FaceRotation::Z(s)) => s,
                Rotation::Cube(_) => panic!("a random face rotation is never a cube rotation"),
            };
            assert_eq!(slices.len(), 1);
            let slice = slices[0];
            let bound = if cube_size % 2 == 0 {
                cube_size / 2
            } else {
                (cube_size - 1) / 2
            };
            assert!(-bound <= slice && slice <= bound);
            if cube_size % 2 == 0 {
                assert_ne!(slice, 0);
            }
        }
    }
}

#[test]
fn random_face_rotation_actually_varies() {
    // Over two hundred draws on a 3x3 cube the random source must produce
    // more than one distinct move; a constant source would not.
    let size = CubeSize(3);
    let first = CubeRotationEvent::random_face_rotation(&size);
    let mut saw_different = false;
    for _ in 0..200 {
        let next = CubeRotationEvent::random_face_rotation(&size);
        if !next.equals(&first) {
            saw_different = true;
            break;
        }
    }
    assert!(saw_different);
}

#[test]
fn notation_table_for_3x3() {
    // R and R' negate one another; R2 carries the half-turn flag.
    let r = Rotation3x3::R.to_event();
    let r_prime = Rotation3x3::RPrime.to_event();
    let r2 = Rotation3x3::R2.to_event();
    assert!(r.negates(&r_prime));
    assert!(r.negative_direction);
    assert!(!r_prime.negative_direction);
    assert!(r2.twice);
    assert!(!r2.negative_direction);

    // L turns the opposite slice of the same axis in the opposite sense.
    let l = Rotation3x3::L.to_event();
    assert!(!l.negative_direction);
    assert!(!l.equals(&r));

    // U sits on the y axis, F on the z axis.
    let u = Rotation3x3::U.to_event();
    assert!(matches!(u.rotation, Rotation::Face(FaceRotation::Y(_))));
    assert!(u.negative_direction);
    let f = Rotation3x3::F.to_event();
    assert!(matches!(f.rotation, Rotation::Face(FaceRotation::Z(_))));
    assert!(f.negative_direction);
    let b = Rotation3x3::B.to_event();
    assert!(!b.negative_direction);
    let d = Rotation3x3::D.to_event();
    assert!(!d.negative_direction);
}

#[test]
fn notation_table_for_2x2_matches_3x3_outer_turns() {
    let pairs = [
        (Rotation2x2::L.to_event(), Rotation3x3::L.to_event()),
        (Rotation2x2::R2.to_event(), Rotation3x3::R2.to_event()),
        (Rotation2x2::UPrime.to_event(), Rotation3x3::UPrime.to_event()),
        (Rotation2x2::D.to_event(), Rotation3x3::D.to_event()),
        (Rotation2x2::F2.to_event(), Rotation3x3::F2.to_event()),
        (Rotation2x2::BPrime.to_event(), Rotation3x3::BPrime.to_event()),
    ];
    for (two, three) in &pairs {
        assert!(two.equals(three));
    }
}

#[test]
fn whole_cube_notation_directions() {
    // X' is the default/un-negated direction while X is negated, and the
    // same for Z; Y is the reverse.
    let x = CubeRotation::X.to_event();
    let x_prime = CubeRotation::XPrime.to_event();
    assert!(x.negative_direction);
    assert!(!x_prime.negative_direction);
    assert!(x.negates(&x_prime));

    let y = CubeRotation::Y.to_event();
    let y_prime = CubeRotation::YPrime.to_event();
    assert!(!y.negative_direction);
    assert!(y_prime.negative_direction);

    let z = CubeRotation::Z.to_event();
    assert!(z.negative_direction);
    let z2 = CubeRotation::Z2.to_event();
    assert!(z2.twice);

    assert!(matches!(x.rotation, Rotation::Cube(_)));
}
