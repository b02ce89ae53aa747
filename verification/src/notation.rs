//! Rotations in human cubing notation (U, R, F, ... and their primed and
//! doubled variants), and their exact translation to canonical rotation
//! events.  The direction conventions are asymmetric on purpose and must
//! be kept as they are for compatibility with existing algorithm scripts:
//! for whole-cube rotations, X and Z map to the negated direction while
//! their primed forms are the default direction, and Y is the reverse.

use vstd::prelude::*;

use crate::rotation::{Axis, CubeRotationEvent, EventView, Rotation, RotationView};

verus! {

/// Whole-cube rotations in cubing notation.
#[derive(Clone, Copy, Debug, PartialEq, Eq, Structural)]
pub enum CubeRotation {
    X,
    X2,
    XPrime,
    Y,
    Y2,
    YPrime,
    Z,
    Z2,
    ZPrime,
}

/// Rotations for a 2x2 cube in cubing notation.
#[derive(Clone, Copy, Debug, PartialEq, Eq, Structural)]
pub enum Rotation2x2 {
    /// Left.  Looking at the front of the cube, the front column ends up at
    /// the bottom.
    L,
    /// Left twice.
    L2,
    /// Left counter-clockwise.
    LPrime,
    /// Right.  Looking at the front of the cube, the front column ends up
    /// at the top.
    R,
    /// Right twice.
    R2,
    /// Right counter-clockwise.
    RPrime,
    U,
    U2,
    UPrime,
    D,
    D2,
    DPrime,
    F,
    F2,
    FPrime,
    B,
    B2,
    BPrime,
}

/// Rotations for a 3x3 cube in cubing notation.
#[derive(Clone, Copy, Debug, PartialEq, Eq, Structural)]
pub enum Rotation3x3 {
    /// Left.  Looking at the front of the cube, the front column ends up at
    /// the bottom.
    L,
    /// Left twice.
    L2,
    /// Left counter-clockwise.
    LPrime,
    /// Right.  Looking at the front of the cube, the front column ends up
    /// at the top.
    R,
    /// Right twice.
    R2,
    /// Right counter-clockwise.
    RPrime,
    U,
    U2,
    UPrime,
    D,
    D2,
    DPrime,
    F,
    F2,
    FPrime,
    B,
    B2,
    BPrime,
}

/// The event view of a single-slice face rotation.
pub open spec fn spec_face_event(axis: Axis, slice: int, neg: bool, twice: bool) -> EventView {
    EventView {
        rotation: RotationView::Face(axis, seq![slice]),
        negative_direction: neg,
        twice,
    }
}

/// The event view of a whole-cube rotation.
pub open spec fn spec_cube_event(axis: Axis, neg: bool, twice: bool) -> EventView {
    EventView { rotation: RotationView::Cube(axis), negative_direction: neg, twice }
}

impl CubeRotation {
    /// The canonical event this notation stands for.
    pub open spec fn spec_event(self) -> EventView {
        match self {
            CubeRotation::X => spec_cube_event(Axis::X, true, false),
            CubeRotation::X2 => spec_cube_event(Axis::X, false, true),
            CubeRotation::XPrime => spec_cube_event(Axis::X, false, false),
            CubeRotation::Y => spec_cube_event(Axis::Y, false, false),
            CubeRotation::Y2 => spec_cube_event(Axis::Y, false, true),
            CubeRotation::YPrime => spec_cube_event(Axis::Y, true, false),
            CubeRotation::Z => spec_cube_event(Axis::Z, true, false),
            CubeRotation::Z2 => spec_cube_event(Axis::Z, false, true),
            CubeRotation::ZPrime => spec_cube_event(Axis::Z, false, false),
        }
    }

    /// Translate this notation to its canonical event.
    pub fn to_event(&self) -> (r: CubeRotationEvent)
        ensures
            r@ == self.spec_event(),
    {
        match self {
            CubeRotation::X => CubeRotationEvent {
                rotation: Rotation::cube_x(),
                negative_direction: true,
                twice: false,
            },
            CubeRotation::X2 => CubeRotationEvent {
                rotation: Rotation::cube_x(),
                negative_direction: false,
                twice: true,
            },
            CubeRotation::XPrime => CubeRotationEvent {
                rotation: Rotation::cube_x(),
                negative_direction: false,
                twice: false,
            },
            CubeRotation::Y => CubeRotationEvent {
                rotation: Rotation::cube_y(),
                negative_direction: false,
                twice: false,
            },
            CubeRotation::Y2 => CubeRotationEvent {
                rotation: Rotation::cube_y(),
                negative_direction: false,
                twice: true,
            },
            CubeRotation::YPrime => CubeRotationEvent {
                rotation: Rotation::cube_y(),
                negative_direction: true,
                twice: false,
            },
            CubeRotation::Z => CubeRotationEvent {
                rotation: Rotation::cube_z(),
                negative_direction: true,
                twice: false,
            },
            CubeRotation::Z2 => CubeRotationEvent {
                rotation: Rotation::cube_z(),
                negative_direction: false,
                twice: true,
            },
            CubeRotation::ZPrime => CubeRotationEvent {
                rotation: Rotation::cube_z(),
                negative_direction: false,
                twice: false,
            },
        }
    }
}

impl Rotation2x2 {
    /// The canonical event this notation stands for.
    pub open spec fn spec_event(self) -> EventView {
        match self {
            Rotation2x2::L => spec_face_event(Axis::X, -1, false, false),
            Rotation2x2::L2 => spec_face_event(Axis::X, -1, false, true),
            Rotation2x2::LPrime => spec_face_event(Axis::X, -1, true, false),
            Rotation2x2::R => spec_face_event(Axis::X, 1, true, false),
            Rotation2x2::R2 => spec_face_event(Axis::X, 1, false, true),
            Rotation2x2::RPrime => spec_face_event(Axis::X, 1, false, false),
            Rotation2x2::U => spec_face_event(Axis::Y, 1, true, false),
            Rotation2x2::U2 => spec_face_event(Axis::Y, 1, false, true),
            Rotation2x2::UPrime => spec_face_event(Axis::Y, 1, false, false),
            Rotation2x2::D => spec_face_event(Axis::Y, -1, false, false),
            Rotation2x2::D2 => spec_face_event(Axis::Y, -1, false, true),
            Rotation2x2::DPrime => spec_face_event(Axis::Y, -1, true, false),
            Rotation2x2::F => spec_face_event(Axis::Z, 1, true, false),
            Rotation2x2::F2 => spec_face_event(Axis::Z, 1, false, true),
            Rotation2x2::FPrime => spec_face_event(Axis::Z, 1, false, false),
            Rotation2x2::B => spec_face_event(Axis::Z, -1, false, false),
            Rotation2x2::B2 => spec_face_event(Axis::Z, -1, false, true),
            Rotation2x2::BPrime => spec_face_event(Axis::Z, -1, true, false),
        }
    }

    /// Translate this notation to its canonical event.
    pub fn to_event(&self) -> (r: CubeRotationEvent)
        ensures
            r@ == self.spec_event(),
    {
        match self {
            Rotation2x2::L => CubeRotationEvent {
                rotation: Rotation::face_x(-1),
                negative_direction: false,
                twice: false,
            },
            Rotation2x2::L2 => CubeRotationEvent {
                rotation: Rotation::face_x(-1),
                negative_direction: false,
                twice: true,
            },
            Rotation2x2::LPrime => CubeRotationEvent {
                rotation: Rotation::face_x(-1),
                negative_direction: true,
                twice: false,
            },
            Rotation2x2::R => CubeRotationEvent {
                rotation: Rotation::face_x(1),
                negative_direction: true,
                twice: false,
            },
            Rotation2x2::R2 => CubeRotationEvent {
                rotation: Rotation::face_x(1),
                negative_direction: false,
                twice: true,
            },
            Rotation2x2::RPrime => CubeRotationEvent {
                rotation: Rotation::face_x(1),
                negative_direction: false,
                twice: false,
            },
            Rotation2x2::U => CubeRotationEvent {
                rotation: Rotation::face_y(1),
                negative_direction: true,
                twice: false,
            },
            Rotation2x2::U2 => CubeRotationEvent {
                rotation: Rotation::face_y(1),
                negative_direction: false,
                twice: true,
            },
            Rotation2x2::UPrime => CubeRotationEvent {
                rotation: Rotation::face_y(1),
                negative_direction: false,
                twice: false,
            },
            Rotation2x2::D => CubeRotationEvent {
                rotation: Rotation::face_y(-1),
                negative_direction: false,
                twice: false,
            },
            Rotation2x2::D2 => CubeRotationEvent {
                rotation: Rotation::face_y(-1),
                negative_direction: false,
                twice: true,
            },
            Rotation2x2::DPrime => CubeRotationEvent {
                rotation: Rotation::face_y(-1),
                negative_direction: true,
                twice: false,
            },
            Rotation2x2::F => CubeRotationEvent {
                rotation: Rotation::face_z(1),
                negative_direction: true,
                twice: false,
            },
            Rotation2x2::F2 => CubeRotationEvent {
                rotation: Rotation::face_z(1),
                negative_direction: false,
                twice: true,
            },
            Rotation2x2::FPrime => CubeRotationEvent {
                rotation: Rotation::face_z(1),
                negative_direction: false,
                twice: false,
            },
            Rotation2x2::B => CubeRotationEvent {
                rotation: Rotation::face_z(-1),
                negative_direction: false,
                twice: false,
            },
            Rotation2x2::B2 => CubeRotationEvent {
                rotation: Rotation::face_z(-1),
                negative_direction: false,
                twice: true,
            },
            Rotation2x2::BPrime => CubeRotationEvent {
                rotation: Rotation::face_z(-1),
                negative_direction: true,
                twice: false,
            },
        }
    }
}

impl Rotation3x3 {
    /// The canonical event this notation stands for.  The outer slices of a
    /// 3x3 cube sit at coordinates -1 and 1.
    pub open spec fn spec_event(self) -> EventView {
        match self {
            Rotation3x3::L => spec_face_event(Axis::X, -1, false, false),
            Rotation3x3::L2 => spec_face_event(Axis::X, -1, false, true),
            Rotation3x3::LPrime => spec_face_event(Axis::X, -1, true, false),
            Rotation3x3::R => spec_face_event(Axis::X, 1, true, false),
            Rotation3x3::R2 => spec_face_event(Axis::X, 1, false, true),
            Rotation3x3::RPrime => spec_face_event(Axis::X, 1, false, false),
            Rotation3x3::U => spec_face_event(Axis::Y, 1, true, false),
            Rotation3x3::U2 => spec_face_event(Axis::Y, 1, false, true),
            Rotation3x3::UPrime => spec_face_event(Axis::Y, 1, false, false),
            Rotation3x3::D => spec_face_event(Axis::Y, -1, false, false),
            Rotation3x3::D2 => spec_face_event(Axis::Y, -1, false, true),
            Rotation3x3::DPrime => spec_face_event(Axis::Y, -1, true, false),
            Rotation3x3::F => spec_face_event(Axis::Z, 1, true, false),
            Rotation3x3::F2 => spec_face_event(Axis::Z, 1, false, true),
            Rotation3x3::FPrime => spec_face_event(Axis::Z, 1, false, false),
            Rotation3x3::B => spec_face_event(Axis::Z, -1, false, false),
            Rotation3x3::B2 => spec_face_event(Axis::Z, -1, false, true),
            Rotation3x3::BPrime => spec_face_event(Axis::Z, -1, true, false),
        }
    }

    /// Translate this notation to its canonical event.
    pub fn to_event(&self) -> (r: CubeRotationEvent)
        ensures
            r@ == self.spec_event(),
    {
        match self {
            Rotation3x3::L => CubeRotationEvent {
                rotation: Rotation::face_x(-1),
                negative_direction: false,
                twice: false,
            },
            Rotation3x3::L2 => CubeRotationEvent {
                rotation: Rotation::face_x(-1),
                negative_direction: false,
                twice: true,
            },
            Rotation3x3::LPrime => CubeRotationEvent {
                rotation: Rotation::face_x(-1),
                negative_direction: true,
                twice: false,
            },
            Rotation3x3::R => CubeRotationEvent {
                rotation: Rotation::face_x(1),
                negative_direction: true,
                twice: false,
            },
            Rotation3x3::R2 => CubeRotationEvent {
                rotation: Rotation::face_x(1),
                negative_direction: false,
                twice: true,
            },
            Rotation3x3::RPrime => CubeRotationEvent {
                rotation: Rotation::face_x(1),
                negative_direction: false,
                twice: false,
            },
            Rotation3x3::U => CubeRotationEvent {
                rotation: Rotation::face_y(1),
                negative_direction: true,
                twice: false,
            },
            Rotation3x3::U2 => CubeRotationEvent {
                rotation: Rotation::face_y(1),
                negative_direction: false,
                twice: true,
            },
            Rotation3x3::UPrime => CubeRotationEvent {
                rotation: Rotation::face_y(1),
                negative_direction: false,
                twice: false,
            },
            Rotation3x3::D => CubeRotationEvent {
                rotation: Rotation::face_y(-1),
                negative_direction: false,
                twice: false,
            },
            Rotation3x3::D2 => CubeRotationEvent {
                rotation: Rotation::face_y(-1),
                negative_direction: false,
                twice: true,
            },
            Rotation3x3::DPrime => CubeRotationEvent {
                rotation: Rotation::face_y(-1),
                negative_direction: true,
                twice: false,
            },
            Rotation3x3::F => CubeRotationEvent {
                rotation: Rotation::face_z(1),
                negative_direction: true,
                twice: false,
            },
            Rotation3x3::F2 => CubeRotationEvent {
                rotation: Rotation::face_z(1),
                negative_direction: false,
                twice: true,
            },
            Rotation3x3::FPrime => CubeRotationEvent {
                rotation: Rotation::face_z(1),
                negative_direction: false,
                twice: false,
            },
            Rotation3x3::B => CubeRotationEvent {
                rotation: Rotation::face_z(-1),
                negative_direction: false,
                twice: false,
            },
            Rotation3x3::B2 => CubeRotationEvent {
                rotation: Rotation::face_z(-1),
                negative_direction: false,
                twice: true,
            },
            Rotation3x3::BPrime => CubeRotationEvent {
                rotation: Rotation::face_z(-1),
                negative_direction: true,
                twice: false,
            },
        }
    }
}

} // verus!
