//! The canonical rotation-event vocabulary: face-slice turns and whole-cube
//! reorientations, together with their ghost views and the random draw used
//! by the scramble generator.

use vstd::prelude::*;

use rand::Rng;

use crate::slice::{size_ok, spec_valid_slice, CubeSize};

verus! {

/// One of the three axes of the cube.
#[derive(Clone, Copy, Debug, PartialEq, Eq, Structural)]
pub enum Axis {
    X,
    Y,
    Z,
}

/// Rotate the given slices of the cube about an axis, relative to the
/// current cube orientation.  Positive slice coordinates sit on the
/// right/top/front of the cube for X/Y/Z respectively.  Even cubes have no
/// slice 0.
#[derive(Debug)]
pub enum FaceRotation {
    /// Rotate the given slices about the x axis.  In the default direction,
    /// looking at the front of the cube, the front column ends up at the
    /// bottom.
    X(Vec<i32>),
    /// Rotate the given slices about the y axis.  In the default direction,
    /// looking at the front of the cube, the front row ends up at the right.
    Y(Vec<i32>),
    /// Rotate the given slices about the z axis.  In the default direction,
    /// looking at the front of the cube, the top row ends up at the left.
    Z(Vec<i32>),
}

/// Reorient the whole cube about an axis.  This also changes which faces
/// are addressed by later face rotations.
#[derive(Clone, Copy, Debug, PartialEq, Eq, Structural)]
pub enum CubeRotation {
    /// In the default direction, looking at the front of the cube, the
    /// front face ends up at the bottom.
    X,
    /// In the default direction, looking at the front of the cube, the
    /// front face ends up at the left side.
    Y,
    /// In the default direction, looking at the front of the cube, the top
    /// row ends up at the left side.
    Z,
}

/// Either a face-slice rotation or a whole-cube rotation.
#[derive(Debug)]
pub enum Rotation {
    Face(FaceRotation),
    Cube(CubeRotation),
}

/// One rotation request: a rotation, a direction, and whether it is applied
/// twice (a half turn).
#[derive(Debug)]
pub struct CubeRotationEvent {
    pub rotation: Rotation,
    pub negative_direction: bool,
    pub twice: bool,
}

/// Ghost view of a `Rotation`: the slice list becomes a sequence of
/// mathematical integers.
pub enum RotationView {
    Face(Axis, Seq<int>),
    Cube(Axis),
}

/// Ghost view of a `CubeRotationEvent`.
pub struct EventView {
    pub rotation: RotationView,
    pub negative_direction: bool,
    pub twice: bool,
}

impl View for FaceRotation {
    type V = (Axis, Seq<int>);

    open spec fn view(&self) -> (Axis, Seq<int>) {
        match self {
            FaceRotation::X(s) => (Axis::X, s@.map_values(|x: i32| x as int)),
            FaceRotation::Y(s) => (Axis::Y, s@.map_values(|x: i32| x as int)),
            FaceRotation::Z(s) => (Axis::Z, s@.map_values(|x: i32| x as int)),
        }
    }
}

impl View for Rotation {
    type V = RotationView;

    open spec fn view(&self) -> RotationView {
        match self {
            Rotation::Face(fr) => RotationView::Face(fr@.0, fr@.1),
            Rotation::Cube(CubeRotation::X) => RotationView::Cube(Axis::X),
            Rotation::Cube(CubeRotation::Y) => RotationView::Cube(Axis::Y),
            Rotation::Cube(CubeRotation::Z) => RotationView::Cube(Axis::Z),
        }
    }
}

impl View for CubeRotationEvent {
    type V = EventView;

    open spec fn view(&self) -> EventView {
        EventView {
            rotation: self.rotation@,
            negative_direction: self.negative_direction,
            twice: self.twice,
        }
    }
}

/// One event negates another when it names the same rotation with the same
/// half-turn flag but the opposite direction.
pub open spec fn spec_negates(a: EventView, b: EventView) -> bool {
    &&& a.rotation == b.rotation
    &&& a.twice == b.twice
    &&& a.negative_direction != b.negative_direction
}

/// Two events request the same turn.
pub open spec fn spec_same_event(a: EventView, b: EventView) -> bool {
    &&& a.rotation == b.rotation
    &&& a.twice == b.twice
    &&& a.negative_direction == b.negative_direction
}

/// A single-slice face rotation of a valid slice, not a half turn: the shape
/// of every randomly drawn scramble move.
pub open spec fn spec_valid_single_face_event(e: EventView, n: int) -> bool {
    &&& !e.twice
    &&& e.rotation matches RotationView::Face(_, slices) && slices.len() == 1
        && spec_valid_slice(slices[0], n)
}

/// Element-wise comparison of two slice lists, equivalent to equality of
/// their integer-sequence views.
fn same_slices(a: &Vec<i32>, b: &Vec<i32>) -> (r: bool)
    ensures
        r == (a@.map_values(|x: i32| x as int) == b@.map_values(|x: i32| x as int)),
{
    let ghost am = a@.map_values(|x: i32| x as int);
    let ghost bm = b@.map_values(|x: i32| x as int);
    if a.len() != b.len() {
        assert(am.len() != bm.len());
        return false;
    }
    let mut i: usize = 0;
    while i < a.len()
        invariant
            a@.len() == b@.len(),
            i <= a@.len(),
            am == a@.map_values(|x: i32| x as int),
            bm == b@.map_values(|x: i32| x as int),
            forall|j: int| 0 <= j < i ==> a@[j] == b@[j],
        decreases a@.len() - i,
    {
        if a[i] != b[i] {
            assert(am[i as int] != bm[i as int]);
            return false;
        }
        i = i + 1;
    }
    proof {
        assert(am =~= bm);
    }
    true
}

/// Comparison of two rotations, equivalent to equality of their views.
fn rotations_equal(a: &Rotation, b: &Rotation) -> (r: bool)
    ensures
        r == (a@ == b@),
{
    match (a, b) {
        (Rotation::Face(FaceRotation::X(s1)), Rotation::Face(FaceRotation::X(s2))) => same_slices(
            s1,
            s2,
        ),
        (Rotation::Face(FaceRotation::Y(s1)), Rotation::Face(FaceRotation::Y(s2))) => same_slices(
            s1,
            s2,
        ),
        (Rotation::Face(FaceRotation::Z(s1)), Rotation::Face(FaceRotation::Z(s2))) => same_slices(
            s1,
            s2,
        ),
        (Rotation::Cube(c1), Rotation::Cube(c2)) => c1 == c2,
        _ => false,
    }
}

impl CubeRotationEvent {
    /// Whether the given event negates (undoes) `self`.
    pub fn negates(&self, event: &Self) -> (r: bool)
        ensures
            r == spec_negates(self@, event@),
    {
        if !rotations_equal(&self.rotation, &event.rotation) {
            return false;
        }
        if self.twice != event.twice {
            return false;
        }
        self.negative_direction != event.negative_direction
    }

    /// Whether the given event requests exactly the same turn as `self`.
    pub fn equals(&self, comparison: &Self) -> (r: bool)
        ensures
            r == spec_same_event(self@, comparison@),
    {
        if !rotations_equal(&self.rotation, &comparison.rotation) {
            return false;
        }
        self.negative_direction == comparison.negative_direction && self.twice == comparison.twice
    }

    /// A uniformly random single-slice face rotation of the given cube size:
    /// random axis, random valid slice, random direction, never a half turn.
    pub fn random_face_rotation(cube_size: &CubeSize) -> (r: Self)
        requires
            size_ok(cube_size.0 as int),
        ensures
            spec_valid_single_face_event(r@, cube_size.0 as int),
    {
        let face_rotation = FaceRotation::random(cube_size);
        let direction = draw_in_range(0, 1) == 0;
        CubeRotationEvent {
            rotation: Rotation::Face(face_rotation),
            negative_direction: direction,
            twice: false,
        }
    }
}

impl Rotation {
    /// A single-slice face rotation about the x axis.
    pub fn face_x(slice: i32) -> (r: Self)
        ensures
            r@ == RotationView::Face(Axis::X, seq![slice as int]),
    {
        Rotation::Face(FaceRotation::x(slice))
    }

    /// A single-slice face rotation about the y axis.
    pub fn face_y(slice: i32) -> (r: Self)
        ensures
            r@ == RotationView::Face(Axis::Y, seq![slice as int]),
    {
        Rotation::Face(FaceRotation::y(slice))
    }

    /// A single-slice face rotation about the z axis.
    pub fn face_z(slice: i32) -> (r: Self)
        ensures
            r@ == RotationView::Face(Axis::Z, seq![slice as int]),
    {
        Rotation::Face(FaceRotation::z(slice))
    }

    /// A whole-cube rotation about the x axis.
    pub fn cube_x() -> (r: Self)
        ensures
            r@ == RotationView::Cube(Axis::X),
    {
        Rotation::Cube(CubeRotation::X)
    }

    /// A whole-cube rotation about the y axis.
    pub fn cube_y() -> (r: Self)
        ensures
            r@ == RotationView::Cube(Axis::Y),
    {
        Rotation::Cube(CubeRotation::Y)
    }

    /// A whole-cube rotation about the z axis.
    pub fn cube_z() -> (r: Self)
        ensures
            r@ == RotationView::Cube(Axis::Z),
    {
        Rotation::Cube(CubeRotation::Z)
    }
}

impl FaceRotation {
    /// A random face rotation: uniformly random axis and uniformly random
    /// valid slice (excluding the non-existent centre of an even cube).
    pub fn random(cube_size: &CubeSize) -> (r: Self)
        requires
            size_ok(cube_size.0 as int),
        ensures
            r@.1.len() == 1,
            spec_valid_slice(r@.1[0], cube_size.0 as int),
    {
        let n = cube_size.0;
        let slice: i32 = if n % 2 == 1 {
            let lo = cube_size.lowest_piece_index();
            let hi = cube_size.highest_piece_index();
            draw_in_range(lo, hi)
        } else {
            let magnitude: i32 = if n == 2 {
                1
            } else {
                draw_in_range(1, n / 2)
            };
            let negative = draw_in_range(0, 1);
            if negative == 0 {
                -magnitude
            } else {
                magnitude
            }
        };
        let axis = draw_in_range(0, 2);
        if axis == 0 {
            FaceRotation::x(slice)
        } else if axis == 1 {
            FaceRotation::y(slice)
        } else {
            FaceRotation::z(slice)
        }
    }

    /// A single-slice x rotation.
    pub fn x(slice: i32) -> (r: Self)
        ensures
            r@ == (Axis::X, seq![slice as int]),
    {
        let mut slices: Vec<i32> = Vec::new();
        slices.push(slice);
        proof {
            assert(slices@.map_values(|x: i32| x as int) =~= seq![slice as int]);
        }
        FaceRotation::X(slices)
    }

    /// A single-slice y rotation.
    pub fn y(slice: i32) -> (r: Self)
        ensures
            r@ == (Axis::Y, seq![slice as int]),
    {
        let mut slices: Vec<i32> = Vec::new();
        slices.push(slice);
        proof {
            assert(slices@.map_values(|x: i32| x as int) =~= seq![slice as int]);
        }
        FaceRotation::Y(slices)
    }

    /// A single-slice z rotation.
    pub fn z(slice: i32) -> (r: Self)
        ensures
            r@ == (Axis::Z, seq![slice as int]),
    {
        let mut slices: Vec<i32> = Vec::new();
        slices.push(slice);
        proof {
            assert(slices@.map_values(|x: i32| x as int) =~= seq![slice as int]);
        }
        FaceRotation::Z(slices)
    }
}

/// An element-wise copy of a slice list.
fn copy_slices(v: &Vec<i32>) -> (r: Vec<i32>)
    ensures
        r@ == v@,
{
    let mut out: Vec<i32> = Vec::new();
    let mut j: usize = 0;
    while j < v.len()
        invariant
            j <= v@.len(),
            out@.len() == j,
            forall|k: int| 0 <= k < j ==> out@[k] == v@[k],
        decreases v@.len() - j,
    {
        out.push(v[j]);
        j = j + 1;
    }
    proof {
        assert(out@ =~= v@);
    }
    out
}

impl Clone for FaceRotation {
    /// A copy with the same view.
    fn clone(&self) -> (r: Self)
        ensures
            r@ == self@,
    {
        match self {
            FaceRotation::X(s) => FaceRotation::X(copy_slices(s)),
            FaceRotation::Y(s) => FaceRotation::Y(copy_slices(s)),
            FaceRotation::Z(s) => FaceRotation::Z(copy_slices(s)),
        }
    }
}

impl Clone for Rotation {
    /// A copy with the same view.
    fn clone(&self) -> (r: Self)
        ensures
            r@ == self@,
    {
        match self {
            Rotation::Face(fr) => Rotation::Face(fr.clone()),
            Rotation::Cube(cr) => Rotation::Cube(*cr),
        }
    }
}

impl Clone for CubeRotationEvent {
    /// A copy with the same view.
    fn clone(&self) -> (r: Self)
        ensures
            r@ == self@,
    {
        CubeRotationEvent {
            rotation: self.rotation.clone(),
            negative_direction: self.negative_direction,
            twice: self.twice,
        }
    }
}

/// Relies on `rand::thread_rng` and `rand::Rng::gen_range` on an inclusive
/// integer range: the drawn value lies within the given non-empty range.
#[verifier::external_body]
fn draw_in_range(low: i32, high: i32) -> (r: i32)
    requires
        low <= high,
    ensures
        low <= r <= high,
{
    rand::thread_rng().gen_range(low..=high)
}

} // verus!
