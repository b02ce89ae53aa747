//! The piece-coordinate model: one integer (x, y, z) coordinate triple per
//! physical cubie.  A rotation event permutes these coordinates with small
//! swap/negation rules; this is the second representation of the same
//! abstract rotation that the facelet state realises, and it drives any
//! external geometric renderer.

use vstd::prelude::*;

use crate::rotation::{Axis, CubeRotationEvent, EventView, FaceRotation, Rotation, RotationView};
use crate::slice::{size_ok, spec_highest_piece_index, spec_lowest_piece_index};

verus! {

/// One physical cubie's current coordinates in cube space.
#[derive(Clone, Copy, Debug, PartialEq, Eq, Structural)]
pub struct Piece {
    pub current_x: i32,
    pub current_y: i32,
    pub current_z: i32,
}

/// The piece's coordinate along the given axis.
pub open spec fn spec_axis_coord(p: Piece, axis: Axis) -> int {
    match axis {
        Axis::X => p.current_x as int,
        Axis::Y => p.current_y as int,
        Axis::Z => p.current_z as int,
    }
}

/// A piece of a cube of size `n` sits within the valid coordinate range,
/// and an even cube has no pieces on the centre planes.
pub open spec fn wf_piece(p: Piece, n: int) -> bool {
    &&& spec_lowest_piece_index(n) <= p.current_x <= spec_highest_piece_index(n)
    &&& spec_lowest_piece_index(n) <= p.current_y <= spec_highest_piece_index(n)
    &&& spec_lowest_piece_index(n) <= p.current_z <= spec_highest_piece_index(n)
    &&& n % 2 == 0 ==> p.current_x != 0 && p.current_y != 0 && p.current_z != 0
}

/// Every piece of the model is well formed.
pub open spec fn wf_pieces(ps: Seq<Piece>, n: int) -> bool {
    forall|i: int| 0 <= i < ps.len() ==> wf_piece(#[trigger] ps[i], n)
}

/// The coordinates of one piece after a turn about the given axis: a half
/// turn negates both orthogonal coordinates; a quarter turn swaps them,
/// negating one of the two depending on the direction.
pub open spec fn spec_rotate_piece(p: Piece, axis: Axis, neg: bool, twice: bool) -> Piece {
    match axis {
        Axis::X => if twice {
            Piece {
                current_x: p.current_x,
                current_y: (-(p.current_y as int)) as i32,
                current_z: (-(p.current_z as int)) as i32,
            }
        } else if neg {
            Piece {
                current_x: p.current_x,
                current_y: p.current_z,
                current_z: (-(p.current_y as int)) as i32,
            }
        } else {
            Piece {
                current_x: p.current_x,
                current_y: (-(p.current_z as int)) as i32,
                current_z: p.current_y,
            }
        },
        Axis::Y => if twice {
            Piece {
                current_x: (-(p.current_x as int)) as i32,
                current_y: p.current_y,
                current_z: (-(p.current_z as int)) as i32,
            }
        } else if neg {
            Piece {
                current_x: (-(p.current_z as int)) as i32,
                current_y: p.current_y,
                current_z: p.current_x,
            }
        } else {
            Piece {
                current_x: p.current_z,
                current_y: p.current_y,
                current_z: (-(p.current_x as int)) as i32,
            }
        },
        Axis::Z => if twice {
            Piece {
                current_x: (-(p.current_x as int)) as i32,
                current_y: (-(p.current_y as int)) as i32,
                current_z: p.current_z,
            }
        } else if neg {
            Piece {
                current_x: p.current_y,
                current_y: (-(p.current_x as int)) as i32,
                current_z: p.current_z,
            }
        } else {
            Piece {
                current_x: (-(p.current_y as int)) as i32,
                current_y: p.current_x,
                current_z: p.current_z,
            }
        },
    }
}

/// All pieces sitting in the named slice get their coordinates turned; all
/// others are untouched.
pub open spec fn spec_rotate_slice_pieces(
    ps: Seq<Piece>,
    axis: Axis,
    slice: int,
    neg: bool,
    twice: bool,
) -> Seq<Piece> {
    Seq::new(
        ps.len(),
        |i: int|
            if spec_axis_coord(ps[i], axis) == slice {
                spec_rotate_piece(ps[i], axis, neg, twice)
            } else {
                ps[i]
            },
    )
}

/// Every piece gets its coordinates turned: a whole-cube rotation.
pub open spec fn spec_rotate_all_pieces(ps: Seq<Piece>, axis: Axis, neg: bool, twice: bool) -> Seq<
    Piece,
> {
    Seq::new(ps.len(), |i: int| spec_rotate_piece(ps[i], axis, neg, twice))
}

/// Apply the slices of a face rotation to the pieces, in order.
pub open spec fn spec_rotate_pieces_slices(
    ps: Seq<Piece>,
    axis: Axis,
    slices: Seq<int>,
    neg: bool,
    twice: bool,
) -> Seq<Piece>
    decreases slices.len(),
{
    if slices.len() == 0 {
        ps
    } else {
        spec_rotate_slice_pieces(
            spec_rotate_pieces_slices(ps, axis, slices.drop_last(), neg, twice),
            axis,
            slices.last(),
            neg,
            twice,
        )
    }
}

/// The full effect of a rotation event on the piece coordinates.
pub open spec fn spec_apply_event_pieces(ps: Seq<Piece>, e: EventView) -> Seq<Piece> {
    match e.rotation {
        RotationView::Face(axis, slices) => spec_rotate_pieces_slices(
            ps,
            axis,
            slices,
            e.negative_direction,
            e.twice,
        ),
        RotationView::Cube(axis) => spec_rotate_all_pieces(ps, axis, e.negative_direction, e.twice),
    }
}

impl Piece {
    /// The indices of all pieces that sit in the given slice, in increasing
    /// order.
    pub fn get_piece_indices(pieces: &Vec<Piece>, axis: Axis, slice_index: i32) -> (r: Vec<usize>)
        ensures
            forall|k: int|
                0 <= k < r@.len() ==> #[trigger] r@[k] < pieces@.len() && spec_axis_coord(
                    pieces@[r@[k] as int],
                    axis,
                ) == slice_index as int,
            forall|i: int|
                0 <= i < pieces@.len() && spec_axis_coord(#[trigger] pieces@[i], axis)
                    == slice_index as int ==> r@.contains(i as usize),
            forall|k: int| 0 <= k < r@.len() - 1 ==> #[trigger] r@[k] < r@[k + 1],
    {
        let mut result: Vec<usize> = Vec::new();
        let mut i: usize = 0;
        while i < pieces.len()
            invariant
                i <= pieces@.len(),
                forall|k: int|
                    0 <= k < result@.len() ==> #[trigger] result@[k] < i && spec_axis_coord(
                        pieces@[result@[k] as int],
                        axis,
                    ) == slice_index as int,
                forall|j: int|
                    0 <= j < i && spec_axis_coord(#[trigger] pieces@[j], axis)
                        == slice_index as int ==> result@.contains(j as usize),
                forall|k: int| 0 <= k < result@.len() - 1 ==> #[trigger] result@[k] < result@[k + 1],
            decreases pieces@.len() - i,
        {
            let matches_slice = match axis {
                Axis::X => pieces[i].current_x == slice_index,
                Axis::Y => pieces[i].current_y == slice_index,
                Axis::Z => pieces[i].current_z == slice_index,
            };
            let ghost before = result@;
            if matches_slice {
                result.push(i);
            }
            proof {
                assert forall|j: int|
                    0 <= j <= i && spec_axis_coord(#[trigger] pieces@[j], axis)
                        == slice_index as int implies result@.contains(j as usize) by {
                    if j < i {
                        assert(before.contains(j as usize));
                        let k = choose|k: int|
                            0 <= k < before.len() && before[k] == j as usize;
                        assert(result@[k] == j as usize);
                    } else {
                        assert(result@[result@.len() - 1] == i as usize);
                    }
                }
            }
            i = i + 1;
        }
        result
    }
}

/// One piece with its coordinates turned about the given axis.
fn rotate_one_piece(p: &Piece, axis: Axis, neg: bool, twice: bool) -> (r: Piece)
    requires
        -0x7fff_ffff <= p.current_x,
        -0x7fff_ffff <= p.current_y,
        -0x7fff_ffff <= p.current_z,
    ensures
        r == spec_rotate_piece(*p, axis, neg, twice),
{
    match axis {
        Axis::X => {
            if twice {
                Piece { current_x: p.current_x, current_y: -p.current_y, current_z: -p.current_z }
            } else if neg {
                Piece { current_x: p.current_x, current_y: p.current_z, current_z: -p.current_y }
            } else {
                Piece { current_x: p.current_x, current_y: -p.current_z, current_z: p.current_y }
            }
        },
        Axis::Y => {
            if twice {
                Piece { current_x: -p.current_x, current_y: p.current_y, current_z: -p.current_z }
            } else if neg {
                Piece { current_x: -p.current_z, current_y: p.current_y, current_z: p.current_x }
            } else {
                Piece { current_x: p.current_z, current_y: p.current_y, current_z: -p.current_x }
            }
        },
        Axis::Z => {
            if twice {
                Piece { current_x: -p.current_x, current_y: -p.current_y, current_z: p.current_z }
            } else if neg {
                Piece { current_x: p.current_y, current_y: -p.current_x, current_z: p.current_z }
            } else {
                Piece { current_x: -p.current_y, current_y: p.current_x, current_z: p.current_z }
            }
        },
    }
}

/// Turn the coordinates of every piece sitting in the named slice.
fn rotate_pieces_in_slice(
    pieces: &mut Vec<Piece>,
    cube_size: usize,
    axis: Axis,
    slice: i32,
    neg: bool,
    twice: bool,
)
    requires
        size_ok(cube_size as int),
        wf_pieces(old(pieces)@, cube_size as int),
    ensures
        final(pieces)@ == spec_rotate_slice_pieces(old(pieces)@, axis, slice as int, neg, twice),
        wf_pieces(final(pieces)@, cube_size as int),
{
    let ghost orig = pieces@;
    let ghost target = spec_rotate_slice_pieces(orig, axis, slice as int, neg, twice);
    let mut i: usize = 0;
    while i < pieces.len()
        invariant
            size_ok(cube_size as int),
            wf_pieces(orig, cube_size as int),
            pieces@.len() == orig.len(),
            i <= orig.len(),
            target == spec_rotate_slice_pieces(orig, axis, slice as int, neg, twice),
            forall|k: int| 0 <= k < i ==> pieces@[k] == target[k],
            forall|k: int| i <= k < orig.len() ==> pieces@[k] == orig[k],
        decreases orig.len() - i,
    {
        let p = pieces[i];
        let matches_slice = match axis {
            Axis::X => p.current_x == slice,
            Axis::Y => p.current_y == slice,
            Axis::Z => p.current_z == slice,
        };
        if matches_slice {
            proof {
                crate::slice::lemma_piece_index_bounds(cube_size as int);
                assert(wf_piece(orig[i as int], cube_size as int));
            }
            let rotated = rotate_one_piece(&p, axis, neg, twice);
            pieces.set(i, rotated);
        }
        i = i + 1;
    }
    proof {
        assert(pieces@ =~= target);
        crate::slice::lemma_piece_index_bounds(cube_size as int);
        assert forall|k: int| 0 <= k < target.len() implies wf_piece(
            #[trigger] target[k],
            cube_size as int,
        ) by {
            assert(wf_piece(orig[k], cube_size as int));
        }
    }
}

/// Turn the coordinates of every piece: a whole-cube rotation.
fn rotate_all_pieces(pieces: &mut Vec<Piece>, cube_size: usize, axis: Axis, neg: bool, twice: bool)
    requires
        size_ok(cube_size as int),
        wf_pieces(old(pieces)@, cube_size as int),
    ensures
        final(pieces)@ == spec_rotate_all_pieces(old(pieces)@, axis, neg, twice),
        wf_pieces(final(pieces)@, cube_size as int),
{
    let ghost orig = pieces@;
    let ghost target = spec_rotate_all_pieces(orig, axis, neg, twice);
    let mut i: usize = 0;
    while i < pieces.len()
        invariant
            size_ok(cube_size as int),
            wf_pieces(orig, cube_size as int),
            pieces@.len() == orig.len(),
            i <= orig.len(),
            target == spec_rotate_all_pieces(orig, axis, neg, twice),
            forall|k: int| 0 <= k < i ==> pieces@[k] == target[k],
            forall|k: int| i <= k < orig.len() ==> pieces@[k] == orig[k],
        decreases orig.len() - i,
    {
        let p = pieces[i];
        proof {
            crate::slice::lemma_piece_index_bounds(cube_size as int);
            assert(wf_piece(orig[i as int], cube_size as int));
        }
        let rotated = rotate_one_piece(&p, axis, neg, twice);
        pieces.set(i, rotated);
        i = i + 1;
    }
    proof {
        assert(pieces@ =~= target);
        crate::slice::lemma_piece_index_bounds(cube_size as int);
        assert forall|k: int| 0 <= k < target.len() implies wf_piece(
            #[trigger] target[k],
            cube_size as int,
        ) by {
            assert(wf_piece(orig[k], cube_size as int));
        }
    }
}

/// Apply a rotation event to the piece coordinates: for a face rotation,
/// every piece sitting in one of the named slices is turned; for a
/// whole-cube rotation, every piece is turned.  A half turn negates both
/// orthogonal coordinates in a single pass.
pub fn rotate_pieces(pieces: &mut Vec<Piece>, cube_size: usize, event: &CubeRotationEvent)
    requires
        size_ok(cube_size as int),
        wf_pieces(old(pieces)@, cube_size as int),
    ensures
        final(pieces)@ == spec_apply_event_pieces(old(pieces)@, event@),
        wf_pieces(final(pieces)@, cube_size as int),
{
    match &event.rotation {
        Rotation::Face(face_rotation) => {
            let neg = event.negative_direction;
            let twice = event.twice;
            let (axis, slices): (Axis, &Vec<i32>) = match face_rotation {
                FaceRotation::X(s) => (Axis::X, s),
                FaceRotation::Y(s) => (Axis::Y, s),
                FaceRotation::Z(s) => (Axis::Z, s),
            };
            let ghost slices_view = face_rotation@.1;
            let ghost orig = pieces@;
            proof {
                assert(slices_view =~= slices@.map_values(|x: i32| x as int));
            }
            let mut i: usize = 0;
            while i < slices.len()
                invariant
                    size_ok(cube_size as int),
                    wf_pieces(pieces@, cube_size as int),
                    i <= slices@.len(),
                    slices_view.len() == slices@.len(),
                    forall|k: int| 0 <= k < slices@.len() ==> slices_view[k] == slices@[k] as int,
                    pieces@ == spec_rotate_pieces_slices(
                        orig,
                        axis,
                        slices_view.take(i as int),
                        neg,
                        twice,
                    ),
                decreases slices@.len() - i,
            {
                let slice = slices[i];
                rotate_pieces_in_slice(pieces, cube_size, axis, slice, neg, twice);
                proof {
                    assert(slices_view.take(i + 1).drop_last() =~= slices_view.take(i as int));
                    assert(slices_view.take(i + 1).last() == slices_view[i as int]);
                }
                i = i + 1;
            }
            proof {
                assert(slices_view.take(slices@.len() as int) =~= slices_view);
                assert(event@.rotation == RotationView::Face(axis, slices_view));
            }
        },
        Rotation::Cube(cube_rotation) => {
            let axis = match cube_rotation {
                crate::rotation::CubeRotation::X => Axis::X,
                crate::rotation::CubeRotation::Y => Axis::Y,
                crate::rotation::CubeRotation::Z => Axis::Z,
            };
            rotate_all_pieces(pieces, cube_size, axis, event.negative_direction, event.twice);
        },
    }
}

} // verus!
