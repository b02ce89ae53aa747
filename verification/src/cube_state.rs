//! The facelet state of the cube: six face grids, and the permutation
//! algorithms that apply a rotation event to them.
//!
//! The indices of a folded-out 3x3 cube are as follows:
//!
//! ```text
//!             0 1 2
//!             3 4 5                       --> top
//!             6 7 8
//!
//!     0 1 2   0 1 2   0 1 2   0 1 2
//!     3 4 5   3 4 5   3 4 5   3 4 5      --> left, front, right, back
//!     6 7 8   6 7 8   6 7 8   6 7 8
//!
//!             0 1 2
//!             3 4 5                       --> bottom
//!             6 7 8
//! ```

use vstd::prelude::*;

use crate::face::{
    fidx, spec_face_rotated_left, spec_face_rotated_right, spec_face_solved, Face, FaceState,
    lemma_decompose, lemma_fidx,
};
use crate::rotation::{Axis, CubeRotation, CubeRotationEvent, EventView, FaceRotation, Rotation,
    RotationView};
use crate::slice::{
    size_ok, slice_to_column_index, spec_slice_column, spec_valid_slice,
    lemma_slice_column_roundtrip,
};

verus! {

/// The six face grids of a cube.
#[derive(Clone, Debug, PartialEq)]
pub struct FaceStates {
    pub left: FaceState,
    pub right: FaceState,
    pub top: FaceState,
    pub bottom: FaceState,
    pub front: FaceState,
    pub back: FaceState,
}

/// Ghost view of the six face grids.
#[verifier::ext_equal]
pub struct FacesView {
    pub left: Seq<Face>,
    pub right: Seq<Face>,
    pub top: Seq<Face>,
    pub bottom: Seq<Face>,
    pub front: Seq<Face>,
    pub back: Seq<Face>,
}

impl View for FaceStates {
    type V = FacesView;

    open spec fn view(&self) -> FacesView {
        FacesView {
            left: self.left@,
            right: self.right@,
            top: self.top@,
            bottom: self.bottom@,
            front: self.front@,
            back: self.back@,
        }
    }
}

/// The full facelet state of one cube: its size and its six face grids.
pub struct CubeState {
    cube_size: usize,
    face_states: FaceStates,
}

/// Ghost view of a `CubeState`.
#[verifier::ext_equal]
pub struct CubeStateView {
    pub size: int,
    pub faces: FacesView,
}

impl View for CubeState {
    type V = CubeStateView;

    closed spec fn view(&self) -> CubeStateView {
        CubeStateView { size: self.cube_size as int, faces: self.face_states@ }
    }
}

/// Each face grid holds exactly `n * n` cells.
pub open spec fn wf_faces(v: FacesView, n: int) -> bool {
    &&& v.left.len() == n * n
    &&& v.right.len() == n * n
    &&& v.top.len() == n * n
    &&& v.bottom.len() == n * n
    &&& v.front.len() == n * n
    &&& v.back.len() == n * n
}

/// A well-formed cube: a workable size and six grids of that size.
pub open spec fn wf_cube(m: CubeStateView) -> bool {
    &&& size_ok(m.size)
    &&& m.size * m.size <= usize::MAX
    &&& wf_faces(m.faces, m.size)
}

/// The cube is solved when every face grid is homogeneous.
pub open spec fn spec_all_solved(v: FacesView) -> bool {
    &&& spec_face_solved(v.left)
    &&& spec_face_solved(v.right)
    &&& spec_face_solved(v.top)
    &&& spec_face_solved(v.bottom)
    &&& spec_face_solved(v.front)
    &&& spec_face_solved(v.back)
}

/// The face grids of a freshly built cube: each face homogeneous in its own
/// identity.
pub open spec fn spec_solved_faces(n: int) -> FacesView {
    FacesView {
        left: Seq::new((n * n) as nat, |j: int| Face::Left),
        right: Seq::new((n * n) as nat, |j: int| Face::Right),
        top: Seq::new((n * n) as nat, |j: int| Face::Top),
        bottom: Seq::new((n * n) as nat, |j: int| Face::Bottom),
        front: Seq::new((n * n) as nat, |j: int| Face::Front),
        back: Seq::new((n * n) as nat, |j: int| Face::Back),
    }
}

/// Overlay one column of `dst` with cells taken from a column of `src`:
/// cells in column `dcol` take the value of the `src` cell in column `scol`
/// and the same row, or the mirrored row when `flip` is set; all other
/// cells keep their `dst` value.
pub open spec fn spec_overlay_col_from_col(
    dst: Seq<Face>,
    src: Seq<Face>,
    n: int,
    dcol: int,
    scol: int,
    flip: bool,
) -> Seq<Face> {
    Seq::new(
        dst.len(),
        |j: int|
            if j % n == dcol {
                src[fidx(
                    if flip {
                        n - 1 - j / n
                    } else {
                        j / n
                    },
                    scol,
                    n,
                )]
            } else {
                dst[j]
            },
    )
}

/// Overlay one row of `dst` with cells taken from a row of `src`, with the
/// column mirrored when `flip` is set.
pub open spec fn spec_overlay_row_from_row(
    dst: Seq<Face>,
    src: Seq<Face>,
    n: int,
    drow: int,
    srow: int,
    flip: bool,
) -> Seq<Face> {
    Seq::new(
        dst.len(),
        |j: int|
            if j / n == drow {
                src[fidx(
                    srow,
                    if flip {
                        n - 1 - j % n
                    } else {
                        j % n
                    },
                    n,
                )]
            } else {
                dst[j]
            },
    )
}

/// Overlay one column of `dst` with cells taken from a row of `src`: the
/// destination row selects the source column, mirrored when `flip` is set.
pub open spec fn spec_overlay_col_from_row(
    dst: Seq<Face>,
    src: Seq<Face>,
    n: int,
    dcol: int,
    srow: int,
    flip: bool,
) -> Seq<Face> {
    Seq::new(
        dst.len(),
        |j: int|
            if j % n == dcol {
                src[fidx(
                    srow,
                    if flip {
                        n - 1 - j / n
                    } else {
                        j / n
                    },
                    n,
                )]
            } else {
                dst[j]
            },
    )
}

/// Overlay one row of `dst` with cells taken from a column of `src`: the
/// destination column selects the source row, mirrored when `flip` is set.
pub open spec fn spec_overlay_row_from_col(
    dst: Seq<Face>,
    src: Seq<Face>,
    n: int,
    drow: int,
    scol: int,
    flip: bool,
) -> Seq<Face> {
    Seq::new(
        dst.len(),
        |j: int|
            if j / n == drow {
                src[fidx(
                    if flip {
                        n - 1 - j % n
                    } else {
                        j % n
                    },
                    scol,
                    n,
                )]
            } else {
                dst[j]
            },
    )
}

/// One quarter turn of the slice at column `c` about the x axis.  The four
/// neighbour faces cycle top -> front -> bottom -> back -> top in the
/// default direction, and in reverse in the negative direction; the back
/// face is mirrored relative to the others.  A boundary slice also spins
/// the adjacent outer face.
pub open spec fn spec_x_slice(v: FacesView, n: int, c: int, neg: bool) -> FacesView {
    let moved = if neg {
        FacesView {
            top: spec_overlay_col_from_col(v.top, v.front, n, c, c, false),
            front: spec_overlay_col_from_col(v.front, v.bottom, n, c, c, false),
            bottom: spec_overlay_col_from_col(v.bottom, v.back, n, c, n - 1 - c, true),
            back: spec_overlay_col_from_col(v.back, v.top, n, n - 1 - c, c, true),
            ..v
        }
    } else {
        FacesView {
            front: spec_overlay_col_from_col(v.front, v.top, n, c, c, false),
            bottom: spec_overlay_col_from_col(v.bottom, v.front, n, c, c, false),
            back: spec_overlay_col_from_col(v.back, v.bottom, n, n - 1 - c, c, true),
            top: spec_overlay_col_from_col(v.top, v.back, n, c, n - 1 - c, true),
            ..v
        }
    };
    if c == n - 1 {
        if neg {
            FacesView { right: spec_face_rotated_right(moved.right, n), ..moved }
        } else {
            FacesView { right: spec_face_rotated_left(moved.right, n), ..moved }
        }
    } else if c == 0 {
        if neg {
            FacesView { left: spec_face_rotated_left(moved.left, n), ..moved }
        } else {
            FacesView { left: spec_face_rotated_right(moved.left, n), ..moved }
        }
    } else {
        moved
    }
}

/// One quarter turn of the slice at column `c` about the y axis.  The four
/// neighbour faces cycle front -> right -> back -> left -> front in the
/// default direction, all at the same row `n - 1 - c`.
pub open spec fn spec_y_slice(v: FacesView, n: int, c: int, neg: bool) -> FacesView {
    let r = n - 1 - c;
    let moved = if neg {
        FacesView {
            left: spec_overlay_row_from_row(v.left, v.front, n, r, r, false),
            back: spec_overlay_row_from_row(v.back, v.left, n, r, r, false),
            right: spec_overlay_row_from_row(v.right, v.back, n, r, r, false),
            front: spec_overlay_row_from_row(v.front, v.right, n, r, r, false),
            ..v
        }
    } else {
        FacesView {
            right: spec_overlay_row_from_row(v.right, v.front, n, r, r, false),
            back: spec_overlay_row_from_row(v.back, v.right, n, r, r, false),
            left: spec_overlay_row_from_row(v.left, v.back, n, r, r, false),
            front: spec_overlay_row_from_row(v.front, v.left, n, r, r, false),
            ..v
        }
    };
    if c == n - 1 {
        if neg {
            FacesView { top: spec_face_rotated_right(moved.top, n), ..moved }
        } else {
            FacesView { top: spec_face_rotated_left(moved.top, n), ..moved }
        }
    } else if c == 0 {
        if neg {
            FacesView { bottom: spec_face_rotated_left(moved.bottom, n), ..moved }
        } else {
            FacesView { bottom: spec_face_rotated_right(moved.bottom, n), ..moved }
        }
    } else {
        moved
    }
}

/// One quarter turn of the slice at column `c` about the z axis.  The four
/// neighbour faces cycle top -> left -> bottom -> right -> top in the
/// default direction, crossing between rows and columns with the mirroring
/// their coordinate systems require.
pub open spec fn spec_z_slice(v: FacesView, n: int, c: int, neg: bool) -> FacesView {
    let moved = if neg {
        FacesView {
            right: spec_overlay_col_from_row(v.right, v.top, n, n - 1 - c, c, false),
            bottom: spec_overlay_row_from_col(v.bottom, v.right, n, n - 1 - c, n - 1 - c, true),
            left: spec_overlay_col_from_row(v.left, v.bottom, n, c, n - 1 - c, false),
            top: spec_overlay_row_from_col(v.top, v.left, n, c, c, true),
            ..v
        }
    } else {
        FacesView {
            left: spec_overlay_col_from_row(v.left, v.top, n, c, c, true),
            bottom: spec_overlay_row_from_col(v.bottom, v.left, n, n - 1 - c, c, false),
            right: spec_overlay_col_from_row(v.right, v.bottom, n, n - 1 - c, n - 1 - c, true),
            top: spec_overlay_row_from_col(v.top, v.right, n, c, n - 1 - c, false),
            ..v
        }
    };
    if c == n - 1 {
        if neg {
            FacesView { front: spec_face_rotated_right(moved.front, n), ..moved }
        } else {
            FacesView { front: spec_face_rotated_left(moved.front, n), ..moved }
        }
    } else if c == 0 {
        if neg {
            FacesView { back: spec_face_rotated_left(moved.back, n), ..moved }
        } else {
            FacesView { back: spec_face_rotated_right(moved.back, n), ..moved }
        }
    } else {
        moved
    }
}

/// A whole-cube rotation: the four faces around the axis are cyclically
/// reassigned without internal rotation; the two faces on the axis keep
/// their grids.
pub open spec fn spec_cube_rotation(v: FacesView, axis: Axis, neg: bool) -> FacesView {
    match axis {
        Axis::X => if neg {
            FacesView { top: v.front, bottom: v.back, front: v.bottom, back: v.top, ..v }
        } else {
            FacesView { top: v.back, bottom: v.front, front: v.top, back: v.bottom, ..v }
        },
        Axis::Y => if neg {
            FacesView { front: v.left, back: v.right, left: v.back, right: v.front, ..v }
        } else {
            FacesView { front: v.right, back: v.left, left: v.front, right: v.back, ..v }
        },
        Axis::Z => if neg {
            FacesView { top: v.left, bottom: v.right, left: v.bottom, right: v.top, ..v }
        } else {
            FacesView { top: v.right, bottom: v.left, left: v.top, right: v.bottom, ..v }
        },
    }
}

/// One quarter turn of the slice at column `c` about the given axis.
pub open spec fn spec_slice_step(v: FacesView, n: int, axis: Axis, c: int, neg: bool) -> FacesView {
    match axis {
        Axis::X => spec_x_slice(v, n, c, neg),
        Axis::Y => spec_y_slice(v, n, c, neg),
        Axis::Z => spec_z_slice(v, n, c, neg),
    }
}

/// One quarter turn of the named slice; an invalid slice is skipped and
/// leaves the state unchanged.
pub open spec fn spec_apply_slice(v: FacesView, n: int, axis: Axis, slice: int, neg: bool) -> FacesView {
    if spec_valid_slice(slice, n) {
        spec_slice_step(v, n, axis, spec_slice_column(slice, n), neg)
    } else {
        v
    }
}

/// Apply the slices of a face rotation in order; invalid slices are
/// skipped without aborting the rest.
pub open spec fn spec_apply_slices(
    v: FacesView,
    n: int,
    axis: Axis,
    slices: Seq<int>,
    neg: bool,
) -> FacesView
    decreases slices.len(),
{
    if slices.len() == 0 {
        v
    } else {
        spec_apply_slice(
            spec_apply_slices(v, n, axis, slices.drop_last(), neg),
            n,
            axis,
            slices.last(),
            neg,
        )
    }
}

/// One application of a rotation event, ignoring its half-turn flag.
pub open spec fn spec_apply_once(v: FacesView, n: int, e: EventView) -> FacesView {
    match e.rotation {
        RotationView::Face(axis, slices) => spec_apply_slices(
            v,
            n,
            axis,
            slices,
            e.negative_direction,
        ),
        RotationView::Cube(axis) => spec_cube_rotation(v, axis, e.negative_direction),
    }
}

/// The full effect of a rotation event on the face grids: a half turn is
/// two sequential single applications.
pub open spec fn spec_apply_event(v: FacesView, n: int, e: EventView) -> FacesView {
    if e.twice {
        spec_apply_once(spec_apply_once(v, n, e), n, e)
    } else {
        spec_apply_once(v, n, e)
    }
}

/// The effect of a sequence of rotation events, applied in order.
pub open spec fn spec_apply_events(v: FacesView, n: int, es: Seq<EventView>) -> FacesView
    decreases es.len(),
{
    if es.len() == 0 {
        v
    } else {
        spec_apply_event(spec_apply_events(v, n, es.drop_last()), n, es.last())
    }
}

/// A grid with `len` cells all holding the same identity.
fn filled(face: Face, len: usize) -> (r: Vec<Face>)
    ensures
        r@ == Seq::new(len as nat, |j: int| face),
{
    let mut out: Vec<Face> = Vec::new();
    let mut j: usize = 0;
    while j < len
        invariant
            j <= len,
            out@.len() == j,
            forall|k: int| 0 <= k < j ==> out@[k] == face,
        decreases len - j,
    {
        out.push(face);
        j = j + 1;
    }
    proof {
        assert(out@ =~= Seq::new(len as nat, |j: int| face));
    }
    out
}

/// An element-wise copy of a face grid.
fn copy_grid(src: &Vec<Face>) -> (r: Vec<Face>)
    ensures
        r@ == src@,
{
    let mut out: Vec<Face> = Vec::new();
    let mut j: usize = 0;
    while j < src.len()
        invariant
            j <= src@.len(),
            out@.len() == j,
            forall|k: int| 0 <= k < j ==> out@[k] == src@[k],
        decreases src@.len() - j,
    {
        out.push(src[j]);
        j = j + 1;
    }
    proof {
        assert(out@ =~= src@);
    }
    out
}

/// Executable counterpart of `spec_overlay_col_from_col`.
fn overlay_col_from_col(
    dst: &Vec<Face>,
    src: &Vec<Face>,
    n: usize,
    dcol: usize,
    scol: usize,
    flip: bool,
) -> (r: Vec<Face>)
    requires
        1 <= n,
        n * n <= usize::MAX,
        dst@.len() == n * n,
        src@.len() == n * n,
        dcol < n,
        scol < n,
    ensures
        r@ == spec_overlay_col_from_col(dst@, src@, n as int, dcol as int, scol as int, flip),
{
    let ghost target = spec_overlay_col_from_col(
        dst@,
        src@,
        n as int,
        dcol as int,
        scol as int,
        flip,
    );
    let mut out: Vec<Face> = Vec::new();
    let mut j: usize = 0;
    while j < dst.len()
        invariant
            1 <= n,
            n * n <= usize::MAX,
            dst@.len() == n * n,
            src@.len() == n * n,
            dcol < n,
            scol < n,
            j <= n * n,
            out@.len() == j,
            target == spec_overlay_col_from_col(
                dst@,
                src@,
                n as int,
                dcol as int,
                scol as int,
                flip,
            ),
            forall|k: int| 0 <= k < j ==> out@[k] == target[k],
        decreases dst@.len() - j,
    {
        proof {
            lemma_decompose(j as int, n as int);
        }
        let row = j / n;
        let col = j % n;
        let cell = if col == dcol {
            let srow = if flip {
                n - 1 - row
            } else {
                row
            };
            proof {
                lemma_fidx(srow as int, scol as int, n as int);
            }
            src[srow * n + scol]
        } else {
            dst[j]
        };
        out.push(cell);
        j = j + 1;
    }
    proof {
        assert(out@ =~= target);
    }
    out
}

/// Executable counterpart of `spec_overlay_row_from_row`.
fn overlay_row_from_row(
    dst: &Vec<Face>,
    src: &Vec<Face>,
    n: usize,
    drow: usize,
    srow: usize,
    flip: bool,
) -> (r: Vec<Face>)
    requires
        1 <= n,
        n * n <= usize::MAX,
        dst@.len() == n * n,
        src@.len() == n * n,
        drow < n,
        srow < n,
    ensures
        r@ == spec_overlay_row_from_row(dst@, src@, n as int, drow as int, srow as int, flip),
{
    let ghost target = spec_overlay_row_from_row(
        dst@,
        src@,
        n as int,
        drow as int,
        srow as int,
        flip,
    );
    let mut out: Vec<Face> = Vec::new();
    let mut j: usize = 0;
    while j < dst.len()
        invariant
            1 <= n,
            n * n <= usize::MAX,
            dst@.len() == n * n,
            src@.len() == n * n,
            drow < n,
            srow < n,
            j <= n * n,
            out@.len() == j,
            target == spec_overlay_row_from_row(
                dst@,
                src@,
                n as int,
                drow as int,
                srow as int,
                flip,
            ),
            forall|k: int| 0 <= k < j ==> out@[k] == target[k],
        decreases dst@.len() - j,
    {
        proof {
            lemma_decompose(j as int, n as int);
        }
        let row = j / n;
        let col = j % n;
        let cell = if row == drow {
            let scol = if flip {
                n - 1 - col
            } else {
                col
            };
            proof {
                lemma_fidx(srow as int, scol as int, n as int);
            }
            src[srow * n + scol]
        } else {
            dst[j]
        };
        out.push(cell);
        j = j + 1;
    }
    proof {
        assert(out@ =~= target);
    }
    out
}

/// Executable counterpart of `spec_overlay_col_from_row`.
fn overlay_col_from_row(
    dst: &Vec<Face>,
    src: &Vec<Face>,
    n: usize,
    dcol: usize,
    srow: usize,
    flip: bool,
) -> (r: Vec<Face>)
    requires
        1 <= n,
        n * n <= usize::MAX,
        dst@.len() == n * n,
        src@.len() == n * n,
        dcol < n,
        srow < n,
    ensures
        r@ == spec_overlay_col_from_row(dst@, src@, n as int, dcol as int, srow as int, flip),
{
    let ghost target = spec_overlay_col_from_row(
        dst@,
        src@,
        n as int,
        dcol as int,
        srow as int,
        flip,
    );
    let mut out: Vec<Face> = Vec::new();
    let mut j: usize = 0;
    while j < dst.len()
        invariant
            1 <= n,
            n * n <= usize::MAX,
            dst@.len() == n * n,
            src@.len() == n * n,
            dcol < n,
            srow < n,
            j <= n * n,
            out@.len() == j,
            target == spec_overlay_col_from_row(
                dst@,
                src@,
                n as int,
                dcol as int,
                srow as int,
                flip,
            ),
            forall|k: int| 0 <= k < j ==> out@[k] == target[k],
        decreases dst@.len() - j,
    {
        proof {
            lemma_decompose(j as int, n as int);
        }
        let row = j / n;
        let col = j % n;
        let cell = if col == dcol {
            let scol = if flip {
                n - 1 - row
            } else {
                row
            };
            proof {
                lemma_fidx(srow as int, scol as int, n as int);
            }
            src[srow * n + scol]
        } else {
            dst[j]
        };
        out.push(cell);
        j = j + 1;
    }
    proof {
        assert(out@ =~= target);
    }
    out
}

/// Executable counterpart of `spec_overlay_row_from_col`.
fn overlay_row_from_col(
    dst: &Vec<Face>,
    src: &Vec<Face>,
    n: usize,
    drow: usize,
    scol: usize,
    flip: bool,
) -> (r: Vec<Face>)
    requires
        1 <= n,
        n * n <= usize::MAX,
        dst@.len() == n * n,
        src@.len() == n * n,
        drow < n,
        scol < n,
    ensures
        r@ == spec_overlay_row_from_col(dst@, src@, n as int, drow as int, scol as int, flip),
{
    let ghost target = spec_overlay_row_from_col(
        dst@,
        src@,
        n as int,
        drow as int,
        scol as int,
        flip,
    );
    let mut out: Vec<Face> = Vec::new();
    let mut j: usize = 0;
    while j < dst.len()
        invariant
            1 <= n,
            n * n <= usize::MAX,
            dst@.len() == n * n,
            src@.len() == n * n,
            drow < n,
            scol < n,
            j <= n * n,
            out@.len() == j,
            target == spec_overlay_row_from_col(
                dst@,
                src@,
                n as int,
                drow as int,
                scol as int,
                flip,
            ),
            forall|k: int| 0 <= k < j ==> out@[k] == target[k],
        decreases dst@.len() - j,
    {
        proof {
            lemma_decompose(j as int, n as int);
        }
        let row = j / n;
        let col = j % n;
        let cell = if row == drow {
            let srow = if flip {
                n - 1 - col
            } else {
                col
            };
            proof {
                lemma_fidx(srow as int, scol as int, n as int);
            }
            src[srow * n + scol]
        } else {
            dst[j]
        };
        out.push(cell);
        j = j + 1;
    }
    proof {
        assert(out@ =~= target);
    }
    out
}

impl FaceStates {
    /// The face grids of a freshly built, solved cube.
    pub fn new(cube_size: usize) -> (r: Self)
        requires
            cube_size * cube_size <= usize::MAX,
        ensures
            r@ == spec_solved_faces(cube_size as int),
    {
        let faces_per_side = cube_size * cube_size;
        FaceStates {
            left: FaceState(filled(Face::Left, faces_per_side)),
            right: FaceState(filled(Face::Right, faces_per_side)),
            top: FaceState(filled(Face::Top, faces_per_side)),
            bottom: FaceState(filled(Face::Bottom, faces_per_side)),
            front: FaceState(filled(Face::Front, faces_per_side)),
            back: FaceState(filled(Face::Back, faces_per_side)),
        }
    }
}

impl CubeState {
    /// A solved cube of the given size.
    pub fn new(cube_size: usize) -> (r: Self)
        requires
            size_ok(cube_size as int),
            cube_size * cube_size <= usize::MAX,
        ensures
            wf_cube(r@),
            r@.size == cube_size as int,
            r@.faces == spec_solved_faces(cube_size as int),
            spec_all_solved(r@.faces),
    {
        let result = CubeState { cube_size, face_states: FaceStates::new(cube_size) };
        result
    }

    /// The edge length of this cube.
    pub fn size(&self) -> (n: usize)
        ensures
            n as int == self@.size,
    {
        self.cube_size
    }

    /// Read access to the six face grids, for renderers and queries.
    pub fn face_states(&self) -> (r: &FaceStates)
        ensures
            r@ == self@.faces,
    {
        &self.face_states
    }

    /// Whether every face grid is homogeneous.
    pub fn is_solved(&self) -> (r: bool)
        requires
            wf_cube(self@),
        ensures
            r == spec_all_solved(self@.faces),
    {
        proof {
            assert(2 * 2 <= self@.size * self@.size) by (nonlinear_arith)
                requires
                    2 <= self@.size,
            ;
        }
        self.face_states.left.is_solved() && self.face_states.right.is_solved()
            && self.face_states.top.is_solved() && self.face_states.bottom.is_solved()
            && self.face_states.front.is_solved() && self.face_states.back.is_solved()
    }

    /// Whether the slice names a layer of this cube: within range, and not
    /// the non-existent centre of an even cube.
    fn can_rotate_slice(&self, slice: &i32) -> (r: bool)
        requires
            wf_cube(self@),
        ensures
            r == spec_valid_slice(*slice as int, self@.size),
    {
        let n = self.cube_size as i32;
        let lo = if n % 2 == 1 {
            let h = (n - 1) / 2;
            -h
        } else {
            let h = n / 2;
            -h
        };
        let hi = if n % 2 == 1 {
            (n - 1) / 2
        } else {
            n / 2
        };
        lo <= *slice && *slice <= hi && !(n % 2 == 0 && *slice == 0)
    }

    /// Rotate the slice at the given column about the x axis.
    fn rotate_x_slice(&mut self, column: usize, neg: bool)
        requires
            wf_cube(old(self)@),
            column < old(self)@.size,
        ensures
            wf_cube(final(self)@),
            final(self)@.size == old(self)@.size,
            final(self)@.faces == spec_x_slice(
                old(self)@.faces,
                old(self)@.size,
                column as int,
                neg,
            ),
    {
        let n = self.cube_size;
        if neg {
            let new_top = overlay_col_from_col(
                &self.face_states.top.0,
                &self.face_states.front.0,
                n,
                column,
                column,
                false,
            );
            let new_front = overlay_col_from_col(
                &self.face_states.front.0,
                &self.face_states.bottom.0,
                n,
                column,
                column,
                false,
            );
            let new_bottom = overlay_col_from_col(
                &self.face_states.bottom.0,
                &self.face_states.back.0,
                n,
                column,
                n - 1 - column,
                true,
            );
            let new_back = overlay_col_from_col(
                &self.face_states.back.0,
                &self.face_states.top.0,
                n,
                n - 1 - column,
                column,
                true,
            );
            self.face_states.top.0 = new_top;
            self.face_states.front.0 = new_front;
            self.face_states.bottom.0 = new_bottom;
            self.face_states.back.0 = new_back;
        } else {
            let new_front = overlay_col_from_col(
                &self.face_states.front.0,
                &self.face_states.top.0,
                n,
                column,
                column,
                false,
            );
            let new_bottom = overlay_col_from_col(
                &self.face_states.bottom.0,
                &self.face_states.front.0,
                n,
                column,
                column,
                false,
            );
            let new_back = overlay_col_from_col(
                &self.face_states.back.0,
                &self.face_states.bottom.0,
                n,
                n - 1 - column,
                column,
                true,
            );
            let new_top = overlay_col_from_col(
                &self.face_states.top.0,
                &self.face_states.back.0,
                n,
                column,
                n - 1 - column,
                true,
            );
            self.face_states.front.0 = new_front;
            self.face_states.bottom.0 = new_bottom;
            self.face_states.back.0 = new_back;
            self.face_states.top.0 = new_top;
        }
        if column == n - 1 {
            if neg {
                self.face_states.right.rotate_right(n);
            } else {
                self.face_states.right.rotate_left(n);
            }
        } else if column == 0 {
            if neg {
                self.face_states.left.rotate_left(n);
            } else {
                self.face_states.left.rotate_right(n);
            }
        }
    }

    /// Rotate the slice at the given column about the y axis.
    fn rotate_y_slice(&mut self, column: usize, neg: bool)
        requires
            wf_cube(old(self)@),
            column < old(self)@.size,
        ensures
            wf_cube(final(self)@),
            final(self)@.size == old(self)@.size,
            final(self)@.faces == spec_y_slice(
                old(self)@.faces,
                old(self)@.size,
                column as int,
                neg,
            ),
    {
        let n = self.cube_size;
        let row = n - 1 - column;
        if neg {
            let new_left = overlay_row_from_row(
                &self.face_states.left.0,
                &self.face_states.front.0,
                n,
                row,
                row,
                false,
            );
            let new_back = overlay_row_from_row(
                &self.face_states.back.0,
                &self.face_states.left.0,
                n,
                row,
                row,
                false,
            );
            let new_right = overlay_row_from_row(
                &self.face_states.right.0,
                &self.face_states.back.0,
                n,
                row,
                row,
                false,
            );
            let new_front = overlay_row_from_row(
                &self.face_states.front.0,
                &self.face_states.right.0,
                n,
                row,
                row,
                false,
            );
            self.face_states.left.0 = new_left;
            self.face_states.back.0 = new_back;
            self.face_states.right.0 = new_right;
            self.face_states.front.0 = new_front;
        } else {
            let new_right = overlay_row_from_row(
                &self.face_states.right.0,
                &self.face_states.front.0,
                n,
                row,
                row,
                false,
            );
            let new_back = overlay_row_from_row(
                &self.face_states.back.0,
                &self.face_states.right.0,
                n,
                row,
                row,
                false,
            );
            let new_left = overlay_row_from_row(
                &self.face_states.left.0,
                &self.face_states.back.0,
                n,
                row,
                row,
                false,
            );
            let new_front = overlay_row_from_row(
                &self.face_states.front.0,
                &self.face_states.left.0,
                n,
                row,
                row,
                false,
            );
            self.face_states.right.0 = new_right;
            self.face_states.back.0 = new_back;
            self.face_states.left.0 = new_left;
            self.face_states.front.0 = new_front;
        }
        if column == n - 1 {
            if neg {
                self.face_states.top.rotate_right(n);
            } else {
                self.face_states.top.rotate_left(n);
            }
        } else if column == 0 {
            if neg {
                self.face_states.bottom.rotate_left(n);
            } else {
                self.face_states.bottom.rotate_right(n);
            }
        }
    }

    /// Rotate the slice at the given column about the z axis.
    fn rotate_z_slice(&mut self, column: usize, neg: bool)
        requires
            wf_cube(old(self)@),
            column < old(self)@.size,
        ensures
            wf_cube(final(self)@),
            final(self)@.size == old(self)@.size,
            final(self)@.faces == spec_z_slice(
                old(self)@.faces,
                old(self)@.size,
                column as int,
                neg,
            ),
    {
        let n = self.cube_size;
        if neg {
            let new_right = overlay_col_from_row(
                &self.face_states.right.0,
                &self.face_states.top.0,
                n,
                n - 1 - column,
                column,
                false,
            );
            let new_bottom = overlay_row_from_col(
                &self.face_states.bottom.0,
                &self.face_states.right.0,
                n,
                n - 1 - column,
                n - 1 - column,
                true,
            );
            let new_left = overlay_col_from_row(
                &self.face_states.left.0,
                &self.face_states.bottom.0,
                n,
                column,
                n - 1 - column,
                false,
            );
            let new_top = overlay_row_from_col(
                &self.face_states.top.0,
                &self.face_states.left.0,
                n,
                column,
                column,
                true,
            );
            self.face_states.right.0 = new_right;
            self.face_states.bottom.0 = new_bottom;
            self.face_states.left.0 = new_left;
            self.face_states.top.0 = new_top;
        } else {
            let new_left = overlay_col_from_row(
                &self.face_states.left.0,
                &self.face_states.top.0,
                n,
                column,
                column,
                true,
            );
            let new_bottom = overlay_row_from_col(
                &self.face_states.bottom.0,
                &self.face_states.left.0,
                n,
                n - 1 - column,
                column,
                false,
            );
            let new_right = overlay_col_from_row(
                &self.face_states.right.0,
                &self.face_states.bottom.0,
                n,
                n - 1 - column,
                n - 1 - column,
                true,
            );
            let new_top = overlay_row_from_col(
                &self.face_states.top.0,
                &self.face_states.right.0,
                n,
                column,
                n - 1 - column,
                false,
            );
            self.face_states.left.0 = new_left;
            self.face_states.bottom.0 = new_bottom;
            self.face_states.right.0 = new_right;
            self.face_states.top.0 = new_top;
        }
        if column == n - 1 {
            if neg {
                self.face_states.front.rotate_right(n);
            } else {
                self.face_states.front.rotate_left(n);
            }
        } else if column == 0 {
            if neg {
                self.face_states.back.rotate_left(n);
            } else {
                self.face_states.back.rotate_right(n);
            }
        }
    }

    /// Reassign whole face grids for a whole-cube rotation.
    fn rotate_cube(&mut self, cube_rotation: CubeRotation, neg: bool)
        requires
            wf_cube(old(self)@),
        ensures
            wf_cube(final(self)@),
            final(self)@.size == old(self)@.size,
            final(self)@.faces == spec_cube_rotation(
                old(self)@.faces,
                match cube_rotation {
                    CubeRotation::X => Axis::X,
                    CubeRotation::Y => Axis::Y,
                    CubeRotation::Z => Axis::Z,
                },
                neg,
            ),
    {
        match cube_rotation {
            CubeRotation::X => {
                if neg {
                    let new_top = copy_grid(&self.face_states.front.0);
                    let new_bottom = copy_grid(&self.face_states.back.0);
                    let new_front = copy_grid(&self.face_states.bottom.0);
                    let new_back = copy_grid(&self.face_states.top.0);
                    self.face_states.top.0 = new_top;
                    self.face_states.bottom.0 = new_bottom;
                    self.face_states.front.0 = new_front;
                    self.face_states.back.0 = new_back;
                } else {
                    let new_top = copy_grid(&self.face_states.back.0);
                    let new_bottom = copy_grid(&self.face_states.front.0);
                    let new_front = copy_grid(&self.face_states.top.0);
                    let new_back = copy_grid(&self.face_states.bottom.0);
                    self.face_states.top.0 = new_top;
                    self.face_states.bottom.0 = new_bottom;
                    self.face_states.front.0 = new_front;
                    self.face_states.back.0 = new_back;
                }
            },
            CubeRotation::Y => {
                if neg {
                    let new_front = copy_grid(&self.face_states.left.0);
                    let new_back = copy_grid(&self.face_states.right.0);
                    let new_left = copy_grid(&self.face_states.back.0);
                    let new_right = copy_grid(&self.face_states.front.0);
                    self.face_states.front.0 = new_front;
                    self.face_states.back.0 = new_back;
                    self.face_states.left.0 = new_left;
                    self.face_states.right.0 = new_right;
                } else {
                    let new_front = copy_grid(&self.face_states.right.0);
                    let new_back = copy_grid(&self.face_states.left.0);
                    let new_left = copy_grid(&self.face_states.front.0);
                    let new_right = copy_grid(&self.face_states.back.0);
                    self.face_states.front.0 = new_front;
                    self.face_states.back.0 = new_back;
                    self.face_states.left.0 = new_left;
                    self.face_states.right.0 = new_right;
                }
            },
            CubeRotation::Z => {
                if neg {
                    let new_top = copy_grid(&self.face_states.left.0);
                    let new_bottom = copy_grid(&self.face_states.right.0);
                    let new_left = copy_grid(&self.face_states.bottom.0);
                    let new_right = copy_grid(&self.face_states.top.0);
                    self.face_states.top.0 = new_top;
                    self.face_states.bottom.0 = new_bottom;
                    self.face_states.left.0 = new_left;
                    self.face_states.right.0 = new_right;
                } else {
                    let new_top = copy_grid(&self.face_states.right.0);
                    let new_bottom = copy_grid(&self.face_states.left.0);
                    let new_left = copy_grid(&self.face_states.top.0);
                    let new_right = copy_grid(&self.face_states.bottom.0);
                    self.face_states.top.0 = new_top;
                    self.face_states.bottom.0 = new_bottom;
                    self.face_states.left.0 = new_left;
                    self.face_states.right.0 = new_right;
                }
            },
        }
    }

    /// One application of the event's rotation, ignoring its half-turn
    /// flag.
    fn apply_once(&mut self, event: &CubeRotationEvent)
        requires
            wf_cube(old(self)@),
        ensures
            wf_cube(final(self)@),
            final(self)@.size == old(self)@.size,
            final(self)@.faces == spec_apply_once(old(self)@.faces, old(self)@.size, event@),
    {
        match &event.rotation {
            Rotation::Face(face_rotation) => {
                let neg = event.negative_direction;
                let (axis, slices): (Axis, &Vec<i32>) = match face_rotation {
                    FaceRotation::X(s) => (Axis::X, s),
                    FaceRotation::Y(s) => (Axis::Y, s),
                    FaceRotation::Z(s) => (Axis::Z, s),
                };
                let ghost slices_view = face_rotation@.1;
                let ghost orig = self@.faces;
                let ghost n = self@.size;
                proof {
                    assert(slices_view =~= slices@.map_values(|x: i32| x as int));
                }
                let mut i: usize = 0;
                while i < slices.len()
                    invariant
                        wf_cube(self@),
                        self@.size == n,
                        i <= slices@.len(),
                        slices_view.len() == slices@.len(),
                        forall|k: int|
                            0 <= k < slices@.len() ==> slices_view[k] == slices@[k] as int,
                        self@.faces == spec_apply_slices(
                            orig,
                            n,
                            axis,
                            slices_view.take(i as int),
                            neg,
                        ),
                    decreases slices@.len() - i,
                {
                    let slice = slices[i];
                    if self.can_rotate_slice(&slice) {
                        proof {
                            lemma_slice_column_roundtrip(slice as int, n);
                        }
                        let column = slice_to_column_index(slice, self.cube_size);
                        match axis {
                            Axis::X => self.rotate_x_slice(column, neg),
                            Axis::Y => self.rotate_y_slice(column, neg),
                            Axis::Z => self.rotate_z_slice(column, neg),
                        }
                    }
                    proof {
                        assert(slices_view.take(i + 1).drop_last() =~= slices_view.take(i as int));
                        assert(slices_view.take(i + 1).last() == slices_view[i as int]);
                    }
                    i = i + 1;
                }
                proof {
                    assert(slices_view.take(slices@.len() as int) =~= slices_view);
                    assert(event@.rotation == RotationView::Face(axis, slices_view));
                }
            },
            Rotation::Cube(cube_rotation) => {
                self.rotate_cube(*cube_rotation, event.negative_direction);
            },
        }
    }

    /// Apply a whole sequence of rotation events, in order.
    pub fn handle_rotate_events(&mut self, events: &Vec<CubeRotationEvent>)
        requires
            wf_cube(old(self)@),
        ensures
            wf_cube(final(self)@),
            final(self)@.size == old(self)@.size,
            final(self)@.faces == spec_apply_events(
                old(self)@.faces,
                old(self)@.size,
                events@.map_values(|e: CubeRotationEvent| e@),
            ),
    {
        let ghost orig = self@.faces;
        let ghost n = self@.size;
        let ghost views = events@.map_values(|e: CubeRotationEvent| e@);
        let mut i: usize = 0;
        while i < events.len()
            invariant
                wf_cube(self@),
                self@.size == n,
                i <= events@.len(),
                views == events@.map_values(|e: CubeRotationEvent| e@),
                self@.faces == spec_apply_events(orig, n, views.take(i as int)),
            decreases events@.len() - i,
        {
            self.handle_rotate_event(&events[i]);
            proof {
                assert(views.take(i + 1).drop_last() =~= views.take(i as int));
                assert(views.take(i + 1).last() == views[i as int]);
            }
            i = i + 1;
        }
        proof {
            assert(views.take(events@.len() as int) =~= views);
        }
    }

    /// Apply a rotation event to the facelet state: a half turn is applied
    /// as two sequential single turns, and invalid slices within the event
    /// are skipped without aborting the rest.
    pub fn handle_rotate_event(&mut self, event: &CubeRotationEvent)
        requires
            wf_cube(old(self)@),
        ensures
            wf_cube(final(self)@),
            final(self)@.size == old(self)@.size,
            final(self)@.faces == spec_apply_event(old(self)@.faces, old(self)@.size, event@),
    {
        if event.twice {
            self.apply_once(event);
            self.apply_once(event);
        } else {
            self.apply_once(event);
        }
    }
}
impl Clone for FaceState {
    /// A copy with the same view.
    fn clone(&self) -> (r: Self)
        ensures
            r@ == self@,
    {
        FaceState(copy_grid(&self.0))
    }
}

impl Clone for CubeState {
    /// A copy with the same view.
    fn clone(&self) -> (r: Self)
        ensures
            r@ == self@,
    {
        CubeState {
            cube_size: self.cube_size,
            face_states: FaceStates {
                left: self.face_states.left.clone(),
                right: self.face_states.right.clone(),
                top: self.face_states.top.clone(),
                bottom: self.face_states.bottom.clone(),
                front: self.face_states.front.clone(),
                back: self.face_states.back.clone(),
            },
        }
    }
}

} // verus!
