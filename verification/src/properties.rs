//! Proved laws of the rotation model: four equal quarter turns are the
//! identity, whole-cube rotations preserve solvedness, and a face turn
//! leaves the freshly built cube visibly scrambled until the fourth turn.

use vstd::prelude::*;

use crate::cube_state::{
    spec_all_solved, spec_apply_event, spec_apply_slice, spec_apply_slices, spec_cube_rotation,
    spec_slice_step, spec_solved_faces, spec_x_slice, spec_y_slice, spec_z_slice, wf_faces,
    FacesView,
};
use crate::face::{
    fidx, lemma_decompose, lemma_face_rotation_four_times, lemma_fidx, spec_face_solved, Face,
};
use crate::pieces::{
    spec_rotate_all_pieces, spec_rotate_piece, spec_rotate_slice_pieces, wf_piece, wf_pieces,
    Piece,
};
use crate::rotation::{spec_valid_single_face_event, Axis, EventView, RotationView};
use crate::slice::{
    lemma_piece_index_bounds, lemma_slice_column_roundtrip, size_ok, spec_slice_column,
    spec_valid_slice,
};

verus! {

/// Four quarter turns of one slice about the x axis restore the face grids.
proof fn lemma_x_slice_four(v: FacesView, n: int, c: int, neg: bool)
    requires
        2 <= n,
        wf_faces(v, n),
        0 <= c < n,
    ensures
        spec_x_slice(
            spec_x_slice(spec_x_slice(spec_x_slice(v, n, c, neg), n, c, neg), n, c, neg),
            n,
            c,
            neg,
        ) == v,
{
    let v1 = spec_x_slice(v, n, c, neg);
    let v2 = spec_x_slice(v1, n, c, neg);
    let v3 = spec_x_slice(v2, n, c, neg);
    let v4 = spec_x_slice(v3, n, c, neg);
    assert forall|j: int| 0 <= j < n * n implies v4.front[j] == v.front[j] && v4.top[j] == v.top[j]
        && v4.bottom[j] == v.bottom[j] && v4.back[j] == v.back[j] by {
        lemma_decompose(j, n);
        lemma_fidx(n - 1 - j / n, n - 1 - c, n);
        lemma_fidx(n - 1 - j / n, c, n);
        lemma_fidx(j / n, n - 1 - c, n);
        lemma_fidx(j / n, c, n);
    }
    if c == n - 1 {
        lemma_face_rotation_four_times(v.right, n);
    }
    if c == 0 {
        lemma_face_rotation_four_times(v.left, n);
    }
    assert(v4 =~= v);
}

/// Four quarter turns of one slice about the y axis restore the face grids.
proof fn lemma_y_slice_four(v: FacesView, n: int, c: int, neg: bool)
    requires
        2 <= n,
        wf_faces(v, n),
        0 <= c < n,
    ensures
        spec_y_slice(
            spec_y_slice(spec_y_slice(spec_y_slice(v, n, c, neg), n, c, neg), n, c, neg),
            n,
            c,
            neg,
        ) == v,
{
    let v1 = spec_y_slice(v, n, c, neg);
    let v2 = spec_y_slice(v1, n, c, neg);
    let v3 = spec_y_slice(v2, n, c, neg);
    let v4 = spec_y_slice(v3, n, c, neg);
    assert forall|j: int| 0 <= j < n * n implies v4.front[j] == v.front[j] && v4.left[j]
        == v.left[j] && v4.right[j] == v.right[j] && v4.back[j] == v.back[j] by {
        lemma_decompose(j, n);
        lemma_fidx(n - 1 - c, j % n, n);
    }
    if c == n - 1 {
        lemma_face_rotation_four_times(v.top, n);
    }
    if c == 0 {
        lemma_face_rotation_four_times(v.bottom, n);
    }
    assert(v4 =~= v);
}

/// Four quarter turns of one slice about the z axis restore the face grids.
#[verifier::rlimit(100)]
proof fn lemma_z_slice_four(v: FacesView, n: int, c: int, neg: bool)
    requires
        2 <= n,
        wf_faces(v, n),
        0 <= c < n,
    ensures
        spec_z_slice(
            spec_z_slice(spec_z_slice(spec_z_slice(v, n, c, neg), n, c, neg), n, c, neg),
            n,
            c,
            neg,
        ) == v,
{
    let v1 = spec_z_slice(v, n, c, neg);
    let v2 = spec_z_slice(v1, n, c, neg);
    let v3 = spec_z_slice(v2, n, c, neg);
    let v4 = spec_z_slice(v3, n, c, neg);
    assert forall|j: int| 0 <= j < n * n implies v4.top[j] == v.top[j] && v4.left[j] == v.left[j]
        && v4.right[j] == v.right[j] && v4.bottom[j] == v.bottom[j] by {
        lemma_decompose(j, n);
        lemma_fidx(c, j / n, n);
        lemma_fidx(c, n - 1 - j / n, n);
        lemma_fidx(n - 1 - c, j / n, n);
        lemma_fidx(n - 1 - c, n - 1 - j / n, n);
        lemma_fidx(j % n, c, n);
        lemma_fidx(n - 1 - j % n, c, n);
        lemma_fidx(j % n, n - 1 - c, n);
        lemma_fidx(n - 1 - j % n, n - 1 - c, n);
        lemma_fidx(c, j % n, n);
        lemma_fidx(c, n - 1 - j % n, n);
        lemma_fidx(n - 1 - c, j % n, n);
        lemma_fidx(n - 1 - c, n - 1 - j % n, n);
        lemma_fidx(j / n, c, n);
        lemma_fidx(n - 1 - j / n, c, n);
        lemma_fidx(j / n, n - 1 - c, n);
        lemma_fidx(n - 1 - j / n, n - 1 - c, n);
    }
    if c == n - 1 {
        lemma_face_rotation_four_times(v.front, n);
    }
    if c == 0 {
        lemma_face_rotation_four_times(v.back, n);
    }
    assert(v4 =~= v);
}

/// Four quarter turns of one slice about any axis restore the face grids.
pub proof fn lemma_slice_step_four(v: FacesView, n: int, axis: Axis, c: int, neg: bool)
    requires
        2 <= n,
        wf_faces(v, n),
        0 <= c < n,
    ensures
        spec_slice_step(
            spec_slice_step(
                spec_slice_step(spec_slice_step(v, n, axis, c, neg), n, axis, c, neg),
                n,
                axis,
                c,
                neg,
            ),
            n,
            axis,
            c,
            neg,
        ) == v,
{
    match axis {
        Axis::X => lemma_x_slice_four(v, n, c, neg),
        Axis::Y => lemma_y_slice_four(v, n, c, neg),
        Axis::Z => lemma_z_slice_four(v, n, c, neg),
    }
}

/// Applying a single-slice face-rotation event is one quarter turn of that
/// slice.
pub proof fn lemma_single_event_step(v: FacesView, n: int, e: EventView)
    requires
        spec_valid_single_face_event(e, n),
    ensures
        (match e.rotation {
            RotationView::Face(axis, slices) => spec_apply_event(v, n, e) == spec_slice_step(
                v,
                n,
                axis,
                spec_slice_column(slices[0], n),
                e.negative_direction,
            ),
            RotationView::Cube(_) => false,
        }),
{
    match e.rotation {
        RotationView::Face(axis, slices) => {
            assert(slices.drop_last().len() == 0);
            assert(spec_apply_slices(v, n, axis, slices.drop_last(), e.negative_direction) == v);
            assert(slices.last() == slices[0]);
            assert(spec_apply_event(v, n, e) == spec_apply_slice(
                v,
                n,
                axis,
                slices[0],
                e.negative_direction,
            ));
        },
        RotationView::Cube(_) => {
            assert(false);
        },
    }
}

/// Applying one single-slice face rotation four times, in the same
/// direction, returns the face grids to their starting value.
pub proof fn lemma_face_rotation_event_four_times(v: FacesView, n: int, e: EventView)
    requires
        2 <= n,
        wf_faces(v, n),
        spec_valid_single_face_event(e, n),
    ensures
        spec_apply_event(
            spec_apply_event(spec_apply_event(spec_apply_event(v, n, e), n, e), n, e),
            n,
            e,
        ) == v,
{
    match e.rotation {
        RotationView::Face(axis, slices) => {
            let c = spec_slice_column(slices[0], n);
            lemma_slice_column_roundtrip(slices[0], n);
            let v1 = spec_apply_event(v, n, e);
            let v2 = spec_apply_event(v1, n, e);
            let v3 = spec_apply_event(v2, n, e);
            lemma_single_event_step(v, n, e);
            lemma_single_event_step(v1, n, e);
            lemma_single_event_step(v2, n, e);
            lemma_single_event_step(v3, n, e);
            lemma_slice_step_four(v, n, axis, c, e.negative_direction);
        },
        RotationView::Cube(_) => {
            assert(false);
        },
    }
}

/// A grid holding two different identities is not solved.
proof fn lemma_two_cells_unsolved(s: Seq<Face>, j1: int, j2: int)
    requires
        0 <= j1 < s.len(),
        0 <= j2 < s.len(),
        s[j1] != s[j2],
    ensures
        !spec_face_solved(s),
{
}

/// The witness cells for a turn about the x axis.
#[verifier::rlimit(100)]
proof fn lemma_x_turn_unsolves(n: int, e: EventView)
    requires
        2 <= n,
        spec_valid_single_face_event(e, n),
        e.rotation matches RotationView::Face(Axis::X, _),
    ensures
        !spec_all_solved(spec_apply_event(spec_solved_faces(n), n, e)),
        !spec_all_solved(
            spec_apply_event(spec_apply_event(spec_solved_faces(n), n, e), n, e),
        ),
        !spec_all_solved(
            spec_apply_event(
                spec_apply_event(spec_apply_event(spec_solved_faces(n), n, e), n, e),
                n,
                e,
            ),
        ),
{
    let neg = e.negative_direction;
    let slices = e.rotation->Face_1;
    let c = spec_slice_column(slices[0], n);
    lemma_slice_column_roundtrip(slices[0], n);
    let v0 = spec_solved_faces(n);
    let v1 = spec_apply_event(v0, n, e);
    let v2 = spec_apply_event(v1, n, e);
    let v3 = spec_apply_event(v2, n, e);
    lemma_single_event_step(v0, n, e);
    lemma_single_event_step(v1, n, e);
    lemma_single_event_step(v2, n, e);
    let cc = n - 1 - c;
    let c2: int = if c == 0 {
        1
    } else {
        0
    };
    let j = fidx(0, c, n);
    let j2 = fidx(0, c2, n);
    lemma_fidx(0, c, n);
    lemma_fidx(0, c2, n);
    lemma_fidx(n - 1, cc, n);
    let m = fidx(n - 1, cc, n);
    if neg {
        assert(v1.top[j] == Face::Front && v1.top[j2] == Face::Top);
        assert(v1.front[j] == Face::Bottom);
        assert(v1.bottom[j] == v0.back[m] && v0.back[m] == Face::Back);
        assert(v2.top[j] == v1.front[j]);
        assert(v3.top[j] == v2.front[j] && v2.front[j] == v1.bottom[j]);
        assert(v2.top[j2] == Face::Top && v3.top[j2] == Face::Top);
        lemma_two_cells_unsolved(v1.top, j, j2);
        lemma_two_cells_unsolved(v2.top, j, j2);
        lemma_two_cells_unsolved(v3.top, j, j2);
    } else {
        assert(v1.front[j] == Face::Top && v1.front[j2] == Face::Front);
        assert(v1.top[j] == v0.back[m] && v0.back[m] == Face::Back);
        assert(v1.back[m] == v0.bottom[fidx(0, c, n)] && v0.bottom[j] == Face::Bottom);
        assert(v2.front[j] == v1.top[j]);
        assert(v3.front[j] == v2.top[j] && v2.top[j] == v1.back[m]);
        assert(v2.front[j2] == Face::Front && v3.front[j2] == Face::Front);
        lemma_two_cells_unsolved(v1.front, j, j2);
        lemma_two_cells_unsolved(v2.front, j, j2);
        lemma_two_cells_unsolved(v3.front, j, j2);
    }
}

/// The witness cells for a turn about the y axis.
#[verifier::rlimit(100)]
proof fn lemma_y_turn_unsolves(n: int, e: EventView)
    requires
        2 <= n,
        spec_valid_single_face_event(e, n),
        e.rotation matches RotationView::Face(Axis::Y, _),
    ensures
        !spec_all_solved(spec_apply_event(spec_solved_faces(n), n, e)),
        !spec_all_solved(
            spec_apply_event(spec_apply_event(spec_solved_faces(n), n, e), n, e),
        ),
        !spec_all_solved(
            spec_apply_event(
                spec_apply_event(spec_apply_event(spec_solved_faces(n), n, e), n, e),
                n,
                e,
            ),
        ),
{
    let neg = e.negative_direction;
    let slices = e.rotation->Face_1;
    let c = spec_slice_column(slices[0], n);
    lemma_slice_column_roundtrip(slices[0], n);
    let v0 = spec_solved_faces(n);
    let v1 = spec_apply_event(v0, n, e);
    let v2 = spec_apply_event(v1, n, e);
    let v3 = spec_apply_event(v2, n, e);
    lemma_single_event_step(v0, n, e);
    lemma_single_event_step(v1, n, e);
    lemma_single_event_step(v2, n, e);
    let cc = n - 1 - c;
    let r = n - 1 - c;
    let r2: int = if r == 0 {
        1
    } else {
        0
    };
    let j = fidx(r, 0, n);
    let j2 = fidx(r2, 0, n);
    lemma_fidx(r, 0, n);
    lemma_fidx(r2, 0, n);
    if neg {
        assert(v1.left[j] == Face::Front && v1.left[j2] == Face::Left);
        assert(v1.front[j] == Face::Right);
        assert(v1.right[j] == Face::Back);
        assert(v2.left[j] == v1.front[j]);
        assert(v3.left[j] == v2.front[j] && v2.front[j] == v1.right[j]);
        assert(v2.left[j2] == Face::Left && v3.left[j2] == Face::Left);
        lemma_two_cells_unsolved(v1.left, j, j2);
        lemma_two_cells_unsolved(v2.left, j, j2);
        lemma_two_cells_unsolved(v3.left, j, j2);
    } else {
        assert(v1.right[j] == Face::Front && v1.right[j2] == Face::Right);
        assert(v1.front[j] == Face::Left);
        assert(v1.left[j] == Face::Back);
        assert(v2.right[j] == v1.front[j]);
        assert(v3.right[j] == v2.front[j] && v2.front[j] == v1.left[j]);
        assert(v2.right[j2] == Face::Right && v3.right[j2] == Face::Right);
        lemma_two_cells_unsolved(v1.right, j, j2);
        lemma_two_cells_unsolved(v2.right, j, j2);
        lemma_two_cells_unsolved(v3.right, j, j2);
    }
}

/// The witness cells for a turn about the z axis.
#[verifier::rlimit(100)]
proof fn lemma_z_turn_unsolves(n: int, e: EventView)
    requires
        2 <= n,
        spec_valid_single_face_event(e, n),
        e.rotation matches RotationView::Face(Axis::Z, _),
    ensures
        !spec_all_solved(spec_apply_event(spec_solved_faces(n), n, e)),
        !spec_all_solved(
            spec_apply_event(spec_apply_event(spec_solved_faces(n), n, e), n, e),
        ),
        !spec_all_solved(
            spec_apply_event(
                spec_apply_event(spec_apply_event(spec_solved_faces(n), n, e), n, e),
                n,
                e,
            ),
        ),
{
    let neg = e.negative_direction;
    let slices = e.rotation->Face_1;
    let c = spec_slice_column(slices[0], n);
    lemma_slice_column_roundtrip(slices[0], n);
    let v0 = spec_solved_faces(n);
    let v1 = spec_apply_event(v0, n, e);
    let v2 = spec_apply_event(v1, n, e);
    let v3 = spec_apply_event(v2, n, e);
    lemma_single_event_step(v0, n, e);
    lemma_single_event_step(v1, n, e);
    lemma_single_event_step(v2, n, e);
    let cc = n - 1 - c;
    if neg {
        let d2: int = if cc == 0 {
            1
        } else {
            0
        };
        let j = fidx(0, cc, n);
        let j2 = fidx(0, d2, n);
        let a = fidx(c, 0, n);
        let b = fidx(n - 1, c, n);
        lemma_fidx(0, cc, n);
        lemma_fidx(0, d2, n);
        lemma_fidx(c, 0, n);
        lemma_fidx(n - 1, c, n);
        assert(v1.right[j] == v0.top[a] && v0.top[a] == Face::Top);
        assert(v1.top[a] == v0.left[b] && v0.left[b] == Face::Left);
        assert(v1.left[b] == v0.bottom[fidx(cc, n - 1, n)]) by {
            lemma_fidx(cc, n - 1, n);
        }
        assert(v0.bottom[fidx(cc, n - 1, n)] == Face::Bottom) by {
            lemma_fidx(cc, n - 1, n);
        }
        assert(v2.right[j] == v1.top[a]);
        assert(v3.right[j] == v2.top[a] && v2.top[a] == v1.left[b]);
        assert(v1.right[j2] == Face::Right && v2.right[j2] == Face::Right && v3.right[j2]
            == Face::Right);
        lemma_two_cells_unsolved(v1.right, j, j2);
        lemma_two_cells_unsolved(v2.right, j, j2);
        lemma_two_cells_unsolved(v3.right, j, j2);
    } else {
        let c2: int = if c == 0 {
            1
        } else {
            0
        };
        let j = fidx(0, c, n);
        let j2 = fidx(0, c2, n);
        let a = fidx(c, n - 1, n);
        let b = fidx(n - 1, cc, n);
        lemma_fidx(0, c, n);
        lemma_fidx(0, c2, n);
        lemma_fidx(c, n - 1, n);
        lemma_fidx(n - 1, cc, n);
        assert(v1.left[j] == v0.top[a] && v0.top[a] == Face::Top);
        assert(v1.top[a] == v0.right[b] && v0.right[b] == Face::Right);
        assert(v1.right[b] == v0.bottom[fidx(cc, 0, n)]) by {
            lemma_fidx(cc, 0, n);
        }
        assert(v0.bottom[fidx(cc, 0, n)] == Face::Bottom) by {
            lemma_fidx(cc, 0, n);
        }
        assert(v2.left[j] == v1.top[a]);
        assert(v3.left[j] == v2.top[a] && v2.top[a] == v1.right[b]);
        assert(v1.left[j2] == Face::Left && v2.left[j2] == Face::Left && v3.left[j2]
            == Face::Left);
        lemma_two_cells_unsolved(v1.left, j, j2);
        lemma_two_cells_unsolved(v2.left, j, j2);
        lemma_two_cells_unsolved(v3.left, j, j2);
    }
}

/// Starting from the freshly built cube, one, two or three applications of
/// a single-slice face rotation leave the cube visibly scrambled; only the
/// fourth restores it.
pub proof fn lemma_face_rotation_event_unsolves(n: int, e: EventView)
    requires
        2 <= n,
        spec_valid_single_face_event(e, n),
    ensures
        !spec_all_solved(spec_apply_event(spec_solved_faces(n), n, e)),
        !spec_all_solved(
            spec_apply_event(spec_apply_event(spec_solved_faces(n), n, e), n, e),
        ),
        !spec_all_solved(
            spec_apply_event(
                spec_apply_event(spec_apply_event(spec_solved_faces(n), n, e), n, e),
                n,
                e,
            ),
        ),
{
    match e.rotation {
        RotationView::Face(axis, _) => {
            match axis {
                Axis::X => lemma_x_turn_unsolves(n, e),
                Axis::Y => lemma_y_turn_unsolves(n, e),
                Axis::Z => lemma_z_turn_unsolves(n, e),
            }
        },
        RotationView::Cube(_) => {
            assert(false);
        },
    }
}

/// Four quarter turns restore a piece's coordinates, and so do two half
/// turns: the piece model turns with the same period as the facelet model.
pub proof fn lemma_rotate_piece_four_times(p: Piece, axis: Axis, neg: bool)
    requires
        -0x7fff_ffff <= p.current_x <= 0x7fff_ffff,
        -0x7fff_ffff <= p.current_y <= 0x7fff_ffff,
        -0x7fff_ffff <= p.current_z <= 0x7fff_ffff,
    ensures
        spec_rotate_piece(
            spec_rotate_piece(
                spec_rotate_piece(spec_rotate_piece(p, axis, neg, false), axis, neg, false),
                axis,
                neg,
                false,
            ),
            axis,
            neg,
            false,
        ) == p,
        spec_rotate_piece(spec_rotate_piece(p, axis, neg, true), axis, neg, true) == p,
{
}

/// Four quarter turns of one slice restore every piece's coordinates.
pub proof fn lemma_slice_pieces_four_times(
    ps: Seq<Piece>,
    n: int,
    axis: Axis,
    slice: int,
    neg: bool,
)
    requires
        size_ok(n),
        wf_pieces(ps, n),
    ensures
        spec_rotate_slice_pieces(
            spec_rotate_slice_pieces(
                spec_rotate_slice_pieces(
                    spec_rotate_slice_pieces(ps, axis, slice, neg, false),
                    axis,
                    slice,
                    neg,
                    false,
                ),
                axis,
                slice,
                neg,
                false,
            ),
            axis,
            slice,
            neg,
            false,
        ) == ps,
{
    let ps4 = spec_rotate_slice_pieces(
        spec_rotate_slice_pieces(
            spec_rotate_slice_pieces(
                spec_rotate_slice_pieces(ps, axis, slice, neg, false),
                axis,
                slice,
                neg,
                false,
            ),
            axis,
            slice,
            neg,
            false,
        ),
        axis,
        slice,
        neg,
        false,
    );
    assert forall|i: int| 0 <= i < ps.len() implies ps4[i] == ps[i] by {
        lemma_piece_index_bounds(n);
        assert(wf_piece(ps[i], n));
        lemma_rotate_piece_four_times(ps[i], axis, neg);
    }
    assert(ps4 =~= ps);
}

/// Four applications of one whole-cube rotation restore every piece's
/// coordinates.
pub proof fn lemma_all_pieces_four_times(ps: Seq<Piece>, n: int, axis: Axis, neg: bool)
    requires
        size_ok(n),
        wf_pieces(ps, n),
    ensures
        spec_rotate_all_pieces(
            spec_rotate_all_pieces(
                spec_rotate_all_pieces(spec_rotate_all_pieces(ps, axis, neg, false), axis, neg, false),
                axis,
                neg,
                false,
            ),
            axis,
            neg,
            false,
        ) == ps,
{
    let ps4 = spec_rotate_all_pieces(
        spec_rotate_all_pieces(
            spec_rotate_all_pieces(spec_rotate_all_pieces(ps, axis, neg, false), axis, neg, false),
            axis,
            neg,
            false,
        ),
        axis,
        neg,
        false,
    );
    assert forall|i: int| 0 <= i < ps.len() implies ps4[i] == ps[i] by {
        lemma_piece_index_bounds(n);
        assert(wf_piece(ps[i], n));
        lemma_rotate_piece_four_times(ps[i], axis, neg);
    }
    assert(ps4 =~= ps);
}

/// Four applications of one whole-cube rotation restore the face grids.
pub proof fn lemma_cube_rotation_four_times(v: FacesView, axis: Axis, neg: bool)
    ensures
        spec_cube_rotation(
            spec_cube_rotation(
                spec_cube_rotation(spec_cube_rotation(v, axis, neg), axis, neg),
                axis,
                neg,
            ),
            axis,
            neg,
        ) == v,
{
    let v4 = spec_cube_rotation(
        spec_cube_rotation(
            spec_cube_rotation(spec_cube_rotation(v, axis, neg), axis, neg),
            axis,
            neg,
        ),
        axis,
        neg,
    );
    assert(v4 =~= v);
}

/// A whole-cube rotation only reassigns whole face grids, so a solved cube
/// stays solved under it.
pub proof fn lemma_cube_rotation_preserves_solved(v: FacesView, axis: Axis, neg: bool)
    requires
        spec_all_solved(v),
    ensures
        spec_all_solved(spec_cube_rotation(v, axis, neg)),
{
}

/// A whole-cube rotation event (single or half turn, either direction)
/// keeps a solved cube solved.
pub proof fn lemma_cube_rotation_event_preserves_solved(v: FacesView, n: int, e: EventView)
    requires
        spec_all_solved(v),
        e.rotation is Cube,
    ensures
        spec_all_solved(spec_apply_event(v, n, e)),
{
    match e.rotation {
        RotationView::Cube(axis) => {
            lemma_cube_rotation_preserves_solved(v, axis, e.negative_direction);
            if e.twice {
                lemma_cube_rotation_preserves_solved(
                    spec_cube_rotation(v, axis, e.negative_direction),
                    axis,
                    e.negative_direction,
                );
            }
        },
        RotationView::Face(_, _) => {
            assert(false);
        },
    }
}

/// Four applications of one whole-cube rotation event that is not a half
/// turn restore the face grids.
pub proof fn lemma_cube_rotation_event_four_times(v: FacesView, n: int, e: EventView)
    requires
        e.rotation is Cube,
        !e.twice,
    ensures
        spec_apply_event(
            spec_apply_event(spec_apply_event(spec_apply_event(v, n, e), n, e), n, e),
            n,
            e,
        ) == v,
{
    match e.rotation {
        RotationView::Cube(axis) => {
            lemma_cube_rotation_four_times(v, axis, e.negative_direction);
        },
        RotationView::Face(_, _) => {
            assert(false);
        },
    }
}

} // verus!
