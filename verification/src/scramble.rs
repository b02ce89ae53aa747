//! Scramble generation: turning an algorithm into an event sequence, and
//! building random scrambles that avoid wasted moves.  A candidate move is
//! rejected when it directly negates the previous accepted move, or when it
//! would repeat the same turn a third time in a row.

use vstd::prelude::*;

use crate::notation::Rotation3x3;
use crate::rotation::{
    spec_negates, spec_same_event, spec_valid_single_face_event, Axis, CubeRotationEvent,
    EventView, FaceRotation, Rotation,
};
use crate::slice::{size_ok, CubeSize};

verus! {

/// The views of a sequence of rotation events.
pub open spec fn events_view(s: Seq<CubeRotationEvent>) -> Seq<EventView> {
    s.map_values(|e: CubeRotationEvent| e@)
}

/// Whether a candidate move may follow the accepted moves so far: it must
/// not negate the last move, and must not repeat the same turn a third
/// time in a row.
pub open spec fn spec_accepts(acc: Seq<EventView>, e: EventView) -> bool {
    &&& !(acc.len() >= 1 && spec_negates(e, acc.last()))
    &&& !(acc.len() >= 2 && spec_same_event(e, acc.last()) && spec_same_event(
        e,
        acc[acc.len() - 2],
    ))
}

/// The scramble built from a stream of candidate moves: walk the candidates
/// in order, appending each accepted one, until `length` moves are
/// collected or the candidates run out.
pub open spec fn spec_scramble(acc: Seq<EventView>, cands: Seq<EventView>, length: int) -> Seq<
    EventView,
>
    decreases cands.len(),
{
    if acc.len() >= length || cands.len() == 0 {
        acc
    } else {
        let acc2 = if spec_accepts(acc, cands[0]) {
            acc.push(cands[0])
        } else {
            acc
        };
        spec_scramble(acc2, cands.skip(1), length)
    }
}

/// No move in the sequence negates the one before it, and no turn appears
/// three times in a row.
pub open spec fn spec_no_redundant_moves(s: Seq<EventView>) -> bool {
    &&& forall|i: int| 0 <= i < s.len() - 1 ==> !#[trigger] spec_negates(s[i + 1], s[i])
    &&& forall|i: int|
        0 <= i < s.len() - 2 ==> !(#[trigger] spec_same_event(s[i + 2], s[i + 1])
            && spec_same_event(s[i + 2], s[i]))
}

/// Translate a cubing algorithm into the equivalent rotation events, in
/// order.
pub fn create_scramble_sequence_from_algorithm(algorithm: &Vec<Rotation3x3>) -> (r: Vec<
    CubeRotationEvent,
>)
    ensures
        r@.len() == algorithm@.len(),
        forall|i: int| 0 <= i < r@.len() ==> (#[trigger] r@[i])@ == algorithm@[i].spec_event(),
{
    let mut result: Vec<CubeRotationEvent> = Vec::new();
    let mut i: usize = 0;
    while i < algorithm.len()
        invariant
            i <= algorithm@.len(),
            result@.len() == i,
            forall|k: int| 0 <= k < i ==> (#[trigger] result@[k])@ == algorithm@[k].spec_event(),
        decreases algorithm@.len() - i,
    {
        result.push(algorithm[i].to_event());
        i = i + 1;
    }
    result
}

/// Build a scramble from a fixed stream of candidate moves, rejecting the
/// redundant ones.  The result is a pure function of the candidates and
/// the requested length, so a reproducible candidate source yields a
/// reproducible scramble.
pub fn create_scramble_sequence_from_candidates(
    candidates: &Vec<CubeRotationEvent>,
    number_of_rotations: usize,
) -> (r: Vec<CubeRotationEvent>)
    ensures
        events_view(r@) == spec_scramble(
            Seq::<EventView>::empty(),
            events_view(candidates@),
            number_of_rotations as int,
        ),
        r@.len() <= number_of_rotations,
        spec_no_redundant_moves(events_view(r@)),
{
    let ghost cands = events_view(candidates@);
    let ghost goal = spec_scramble(
        Seq::<EventView>::empty(),
        cands,
        number_of_rotations as int,
    );
    let mut result: Vec<CubeRotationEvent> = Vec::new();
    let mut i: usize = 0;
    proof {
        assert(cands.skip(0) =~= cands);
        assert(events_view(result@) =~= Seq::<EventView>::empty());
    }
    while i < candidates.len() && result.len() < number_of_rotations
        invariant
            i <= candidates@.len(),
            result@.len() <= number_of_rotations,
            cands == events_view(candidates@),
            goal == spec_scramble(
                events_view(result@),
                cands.skip(i as int),
                number_of_rotations as int,
            ),
            spec_no_redundant_moves(events_view(result@)),
        decreases candidates@.len() - i,
    {
        let candidate = &candidates[i];
        let ghost acc = events_view(result@);
        let accept = candidate_accepted(&result, candidate);
        proof {
            assert(cands[i as int] == candidates@[i as int]@);
            assert(cands.skip(i as int)[0] == cands[i as int]);
            assert(cands.skip(i as int).skip(1) =~= cands.skip(i + 1));
        }
        if accept {
            result.push(candidate.clone());
            proof {
                assert(events_view(result@) =~= acc.push(cands[i as int]));
            }
        }
        i = i + 1;
    }
    proof {
        if i == candidates@.len() {
            assert(cands.skip(i as int) =~= Seq::<EventView>::empty());
        }
    }
    result
}

/// Whether a candidate move may follow the accepted moves so far,
/// computed over the executable events.
fn candidate_accepted(accepted_moves: &Vec<CubeRotationEvent>, candidate: &CubeRotationEvent) -> (r:
    bool)
    ensures
        r == spec_accepts(events_view(accepted_moves@), candidate@),
{
    let ghost acc = events_view(accepted_moves@);
    proof {
        assert(acc.len() >= 1 ==> acc.last() == accepted_moves@[accepted_moves@.len() - 1]@);
        assert(acc.len() >= 2 ==> acc[acc.len() - 2] == accepted_moves@[accepted_moves@.len()
            - 2]@);
    }
    if accepted_moves.len() >= 1 {
        if candidate.negates(&accepted_moves[accepted_moves.len() - 1]) {
            return false;
        }
    }
    if accepted_moves.len() >= 2 {
        if candidate.equals(&accepted_moves[accepted_moves.len() - 1]) && candidate.equals(
            &accepted_moves[accepted_moves.len() - 2],
        ) {
            return false;
        }
    }
    true
}

/// The axis to fall back to when a drawn move clashes with the previous
/// one: any axis other than the previous move's axis can neither negate it
/// nor repeat it.
fn other_axis(previous: Axis) -> (r: Axis)
    ensures
        r != previous,
{
    match previous {
        Axis::X => Axis::Y,
        Axis::Y => Axis::Z,
        Axis::Z => Axis::X,
    }
}

/// A single-slice face rotation assembled from an axis, a slice and a
/// direction.
fn assemble_face_event(axis: Axis, slice: i32, neg: bool) -> (r: CubeRotationEvent)
    ensures
        r@ == (EventView {
            rotation: spec_face_rotation_view(axis, slice as int),
            negative_direction: neg,
            twice: false,
        }),
{
    let face_rotation = match axis {
        Axis::X => FaceRotation::x(slice),
        Axis::Y => FaceRotation::y(slice),
        Axis::Z => FaceRotation::z(slice),
    };
    CubeRotationEvent {
        rotation: Rotation::Face(face_rotation),
        negative_direction: neg,
        twice: false,
    }
}

/// The view of a single-slice face rotation about the given axis.
pub open spec fn spec_face_rotation_view(axis: Axis, slice: int) -> crate::rotation::RotationView {
    crate::rotation::RotationView::Face(axis, seq![slice])
}

/// Generate a random scramble of exactly the requested length: every move
/// is a single-slice face rotation of a valid slice, no move negates the
/// one before it, and no turn appears three times in a row.  A drawn move
/// that would be redundant is redrawn; after a run of redundant draws it
/// is replaced by the same turn about another axis, which is always
/// acceptable, so the scramble is completed in a bounded number of draws.
pub fn create_random_scramble_sequence(
    cube_size: &CubeSize,
    number_of_rotations: usize,
) -> (r: Vec<CubeRotationEvent>)
    requires
        size_ok(cube_size.0 as int),
    ensures
        r@.len() == number_of_rotations,
        spec_no_redundant_moves(events_view(r@)),
        forall|i: int|
            0 <= i < r@.len() ==> spec_valid_single_face_event(
                #[trigger] events_view(r@)[i],
                cube_size.0 as int,
            ),
{
    let mut result: Vec<CubeRotationEvent> = Vec::new();
    while result.len() < number_of_rotations
        invariant
            size_ok(cube_size.0 as int),
            result@.len() <= number_of_rotations,
            spec_no_redundant_moves(events_view(result@)),
            forall|k: int|
                0 <= k < result@.len() ==> spec_valid_single_face_event(
                    #[trigger] events_view(result@)[k],
                    cube_size.0 as int,
                ),
        decreases number_of_rotations - result@.len(),
    {
        let ghost acc = events_view(result@);
        let mut candidate = CubeRotationEvent::random_face_rotation(cube_size);
        let mut accepted = candidate_accepted(&result, &candidate);
        let mut attempts: usize = 0;
        while !accepted && attempts < 8
            invariant
                size_ok(cube_size.0 as int),
                attempts <= 8,
                acc == events_view(result@),
                result@.len() <= number_of_rotations,
                spec_no_redundant_moves(events_view(result@)),
                forall|k: int|
                    0 <= k < result@.len() ==> spec_valid_single_face_event(
                        #[trigger] events_view(result@)[k],
                        cube_size.0 as int,
                    ),
                spec_valid_single_face_event(candidate@, cube_size.0 as int),
                accepted == spec_accepts(events_view(result@), candidate@),
            decreases 8 - attempts,
        {
            candidate = CubeRotationEvent::random_face_rotation(cube_size);
            accepted = candidate_accepted(&result, &candidate);
            attempts = attempts + 1;
        }
        let chosen: CubeRotationEvent = if accepted {
            candidate
        } else {
            // Every redraw clashed with the previous moves, so the previous
            // move exists and is a face rotation; the same turn about
            // another axis can neither negate it nor repeat it.
            let previous_axis = match &result[result.len() - 1].rotation {
                Rotation::Face(FaceRotation::X(_)) => Axis::X,
                Rotation::Face(FaceRotation::Y(_)) => Axis::Y,
                Rotation::Face(FaceRotation::Z(_)) => Axis::Z,
                Rotation::Cube(_) => {
                    proof {
                        assert(false);
                    }
                    Axis::X
                },
            };
            let (slice, neg): (i32, bool) = match (&candidate.rotation, candidate.negative_direction) {
                (Rotation::Face(FaceRotation::X(s)), d) => (s[0], d),
                (Rotation::Face(FaceRotation::Y(s)), d) => (s[0], d),
                (Rotation::Face(FaceRotation::Z(s)), d) => (s[0], d),
                (Rotation::Cube(_), d) => {
                    proof {
                        assert(false);
                    }
                    (1, d)
                },
            };
            let axis = other_axis(previous_axis);
            assemble_face_event(axis, slice, neg)
        };
        proof {
            assert(acc.len() >= 1 ==> acc.last() == result@[result@.len() - 1]@);
            assert(acc.len() >= 2 ==> acc[acc.len() - 2] == result@[result@.len() - 2]@);
            assert(spec_accepts(acc, chosen@));
        }
        result.push(chosen);
        proof {
            assert(events_view(result@) =~= acc.push(chosen@));
        }
    }
    result
}

} // verus!
