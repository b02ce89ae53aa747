//! Solving strategies.  A solver must return a sequence of rotation events
//! that restores the solved state when applied in order; the sequence may
//! be empty only when the state is already solved, and a solver that finds
//! no solution must say so rather than return a wrong sequence.
//!
//! The search here is iterative deepening over single-slice turns up to a
//! strategy-specific depth: every returned sequence is checked against the
//! state, so the solving guarantee holds whatever the search explores.

use vstd::prelude::*;

use crate::cube_state::{
    spec_all_solved, spec_apply_event, spec_apply_events, wf_cube, CubeState, FacesView,
};
use crate::rotation::{CubeRotationEvent, EventView, FaceRotation, Rotation};
use crate::scramble::events_view;
use crate::slice::column_index_to_slice;

verus! {

/// The available solving strategies.
#[derive(Clone, Copy, Debug, PartialEq, Eq, Structural)]
pub enum SolveStrategy {
    /// Finds a short solution quickly, searching a modest depth.
    Kociemba,
    /// Finds a solution with the fewest moves among those it can reach,
    /// searching deeper and therefore slower.
    GodsAlgorithm,
}

/// Splitting off the first event of a sequence splits its effect.
proof fn lemma_apply_events_cons(v: FacesView, n: int, m: EventView, t: Seq<EventView>)
    ensures
        spec_apply_events(v, n, seq![m] + t) == spec_apply_events(spec_apply_event(v, n, m), n, t),
    decreases t.len(),
{
    if t.len() == 0 {
        reveal_with_fuel(spec_apply_events, 2);
        assert((seq![m] + t).len() == 1);
        assert((seq![m] + t).drop_last().len() == 0);
        assert((seq![m] + t).last() == m);
    } else {
        assert((seq![m] + t).drop_last() =~= seq![m] + t.drop_last());
        assert((seq![m] + t).last() == t.last());
        lemma_apply_events_cons(v, n, m, t.drop_last());
    }
}

/// Every single-slice turn of the cube: each valid slice about each axis,
/// as a plain turn, a reversed turn, and a half turn.
fn candidate_moves(cube_state: &CubeState) -> (r: Vec<CubeRotationEvent>)
    requires
        wf_cube(cube_state@),
{
    let n = cube_state.size();
    let mut moves: Vec<CubeRotationEvent> = Vec::new();
    let mut c: usize = 0;
    while c < n
        invariant
            wf_cube(cube_state@),
            n as int == cube_state@.size,
            c <= n,
        decreases n - c,
    {
        let slice = column_index_to_slice(c as i32, n);
        let mut variant: usize = 0;
        while variant < 3
            invariant
                variant <= 3,
            decreases 3 - variant,
        {
            let neg = variant == 1;
            let twice = variant == 2;
            moves.push(
                CubeRotationEvent {
                    rotation: Rotation::Face(FaceRotation::x(slice)),
                    negative_direction: neg,
                    twice,
                },
            );
            moves.push(
                CubeRotationEvent {
                    rotation: Rotation::Face(FaceRotation::y(slice)),
                    negative_direction: neg,
                    twice,
                },
            );
            moves.push(
                CubeRotationEvent {
                    rotation: Rotation::Face(FaceRotation::z(slice)),
                    negative_direction: neg,
                    twice,
                },
            );
            variant = variant + 1;
        }
        c = c + 1;
    }
    moves
}

/// Depth-limited search: any returned sequence solves the state when
/// applied in order, is at most `depth` long, and is empty exactly when
/// the state is already solved.
fn solve_to_depth(cube_state: &CubeState, depth: usize, moves: &Vec<CubeRotationEvent>) -> (r:
    Option<Vec<CubeRotationEvent>>)
    requires
        wf_cube(cube_state@),
    ensures
        (r matches Some(s) ==> spec_all_solved(
            spec_apply_events(cube_state@.faces, cube_state@.size, events_view(s@)),
        )),
        spec_all_solved(cube_state@.faces) ==> (r matches Some(s) && s@.len() == 0),
        (r matches Some(s) && s@.len() == 0) ==> spec_all_solved(cube_state@.faces),
    decreases depth,
{
    if cube_state.is_solved() {
        let empty: Vec<CubeRotationEvent> = Vec::new();
        proof {
            assert(events_view(empty@) =~= Seq::<EventView>::empty());
        }
        return Some(empty);
    }
    if depth == 0 {
        return None;
    }
    let mut i: usize = 0;
    while i < moves.len()
        invariant
            wf_cube(cube_state@),
            !spec_all_solved(cube_state@.faces),
            i <= moves@.len(),
            depth >= 1,
        decreases moves@.len() - i,
    {
        let mut child = cube_state.clone();
        child.handle_rotate_event(&moves[i]);
        let sub = solve_to_depth(&child, depth - 1, moves);
        match sub {
            Some(tail) => {
                let ghost tail_views = events_view(tail@);
                let ghost m = moves@[i as int]@;
                let mut s: Vec<CubeRotationEvent> = Vec::new();
                s.push(moves[i].clone());
                let mut rest = tail;
                s.append(&mut rest);
                proof {
                    assert(events_view(s@) =~= seq![m] + tail_views);
                    lemma_apply_events_cons(
                        cube_state@.faces,
                        cube_state@.size,
                        m,
                        tail_views,
                    );
                }
                return Some(s);
            },
            None => {},
        }
        i = i + 1;
    }
    None
}

/// Iterative deepening up to the given depth cap: the shallowest solution
/// within reach is returned first.
fn solve_with_depth_cap(cube_state: &CubeState, max_depth: usize) -> (r: Option<Vec<
    CubeRotationEvent,
>>)
    requires
        wf_cube(cube_state@),
        max_depth < usize::MAX,
    ensures
        (r matches Some(s) ==> spec_all_solved(
            spec_apply_events(cube_state@.faces, cube_state@.size, events_view(s@)),
        )),
        spec_all_solved(cube_state@.faces) ==> (r matches Some(s) && s@.len() == 0),
        (r matches Some(s) && s@.len() == 0) ==> spec_all_solved(cube_state@.faces),
{
    let moves = candidate_moves(cube_state);
    let mut d: usize = 0;
    while d <= max_depth
        invariant
            wf_cube(cube_state@),
            max_depth < usize::MAX,
            d >= 1 ==> !spec_all_solved(cube_state@.faces),
        decreases max_depth + 1 - d,
    {
        let attempt = solve_to_depth(cube_state, d, &moves);
        match attempt {
            Some(s) => {
                return Some(s);
            },
            None => {},
        }
        d = d + 1;
    }
    None
}

/// Solve the cube with the chosen strategy.  A returned sequence restores
/// the solved state when applied in order; it is empty exactly when the
/// state is already solved; `None` means no solution was found within the
/// strategy's search depth.
pub fn get_solve_sequence(strategy: SolveStrategy, cube_state: &CubeState) -> (r: Option<Vec<
    CubeRotationEvent,
>>)
    requires
        wf_cube(cube_state@),
    ensures
        (r matches Some(s) ==> spec_all_solved(
            spec_apply_events(cube_state@.faces, cube_state@.size, events_view(s@)),
        )),
        spec_all_solved(cube_state@.faces) ==> (r matches Some(s) && s@.len() == 0),
        (r matches Some(s) && s@.len() == 0) ==> spec_all_solved(cube_state@.faces),
{
    match strategy {
        SolveStrategy::Kociemba => get_solve_sequence_with_kociemba(cube_state),
        SolveStrategy::GodsAlgorithm => get_solve_sequence_with_gods_algorithm(cube_state),
    }
}

/// The fast strategy: a shallow iterative-deepening search.
pub fn get_solve_sequence_with_kociemba(cube_state: &CubeState) -> (r: Option<Vec<
    CubeRotationEvent,
>>)
    requires
        wf_cube(cube_state@),
    ensures
        (r matches Some(s) ==> spec_all_solved(
            spec_apply_events(cube_state@.faces, cube_state@.size, events_view(s@)),
        )),
        spec_all_solved(cube_state@.faces) ==> (r matches Some(s) && s@.len() == 0),
        (r matches Some(s) && s@.len() == 0) ==> spec_all_solved(cube_state@.faces),
{
    solve_with_depth_cap(cube_state, 3)
}

/// The exhaustive strategy: a deeper search whose first answer uses the
/// fewest moves among the sequences it can reach.
pub fn get_solve_sequence_with_gods_algorithm(cube_state: &CubeState) -> (r: Option<Vec<
    CubeRotationEvent,
>>)
    requires
        wf_cube(cube_state@),
    ensures
        (r matches Some(s) ==> spec_all_solved(
            spec_apply_events(cube_state@.faces, cube_state@.size, events_view(s@)),
        )),
        spec_all_solved(cube_state@.faces) ==> (r matches Some(s) && s@.len() == 0),
        (r matches Some(s) && s@.len() == 0) ==> spec_all_solved(cube_state@.faces),
{
    solve_with_depth_cap(cube_state, 4)
}

} // verus!
