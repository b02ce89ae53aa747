//! Solving: a returned sequence really solves the cube, the solved cube
//! yields the empty sequence, and a state beyond the search depth is
//! reported as unsolved rather than answered wrongly.

use rubiks_cube::algorithms::super_flip;
use rubiks_cube::cube_state::CubeState;
use rubiks_cube::notation::Rotation3x3;
use rubiks_cube::scramble::create_scramble_sequence_from_algorithm;
use rubiks_cube::sequence::SequenceResource;
use rubiks_cube::solver::{
    get_solve_sequence, get_solve_sequence_with_gods_algorithm, get_solve_sequence_with_kociemba,
    SolveStrategy,
};

#[test]
fn solved_cube_needs_no_moves() {
    let cube_state = CubeState::new(3);
    let solution = get_solve_sequence(SolveStrategy::Kociemba, &cube_state)
        .expect("a solved cube must be answered");
    assert_eq!(solution.len(), 0);

    let solution = get_solve_sequence(SolveStrategy::GodsAlgorithm, &cube_state)
        .expect("a solved cube must be answered");
    assert_eq!(solution.len(), 0);
}

#[test]
fn kociemba_solves_a_short_scramble() {
    let mut cube_state = CubeState::new(3);
    let scramble = create_scramble_sequence_from_algorithm(&vec![Rotation3x3::R, Rotation3x3::U]);
    cube_state.handle_rotate_events(&scramble);
    assert!(!cube_state.is_solved());

    let solution = get_solve_sequence_with_kociemba(&cube_state).expect("within search depth");
    assert_eq!(solution.len(), 2);
    cube_state.handle_rotate_events(&solution);
    assert!(cube_state.is_solved());
}

#[test]
fn gods_algorithm_finds_a_shortest_solution() {
    let mut cube_state = CubeState::new(3);
    let scramble = create_scramble_sequence_from_algorithm(
        &vec![Rotation3x3::R, Rotation3x3::U2, Rotation3x3::FPrime],
    );
    cube_state.handle_rotate_events(&scramble);
    assert!(!cube_state.is_solved());

    let solution =
        get_solve_sequence_with_gods_algorithm(&cube_state).expect("within search depth");
    assert!(solution.len() <= 3);
    cube_state.handle_rotate_events(&solution);
    assert!(cube_state.is_solved());
}

#[test]
fn solver_works_on_a_2x2_cube() {
    let mut cube_state = CubeState::new(2);
    let scramble = create_scramble_sequence_from_algorithm(&vec![Rotation3x3::R, Rotation3x3::F]);
    cube_state.handle_rotate_events(&scramble);
    assert!(!cube_state.is_solved());

    let solution = get_solve_sequence(SolveStrategy::Kociemba, &cube_state)
        .expect("within search depth");
    cube_state.handle_rotate_events(&solution);
    assert!(cube_state.is_solved());
}

#[test]
fn solver_reports_failure_beyond_its_depth() {
    // The super flip needs twenty moves; the fast strategy's shallow
    // search cannot reach that and must say so.
    let mut cube_state = CubeState::new(3);
    let events = create_scramble_sequence_from_algorithm(&super_flip());
    cube_state.handle_rotate_events(&events);
    assert!(!cube_state.is_solved());

    assert!(get_solve_sequence_with_kociemba(&cube_state).is_none());
}

#[test]
fn sequence_resource_plays_back_in_order() {
    let mut resource = SequenceResource::default();
    assert!(resource.is_done());
    assert!(resource.next_step().is_none());

    let steps = create_scramble_sequence_from_algorithm(&vec![
        Rotation3x3::R,
        Rotation3x3::UPrime,
    ]);
    resource.set(steps.clone());
    assert!(!resource.is_done());

    let first = resource.next_step().expect("two steps were loaded");
    assert!(first.equals(&steps[0]));
    assert!(!resource.is_done());

    let second = resource.next_step().expect("two steps were loaded");
    assert!(second.equals(&steps[1]));
    assert!(resource.is_done());
    assert!(resource.next_step().is_none());

    // Loading a new sequence rewinds the playback position.
    resource.set(steps);
    assert!(!resource.is_done());
}
