//! Named cubing algorithms for the 3x3 cube: fixed sequences of moves in
//! cubing notation.

use vstd::prelude::*;

use crate::notation::Rotation3x3;

verus! {

/// Keeps every piece in place but flips two edge pieces.  Running the
/// algorithm twice returns the cube to its initial state.
pub fn flipped_pieces() -> (r: Vec<Rotation3x3>)
    ensures
        r@ == seq![
            Rotation3x3::R,
            Rotation3x3::L,
            Rotation3x3::F,
            Rotation3x3::R2,
            Rotation3x3::F,
            Rotation3x3::RPrime,
            Rotation3x3::L,
            Rotation3x3::DPrime,
            Rotation3x3::R2,
            Rotation3x3::D2,
            Rotation3x3::F2,
            Rotation3x3::L2,
            Rotation3x3::B2,
            Rotation3x3::UPrime,
            Rotation3x3::R2,
            Rotation3x3::B2,
        ],
{
    let r = vec![
        Rotation3x3::R,
        Rotation3x3::L,
        Rotation3x3::F,
        Rotation3x3::R2,
        Rotation3x3::F,
        Rotation3x3::RPrime,
        Rotation3x3::L,
        Rotation3x3::DPrime,
        Rotation3x3::R2,
        Rotation3x3::D2,
        Rotation3x3::F2,
        Rotation3x3::L2,
        Rotation3x3::B2,
        Rotation3x3::UPrime,
        Rotation3x3::R2,
        Rotation3x3::B2,
    ];
    r
}

/// Scrambling with this algorithm yields a state that needs 20 moves to
/// solve, the largest number an optimal strategy can ever need.
///
/// D' R2 F' D2 F2 U2 L' R D' R2 B F R' U2 L' F2 R' U2 R' U'
pub fn super_flip() -> (r: Vec<Rotation3x3>)
    ensures
        r@ == seq![
            Rotation3x3::DPrime,
            Rotation3x3::R2,
            Rotation3x3::FPrime,
            Rotation3x3::D2,
            Rotation3x3::F2,
            Rotation3x3::U2,
            Rotation3x3::LPrime,
            Rotation3x3::R,
            Rotation3x3::DPrime,
            Rotation3x3::R2,
            Rotation3x3::B,
            Rotation3x3::F,
            Rotation3x3::RPrime,
            Rotation3x3::U2,
            Rotation3x3::LPrime,
            Rotation3x3::F2,
            Rotation3x3::RPrime,
            Rotation3x3::U2,
            Rotation3x3::RPrime,
            Rotation3x3::UPrime,
        ],
{
    let r = vec![
        Rotation3x3::DPrime,
        Rotation3x3::R2,
        Rotation3x3::FPrime,
        Rotation3x3::D2,
        Rotation3x3::F2,
        Rotation3x3::U2,
        Rotation3x3::LPrime,
        Rotation3x3::R,
        Rotation3x3::DPrime,
        Rotation3x3::R2,
        Rotation3x3::B,
        Rotation3x3::F,
        Rotation3x3::RPrime,
        Rotation3x3::U2,
        Rotation3x3::LPrime,
        Rotation3x3::F2,
        Rotation3x3::RPrime,
        Rotation3x3::U2,
        Rotation3x3::RPrime,
        Rotation3x3::UPrime,
    ];
    r
}

/// An algorithm used in F2L.  Running it six times returns the cube to its
/// initial state.  And yes, this is the algorithm's real cubing name.
pub fn sexy_right() -> (r: Vec<Rotation3x3>)
    ensures
        r@ == seq![Rotation3x3::R, Rotation3x3::U, Rotation3x3::RPrime, Rotation3x3::UPrime],
{
    let r = vec![Rotation3x3::R, Rotation3x3::U, Rotation3x3::RPrime, Rotation3x3::UPrime];
    r
}

/// An algorithm used in F2L.  Running it six times returns the cube to its
/// initial state.
pub fn sexy_left() -> (r: Vec<Rotation3x3>)
    ensures
        r@ == seq![Rotation3x3::LPrime, Rotation3x3::UPrime, Rotation3x3::L, Rotation3x3::U],
{
    let r = vec![Rotation3x3::LPrime, Rotation3x3::UPrime, Rotation3x3::L, Rotation3x3::U];
    r
}

/// An algorithm used in F2L.  Running it six times returns the cube to its
/// initial state.
pub fn sexy_left_inverted() -> (r: Vec<Rotation3x3>)
    ensures
        r@ == seq![Rotation3x3::UPrime, Rotation3x3::LPrime, Rotation3x3::U, Rotation3x3::L],
{
    let r = vec![Rotation3x3::UPrime, Rotation3x3::LPrime, Rotation3x3::U, Rotation3x3::L];
    r
}

/// An algorithm used in F2L.  Running it six times returns the cube to its
/// initial state.
pub fn sexy_right_inverted() -> (r: Vec<Rotation3x3>)
    ensures
        r@ == seq![Rotation3x3::U, Rotation3x3::R, Rotation3x3::UPrime, Rotation3x3::RPrime],
{
    let r = vec![Rotation3x3::U, Rotation3x3::R, Rotation3x3::UPrime, Rotation3x3::RPrime];
    r
}

} // verus!
