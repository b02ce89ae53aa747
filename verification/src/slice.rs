//! Conversion between signed slice coordinates and unsigned column indices.
//!
//! A slice is a cube-centred signed coordinate naming one layer of the cube
//! perpendicular to an axis.  A column index is the 0-based index used to
//! address the flat per-face arrays.  Odd cubes have a centre slice 0; even
//! cubes have no centre, so slice 0 does not name a layer there.

use vstd::prelude::*;

verus! {

/// The edge length of a cube, e.g. 3 for a 3x3 cube.
#[derive(Clone, Debug)]
pub struct CubeSize(pub i32);

/// Sizes the slice arithmetic is defined for: at least 2, and small enough
/// that column indices fit in an `i32`.
pub open spec fn size_ok(n: int) -> bool {
    2 <= n <= 0x7fff_ffff
}

/// The most negative slice coordinate of a cube of size `n`.
pub open spec fn spec_lowest_piece_index(n: int) -> int {
    if n % 2 == 1 {
        -((n - 1) / 2)
    } else {
        -(n / 2)
    }
}

/// The most positive slice coordinate of a cube of size `n`.
pub open spec fn spec_highest_piece_index(n: int) -> int {
    if n % 2 == 1 {
        (n - 1) / 2
    } else {
        n / 2
    }
}

/// The column index that the slice coordinate addresses.
pub open spec fn spec_slice_column(slice: int, n: int) -> int {
    if n % 2 == 0 {
        if slice > 0 {
            slice - 1 + n / 2
        } else {
            slice + n / 2
        }
    } else {
        slice + (n - 1) / 2
    }
}

/// The slice coordinate that addresses the column index.
pub open spec fn spec_column_slice(column: int, n: int) -> int {
    if n % 2 == 0 {
        if column + 1 <= n / 2 {
            -(n / 2 - column)
        } else {
            column - n / 2 + 1
        }
    } else {
        column - (n - 1) / 2
    }
}

/// A slice names a layer of the cube: it lies within the coordinate range,
/// and it is not the non-existent centre of an even cube.
pub open spec fn spec_valid_slice(slice: int, n: int) -> bool {
    &&& spec_lowest_piece_index(n) <= slice <= spec_highest_piece_index(n)
    &&& !(n % 2 == 0 && slice == 0)
}

impl CubeSize {
    /// The most negative piece/slice coordinate of this cube size.
    pub fn lowest_piece_index(&self) -> (r: i32)
        requires
            size_ok(self.0 as int),
        ensures
            r == spec_lowest_piece_index(self.0 as int),
    {
        if self.0 % 2 == 1 {
            let h = (self.0 - 1) / 2;
            -h
        } else {
            let h = self.0 / 2;
            -h
        }
    }

    /// The most positive piece/slice coordinate of this cube size.
    pub fn highest_piece_index(&self) -> (r: i32)
        requires
            size_ok(self.0 as int),
        ensures
            r == spec_highest_piece_index(self.0 as int),
    {
        if self.0 % 2 == 1 {
            (self.0 - 1) / 2
        } else {
            self.0 / 2
        }
    }
}

/// For a 3x3 cube, the slice coordinates are -1, 0, 1; for a 4x4 cube they
/// are -2, -1, 1, 2.  The returned column index ranges over 0..cube_size.
pub fn slice_to_column_index(slice: i32, cube_size: usize) -> (column: usize)
    requires
        size_ok(cube_size as int),
        0 <= spec_slice_column(slice as int, cube_size as int) < cube_size as int,
    ensures
        column == spec_slice_column(slice as int, cube_size as int),
{
    let n = cube_size as i32;
    if n % 2 == 0 {
        if slice > 0 {
            (slice - 1 + n / 2) as usize
        } else {
            (slice + n / 2) as usize
        }
    } else {
        (slice + (n - 1) / 2) as usize
    }
}

/// Inverse of `slice_to_column_index`: the slice coordinate addressing the
/// given column index, for columns in 0..cube_size.
pub fn column_index_to_slice(column_index: i32, cube_size: usize) -> (slice: i32)
    requires
        size_ok(cube_size as int),
        0 <= column_index < cube_size as int,
    ensures
        slice == spec_column_slice(column_index as int, cube_size as int),
{
    let n = cube_size as i32;
    if n % 2 == 0 {
        if column_index + 1 <= n / 2 {
            let h = n / 2 - column_index;
            -h
        } else {
            column_index - n / 2 + 1
        }
    } else {
        column_index - (n - 1) / 2
    }
}

/// True when the slice sits on the outermost positive boundary of the cube,
/// so that a turn of it also spins the adjacent outer face.
pub fn has_edge_on_positive_side(slice: &i32, cube_size: usize) -> (r: bool)
    requires
        size_ok(cube_size as int),
    ensures
        r == (*slice == spec_highest_piece_index(cube_size as int)),
{
    let n = cube_size as i32;
    if n % 2 == 0 {
        *slice == n / 2
    } else {
        *slice == (n - 1) / 2
    }
}

/// True when the slice sits on the outermost negative boundary of the cube.
pub fn has_edge_on_negative_side(slice: &i32, cube_size: usize) -> (r: bool)
    requires
        size_ok(cube_size as int),
    ensures
        r == (*slice == spec_lowest_piece_index(cube_size as int)),
{
    let n = cube_size as i32;
    if n % 2 == 0 {
        let h = n / 2;
        *slice == -h
    } else {
        let h = (n - 1) / 2;
        *slice == -h
    }
}

/// Division facts about halves of `n` that the round-trip proofs lean on.
proof fn lemma_halves(n: int)
    requires
        2 <= n,
    ensures
        n % 2 == 0 ==> n == 2 * (n / 2),
        n % 2 == 1 ==> n == 2 * ((n - 1) / 2) + 1,
        1 <= n / 2,
        n % 2 == 1 ==> (n - 1) / 2 == n / 2,
{
    vstd::arithmetic::div_mod::lemma_fundamental_div_mod(n, 2);
    assert(0 <= n % 2 < 2) by {
        vstd::arithmetic::div_mod::lemma_mod_division_less_than_divisor(n, 2);
    }
    if n % 2 == 1 {
        vstd::arithmetic::div_mod::lemma_fundamental_div_mod_converse(n - 1, 2, n / 2, 0);
    }
}

/// The coordinate range of a workable cube size is symmetric around zero
/// and fits comfortably in an `i32`.
pub proof fn lemma_piece_index_bounds(n: int)
    requires
        size_ok(n),
    ensures
        spec_lowest_piece_index(n) == -spec_highest_piece_index(n),
        1 <= spec_highest_piece_index(n) <= 0x7fff_ffff,
{
    lemma_halves(n);
}

/// Every valid slice maps to a column in 0..n, and mapping that column back
/// yields the slice again.
pub proof fn lemma_slice_column_roundtrip(slice: int, n: int)
    requires
        2 <= n,
        spec_valid_slice(slice, n),
    ensures
        0 <= spec_slice_column(slice, n) < n,
        spec_column_slice(spec_slice_column(slice, n), n) == slice,
{
    lemma_halves(n);
}

/// Every column in 0..n maps to a valid slice, and mapping that slice back
/// yields the column again.
pub proof fn lemma_column_slice_roundtrip(column: int, n: int)
    requires
        2 <= n,
        0 <= column < n,
    ensures
        spec_valid_slice(spec_column_slice(column, n), n),
        spec_slice_column(spec_column_slice(column, n), n) == column,
{
    lemma_halves(n);
}

} // verus!
