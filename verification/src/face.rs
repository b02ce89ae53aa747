//! One face of the cube: a flat row-major grid of `cube_size * cube_size`
//! facelet identities, with the index permutations used when a face spins
//! 90 degrees or is mirrored across an adjacent face.

use vstd::prelude::*;

verus! {

/// A facelet identity: the home face (colour) a facelet belongs to.
#[derive(Clone, Copy, Debug, PartialEq, Eq, Structural)]
pub enum Face {
    Left,
    Right,
    Top,
    Bottom,
    Front,
    Back,
}

/// The facelets of one face, row-major: cell `(row, col)` sits at index
/// `col + row * cube_size`.
#[derive(Debug, PartialEq)]
pub struct FaceState(pub Vec<Face>);

impl View for FaceState {
    type V = Seq<Face>;

    open spec fn view(&self) -> Seq<Face> {
        self.0@
    }
}

/// The flat index of cell `(row, col)` on a face of size `n`.
pub open spec fn fidx(row: int, col: int, n: int) -> int {
    row * n + col
}

/// Where the cell at flat index `i` lands when the face spins a quarter
/// turn counter-clockwise.
pub open spec fn spec_rotate_index_left(i: int, n: int) -> int {
    i / n + (n - i % n - 1) * n
}

/// Where the cell at flat index `i` lands when the face spins a quarter
/// turn clockwise.
pub open spec fn spec_rotate_index_right(i: int, n: int) -> int {
    (n - i / n - 1) + (i % n) * n
}

/// The flat index with the column mirrored (same row, column `n-1-col`).
pub open spec fn spec_invert_face_index_x(i: int, n: int) -> int {
    (i / n) * n + (n - 1 - i % n)
}

/// The flat index with the row mirrored (row `n-1-row`, same column).
pub open spec fn spec_invert_face_index_y(i: int, n: int) -> int {
    (n - 1 - i / n) * n + i % n
}

/// The grid after a quarter turn counter-clockwise.
pub open spec fn spec_face_rotated_left(s: Seq<Face>, n: int) -> Seq<Face> {
    Seq::new(s.len(), |j: int| s[spec_rotate_index_right(j, n)])
}

/// The grid after a quarter turn clockwise.
pub open spec fn spec_face_rotated_right(s: Seq<Face>, n: int) -> Seq<Face> {
    Seq::new(s.len(), |j: int| s[spec_rotate_index_left(j, n)])
}

/// A face is solved when every cell carries the same identity.
pub open spec fn spec_face_solved(s: Seq<Face>) -> bool {
    forall|i: int| 0 <= i < s.len() ==> #[trigger] s[i] == s[0]
}

/// Cell `(row, col)` of a face of size `n` has flat index `row * n + col`,
/// which lies within the grid and decomposes back into the same row and
/// column.
pub proof fn lemma_fidx(row: int, col: int, n: int)
    requires
        1 <= n,
        0 <= row < n,
        0 <= col < n,
    ensures
        0 <= fidx(row, col, n) < n * n,
        fidx(row, col, n) / n == row,
        fidx(row, col, n) % n == col,
{
    assert(0 <= row * n + col < n * n) by (nonlinear_arith)
        requires
            1 <= n,
            0 <= row < n,
            0 <= col < n,
    ;
    vstd::arithmetic::div_mod::lemma_fundamental_div_mod_converse(row * n + col, n, row, col);
}

/// Every flat index within the grid decomposes into a row and a column.
pub proof fn lemma_decompose(i: int, n: int)
    requires
        1 <= n,
        0 <= i < n * n,
    ensures
        0 <= i / n < n,
        0 <= i % n < n,
        i == fidx(i / n, i % n, n),
{
    vstd::arithmetic::div_mod::lemma_fundamental_div_mod(i, n);
    vstd::arithmetic::div_mod::lemma_mod_pos_bound(i, n);
    vstd::arithmetic::div_mod::lemma_div_pos_is_pos(i, n);
    assert(n * (i / n) == (i / n) * n) by (nonlinear_arith);
    assert(i / n < n) by (nonlinear_arith)
        requires
            1 <= n,
            i < n * n,
            i == n * (i / n) + i % n,
            0 <= i % n,
    ;
}

/// A counter-clockwise quarter turn sends cell `(row, col)` to cell
/// `(n-1-col, row)`.
pub proof fn lemma_rotl_idx(i: int, n: int)
    requires
        1 <= n,
        0 <= i < n * n,
    ensures
        0 <= spec_rotate_index_left(i, n) < n * n,
        spec_rotate_index_left(i, n) / n == n - 1 - i % n,
        spec_rotate_index_left(i, n) % n == i / n,
{
    lemma_decompose(i, n);
    lemma_fidx(n - 1 - i % n, i / n, n);
    assert(spec_rotate_index_left(i, n) == fidx(n - 1 - i % n, i / n, n));
}

/// A clockwise quarter turn sends cell `(row, col)` to cell `(col, n-1-row)`.
pub proof fn lemma_rotr_idx(i: int, n: int)
    requires
        1 <= n,
        0 <= i < n * n,
    ensures
        0 <= spec_rotate_index_right(i, n) < n * n,
        spec_rotate_index_right(i, n) / n == i % n,
        spec_rotate_index_right(i, n) % n == n - 1 - i / n,
{
    lemma_decompose(i, n);
    lemma_fidx(i % n, n - 1 - i / n, n);
    assert(spec_rotate_index_right(i, n) == fidx(i % n, n - 1 - i / n, n));
}

/// The two quarter-turn index maps are mutual inverses.
pub proof fn lemma_rotate_index_roundtrip(i: int, n: int)
    requires
        1 <= n,
        0 <= i < n * n,
    ensures
        spec_rotate_index_right(spec_rotate_index_left(i, n), n) == i,
        spec_rotate_index_left(spec_rotate_index_right(i, n), n) == i,
{
    lemma_decompose(i, n);
    lemma_rotl_idx(i, n);
    lemma_rotr_idx(i, n);
    lemma_rotr_idx(spec_rotate_index_left(i, n), n);
    lemma_rotl_idx(spec_rotate_index_right(i, n), n);
}

/// Spinning a face left and then right (or right and then left) is the
/// identity on the grid.
pub proof fn lemma_face_rotation_roundtrip(s: Seq<Face>, n: int)
    requires
        1 <= n,
        s.len() == n * n,
    ensures
        spec_face_rotated_right(spec_face_rotated_left(s, n), n) == s,
        spec_face_rotated_left(spec_face_rotated_right(s, n), n) == s,
{
    let l = spec_face_rotated_left(s, n);
    let r = spec_face_rotated_right(s, n);
    assert forall|j: int| 0 <= j < n * n implies spec_face_rotated_right(l, n)[j] == s[j] by {
        lemma_rotl_idx(j, n);
        lemma_rotate_index_roundtrip(j, n);
    }
    assert forall|j: int| 0 <= j < n * n implies spec_face_rotated_left(r, n)[j] == s[j] by {
        lemma_rotr_idx(j, n);
        lemma_rotate_index_roundtrip(j, n);
    }
    assert(spec_face_rotated_right(l, n) =~= s);
    assert(spec_face_rotated_left(r, n) =~= s);
}

/// Four quarter turns in the same direction are the identity on the grid.
pub proof fn lemma_face_rotation_four_times(s: Seq<Face>, n: int)
    requires
        1 <= n,
        s.len() == n * n,
    ensures
        spec_face_rotated_left(
            spec_face_rotated_left(
                spec_face_rotated_left(spec_face_rotated_left(s, n), n),
                n,
            ),
            n,
        ) == s,
        spec_face_rotated_right(
            spec_face_rotated_right(
                spec_face_rotated_right(spec_face_rotated_right(s, n), n),
                n,
            ),
            n,
        ) == s,
{
    let l1 = spec_face_rotated_left(s, n);
    let l2 = spec_face_rotated_left(l1, n);
    let l3 = spec_face_rotated_left(l2, n);
    let l4 = spec_face_rotated_left(l3, n);
    assert forall|j: int| 0 <= j < n * n implies l4[j] == s[j] by {
        lemma_rotr_idx(j, n);
        let j1 = spec_rotate_index_right(j, n);
        lemma_rotr_idx(j1, n);
        let j2 = spec_rotate_index_right(j1, n);
        lemma_rotr_idx(j2, n);
        let j3 = spec_rotate_index_right(j2, n);
        lemma_rotr_idx(j3, n);
        lemma_decompose(j, n);
        lemma_fidx(j / n, j % n, n);
        assert(spec_rotate_index_right(j3, n) == j);
    }
    assert(l4 =~= s);
    let r1 = spec_face_rotated_right(s, n);
    let r2 = spec_face_rotated_right(r1, n);
    let r3 = spec_face_rotated_right(r2, n);
    let r4 = spec_face_rotated_right(r3, n);
    assert forall|j: int| 0 <= j < n * n implies r4[j] == s[j] by {
        lemma_rotl_idx(j, n);
        let j1 = spec_rotate_index_left(j, n);
        lemma_rotl_idx(j1, n);
        let j2 = spec_rotate_index_left(j1, n);
        lemma_rotl_idx(j2, n);
        let j3 = spec_rotate_index_left(j2, n);
        lemma_rotl_idx(j3, n);
        lemma_decompose(j, n);
        lemma_fidx(j / n, j % n, n);
        assert(spec_rotate_index_left(j3, n) == j);
    }
    assert(r4 =~= s);
}

impl FaceState {
    /// Where the cell at flat index `i` lands when the face spins a quarter
    /// turn counter-clockwise.
    pub fn rotate_face_index_left(i: usize, cube_size: usize) -> (r: usize)
        requires
            1 <= cube_size,
            cube_size * cube_size <= usize::MAX,
            i < cube_size * cube_size,
        ensures
            r == spec_rotate_index_left(i as int, cube_size as int),
            r < cube_size * cube_size,
    {
        proof {
            lemma_decompose(i as int, cube_size as int);
            lemma_rotl_idx(i as int, cube_size as int);
        }
        let x = i % cube_size;
        let y = i / cube_size;
        y + (cube_size - x - 1) * cube_size
    }

    /// Where the cell at flat index `i` lands when the face spins a quarter
    /// turn clockwise.
    pub fn rotate_face_index_right(i: usize, cube_size: usize) -> (r: usize)
        requires
            1 <= cube_size,
            cube_size * cube_size <= usize::MAX,
            i < cube_size * cube_size,
        ensures
            r == spec_rotate_index_right(i as int, cube_size as int),
            r < cube_size * cube_size,
    {
        proof {
            lemma_decompose(i as int, cube_size as int);
            lemma_rotr_idx(i as int, cube_size as int);
        }
        let x = i % cube_size;
        let y = i / cube_size;
        (cube_size - y - 1) + x * cube_size
    }

    /// Whether every cell of this face carries the same identity.
    pub fn is_solved(&self) -> (r: bool)
        requires
            self@.len() > 0,
        ensures
            r == spec_face_solved(self@),
    {
        let face_to_match = self.0[0];
        let mut i: usize = 1;
        while i < self.0.len()
            invariant
                1 <= i <= self@.len(),
                face_to_match == self@[0],
                forall|j: int| 0 <= j < i ==> #[trigger] self@[j] == self@[0],
            decreases self@.len() - i,
        {
            if self.0[i] != face_to_match {
                return false;
            }
            i = i + 1;
        }
        true
    }

    /// Spin this face a quarter turn counter-clockwise.
    pub fn rotate_left(&mut self, cube_size: usize)
        requires
            1 <= cube_size,
            cube_size * cube_size <= usize::MAX,
            old(self)@.len() == cube_size * cube_size,
        ensures
            final(self)@ == spec_face_rotated_left(old(self)@, cube_size as int),
    {
        let len = self.0.len();
        let mut new_state: Vec<Face> = Vec::new();
        let mut j: usize = 0;
        while j < len
            invariant
                len == self@.len(),
                self@.len() == cube_size * cube_size,
                1 <= cube_size,
                j <= len,
                new_state@.len() == j,
                forall|k: int|
                    0 <= k < j ==> new_state@[k] == self@[spec_rotate_index_right(
                        k,
                        cube_size as int,
                    )],
            decreases len - j,
        {
            proof {
                lemma_decompose(j as int, cube_size as int);
                lemma_rotr_idx(j as int, cube_size as int);
            }
            let x = j % cube_size;
            let y = j / cube_size;
            let src = (cube_size - y - 1) + x * cube_size;
            new_state.push(self.0[src]);
            j = j + 1;
        }
        proof {
            assert(new_state@ =~= spec_face_rotated_left(self@, cube_size as int));
        }
        self.0 = new_state;
    }

    /// Spin this face a quarter turn clockwise.
    pub fn rotate_right(&mut self, cube_size: usize)
        requires
            1 <= cube_size,
            cube_size * cube_size <= usize::MAX,
            old(self)@.len() == cube_size * cube_size,
        ensures
            final(self)@ == spec_face_rotated_right(old(self)@, cube_size as int),
    {
        let len = self.0.len();
        let mut new_state: Vec<Face> = Vec::new();
        let mut j: usize = 0;
        while j < len
            invariant
                len == self@.len(),
                self@.len() == cube_size * cube_size,
                1 <= cube_size,
                j <= len,
                new_state@.len() == j,
                forall|k: int|
                    0 <= k < j ==> new_state@[k] == self@[spec_rotate_index_left(
                        k,
                        cube_size as int,
                    )],
            decreases len - j,
        {
            proof {
                lemma_decompose(j as int, cube_size as int);
                lemma_rotl_idx(j as int, cube_size as int);
            }
            let x = j % cube_size;
            let y = j / cube_size;
            let src = j / cube_size + (cube_size - x - 1) * cube_size;
            new_state.push(self.0[src]);
            j = j + 1;
        }
        proof {
            assert(new_state@ =~= spec_face_rotated_right(self@, cube_size as int));
        }
        self.0 = new_state;
    }
}

/// Mirror the column of a flat face index: cell `(row, col)` becomes cell
/// `(row, n-1-col)`.
pub fn invert_face_index_x(face_index: usize, cube_size: usize) -> (r: usize)
    requires
        1 <= cube_size,
        cube_size * cube_size <= usize::MAX,
        face_index < cube_size * cube_size,
    ensures
        r == spec_invert_face_index_x(face_index as int, cube_size as int),
        r < cube_size * cube_size,
{
    proof {
        lemma_decompose(face_index as int, cube_size as int);
        lemma_fidx(
            face_index as int / (cube_size as int),
            cube_size as int - 1 - face_index as int % (cube_size as int),
            cube_size as int,
        );
    }
    let base = face_index % cube_size;
    face_index - base + (cube_size - 1 - base)
}

/// Mirror the row of a flat face index: cell `(row, col)` becomes cell
/// `(n-1-row, col)`.
pub fn invert_face_index_y(face_index: usize, cube_size: usize) -> (r: usize)
    requires
        1 <= cube_size,
        cube_size * cube_size <= usize::MAX,
        face_index < cube_size * cube_size,
    ensures
        r == spec_invert_face_index_y(face_index as int, cube_size as int),
        r < cube_size * cube_size,
{
    proof {
        lemma_decompose(face_index as int, cube_size as int);
        lemma_fidx(
            cube_size as int - 1 - face_index as int / (cube_size as int),
            face_index as int % (cube_size as int),
            cube_size as int,
        );
    }
    let row_index = face_index / cube_size;
    (cube_size - 1 - row_index) * cube_size + face_index % cube_size
}

} // verus!
