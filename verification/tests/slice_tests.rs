//! Slice coordinate / column index conversions.

use rubiks_cube::slice::{column_index_to_slice, slice_to_column_index, CubeSize};

#[test]
fn test_slice_to_column_index() {
    // 3x3
    assert_eq!(0, slice_to_column_index(-1, 3));
    assert_eq!(1, slice_to_column_index(0, 3));
    assert_eq!(2, slice_to_column_index(1, 3));

    // 4x4
    assert_eq!(0, slice_to_column_index(-2, 4));
    assert_eq!(1, slice_to_column_index(-1, 4));
    assert_eq!(2, slice_to_column_index(1, 4));
    assert_eq!(3, slice_to_column_index(2, 4));
}

#[test]
fn test_column_index_to_slice() {
    // 3x3
    assert_eq!(-1, column_index_to_slice(0, 3));
    assert_eq!(0, column_index_to_slice(1, 3));
    assert_eq!(1, column_index_to_slice(2, 3));

    // 4x4
    assert_eq!(-2, column_index_to_slice(0, 4));
    assert_eq!(-1, column_index_to_slice(1, 4));
    assert_eq!(1, column_index_to_slice(2, 4));
    assert_eq!(2, column_index_to_slice(3, 4));
}

#[test]
fn slice_column_round_trips() {
    for cube_size in 2..=5usize {
        for column in 0..cube_size {
            let slice = column_index_to_slice(column as i32, cube_size);
            assert_eq!(column, slice_to_column_index(slice, cube_size));
            if cube_size % 2 == 0 {
                assert_ne!(slice, 0);
            }
        }
    }
}

#[test]
fn piece_index_ranges() {
    assert_eq!(-1, CubeSize(3).lowest_piece_index());
    assert_eq!(1, CubeSize(3).highest_piece_index());
    assert_eq!(-2, CubeSize(4).lowest_piece_index());
    assert_eq!(2, CubeSize(4).highest_piece_index());
    assert_eq!(-1, CubeSize(2).lowest_piece_index());
    assert_eq!(1, CubeSize(2).highest_piece_index());
    assert_eq!(-2, CubeSize(5).lowest_piece_index());
    assert_eq!(2, CubeSize(5).highest_piece_index());
}
