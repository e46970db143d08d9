use dendritic_ml_models::error::PipelineError;
use dendritic_ml_models::matrix::Matrix;

fn grid() -> Matrix<i64> {
    Matrix::from_rows(vec![vec![1, 2, 3], vec![4, 5, 6], vec![7, 8, 9], vec![10, 11, 12]]).unwrap()
}

#[test]
fn empty_matrix_has_no_rows_and_no_columns() {
    let m: Matrix<f64> = Matrix::empty();
    assert_eq!(m.nrows(), 0);
    assert_eq!(m.ncols(), 0);
    assert_eq!(m.get(0, 0), None);
}

#[test]
fn from_rows_takes_its_width_from_the_first_row() {
    let m = grid();
    assert_eq!(m.nrows(), 4);
    assert_eq!(m.ncols(), 3);
    assert_eq!(m.get(2, 1), Some(8));
    assert_eq!(m.rows(), &vec![vec![1, 2, 3], vec![4, 5, 6], vec![7, 8, 9], vec![10, 11, 12]]);
}

#[test]
fn from_rows_of_nothing_is_the_empty_matrix() {
    let m: Matrix<i64> = Matrix::from_rows(Vec::new()).unwrap();
    assert_eq!(m.nrows(), 0);
    assert_eq!(m.ncols(), 0);
}

#[test]
fn from_rows_refuses_ragged_rows() {
    let ragged = Matrix::from_rows(vec![vec![1.0, 2.0], vec![3.0]]);
    assert_eq!(ragged.err(), Some(PipelineError::ShapeMismatch));
}

#[test]
fn with_width_fixes_the_width_of_a_matrix_without_rows() {
    let m: Matrix<i64> = Matrix::with_width(Vec::new(), 3).unwrap();
    assert_eq!(m.nrows(), 0);
    assert_eq!(m.ncols(), 3);
}

#[test]
fn with_width_refuses_a_row_of_another_length() {
    let m = Matrix::with_width(vec![vec![1, 2], vec![3, 4, 5]], 2);
    assert_eq!(m.err(), Some(PipelineError::ShapeMismatch));
    let m = Matrix::with_width(vec![vec![1, 2]], 3);
    assert_eq!(m.err(), Some(PipelineError::ShapeMismatch));
}

#[test]
fn filled_repeats_one_value() {
    let m = Matrix::filled(2, 3, 7u8);
    assert_eq!(m.into_rows(), vec![vec![7, 7, 7], vec![7, 7, 7]]);
    let flat = Matrix::filled(0, 4, 1.5);
    assert_eq!(flat.nrows(), 0);
    assert_eq!(flat.ncols(), 4);
}

#[test]
fn get_outside_the_matrix_is_none() {
    let m = grid();
    assert_eq!(m.get(0, 0), Some(1));
    assert_eq!(m.get(3, 2), Some(12));
    assert_eq!(m.get(4, 0), None);
    assert_eq!(m.get(0, 3), None);
}

#[test]
fn slice_rows_copies_a_run_of_rows() {
    let m = grid();
    let middle = m.slice_rows(1, 3).unwrap();
    assert_eq!(middle.ncols(), 3);
    assert_eq!(middle.into_rows(), vec![vec![4, 5, 6], vec![7, 8, 9]]);
    let none = m.slice_rows(2, 2).unwrap();
    assert_eq!(none.nrows(), 0);
    assert_eq!(none.ncols(), 3);
    let all = m.slice_rows(0, 4).unwrap();
    assert_eq!(all.rows(), m.rows());
}

#[test]
fn slice_rows_refuses_ranges_outside_the_matrix() {
    let m = grid();
    assert_eq!(m.slice_rows(0, 5).err(), Some(PipelineError::ShapeMismatch));
    assert_eq!(m.slice_rows(3, 2).err(), Some(PipelineError::ShapeMismatch));
    assert_eq!(m.slice_rows(5, 5).err(), Some(PipelineError::ShapeMismatch));
}

#[test]
fn window_cuts_rows_and_columns() {
    let m = grid();
    let w = m.window(1, 4, 1, 3).unwrap();
    assert_eq!(w.ncols(), 2);
    assert_eq!(w.into_rows(), vec![vec![5, 6], vec![8, 9], vec![11, 12]]);
    let narrow = m.window(0, 2, 2, 2).unwrap();
    assert_eq!(narrow.nrows(), 2);
    assert_eq!(narrow.ncols(), 0);
}

#[test]
fn window_refuses_ranges_outside_the_matrix() {
    let m = grid();
    assert_eq!(m.window(0, 4, 0, 4).err(), Some(PipelineError::ShapeMismatch));
    assert_eq!(m.window(0, 4, 2, 1).err(), Some(PipelineError::ShapeMismatch));
    assert_eq!(m.window(0, 5, 0, 3).err(), Some(PipelineError::ShapeMismatch));
    assert_eq!(m.window(2, 1, 0, 3).err(), Some(PipelineError::ShapeMismatch));
}

#[test]
fn column_reads_from_top_to_bottom() {
    let m = grid();
    assert_eq!(m.column(0), Some(vec![1, 4, 7, 10]));
    assert_eq!(m.column(2), Some(vec![3, 6, 9, 12]));
    assert_eq!(m.column(3), None);
}
