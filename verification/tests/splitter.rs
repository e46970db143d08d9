use dendritic_ml_models::error::PipelineError;
use dendritic_ml_models::matrix::Matrix;
use dendritic_ml_models::ratio::Ratio;
use dendritic_ml_models::splitter::{split, Partition};

fn ten_rows() -> (Matrix<f64>, Matrix<f64>) {
    let mut x: Vec<Vec<f64>> = Vec::new();
    let mut y: Vec<Vec<f64>> = Vec::new();
    for i in 1..=10 {
        let f1 = i as f64;
        x.push(vec![f1, f1 + 1.0]);
        y.push(vec![2.0 * f1 + 1.0]);
    }
    (Matrix::from_rows(x).unwrap(), Matrix::from_rows(y).unwrap())
}

fn counted(rows: usize) -> (Matrix<i64>, Matrix<i64>) {
    let x: Vec<Vec<i64>> = (0..rows).map(|r| vec![r as i64, 10 * r as i64]).collect();
    let y: Vec<Vec<i64>> = (0..rows).map(|r| vec![100 + r as i64]).collect();
    (Matrix::with_width(x, 2).unwrap(), Matrix::with_width(y, 1).unwrap())
}

#[test]
fn split_ten_rows_at_four_fifths() {
    let (x, y) = ten_rows();
    let parts = split(&x, &y, Ratio::new(4, 5)).unwrap();
    assert_eq!(parts.training.features.nrows(), 8);
    assert_eq!(parts.training.targets.nrows(), 8);
    assert_eq!(parts.testing.features.nrows(), 2);
    assert_eq!(parts.testing.targets.nrows(), 2);
    assert_eq!(parts.training.features.rows(), x.slice_rows(0, 8).unwrap().rows());
    assert_eq!(parts.training.targets.rows(), y.slice_rows(0, 8).unwrap().rows());
    assert_eq!(parts.testing.features.into_rows(), vec![vec![9.0, 10.0], vec![10.0, 11.0]]);
    assert_eq!(parts.testing.targets.into_rows(), vec![vec![19.0], vec![21.0]]);
}

#[test]
fn split_rounds_the_cut_down() {
    for (rows, numer, denom, expected) in
        [(7usize, 4u64, 5u64, 5usize), (9, 1, 2, 4), (3, 1, 3, 1), (3, 2, 3, 2), (100, 29, 100, 29), (10, 7, 10, 7)]
    {
        let (x, y) = counted(rows);
        let parts = split(&x, &y, Ratio::new(numer, denom)).unwrap();
        assert_eq!(parts.training.features.nrows(), expected);
        assert_eq!(parts.training.features.nrows() + parts.testing.features.nrows(), rows);
        assert_eq!(parts.training.targets.nrows(), expected);
        assert_eq!(parts.testing.targets.nrows(), rows - expected);
    }
}

#[test]
fn split_of_a_single_row_leaves_it_for_testing() {
    let (x, y) = counted(1);
    let parts = split(&x, &y, Ratio::new(4, 5)).unwrap();
    assert_eq!(parts.training.features.nrows(), 0);
    assert_eq!(parts.training.features.ncols(), 2);
    assert_eq!(parts.testing.features.into_rows(), vec![vec![0, 0]]);
    assert_eq!(parts.testing.targets.into_rows(), vec![vec![100]]);
}

#[test]
fn split_of_no_rows_gives_two_empty_parts_of_the_same_width() {
    let (x, y) = counted(0);
    let parts = split(&x, &y, Ratio::new(1, 2)).unwrap();
    assert_eq!(parts.training.features.nrows(), 0);
    assert_eq!(parts.testing.features.nrows(), 0);
    assert_eq!(parts.training.features.ncols(), 2);
    assert_eq!(parts.testing.targets.ncols(), 1);
}

#[test]
fn split_keeps_the_order_of_the_rows() {
    let (x, y) = counted(10);
    let parts = split(&x, &y, Ratio::new(3, 10)).unwrap();
    let mut joined = parts.training.features.into_rows();
    joined.extend(parts.testing.features.into_rows());
    assert_eq!(&joined, x.rows());
    let mut joined = parts.training.targets.into_rows();
    joined.extend(parts.testing.targets.into_rows());
    assert_eq!(&joined, y.rows());
}

#[test]
fn split_twice_gives_the_same_parts() {
    let (x, y) = ten_rows();
    let first = split(&x, &y, Ratio::new(4, 5)).unwrap();
    let second = split(&x, &y, Ratio::new(4, 5)).unwrap();
    assert_eq!(first.training.features.rows(), second.training.features.rows());
    assert_eq!(first.training.targets.rows(), second.training.targets.rows());
    assert_eq!(first.testing.features.rows(), second.testing.features.rows());
    assert_eq!(first.testing.targets.rows(), second.testing.targets.rows());
}

#[test]
fn split_refuses_fractions_outside_the_open_unit_interval() {
    let (x, y) = ten_rows();
    for (numer, denom) in [(0u64, 5u64), (5, 5), (6, 5), (1, 0), (0, 0)] {
        let refused = split(&x, &y, Ratio::new(numer, denom));
        assert_eq!(refused.err(), Some(PipelineError::InvalidConfiguration));
    }
}

#[test]
fn split_refuses_matrices_of_different_heights() {
    let (x, _) = counted(10);
    let (_, y) = counted(9);
    assert_eq!(split(&x, &y, Ratio::new(4, 5)).err(), Some(PipelineError::ShapeMismatch));
}

#[test]
fn split_judges_the_fraction_before_the_shape() {
    let (x, _) = counted(10);
    let (_, y) = counted(9);
    assert_eq!(split(&x, &y, Ratio::new(5, 4)).err(), Some(PipelineError::InvalidConfiguration));
}

#[test]
fn split_takes_huge_fractions_without_overflow() {
    let (x, y) = counted(10);
    let parts = split(&x, &y, Ratio::new(u64::MAX - 1, u64::MAX)).unwrap();
    assert_eq!(parts.training.features.nrows(), 9);
    assert_eq!(parts.testing.features.nrows(), 1);
}

#[test]
fn empty_parts_hold_nothing() {
    let part: Partition<f64> = Partition::empty();
    assert_eq!(part.features.nrows(), 0);
    assert_eq!(part.targets.ncols(), 0);
}

#[test]
fn ratio_knows_whether_it_is_a_proper_fraction() {
    assert_eq!(Ratio::new(4, 5), Ratio { numer: 4, denom: 5 });
    assert!(Ratio::new(4, 5).proper());
    assert!(!Ratio::new(4, 0).proper());
    assert!(!Ratio::new(5, 5).proper());
    assert!(!Ratio::new(0, 5).proper());
}
