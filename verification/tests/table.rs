use dendritic_ml_models::error::PipelineError;
use dendritic_ml_models::table::{owned_names, Table};

fn names(list: &[&str]) -> Vec<String> {
    list.iter().map(|n| n.to_string()).collect()
}

fn prices() -> Table<f64> {
    Table::new(
        names(&["Open", "High", "Low", "Close", "Ticker"]),
        vec![
            vec![Some(1.0), Some(2.0), Some(3.0)],
            vec![Some(1.5), Some(2.5), Some(3.5)],
            vec![Some(0.5), Some(1.5), Some(2.5)],
            vec![Some(1.25), Some(2.25), None],
            vec![None, None, None],
        ],
    )
    .unwrap()
}

#[test]
fn table_counts_rows_and_columns() {
    let table = prices();
    assert_eq!(table.nrows(), 3);
    assert_eq!(table.ncols(), 5);
    let empty: Table<f64> = Table::new(Vec::new(), Vec::new()).unwrap();
    assert_eq!(empty.nrows(), 0);
    assert_eq!(empty.ncols(), 0);
}

#[test]
fn table_refuses_names_and_columns_that_do_not_pair_up() {
    let short: Result<Table<f64>, PipelineError> = Table::new(names(&["a", "b"]), vec![vec![Some(1.0)]]);
    assert_eq!(short.err(), Some(PipelineError::ShapeMismatch));
    let long: Result<Table<f64>, PipelineError> = Table::new(names(&["a"]), vec![vec![Some(1.0)], vec![Some(2.0)]]);
    assert_eq!(long.err(), Some(PipelineError::ShapeMismatch));
}

#[test]
fn table_refuses_columns_of_different_lengths() {
    let ragged = Table::new(names(&["a", "b"]), vec![vec![Some(1.0), Some(2.0)], vec![Some(3.0)]]);
    assert_eq!(ragged.err(), Some(PipelineError::ShapeMismatch));
}

#[test]
fn position_finds_the_first_column_of_a_name() {
    let table = Table::new(names(&["a", "b", "a"]), vec![vec![Some(1)], vec![Some(2)], vec![Some(3)]]).unwrap();
    assert_eq!(table.position(&"a".to_string()), Some(0));
    assert_eq!(table.position(&"b".to_string()), Some(1));
    assert_eq!(table.position(&"c".to_string()), None);
    assert_eq!(table.position(&"A".to_string()), None);
    let m = table.project(&names(&["a"])).unwrap();
    assert_eq!(m.into_rows(), vec![vec![1]]);
}

#[test]
fn has_columns_asks_for_every_name() {
    let table = prices();
    assert!(table.has_columns(&names(&["Low", "Open"])));
    assert!(table.has_columns(&names(&[])));
    assert!(!table.has_columns(&names(&["Low", "Volume"])));
}

#[test]
fn project_follows_the_order_that_was_asked_for() {
    let table = prices();
    let m = table.project(&names(&["Low", "Open", "High"])).unwrap();
    assert_eq!(m.nrows(), 3);
    assert_eq!(m.ncols(), 3);
    assert_eq!(m.into_rows(), vec![vec![0.5, 1.0, 1.5], vec![1.5, 2.0, 2.5], vec![2.5, 3.0, 3.5]]);
}

#[test]
fn project_may_name_a_column_twice() {
    let table = prices();
    let m = table.project(&names(&["Open", "Open"])).unwrap();
    assert_eq!(m.into_rows(), vec![vec![1.0, 1.0], vec![2.0, 2.0], vec![3.0, 3.0]]);
}

#[test]
fn project_of_no_columns_keeps_the_rows() {
    let table = prices();
    let m = table.project(&Vec::new()).unwrap();
    assert_eq!(m.nrows(), 3);
    assert_eq!(m.ncols(), 0);
}

#[test]
fn project_reports_an_absent_column_as_schema_mismatch() {
    let table = prices();
    assert_eq!(table.project(&names(&["Open", "Volume"])).err(), Some(PipelineError::SchemaMismatch));
    assert_eq!(table.project(&names(&["open"])).err(), Some(PipelineError::SchemaMismatch));
}

#[test]
fn project_refuses_empty_cells() {
    let table = prices();
    assert_eq!(table.project(&names(&["Open", "Close"])).err(), Some(PipelineError::NonNumericCell));
    assert_eq!(table.project(&names(&["Ticker"])).err(), Some(PipelineError::NonNumericCell));
}

#[test]
fn project_judges_the_names_before_the_cells() {
    let table = prices();
    assert_eq!(table.project(&names(&["Ticker", "Volume"])).err(), Some(PipelineError::SchemaMismatch));
}

#[test]
fn owned_names_keeps_the_order() {
    assert_eq!(owned_names(&["b", "a", "c"]), names(&["b", "a", "c"]));
    assert_eq!(owned_names(&[]), Vec::<String>::new());
}
