use dendritic_ml_models::encoder::ScalerKind;
use dendritic_ml_models::error::{PipelineError, Stage};
use dendritic_ml_models::matrix::Matrix;
use dendritic_ml_models::model::{Schedule, UpdateRule};
use dendritic_ml_models::pipeline::RowRange;
use dendritic_ml_models::ratio::Ratio;
use dendritic_ml_models::student_performance::{feature_columns, inference_windows, StudentPerformance, target_columns};
use dendritic_ml_models::table::Table;

/// A table whose cell in column `c` and row `r` is `100 * c + r`. The columns
/// are put in reverse order, with an extra column in front.
fn table_of(columns: &[String], rows: usize) -> Table<f64> {
    let mut names = vec!["unused".to_string()];
    let mut cells: Vec<Vec<Option<f64>>> = vec![(0..rows).map(|_| None).collect()];
    for (c, name) in columns.iter().enumerate().rev() {
        names.push(name.clone());
        cells.push((0..rows).map(|r| Some((100 * c + r) as f64)).collect());
    }
    Table::new(names, cells).unwrap()
}

fn all_columns(features: Vec<String>, targets: Vec<String>) -> Vec<String> {
    let mut all = features;
    all.extend(targets);
    all
}

fn halved(m: &Matrix<f64>) -> Matrix<f64> {
    let rows: Vec<Vec<f64>> = m.rows().iter().map(|row| row.iter().map(|v| v / 2.0).collect()).collect();
    Matrix::with_width(rows, m.ncols()).unwrap()
}

#[test]
fn student_performance_runs_through_its_stages() {
    assert_eq!(
        feature_columns(),
        vec!["Hours Studied", "Previous Scores", "Sleep Hours", "Sample Question Papers Practiced"]
    );
    assert_eq!(target_columns(), vec!["Performance Index"]);
    assert_eq!(
        inference_windows(),
        vec![RowRange { start: 0, end: 5 }, RowRange { start: 5, end: 10 }, RowRange { start: 10, end: 15 }]
    );
    let table = table_of(&all_columns(feature_columns(), target_columns()), 75);
    let mut model: StudentPerformance<f64> = StudentPerformance::register("student_performance");
    assert_eq!(model.pipeline().file_path(), "data/student_performance.parquet");
    assert_eq!(model.pipeline().artifact_key(), "models/student_performance");
    assert_eq!(model.x_encode().kind(), ScalerKind::StandardScore);
    assert!(!model.x_encode().fitted());
    model.load(Some(&table)).unwrap();
    assert_eq!((model.pipeline().x().nrows(), model.pipeline().x().ncols()), (75, 4));

    let failure = model.transform(Matrix::filled(75, 4, 0.0), Matrix::filled(75, 4, 0.0)).unwrap_err();
    assert_eq!(failure.error, PipelineError::ShapeMismatch);
    assert!(!model.x_encode().fitted());
    assert!(!model.y_encode().fitted());

    let x = halved(model.pipeline().x());
    let y = halved(model.pipeline().y());
    model.transform(x, y).unwrap();
    assert!(model.x_encode().fitted());
    assert!(model.y_encode().fitted());
    assert_eq!(model.pipeline().training_data().features.nrows(), 60);
    assert_eq!(model.pipeline().testing_data().features.nrows(), 15);
    assert_eq!(model.x_encode().admit_inverse(&model.pipeline().testing_data().features), Ok(()));
    assert_eq!(
        model.x_encode().admit_inverse(&model.pipeline().testing_data().targets),
        Err(PipelineError::ShapeMismatch)
    );

    let job = model.train().unwrap();
    assert_eq!(job.rule, UpdateRule::Adam);
    assert_eq!(job.learning_rate, Ratio::new(1, 1000));
    assert_eq!(job.schedule, Schedule { rounds: 10, batch_size: 128, epochs_per_round: 1000 });
    assert_eq!(job.artifact_key, "models/student_performance");
    assert_eq!((job.samples, job.inputs, job.outputs), (60, 4, 1));

    let parts = model.inference(true).unwrap();
    assert_eq!(parts.len(), 3);
    for (i, part) in parts.iter().enumerate() {
        assert_eq!((part.features.nrows(), part.features.ncols()), (5, 4));
        assert_eq!(part.features.get(0, 0), Some((60 + 5 * i) as f64 / 2.0));
        assert_eq!(model.y_encode().admit_inverse(&part.targets), Ok(()));
    }
    assert_eq!(model.pipeline().stage(), Stage::Inferred);
}

