use dendritic::optimizer::model::{Model, ModelSerialize};
use dendritic::optimizer::regression::sgd::SGD;
use dendritic::optimizer::train::Trainable;
use dendritic::preprocessing::processor::{FeatureEncoder, MinMax};
use dendritic_ml_models::encoder::{Scaler, ScalerKind};
use dendritic_ml_models::error::Stage;
use dendritic_ml_models::matrix::Matrix;
use dendritic_ml_models::model::{ModelKind, Schedule, UpdateRule};
use dendritic_ml_models::pipeline::{Encoded, Pipeline, RowRange};
use dendritic_ml_models::ratio::Ratio;
use dendritic_ml_models::table::Table;
use ndarray::Array2;

fn to_array(m: &Matrix<f64>) -> Array2<f64> {
    let flat: Vec<f64> = m.rows().iter().flatten().copied().collect();
    Array2::from_shape_vec((m.nrows(), m.ncols()), flat).unwrap()
}

fn to_matrix(a: &Array2<f64>) -> Matrix<f64> {
    let rows: Vec<Vec<f64>> = a.rows().into_iter().map(|row| row.to_vec()).collect();
    Matrix::with_width(rows, a.ncols()).unwrap()
}

fn as_float(r: Ratio) -> f64 {
    r.numer as f64 / r.denom as f64
}

/// Ten rows with the features `[1, 2], [2, 3], ..., [10, 11]` and the target
/// `2 * f1 + 1`.
fn synthetic() -> Table<f64> {
    let f1: Vec<Option<f64>> = (1..=10).map(|i| Some(i as f64)).collect();
    let f2: Vec<Option<f64>> = (1..=10).map(|i| Some(i as f64 + 1.0)).collect();
    let y: Vec<Option<f64>> = (1..=10).map(|i| Some(2.0 * i as f64 + 1.0)).collect();
    Table::new(vec!["f1".to_string(), "f2".to_string(), "y".to_string()], vec![f1, f2, y]).unwrap()
}

#[test]
fn regressor_on_synthetic_rows_predicts_the_held_out_targets() {
    let mut pipeline: Pipeline<f64> =
        Pipeline::register("synthetic", "data/synthetic.parquet", "models/synthetic", ModelKind::LinearRegressor, Ratio::new(1, 100));
    pipeline
        .load(Some(&synthetic()), &vec!["f1".to_string(), "f2".to_string()], &vec!["y".to_string()])
        .unwrap();
    let raw_y = to_matrix(&to_array(pipeline.y()));

    let mut x_values = MinMax::new();
    let mut y_values = MinMax::new();
    let x_scaled = to_matrix(&x_values.transform(&to_array(pipeline.x()).view()));
    let y_scaled = to_matrix(&y_values.transform(&to_array(pipeline.y()).view()));
    let mut x_scaler = Scaler::new(ScalerKind::MinMax);
    let mut y_scaler = Scaler::new(ScalerKind::MinMax);
    x_scaler.accept_fit(pipeline.x(), &x_scaled).unwrap();
    y_scaler.accept_fit(pipeline.y(), &y_scaled).unwrap();
    assert_eq!(x_scaled.get(0, 0), Some(0.0));
    assert_eq!(x_scaled.get(9, 1), Some(1.0));

    pipeline.transform(Encoded::Scaled(x_scaled), Encoded::Scaled(y_scaled), Some(Ratio::new(4, 5))).unwrap();
    assert_eq!(pipeline.training_data().features.nrows(), 8);
    assert_eq!(pipeline.testing_data().features.nrows(), 2);
    assert_eq!(pipeline.training_data().targets.rows(), pipeline.y().slice_rows(0, 8).unwrap().rows());
    assert_eq!(pipeline.testing_data().features.rows(), pipeline.x().slice_rows(8, 10).unwrap().rows());
    assert_eq!(pipeline.testing_data().targets.rows(), pipeline.y().slice_rows(8, 10).unwrap().rows());

    let schedule = Schedule { rounds: 1, batch_size: 4, epochs_per_round: 3000 };
    let job = pipeline.train(UpdateRule::GradientDescent, Ratio::new(1, 20), schedule).unwrap();
    assert_eq!((job.samples, job.inputs, job.outputs), (8, 2, 1));
    let training = pipeline.training_data();
    let mut model =
        SGD::new(&to_array(&training.features), &to_array(&training.targets), as_float(job.learning_rate)).unwrap();
    model.train_batch(job.schedule.rounds, job.schedule.batch_size, job.schedule.epochs_per_round);

    let parts = pipeline.inference(true, &vec![RowRange { start: 0, end: 2 }]).unwrap();
    assert_eq!(pipeline.stage(), Stage::Inferred);
    let predicted = to_matrix(&model.predict(&to_array(&parts[0].features)));
    assert_eq!(y_scaler.admit_inverse(&predicted), Ok(()));
    assert_eq!(y_scaler.admit_inverse(&parts[0].targets), Ok(()));
    let restored = y_values.inverse_transform(&to_array(&predicted).view());
    let expected = y_values.inverse_transform(&to_array(&parts[0].targets).view());
    for (row, truth) in [(0usize, 19.0), (1, 21.0)] {
        assert!((expected[[row, 0]] - truth).abs() < 1e-9);
        assert_eq!(raw_y.get(8 + row, 0), Some(truth));
        let error = (restored[[row, 0]] - truth).abs();
        assert!(error <= 0.5, "row {row}: predicted {}, expected {truth}", restored[[row, 0]]);
    }
}

#[test]
fn reloaded_regressor_predicts_like_the_trained_one() {
    let key = "/tmp/dendritic_ml_models_tests/synthetic_regressor";
    let mut pipeline: Pipeline<f64> =
        Pipeline::register("synthetic", "data/synthetic.parquet", key, ModelKind::LinearRegressor, Ratio::new(1, 100));
    pipeline
        .load(Some(&synthetic()), &vec!["f1".to_string(), "f2".to_string()], &vec!["y".to_string()])
        .unwrap();
    pipeline.transform(Encoded::Unchanged, Encoded::Unchanged, Some(Ratio::new(4, 5))).unwrap();

    let schedule = Schedule { rounds: 2, batch_size: 4, epochs_per_round: 50 };
    let job = pipeline.train(UpdateRule::GradientDescent, Ratio::new(1, 1000), schedule).unwrap();
    let training = pipeline.training_data();
    let mut trained =
        SGD::new(&to_array(&training.features), &to_array(&training.targets), as_float(job.learning_rate)).unwrap();
    trained.train_batch(job.schedule.rounds, job.schedule.batch_size, job.schedule.epochs_per_round);
    trained.save(&job.artifact_key).unwrap();

    let reloaded = SGD::load(pipeline.artifact_key());
    let parts = pipeline.inference(reloaded.is_ok(), &vec![RowRange { start: 0, end: 2 }]).unwrap();
    let mut reloaded = reloaded.unwrap();
    for rows in [&parts[0].features, &pipeline.training_data().features] {
        let x = to_array(rows);
        let before = trained.predict(&x);
        let after = reloaded.predict(&x);
        assert_eq!(before.dim(), after.dim());
        for (a, b) in before.iter().zip(after.iter()) {
            assert!((a - b).abs() <= 1e-9, "the trained model predicts {a}, the reloaded one {b}");
        }
    }
}
