use dendritic_ml_models::encoder::ScalerKind;
use dendritic_ml_models::error::{PipelineError, Stage};
use dendritic_ml_models::house_prices::{feature_columns, HousePrices, inference_windows, scaling, target_columns};
use dendritic_ml_models::matrix::Matrix;
use dendritic_ml_models::model::{ModelKind, ModelState, Schedule, UpdateRule};
use dendritic_ml_models::pipeline::RowRange;
use dendritic_ml_models::ratio::Ratio;
use dendritic_ml_models::table::Table;

/// A table whose cell in column `c` and row `r` is `100 * c + r`. The columns
/// are put in reverse order, with an extra column in front.
fn table_of(columns: &[String], rows: usize) -> Table<f64> {
    let mut names = vec!["unused".to_string()];
    let mut cells: Vec<Vec<Option<f64>>> = vec![(0..rows).map(|_| None).collect()];
    for (c, name) in columns.iter().enumerate().rev() {
        names.push(name.clone());
        cells.push((0..rows).map(|r| Some((100 * c + r) as f64)).collect());
    }
    Table::new(names, cells).unwrap()
}

fn all_columns(features: Vec<String>, targets: Vec<String>) -> Vec<String> {
    let mut all = features;
    all.extend(targets);
    all
}

fn halved(m: &Matrix<f64>) -> Matrix<f64> {
    let rows: Vec<Vec<f64>> = m.rows().iter().map(|row| row.iter().map(|v| v / 2.0).collect()).collect();
    Matrix::with_width(rows, m.ncols()).unwrap()
}

#[test]
fn house_prices_names_its_columns() {
    assert_eq!(
        feature_columns(),
        vec!["longitude", "latitude", "housing_median_age", "total_rooms", "population", "median_income"]
    );
    assert_eq!(target_columns(), vec!["median_house_value"]);
    assert_eq!(inference_windows(), vec![RowRange { start: 0, end: 5 }, RowRange { start: 50, end: 60 }]);
}

#[test]
fn house_prices_registers_with_a_placeholder() {
    let model: HousePrices<f64> = HousePrices::register("housing_prices");
    let p = model.pipeline();
    assert_eq!(p.name(), "housing_prices");
    assert_eq!(p.file_path(), "data/california_housing.parquet");
    assert_eq!(p.artifact_key(), "models/housing_prices");
    assert_eq!(p.stage(), Stage::Registered);
    assert_eq!((p.x().nrows(), p.x().ncols(), p.y().nrows(), p.y().ncols()), (0, 0, 0, 0));
    assert_eq!(p.model().kind, ModelKind::LinearRegressor);
    assert_eq!(p.model().learning_rate, Ratio::new(1, 100));
    assert_eq!(p.model().state, ModelState::Placeholder);
}

#[test]
fn house_prices_runs_through_its_stages() {
    let table = table_of(&all_columns(feature_columns(), target_columns()), 300);
    let mut model: HousePrices<f64> = HousePrices::register("housing_prices");
    model.load(Some(&table)).unwrap();
    assert_eq!(model.pipeline().stage(), Stage::Loaded);
    assert_eq!((model.pipeline().x().nrows(), model.pipeline().x().ncols()), (300, 6));
    assert_eq!((model.pipeline().y().nrows(), model.pipeline().y().ncols()), (300, 1));
    assert_eq!(model.pipeline().x().get(7, 0), Some(7.0));
    assert_eq!(model.pipeline().x().get(7, 5), Some(507.0));
    assert_eq!(model.pipeline().y().get(7, 0), Some(607.0));

    let x_scaled = halved(model.pipeline().x());
    let y_scaled = halved(model.pipeline().y());
    model.transform(x_scaled, y_scaled).unwrap();
    let p = model.pipeline();
    assert_eq!(p.stage(), Stage::Transformed);
    assert_eq!(p.cut(), Some(Ratio::new(4, 5)));
    assert_eq!(p.x().get(7, 5), Some(253.5));
    assert_eq!(p.training_data().features.nrows(), 240);
    assert_eq!(p.testing_data().features.nrows(), 60);
    assert_eq!(p.testing_data().features.get(0, 0), Some(120.0));
    assert_eq!(p.testing_data().targets.get(59, 0), Some(449.5));

    let job = model.train().unwrap();
    assert_eq!(job.kind, ModelKind::LinearRegressor);
    assert_eq!(job.rule, UpdateRule::GradientDescent);
    assert_eq!(job.learning_rate, Ratio::new(1, 10000));
    assert_eq!(job.schedule, Schedule { rounds: 5, batch_size: 128, epochs_per_round: 1000 });
    assert_eq!(job.artifact_key, "models/housing_prices");
    assert_eq!((job.samples, job.inputs, job.outputs), (240, 6, 1));
    assert_eq!(model.pipeline().model().state, ModelState::Trained);
    assert_eq!(model.pipeline().model().learning_rate, Ratio::new(1, 10000));

    let parts = model.inference(true).unwrap();
    assert_eq!(parts.len(), 2);
    assert_eq!((parts[0].features.nrows(), parts[0].features.ncols()), (5, 6));
    assert_eq!((parts[1].features.nrows(), parts[1].targets.ncols()), (10, 1));
    assert_eq!(parts[0].features.get(0, 0), Some(120.0));
    assert_eq!(parts[1].features.get(0, 0), Some(145.0));
    assert_eq!(parts[1].targets.get(9, 0), Some(449.5));
    assert_eq!(model.pipeline().stage(), Stage::Inferred);
    assert_eq!(model.pipeline().model().state, ModelState::Reloaded);
}

#[test]
fn house_prices_refuses_a_source_without_one_of_its_columns() {
    let mut columns = all_columns(feature_columns(), target_columns());
    columns.retain(|name| name != "population");
    let table = table_of(&columns, 20);
    let mut model: HousePrices<f64> = HousePrices::register("housing_prices");
    let failure = model.load(Some(&table)).unwrap_err();
    assert_eq!(failure.error, PipelineError::SchemaMismatch);
    assert_eq!(failure.dataset, "housing_prices");
    assert_eq!(failure.stage, Stage::Loaded);
    assert_eq!(model.pipeline().stage(), Stage::Registered);
    assert_eq!((model.pipeline().x().nrows(), model.pipeline().x().ncols()), (0, 0));
    assert_eq!((model.pipeline().y().nrows(), model.pipeline().y().ncols()), (0, 0));
    let failure = model.load(None).unwrap_err();
    assert_eq!(failure.error, PipelineError::SourceNotFound);
}

#[test]
fn house_prices_refuses_scaled_matrices_of_another_shape() {
    let table = table_of(&all_columns(feature_columns(), target_columns()), 10);
    let mut model: HousePrices<f64> = HousePrices::register("housing_prices");
    model.load(Some(&table)).unwrap();
    let failure = model.transform(Matrix::filled(10, 6, 0.0), Matrix::filled(10, 2, 0.0)).unwrap_err();
    assert_eq!(failure.error, PipelineError::ShapeMismatch);
    let failure = model.transform(Matrix::filled(9, 6, 0.0), Matrix::filled(10, 1, 0.0)).unwrap_err();
    assert_eq!(failure.error, PipelineError::ShapeMismatch);
    assert_eq!(model.pipeline().stage(), Stage::Loaded);
    model.transform(Matrix::filled(10, 6, 0.0), Matrix::filled(10, 1, 0.0)).unwrap();
    assert_eq!(model.pipeline().training_data().features.nrows(), 8);
    assert_eq!(model.pipeline().testing_data().features.nrows(), 2);
}

#[test]
fn house_prices_inference_needs_sixty_testing_rows_and_an_artifact() {
    let table = table_of(&all_columns(feature_columns(), target_columns()), 299);
    let mut model: HousePrices<f64> = HousePrices::register("housing_prices");
    model.load(Some(&table)).unwrap();
    let x = halved(model.pipeline().x());
    let y = halved(model.pipeline().y());
    model.transform(x, y).unwrap();
    assert_eq!(model.pipeline().training_data().features.nrows(), 239);
    assert_eq!(model.inference(true).unwrap_err().error, PipelineError::StageOrder);
    model.train().unwrap();
    assert_eq!(model.train().unwrap_err().error, PipelineError::StageOrder);
    assert_eq!(model.inference(false).unwrap_err().error, PipelineError::ArtifactNotFound);
    assert_eq!(model.pipeline().stage(), Stage::Trained);
    model.inference(true).unwrap();

    let short = table_of(&all_columns(feature_columns(), target_columns()), 298);
    let mut model: HousePrices<f64> = HousePrices::register("housing_prices");
    model.load(Some(&short)).unwrap();
    let x = halved(model.pipeline().x());
    let y = halved(model.pipeline().y());
    model.transform(x, y).unwrap();
    model.train().unwrap();
    assert_eq!(model.pipeline().testing_data().features.nrows(), 60);
    model.inference(true).unwrap();

    let shorter = table_of(&all_columns(feature_columns(), target_columns()), 290);
    let mut model: HousePrices<f64> = HousePrices::register("housing_prices");
    model.load(Some(&shorter)).unwrap();
    let x = halved(model.pipeline().x());
    let y = halved(model.pipeline().y());
    model.transform(x, y).unwrap();
    model.train().unwrap();
    assert_eq!(model.pipeline().testing_data().features.nrows(), 58);
    assert_eq!(model.inference(true).unwrap_err().error, PipelineError::ShapeMismatch);
    assert_eq!(model.pipeline().stage(), Stage::Trained);
}

#[test]
fn house_prices_scales_by_smallest_and_largest_cell() {
    assert_eq!(scaling(), ScalerKind::MinMax);
}
