use dendritic_ml_models::error::{PipelineError, Stage};
use dendritic_ml_models::iris::{feature_columns, IrisFlowersModel, millimetres_per_unit, target_columns};
use dendritic_ml_models::matrix::Matrix;
use dendritic_ml_models::model::{ModelKind, Schedule};
use dendritic_ml_models::ratio::Ratio;
use dendritic_ml_models::table::Table;

/// A table whose cell in column `c` and row `r` is `100 * c + r`. The columns
/// are put in reverse order, with an extra column in front.
fn table_of(columns: &[String], rows: usize) -> Table<f64> {
    let mut names = vec!["unused".to_string()];
    let mut cells: Vec<Vec<Option<f64>>> = vec![(0..rows).map(|_| None).collect()];
    for (c, name) in columns.iter().enumerate().rev() {
        names.push(name.clone());
        cells.push((0..rows).map(|r| Some((100 * c + r) as f64)).collect());
    }
    Table::new(names, cells).unwrap()
}

fn all_columns(features: Vec<String>, targets: Vec<String>) -> Vec<String> {
    let mut all = features;
    all.extend(targets);
    all
}

#[test]
fn iris_encodes_its_species_and_predicts_on_nine_flowers() {
    assert_eq!(feature_columns(), vec!["sepal_length_cm", "sepal_width_cm", "petal_length_cm", "petal_width_cm"]);
    assert_eq!(target_columns(), vec!["species_code"]);
    let table = table_of(&all_columns(feature_columns(), target_columns()), 6);
    let mut model: IrisFlowersModel<f64> = IrisFlowersModel::register("iris_flowers");
    assert_eq!(model.pipeline().file_path(), "data/iris.parquet");
    assert_eq!(model.pipeline().artifact_key(), "iris_classification");
    assert_eq!(model.pipeline().model().kind, ModelKind::MultiClassClassifier);
    assert!(!model.encoder().fitted());
    model.load(Some(&table)).unwrap();

    let wide = Matrix::filled(6, 2, 0i64);
    assert_eq!(model.transform(&wide, 0.0, 1.0).unwrap_err().error, PipelineError::ShapeMismatch);
    let short = Matrix::filled(5, 1, 0i64);
    assert_eq!(model.transform(&short, 0.0, 1.0).unwrap_err().error, PipelineError::ShapeMismatch);
    assert!(!model.encoder().fitted());
    assert_eq!(model.pipeline().stage(), Stage::Loaded);

    let codes = Matrix::from_rows(vec![vec![2i64], vec![0], vec![1], vec![1], vec![0], vec![2]]).unwrap();
    model.transform(&codes, 0.0, 1.0).unwrap();
    assert!(model.encoder().fitted());
    assert_eq!(model.encoder().num_classes(), 3);
    assert_eq!(model.pipeline().x().get(2, 3), Some(302.0));
    assert_eq!(
        model.pipeline().y().rows(),
        &vec![
            vec![0.0, 0.0, 1.0],
            vec![1.0, 0.0, 0.0],
            vec![0.0, 1.0, 0.0],
            vec![0.0, 1.0, 0.0],
            vec![1.0, 0.0, 0.0],
            vec![0.0, 0.0, 1.0],
        ]
    );
    assert_eq!(model.transform(&codes, 0.0, 1.0).unwrap_err().error, PipelineError::StageOrder);

    let job = model.train().unwrap();
    assert_eq!(job.kind, ModelKind::MultiClassClassifier);
    assert_eq!(job.learning_rate, Ratio::new(1, 1000));
    assert_eq!(job.schedule, Schedule { rounds: 3, batch_size: 10, epochs_per_round: 1000 });
    assert_eq!(job.artifact_key, "iris_classification");
    assert_eq!((job.samples, job.inputs, job.outputs), (6, 4, 3));

    assert_eq!(model.inference(false).unwrap_err().error, PipelineError::ArtifactNotFound);
    let samples = model.inference(true).unwrap();
    assert_eq!(millimetres_per_unit(), 10);
    assert_eq!(samples.len(), 3);
    assert_eq!(samples[0].rows(), &vec![vec![50, 35, 14, 2], vec![43, 30, 11, 1], vec![46, 34, 14, 3]]);
    assert_eq!(samples[1].rows(), &vec![vec![64, 29, 43, 13], vec![68, 28, 48, 14], vec![67, 30, 50, 17]]);
    assert_eq!(samples[2].rows(), &vec![vec![64, 27, 53, 19], vec![77, 38, 67, 22], vec![79, 38, 64, 20]]);
    assert_eq!(model.pipeline().stage(), Stage::Inferred);
}

