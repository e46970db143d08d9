//! A second house price pipeline that reads from another source and stops after loading.

use vstd::prelude::*;
use crate::encoder::{Scaler, ScalerKind};
use crate::error::Stage;
use crate::model::ModelKind;
use crate::pipeline::{load_refusal, Failure, Pipeline};
use crate::ratio::Ratio;
use crate::table::{names_of, owned_names, projected_rows, Table};

verus! {

/// The feature columns, in the order of the columns of X.
pub open spec fn feature_names() -> Seq<Seq<char>> {
    seq![
        "longitude"@,
        "latitude"@,
        "housing_median_age"@,
        "total_rooms"@,
        "population"@,
        "median_income"@,
    ]
}

/// The target column.
pub open spec fn target_names() -> Seq<Seq<char>> {
    seq!["median_house_value"@]
}

/// The feature columns, in the order of the columns of X.
pub fn feature_columns() -> (out: Vec<String>)
    ensures
        names_of(out) == feature_names(),
{
    let list = [
        "longitude",
        "latitude",
        "housing_median_age",
        "total_rooms",
        "population",
        "median_income",
    ];
    let out = owned_names(&list);
    assert(names_of(out) =~= feature_names());
    out
}

/// The target column.
pub fn target_columns() -> (out: Vec<String>)
    ensures
        names_of(out) == target_names(),
{
    let list = ["median_house_value"];
    let out = owned_names(&list);
    assert(names_of(out) =~= target_names());
    out
}

/// A house price pipeline over another source.
///
/// It is registered with two min-max scalers and a placeholder regressor and
/// offers the load step only.
#[derive(Debug)]
pub struct HousePrices<T> {
    pipeline: Pipeline<T>,
    x_encode: Scaler,
    y_encode: Scaler,
}

impl<T> HousePrices<T> {
    /// The state of the pipeline.
    pub closed spec fn spec_pipeline(&self) -> &Pipeline<T> {
        &self.pipeline
    }

    /// The state of the pipeline.
    #[verifier::when_used_as_spec(spec_pipeline)]
    pub fn pipeline(&self) -> (out: &Pipeline<T>)
        ensures
            out == self.pipeline(),
    {
        &self.pipeline
    }

    /// The scaler of the features.
    pub closed spec fn spec_x_encode(&self) -> Scaler {
        self.x_encode
    }

    /// The scaler of the target.
    pub closed spec fn spec_y_encode(&self) -> Scaler {
        self.y_encode
    }

    /// The scaler of the features.
    #[verifier::when_used_as_spec(spec_x_encode)]
    pub fn x_encode(&self) -> (out: Scaler)
        ensures
            out == self.x_encode(),
    {
        self.x_encode
    }

    /// The scaler of the target.
    #[verifier::when_used_as_spec(spec_y_encode)]
    pub fn y_encode(&self) -> (out: Scaler)
        ensures
            out == self.y_encode(),
    {
        self.y_encode
    }

    /// The pipeline is well formed and carries the settings of this data set:
    /// once loaded, six feature columns and one target column; two unfitted
    /// min-max scalers.
    pub open spec fn wf(&self) -> bool {
        let p = self.pipeline();
        &&& p.wf()
        &&& p.file_path()@ == "data/coin_monero.csv"@
        &&& p.artifact_key()@ == "models/coin_monero"@
        &&& p.model().kind == ModelKind::LinearRegressor
        &&& p.stage().reached(Stage::Loaded) ==> p.x().width() == 6 && p.y().width() == 1
        &&& self.x_encode().kind_of() == ScalerKind::MinMax
        &&& self.y_encode().kind_of() == ScalerKind::MinMax
        &&& self.x_encode().fitted_width() is None
        &&& self.y_encode().fitted_width() is None
    }
}

impl<T: Copy> HousePrices<T> {
    /// Registers the pipeline under `name`, with empty matrices, two unfitted
    /// scalers and a placeholder regressor whose learning rate is one
    /// hundredth.
    pub fn register(name: &str) -> (out: Self)
        ensures
            out.wf(),
            out.pipeline().stage() == Stage::Registered,
            out.pipeline().name()@ == name@,
            out.pipeline().x().height() == 0,
            out.pipeline().y().height() == 0,
            out.pipeline().model().learning_rate == (Ratio { numer: 1, denom: 100 }),
    {
        HousePrices {
            pipeline: Pipeline::register(
                name,
                "data/coin_monero.csv",
                "models/coin_monero",
                ModelKind::LinearRegressor,
                Ratio::new(1, 100),
            ),
            x_encode: Scaler::new(ScalerKind::MinMax),
            y_encode: Scaler::new(ScalerKind::MinMax),
        }
    }

    /// Loads the six feature columns into X and the target column into Y.
    /// `source` is the table read from `file_path()`, or `None` where that
    /// could not be read.
    pub fn load(&mut self, source: Option<&Table<T>>) -> (out: Result<(), Failure>)
        requires
            old(self).wf(),
            source matches Some(table) ==> table.wf(),
        ensures
            final(self).wf(),
            final(self).pipeline().same_identity(old(self).pipeline()),
            match out {
                Ok(()) => {
                    let table = source->Some_0;
                    &&& load_refusal(old(self).pipeline().stage(), source, feature_names(), target_names()) is None
                    &&& final(self).pipeline().stage() == Stage::Loaded
                    &&& final(self).pipeline().x()@ == projected_rows(
                        table.names(),
                        table.columns(),
                        table.height(),
                        feature_names(),
                    )
                    &&& final(self).pipeline().y()@ == projected_rows(
                        table.names(),
                        table.columns(),
                        table.height(),
                        target_names(),
                    )
                },
                Err(f) => {
                    &&& load_refusal(old(self).pipeline().stage(), source, feature_names(), target_names())
                        == Some(f.error)
                    &&& f.names(old(self).pipeline().name()@, Stage::Loaded, f.error)
                    &&& *final(self) == *old(self)
                },
            },
    {
        let features = feature_columns();
        let targets = target_columns();
        self.pipeline.load(source, &features, &targets)
    }
}

} // verus!
