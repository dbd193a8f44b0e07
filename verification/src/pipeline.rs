//! The pipeline's decisions, in the order its stages run: fit the
//! standardizer on the training data, transform both datasets with that one
//! fit, lay out the model, train it, and predict the held-out rows.
//!
//! None of these decisions reads a number that the stages compute, so all of
//! them are taken before the numeric engine starts. The engine is then given
//! only requests it cannot fail on.

use crate::classifier::{settings_usable, topology_usable, Classifier, Phase};
use crate::classifier::{DEFAULT_EPOCHS, DEFAULT_LEARNING_RATE, DEFAULT_MOMENTUM};
use crate::dataset::Dataset;
use crate::error::Error;
use crate::standardizer::{statistics_usable, StandardizationParams};
use crate::standardizer::{DEFAULT_TARGET_MEAN, DEFAULT_TARGET_VARIANCE};
use vstd::prelude::*;

verus! {

/// The number of features of a sample, and so of every dataset.
pub const SAMPLE_FEATURES: usize = 2;

/// What the pipeline is configured with.
#[derive(Clone, Debug)]
pub struct Settings {
    /// The mean that the standardizer maps each feature to.
    pub target_mean: u64,
    /// The variance that the standardizer maps each feature to.
    pub target_variance: u64,
    /// The network's layer sizes, input layer first.
    pub layers: Vec<usize>,
    /// The step size of the gradient descent.
    pub learning_rate: u64,
    /// The share of the previous update that is added to the next one.
    pub momentum: u64,
    /// The number of passes over the training data.
    pub epochs: usize,
}

impl Default for Settings {
    /// Mean zero and variance one, layers of two, two and one unit, a
    /// learning rate and a momentum of one tenth, twenty passes.
    fn default() -> (s: Settings)
        ensures
            s.target_mean == DEFAULT_TARGET_MEAN,
            s.target_variance == DEFAULT_TARGET_VARIANCE,
            s.layers@ == seq![2usize, 2usize, 1usize],
            s.learning_rate == DEFAULT_LEARNING_RATE,
            s.momentum == DEFAULT_MOMENTUM,
            s.epochs == DEFAULT_EPOCHS,
    {
        let mut layers: Vec<usize> = Vec::new();
        layers.push(2);
        layers.push(2);
        layers.push(1);
        assert(layers@ =~= seq![2usize, 2usize, 1usize]);
        Settings {
            target_mean: DEFAULT_TARGET_MEAN,
            target_variance: DEFAULT_TARGET_VARIANCE,
            layers,
            learning_rate: DEFAULT_LEARNING_RATE,
            momentum: DEFAULT_MOMENTUM,
            epochs: DEFAULT_EPOCHS,
        }
    }
}

/// A pipeline that has been admitted: the parameters both datasets are
/// transformed with, and the model, which counts as trained.
#[derive(Debug)]
pub struct Prepared {
    pub params: StandardizationParams,
    pub model: Classifier,
}

/// The first stage that would fail, as the error it fails with; `None` when
/// every stage can run.
///
/// `rows` is the row count of the training data, on which `means` and
/// `variances` were measured. The stages are looked at in running order: the
/// fit; the two transforms, which need one fitted feature per column of a
/// dataset; the model's layout and the training settings; and the training
/// and the prediction, which need one input unit per column.
pub open spec fn pipeline_refusal(
    rows: nat,
    means: Seq<u64>,
    variances: Seq<u64>,
    settings: Settings,
) -> Option<Error> {
    if !statistics_usable(rows, means, variances) {
        if rows >= 2 && means.len() != variances.len() {
            Some(Error::ShapeMismatch)
        } else {
            Some(Error::DegenerateStatistics)
        }
    } else if means.len() != SAMPLE_FEATURES {
        Some(Error::ShapeMismatch)
    } else if !topology_usable(settings.layers@) || !settings_usable(
        settings.learning_rate,
        settings.momentum,
        settings.epochs,
    ) {
        Some(Error::InvalidConfiguration)
    } else if settings.layers@[0] != SAMPLE_FEATURES {
        Some(Error::ShapeMismatch)
    } else {
        None
    }
}

/// Takes every decision of one pipeline run.
///
/// `means` and `variances` are the column statistics of the training inputs.
/// They are the only statistics the run uses: the parameters fitted from them
/// are checked against the training inputs and against the testing inputs
/// alike, and the testing data contributes none of its own.
pub fn prepare(
    training: &Dataset,
    testing: &Dataset,
    means: Vec<u64>,
    variances: Vec<u64>,
    settings: &Settings,
) -> (r: Result<Prepared, Error>)
    ensures
        match pipeline_refusal(training.features().len(), means@, variances@, *settings) {
            Some(e) => r matches Err(x) && x == e,
            None => {
                &&& r matches Ok(p)
                &&& p.params.source_means() == means@
                &&& p.params.source_variances() == variances@
                &&& p.params.target() == (settings.target_mean, settings.target_variance)
                &&& p.model.layout() == settings.layers@
                &&& p.model.stage() == Phase::Trained
            },
        },
{
    let params = match StandardizationParams::fit(
        training.len(),
        means,
        variances,
        settings.target_mean,
        settings.target_variance,
    ) {
        Ok(params) => params,
        Err(e) => {
            return Err(e);
        },
    };
    match params.check_transform(training.inputs()) {
        Ok(()) => {},
        Err(e) => {
            return Err(e);
        },
    }
    match params.check_transform(testing.inputs()) {
        Ok(()) => {},
        Err(e) => {
            return Err(e);
        },
    }
    let mut model = match Classifier::initialize(settings.layers.clone()) {
        Ok(model) => model,
        Err(e) => {
            return Err(e);
        },
    };
    match model.admit_training(
        training.inputs(),
        training.labels(),
        settings.learning_rate,
        settings.momentum,
        settings.epochs,
    ) {
        Ok(()) => {},
        Err(e) => {
            return Err(e);
        },
    }
    match model.admit_prediction(testing.inputs()) {
        Ok(_) => {},
        Err(e) => {
            return Err(e);
        },
    }
    Ok(Prepared { params, model })
}

} // verus!
