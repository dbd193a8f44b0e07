use cluster_classifier::classifier::Phase;
use cluster_classifier::dataset::Dataset;
use cluster_classifier::error::Error;
use cluster_classifier::grid::CentroidMatrix;
use cluster_classifier::pipeline::{prepare, Settings, SAMPLE_FEATURES};
use cluster_classifier::report::evaluate;
use cluster_classifier::sampler::{generate_data, Sample};
use rusty_machine::data::transforms::{Standardizer, Transformer};
use rusty_machine::learning::nnet::{BCECriterion, NeuralNet};
use rusty_machine::learning::optim::grad_desc::StochasticGD;
use rusty_machine::learning::SupModel;
use rusty_machine::linalg::{Axes, BaseMatrix, Matrix};

fn bits(values: &[f64]) -> Vec<u64> {
    values.iter().map(|v| v.to_bits()).collect()
}

fn reals(m: &Matrix<u64>) -> Matrix<f64> {
    Matrix::new(m.rows(), m.cols(), m.data().iter().map(|b| f64::from_bits(*b)).collect::<Vec<_>>())
}

fn dataset(points: &[(f64, f64, usize)]) -> Dataset {
    let samples: Vec<Sample> = points
        .iter()
        .map(|p| Sample { height: p.0.to_bits(), length: p.1.to_bits(), category_id: p.2 })
        .collect();
    Dataset::from_samples(&samples)
}

fn two_clusters() -> Dataset {
    dataset(&[(0.0, 0.0, 0), (10.0, 10.0, 1), (0.5, -0.5, 0), (9.0, 11.0, 1)])
}

#[test]
fn default_settings_are_the_fixed_ones() {
    let settings = Settings::default();
    assert_eq!(f64::from_bits(settings.target_mean), 0.0);
    assert_eq!(f64::from_bits(settings.target_variance), 1.0);
    assert_eq!(settings.layers, vec![2, 2, 1]);
    assert_eq!(f64::from_bits(settings.learning_rate), 0.1);
    assert_eq!(f64::from_bits(settings.momentum), 0.1);
    assert_eq!(settings.epochs, 20);
    assert_eq!(SAMPLE_FEATURES, 2);
}

#[test]
fn usable_run_is_prepared() {
    let training = two_clusters();
    let testing = dataset(&[(1.0, 1.0, 0)]);
    let means = bits(&[4.875, 5.125]);
    let variances = bits(&[28.7, 37.2]);
    let settings = Settings::default();
    let prepared =
        prepare(&training, &testing, means.clone(), variances.clone(), &settings).ok().unwrap();
    assert_eq!(prepared.params.means(), &means);
    assert_eq!(prepared.params.variances(), &variances);
    assert_eq!(prepared.params.target_mean(), settings.target_mean);
    assert_eq!(prepared.params.target_variance(), settings.target_variance);
    assert_eq!(prepared.model.phase(), Phase::Trained);
    assert_eq!(prepared.model.layers(), &settings.layers);
}

#[test]
fn empty_testing_data_is_no_obstacle() {
    let prepared = prepare(
        &two_clusters(),
        &dataset(&[]),
        bits(&[5.0, 5.0]),
        bits(&[1.0, 1.0]),
        &Settings::default(),
    );
    assert!(prepared.is_ok());
}

#[test]
fn too_little_training_data_is_degenerate() {
    let settings = Settings::default();
    for training in [dataset(&[]), dataset(&[(1.0, 2.0, 0)])] {
        let refused =
            prepare(&training, &two_clusters(), bits(&[1.0, 2.0]), bits(&[1.0, 1.0]), &settings);
        assert_eq!(refused.err(), Some(Error::DegenerateStatistics));
    }
}

#[test]
fn constant_feature_is_degenerate() {
    let training = dataset(&[(1.0, 7.0, 0), (2.0, 7.0, 1), (3.0, 7.0, 1)]);
    let refused = prepare(
        &training,
        &two_clusters(),
        bits(&[2.0, 7.0]),
        bits(&[1.0, 0.0]),
        &Settings::default(),
    );
    assert_eq!(refused.err(), Some(Error::DegenerateStatistics));
}

#[test]
fn statistics_need_one_entry_per_feature() {
    let settings = Settings::default();
    let training = two_clusters();
    let testing = two_clusters();
    let three = prepare(&training, &testing, bits(&[1.0; 3]), bits(&[1.0; 3]), &settings);
    assert_eq!(three.err(), Some(Error::ShapeMismatch));
    let uneven = prepare(&training, &testing, bits(&[1.0; 2]), bits(&[1.0; 3]), &settings);
    assert_eq!(uneven.err(), Some(Error::ShapeMismatch));
    let none = prepare(&training, &testing, vec![], vec![], &settings);
    assert_eq!(none.err(), Some(Error::ShapeMismatch));
}

#[test]
fn unusable_layout_or_settings_are_a_configuration_error() {
    let training = two_clusters();
    let testing = two_clusters();
    let stats = bits(&[1.0, 1.0]);
    let layout = Settings { layers: vec![2, 0, 1], ..Settings::default() };
    let rate = Settings { learning_rate: 0, ..Settings::default() };
    let momentum = Settings { momentum: (-0.1f64).to_bits(), ..Settings::default() };
    let epochs = Settings { epochs: 0, ..Settings::default() };
    for settings in [layout, rate, momentum, epochs] {
        let refused = prepare(&training, &testing, stats.clone(), stats.clone(), &settings);
        assert_eq!(refused.err(), Some(Error::InvalidConfiguration));
    }
}

#[test]
fn input_layer_must_take_two_features() {
    let settings = Settings { layers: vec![3, 2, 1], ..Settings::default() };
    let stats = bits(&[1.0, 1.0]);
    let refused = prepare(&two_clusters(), &two_clusters(), stats.clone(), stats, &settings);
    assert_eq!(refused.err(), Some(Error::ShapeMismatch));
}

#[test]
fn statistics_are_looked_at_before_the_settings() {
    let settings = Settings { layers: vec![], epochs: 0, ..Settings::default() };
    let refused =
        prepare(&two_clusters(), &two_clusters(), bits(&[1.0, 1.0]), bits(&[0.0, 1.0]), &settings);
    assert_eq!(refused.err(), Some(Error::DegenerateStatistics));
}

#[test]
fn separable_clusters_end_to_end() {
    let centroids =
        CentroidMatrix::from_values(2, 2, bits(&[0.0, 0.0, 10.0, 10.0])).ok().unwrap();
    let samples = generate_data(&centroids, 5, 0.0f64.to_bits(), |centre, _| centre).unwrap();
    assert_eq!(samples.len(), 10);
    let training = Dataset::from_samples(&samples);
    let testing = Dataset::from_samples(&samples);

    let training_inputs = reals(training.inputs());
    let means = bits(training_inputs.mean(Axes::Row).data());
    let variances = bits(training_inputs.variance(Axes::Row).unwrap().data());
    let settings = Settings::default();
    let prepared = prepare(&training, &testing, means, variances, &settings).ok().unwrap();

    let mut standardizer = Standardizer::new(
        f64::from_bits(prepared.params.target_mean()),
        f64::from_bits(prepared.params.target_variance()).sqrt(),
    );
    standardizer.fit(&training_inputs).unwrap();
    let normalized_training = standardizer.transform(training_inputs).unwrap();
    let normalized_testing = standardizer.transform(reals(testing.inputs())).unwrap();
    let targets = Matrix::new(
        training.len(),
        1,
        training.labels().iter().map(|l| *l as f64).collect::<Vec<_>>(),
    );
    let descent = StochasticGD::new(
        f64::from_bits(settings.learning_rate),
        f64::from_bits(settings.momentum),
        settings.epochs,
    );
    let mut net = NeuralNet::new(prepared.model.layers(), BCECriterion::default(), descent);
    net.train(&normalized_training, &targets).unwrap();
    let outputs = net.predict(&normalized_testing).unwrap().into_vec();
    assert_eq!(Ok(outputs.len()), prepared.model.admit_prediction(testing.inputs()));

    let records = evaluate(testing.inputs(), &bits(&outputs), testing.labels()).unwrap();
    assert_eq!(records.len(), 10);
    for (k, record) in records.iter().enumerate() {
        let centre = if k % 2 == 0 { 0.0 } else { 10.0 };
        assert_eq!(f64::from_bits(record.height), centre);
        assert_eq!(f64::from_bits(record.length), centre);
        assert_eq!(record.true_category_id, k % 2);
        let estimate = f64::from_bits(record.estimated_category_id);
        assert!(estimate > 0.0 && estimate < 1.0);
    }
    let at_origin = f64::from_bits(records[0].estimated_category_id);
    let at_ten = f64::from_bits(records[1].estimated_category_id);
    for (k, record) in records.iter().enumerate() {
        let same = if k % 2 == 0 { at_origin } else { at_ten };
        assert_eq!(f64::from_bits(record.estimated_category_id), same);
    }
}
