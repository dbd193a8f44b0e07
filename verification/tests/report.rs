use cluster_classifier::error::Error;
use cluster_classifier::report::{evaluate, PredictionRecord};
use rusty_machine::linalg::Matrix;

fn bits(values: &[f64]) -> Vec<u64> {
    values.iter().map(|v| v.to_bits()).collect()
}

#[test]
fn one_record_per_row_in_row_order() {
    let inputs = Matrix::new(3, 2, bits(&[1.0, 2.0, 3.0, 4.0, 5.0, 6.0]));
    let outputs = bits(&[0.25, 0.75, 0.5]);
    let labels = vec![0, 1, 1];
    let records = evaluate(&inputs, &outputs, &labels).unwrap();
    let expected = vec![
        PredictionRecord {
            height: 1.0f64.to_bits(),
            length: 2.0f64.to_bits(),
            estimated_category_id: 0.25f64.to_bits(),
            true_category_id: 0,
        },
        PredictionRecord {
            height: 3.0f64.to_bits(),
            length: 4.0f64.to_bits(),
            estimated_category_id: 0.75f64.to_bits(),
            true_category_id: 1,
        },
        PredictionRecord {
            height: 5.0f64.to_bits(),
            length: 6.0f64.to_bits(),
            estimated_category_id: 0.5f64.to_bits(),
            true_category_id: 1,
        },
    ];
    assert_eq!(records, expected);
}

#[test]
fn outputs_pass_through_unchanged() {
    let inputs = Matrix::new(2, 2, bits(&[0.0, 0.0, 0.0, 0.0]));
    let outputs = vec![f64::NAN.to_bits(), 0.499_999_999f64.to_bits()];
    let records = evaluate(&inputs, &outputs, &vec![1, 0]).unwrap();
    assert_eq!(records[0].estimated_category_id, outputs[0]);
    assert_eq!(records[1].estimated_category_id, outputs[1]);
}

#[test]
fn further_columns_are_not_reported() {
    let inputs = Matrix::new(2, 3, bits(&[1.0, 2.0, 3.0, 4.0, 5.0, 6.0]));
    let records = evaluate(&inputs, &bits(&[0.0, 1.0]), &vec![0, 1]).unwrap();
    assert_eq!(f64::from_bits(records[0].height), 1.0);
    assert_eq!(f64::from_bits(records[0].length), 2.0);
    assert_eq!(f64::from_bits(records[1].height), 4.0);
    assert_eq!(f64::from_bits(records[1].length), 5.0);
}

#[test]
fn no_rows_give_an_empty_report() {
    let inputs = Matrix::new(0, 2, Vec::<u64>::new());
    assert_eq!(evaluate(&inputs, &vec![], &vec![]), Ok(vec![]));
}

#[test]
fn lengths_must_agree() {
    let inputs = Matrix::new(3, 2, bits(&[1.0, 2.0, 3.0, 4.0, 5.0, 6.0]));
    let three = bits(&[0.25, 0.75, 0.5]);
    let two = bits(&[0.25, 0.75]);
    assert_eq!(evaluate(&inputs, &two, &vec![0, 1, 1]), Err(Error::ShapeMismatch));
    assert_eq!(evaluate(&inputs, &three, &vec![0, 1]), Err(Error::ShapeMismatch));
    assert_eq!(evaluate(&inputs, &three, &vec![0, 1, 1, 0]), Err(Error::ShapeMismatch));
    assert_eq!(evaluate(&inputs, &two, &vec![0, 1]), Err(Error::ShapeMismatch));
}

#[test]
fn rows_need_two_features() {
    let inputs = Matrix::new(3, 1, bits(&[1.0, 2.0, 3.0]));
    assert_eq!(
        evaluate(&inputs, &bits(&[0.25, 0.75, 0.5]), &vec![0, 1, 1]),
        Err(Error::ShapeMismatch)
    );
}
