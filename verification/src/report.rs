//! The evaluator: pairs each held-out row with what the model said of it and
//! with what it really is.

use crate::error::Error;
use crate::table::{matrix_cols, matrix_get, matrix_rows, table_rows, table_width};
use rusty_machine::linalg::Matrix;
use vstd::prelude::*;

verus! {

/// One line of the evaluation report. The model's output is carried through
/// as it came: no threshold is applied to it.
#[derive(Clone, Copy, Debug, PartialEq, Eq, Structural)]
pub struct PredictionRecord {
    pub height: u64,
    pub length: u64,
    pub estimated_category_id: u64,
    pub true_category_id: usize,
}

/// The three sequences describe the same rows: there is one output and one
/// label per input row, and a row has the two features a record shows.
pub open spec fn report_shapes_agree(
    inputs: Matrix<u64>,
    outputs: Seq<u64>,
    labels: Seq<usize>,
) -> bool {
    &&& table_rows(inputs).len() == outputs.len()
    &&& table_rows(inputs).len() == labels.len()
    &&& table_width(inputs) >= 2
}

/// The record of row `i`: its first two features as they were before
/// standardization, the model's output for it, and its true label.
pub open spec fn record_of(
    inputs: Matrix<u64>,
    outputs: Seq<u64>,
    labels: Seq<usize>,
    i: int,
) -> PredictionRecord {
    PredictionRecord {
        height: table_rows(inputs)[i][0],
        length: table_rows(inputs)[i][1],
        estimated_category_id: outputs[i],
        true_category_id: labels[i],
    }
}

/// Builds the report: one record per input row, in row order. Sequences that
/// do not describe the same rows are refused with `ShapeMismatch`.
pub fn evaluate(inputs: &Matrix<u64>, outputs: &Vec<u64>, labels: &Vec<usize>) -> (r: Result<
    Vec<PredictionRecord>,
    Error,
>)
    ensures
        match r {
            Ok(records) => {
                &&& report_shapes_agree(*inputs, outputs@, labels@)
                &&& records@.len() == outputs@.len()
                &&& forall|i: int|
                    0 <= i < records@.len() ==> (#[trigger] records@[i]) == record_of(
                        *inputs,
                        outputs@,
                        labels@,
                        i,
                    )
            },
            Err(e) => e == Error::ShapeMismatch && !report_shapes_agree(
                *inputs,
                outputs@,
                labels@,
            ),
        },
{
    let rows = matrix_rows(inputs);
    let cols = matrix_cols(inputs);
    if rows != outputs.len() || rows != labels.len() || cols < 2 {
        return Err(Error::ShapeMismatch);
    }
    let mut records: Vec<PredictionRecord> = Vec::new();
    let mut i: usize = 0;
    while i < rows
        invariant
            i <= rows,
            rows == table_rows(*inputs).len(),
            rows == outputs@.len(),
            rows == labels@.len(),
            forall|t: int| 0 <= t < rows ==> (#[trigger] table_rows(*inputs)[t]).len() >= 2,
            records@.len() == i,
            forall|t: int|
                0 <= t < i ==> (#[trigger] records@[t]) == record_of(
                    *inputs,
                    outputs@,
                    labels@,
                    t,
                ),
        decreases rows - i,
    {
        records.push(
            PredictionRecord {
                height: matrix_get(inputs, i, 0),
                length: matrix_get(inputs, i, 1),
                estimated_category_id: outputs[i],
                true_category_id: labels[i],
            },
        );
        i += 1;
    }
    Ok(records)
}

} // verus!
