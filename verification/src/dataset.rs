//! A labelled dataset: the samples' features as an inputs matrix, and their
//! categories as a label vector of the same length.

use crate::sampler::Sample;
use crate::table::{matrix_cols, matrix_new, table_rectangular, table_rows, table_width};
use rusty_machine::linalg::Matrix;
use vstd::prelude::*;

verus! {

/// Samples decomposed into an inputs matrix with one row of two features per
/// sample, and a label vector with one category per row.
#[derive(Debug)]
pub struct Dataset {
    inputs: Matrix<u64>,
    labels: Vec<usize>,
}

impl Dataset {
    /// The inputs matrix has two columns and as many rows as there are labels.
    #[verifier::type_invariant]
    spec fn consistent(&self) -> bool {
        &&& table_rows(self.inputs).len() == self.labels@.len()
        &&& table_width(self.inputs) == 2
        &&& table_rectangular(self.inputs)
    }

    /// The feature rows, in sample order.
    pub closed spec fn features(&self) -> Seq<Seq<u64>> {
        table_rows(self.inputs)
    }

    /// The categories, in sample order.
    pub closed spec fn targets(&self) -> Seq<usize> {
        self.labels@
    }

    /// Decomposes `samples`: row `i` of the inputs is the height and the
    /// length of sample `i`, and label `i` is its category.
    pub fn from_samples(samples: &Vec<Sample>) -> (d: Dataset)
        ensures
            d.features().len() == samples@.len(),
            d.targets().len() == samples@.len(),
            forall|i: int|
                0 <= i < samples@.len() ==> (#[trigger] d.features()[i]) == seq![
                    samples@[i].height,
                    samples@[i].length,
                ],
            forall|i: int|
                0 <= i < samples@.len() ==> (#[trigger] d.targets()[i]) == samples@[i].category_id,
    {
        let count = samples.len();
        let mut input_data: Vec<u64> = Vec::new();
        let mut label_data: Vec<usize> = Vec::new();
        let mut i: usize = 0;
        while i < count
            invariant
                i <= count,
                count == samples@.len(),
                input_data@.len() == 2 * i,
                label_data@.len() == i,
                forall|t: int|
                    0 <= t < i ==> input_data@[2 * t] == samples@[t].height && input_data@[2 * t
                        + 1] == samples@[t].length,
                forall|t: int| 0 <= t < i ==> label_data@[t] == samples@[t].category_id,
            decreases count - i,
        {
            let row = &samples[i];
            input_data.push(row.height);
            input_data.push(row.length);
            label_data.push(row.category_id);
            i += 1;
        }
        let ghost data = input_data@;
        let inputs = matrix_new(count, 2, input_data);
        let _ = matrix_cols(&inputs);
        proof {
            assert forall|t: int| 0 <= t < count implies (#[trigger] table_rows(inputs)[t]) == seq![
                samples@[t].height,
                samples@[t].length,
            ] by {
                assert(table_rows(inputs)[t] == data.subrange(t * 2, (t + 1) * 2));
                assert(data.subrange(t * 2, (t + 1) * 2) =~= seq![data[2 * t], data[2 * t + 1]]);
            }
        }
        Dataset { inputs, labels: label_data }
    }

    /// The number of samples.
    pub fn len(&self) -> (n: usize)
        ensures
            n == self.features().len(),
            n == self.targets().len(),
    {
        proof {
            use_type_invariant(self);
        }
        self.labels.len()
    }

    /// The inputs matrix: one row of two features per sample.
    pub fn inputs(&self) -> (m: &Matrix<u64>)
        ensures
            table_rows(*m) == self.features(),
            table_width(*m) == 2,
            table_rectangular(*m),
    {
        proof {
            use_type_invariant(self);
        }
        &self.inputs
    }

    /// The label vector: one category per row of the inputs.
    pub fn labels(&self) -> (l: &Vec<usize>)
        ensures
            l@ == self.targets(),
            l@.len() == self.features().len(),
    {
        proof {
            use_type_invariant(self);
        }
        &self.labels
    }
}

} // verus!
