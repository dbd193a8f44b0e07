//! The classifier's life cycle: a feed-forward network is laid out, trained
//! once, and then only read.
//!
//! The weights and the arithmetic on them belong to the caller's numeric
//! engine. This module keeps the layout and the phase, and decides which
//! training and prediction requests the engine may be given.

use crate::binary64::{is_positive, spec_is_positive};
use crate::error::Error;
use crate::table::{matrix_cols, matrix_rows, table_rows, table_width};
use rusty_machine::linalg::Matrix;
use vstd::prelude::*;

verus! {

/// The pipeline's default learning rate: one tenth.
pub const DEFAULT_LEARNING_RATE: u64 = 0x3FB9_9999_9999_999A;

/// The pipeline's default momentum: one tenth.
pub const DEFAULT_MOMENTUM: u64 = 0x3FB9_9999_9999_999A;

/// The pipeline's default number of passes over the training data.
pub const DEFAULT_EPOCHS: usize = 20;

/// Where a model stands. There is no way back from `Trained`.
#[derive(Clone, Copy, Debug, PartialEq, Eq, Structural)]
pub enum Phase {
    /// Laid out, with the engine's initial weights.
    Initialized,
    /// Trained; from now on the model is only read.
    Trained,
}

/// The number of weights of a fully connected network with these layer
/// sizes: every unit of a layer, and one bias, feeds every unit of the next.
pub open spec fn weight_total(layers: Seq<usize>) -> nat
    decreases layers.len(),
{
    if layers.len() < 2 {
        0
    } else {
        weight_total(layers.drop_last()) + ((layers[layers.len() - 2] + 1) * layers[layers.len()
            - 1]) as nat
    }
}

/// A layout the pipeline can use: an input and an output layer at least, no
/// layer without units, a single output unit, and a weight count that fits
/// in `usize`.
pub open spec fn topology_usable(layers: Seq<usize>) -> bool {
    &&& layers.len() >= 2
    &&& forall|i: int| 0 <= i < layers.len() ==> #[trigger] layers[i] >= 1
    &&& layers.last() == 1
    &&& weight_total(layers) <= usize::MAX
}

/// Training settings the engine accepts: a learning rate and a momentum
/// above zero, and at least one pass.
pub open spec fn settings_usable(learning_rate: u64, momentum: u64, epochs: usize) -> bool {
    spec_is_positive(learning_rate) && spec_is_positive(momentum) && epochs >= 1
}

/// Training data the model can take: one label per row, at least one row,
/// and one column per input unit.
pub open spec fn training_shapes_agree(
    inputs: Matrix<u64>,
    labels: Seq<usize>,
    input_size: usize,
) -> bool {
    &&& table_rows(inputs).len() == labels.len()
    &&& labels.len() > 0
    &&& table_width(inputs) == input_size
}

/// The weight count of a prefix never exceeds that of the whole layout.
proof fn lemma_weight_total_prefix(layers: Seq<usize>, n: int)
    requires
        0 <= n <= layers.len(),
    ensures
        weight_total(layers.take(n)) <= weight_total(layers),
    decreases layers.len() - n,
{
    if n == layers.len() {
        assert(layers.take(n) =~= layers);
    } else {
        lemma_weight_total_prefix(layers, n + 1);
        assert(layers.take(n + 1).drop_last() =~= layers.take(n));
    }
}

/// Counts the weights of a layout without empty layers, or finds that the
/// count does not fit in `usize`.
fn count_weights(layers: &Vec<usize>) -> (r: Option<usize>)
    requires
        forall|i: int| 0 <= i < layers@.len() ==> #[trigger] layers@[i] >= 1,
    ensures
        match r {
            Some(w) => w == weight_total(layers@),
            None => weight_total(layers@) > usize::MAX,
        },
{
    let n = layers.len();
    if n < 2 {
        return Some(0);
    }
    let mut total: usize = 0;
    let mut i: usize = 1;
    assert(weight_total(layers@.take(1)) == 0);
    while i < n
        invariant
            1 <= i <= n,
            n == layers@.len(),
            forall|t: int| 0 <= t < layers@.len() ==> #[trigger] layers@[t] >= 1,
            total == weight_total(layers@.take(i as int)),
        decreases n - i,
    {
        let ghost fan_in = layers@[i - 1] + 1;
        let ghost fan_out = layers@[i as int] as int;
        proof {
            assert(layers@.take(i + 1).drop_last() =~= layers@.take(i as int));
            assert(weight_total(layers@.take(i + 1)) == total + fan_in * fan_out);
            lemma_weight_total_prefix(layers@, i + 1);
            assert(fan_in * fan_out >= fan_in) by (nonlinear_arith)
                requires
                    fan_in >= 1,
                    fan_out >= 1,
            ;
        }
        let step = match layers[i - 1].checked_add(1) {
            Some(units) => units.checked_mul(layers[i]),
            None => None,
        };
        let sum = match step {
            Some(block) => total.checked_add(block),
            None => None,
        };
        match sum {
            Some(t) => {
                total = t;
            },
            None => {
                return None;
            },
        }
        i += 1;
    }
    assert(layers@.take(n as int) =~= layers@);
    Some(total)
}

/// Decides whether every layer has at least one unit.
fn no_empty_layer(layers: &Vec<usize>) -> (r: bool)
    ensures
        r == forall|i: int| 0 <= i < layers@.len() ==> #[trigger] layers@[i] >= 1,
{
    let mut i: usize = 0;
    while i < layers.len()
        invariant
            i <= layers@.len(),
            forall|t: int| 0 <= t < i ==> #[trigger] layers@[t] >= 1,
        decreases layers@.len() - i,
    {
        if layers[i] == 0 {
            return false;
        }
        i += 1;
    }
    true
}

/// The book-keeping twin of a network held by the numeric engine.
#[derive(Debug)]
pub struct Classifier {
    layers: Vec<usize>,
    weights: usize,
    phase: Phase,
}

impl Classifier {
    #[verifier::type_invariant]
    spec fn laid_out(&self) -> bool {
        topology_usable(self.layers@) && self.weights == weight_total(self.layers@)
    }

    /// The layer sizes, input layer first.
    pub closed spec fn layout(&self) -> Seq<usize> {
        self.layers@
    }

    /// The phase the model is in.
    pub closed spec fn stage(&self) -> Phase {
        self.phase
    }

    /// The request that `admit_training` would refuse, and with which error;
    /// `None` when it would admit it. A trained model and unusable settings
    /// are configuration errors and are reported before the shapes are
    /// looked at.
    pub open spec fn training_refusal(
        &self,
        inputs: Matrix<u64>,
        labels: Seq<usize>,
        learning_rate: u64,
        momentum: u64,
        epochs: usize,
    ) -> Option<Error> {
        if self.stage() == Phase::Trained || !settings_usable(learning_rate, momentum, epochs) {
            Some(Error::InvalidConfiguration)
        } else if !training_shapes_agree(inputs, labels, self.layout()[0]) {
            Some(Error::ShapeMismatch)
        } else {
            None
        }
    }

    /// Lays out a network with the given layer sizes, input layer first.
    /// A layout that is not usable is refused with `InvalidConfiguration`.
    pub fn initialize(layer_sizes: Vec<usize>) -> (r: Result<Classifier, Error>)
        ensures
            match r {
                Ok(model) => {
                    &&& topology_usable(layer_sizes@)
                    &&& model.layout() == layer_sizes@
                    &&& model.stage() == Phase::Initialized
                },
                Err(e) => e == Error::InvalidConfiguration && !topology_usable(layer_sizes@),
            },
    {
        let n = layer_sizes.len();
        if n < 2 || layer_sizes[n - 1] != 1 || !no_empty_layer(&layer_sizes) {
            return Err(Error::InvalidConfiguration);
        }
        match count_weights(&layer_sizes) {
            Some(weights) => Ok(
                Classifier { layers: layer_sizes, weights, phase: Phase::Initialized },
            ),
            None => Err(Error::InvalidConfiguration),
        }
    }

    /// The phase the model is in.
    pub fn phase(&self) -> (p: Phase)
        ensures
            p == self.stage(),
    {
        self.phase
    }

    /// The layer sizes, input layer first; they form a usable layout.
    pub fn layers(&self) -> (l: &Vec<usize>)
        ensures
            l@ == self.layout(),
            topology_usable(l@),
    {
        proof {
            use_type_invariant(self);
        }
        &self.layers
    }

    /// The number of input units: the column count the model reads.
    pub fn input_size(&self) -> (n: usize)
        ensures
            self.layout().len() >= 2,
            n == self.layout()[0],
    {
        proof {
            use_type_invariant(self);
        }
        self.layers[0]
    }

    /// The number of weights the engine holds for this layout.
    pub fn weight_count(&self) -> (w: usize)
        ensures
            w == weight_total(self.layout()),
    {
        proof {
            use_type_invariant(self);
        }
        self.weights
    }

    /// Admits one training run of `epochs` passes over `inputs` and `labels`,
    /// and moves the model to `Trained`. A refused request leaves the model
    /// as it was; `training_refusal` says which requests are refused.
    pub fn admit_training(
        &mut self,
        inputs: &Matrix<u64>,
        labels: &Vec<usize>,
        learning_rate: u64,
        momentum: u64,
        epochs: usize,
    ) -> (r: Result<(), Error>)
        ensures
            final(self).layout() == old(self).layout(),
            r is Ok ==> table_rows(*inputs).len() == labels@.len() && labels@.len() > 0,
            old(self).stage() == Phase::Trained ==> final(self).stage() == Phase::Trained,
            match old(self).training_refusal(*inputs, labels@, learning_rate, momentum, epochs) {
                Some(e) => r == Err::<(), Error>(e) && final(self).stage() == old(self).stage(),
                None => r is Ok && final(self).stage() == Phase::Trained,
            },
    {
        proof {
            use_type_invariant(&*self);
        }
        if self.phase == Phase::Trained || !is_positive(learning_rate) || !is_positive(momentum)
            || epochs == 0 {
            return Err(Error::InvalidConfiguration);
        }
        let rows = matrix_rows(inputs);
        if rows != labels.len() || rows == 0 || matrix_cols(inputs) != self.layers[0] {
            return Err(Error::ShapeMismatch);
        }
        self.phase = Phase::Trained;
        Ok(())
    }

    /// Admits a forward pass over `inputs` and returns how many outputs it
    /// yields: one per row. Inputs whose column count is not the model's
    /// input size are refused with `ShapeMismatch`. The model is not changed.
    pub fn admit_prediction(&self, inputs: &Matrix<u64>) -> (r: Result<usize, Error>)
        ensures
            match r {
                Ok(outputs) => table_width(*inputs) == self.layout()[0] && outputs == table_rows(
                    *inputs,
                ).len(),
                Err(e) => e == Error::ShapeMismatch && table_width(*inputs) != self.layout()[0],
            },
    {
        proof {
            use_type_invariant(self);
        }
        if matrix_cols(inputs) != self.layers[0] {
            return Err(Error::ShapeMismatch);
        }
        Ok(matrix_rows(inputs))
    }
}

} // verus!
