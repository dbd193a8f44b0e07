//! The feature standardizer's parameters: per-feature mean and variance
//! measured once on a reference dataset, and the mean and variance that the
//! features are to be mapped to.
//!
//! The statistics are measured by the caller's numeric engine, with the
//! sample variance, which needs two rows. This module decides whether they
//! can be used and whether a matrix may be transformed with them.

use crate::binary64::{is_finite, is_positive, spec_is_finite, spec_is_positive};
use crate::error::Error;
use crate::table::{matrix_cols, table_width};
use rusty_machine::linalg::Matrix;
use vstd::prelude::*;

verus! {

/// The target mean of the pipeline's default standardizer: zero.
pub const DEFAULT_TARGET_MEAN: u64 = 0;

/// The target variance of the pipeline's default standardizer: one.
pub const DEFAULT_TARGET_VARIANCE: u64 = 0x3FF0_0000_0000_0000;

/// A variance can rescale a feature when it is a number above zero. Zero
/// would divide by zero; an infinity or a NaN would spread to every cell.
pub open spec fn variance_usable(variance: u64) -> bool {
    spec_is_finite(variance) && spec_is_positive(variance)
}

/// Every mean is a number.
pub open spec fn means_usable(means: Seq<u64>) -> bool {
    forall|j: int| 0 <= j < means.len() ==> spec_is_finite(#[trigger] means[j])
}

/// Every variance is usable.
pub open spec fn variances_usable(variances: Seq<u64>) -> bool {
    forall|j: int| 0 <= j < variances.len() ==> variance_usable(#[trigger] variances[j])
}

/// Statistics measured on `rows` rows can be fitted: there were at least two
/// rows, there is one mean and one variance per feature, and all are usable.
pub open spec fn statistics_usable(rows: nat, means: Seq<u64>, variances: Seq<u64>) -> bool {
    &&& rows >= 2
    &&& means.len() == variances.len()
    &&& means_usable(means)
    &&& variances_usable(variances)
}

/// Fitted standardization parameters. They are fixed once fitted: no method
/// changes them, so every matrix checked against them meets the statistics
/// of the one reference dataset.
#[derive(Debug)]
pub struct StandardizationParams {
    means: Vec<u64>,
    variances: Vec<u64>,
    target_mean: u64,
    target_variance: u64,
}

impl StandardizationParams {
    #[verifier::type_invariant]
    spec fn fitted(&self) -> bool {
        &&& self.means@.len() == self.variances@.len()
        &&& means_usable(self.means@)
        &&& variances_usable(self.variances@)
    }

    /// The per-feature means of the reference dataset.
    pub closed spec fn source_means(&self) -> Seq<u64> {
        self.means@
    }

    /// The per-feature variances of the reference dataset.
    pub closed spec fn source_variances(&self) -> Seq<u64> {
        self.variances@
    }

    /// The mean and the variance that features are mapped to.
    pub closed spec fn target(&self) -> (u64, u64) {
        (self.target_mean, self.target_variance)
    }

    /// Fits the parameters to statistics measured on a reference dataset of
    /// `rows` rows.
    ///
    /// Fewer than two rows, a mean that is not a number, or a variance that
    /// is zero or not a number give `DegenerateStatistics`. With two rows or
    /// more, a mean count that differs from the variance count gives
    /// `ShapeMismatch`.
    pub fn fit(
        rows: usize,
        means: Vec<u64>,
        variances: Vec<u64>,
        target_mean: u64,
        target_variance: u64,
    ) -> (r: Result<StandardizationParams, Error>)
        ensures
            match r {
                Ok(p) => {
                    &&& statistics_usable(rows as nat, means@, variances@)
                    &&& p.source_means() == means@
                    &&& p.source_variances() == variances@
                    &&& p.target() == (target_mean, target_variance)
                },
                Err(e) => {
                    &&& !statistics_usable(rows as nat, means@, variances@)
                    &&& e == if rows >= 2 && means@.len() != variances@.len() {
                        Error::ShapeMismatch
                    } else {
                        Error::DegenerateStatistics
                    }
                },
            },
    {
        if rows < 2 {
            return Err(Error::DegenerateStatistics);
        }
        if means.len() != variances.len() {
            return Err(Error::ShapeMismatch);
        }
        let mut j: usize = 0;
        while j < means.len()
            invariant
                j <= means@.len(),
                means@.len() == variances@.len(),
                forall|t: int| 0 <= t < j ==> spec_is_finite(#[trigger] means@[t]),
                forall|t: int| 0 <= t < j ==> variance_usable(#[trigger] variances@[t]),
            decreases means@.len() - j,
        {
            if !is_finite(means[j]) || !is_finite(variances[j]) || !is_positive(variances[j]) {
                return Err(Error::DegenerateStatistics);
            }
            j += 1;
        }
        Ok(StandardizationParams { means, variances, target_mean, target_variance })
    }

    /// The number of features the parameters were fitted on.
    pub fn features(&self) -> (n: usize)
        ensures
            n == self.source_means().len(),
            n == self.source_variances().len(),
    {
        proof {
            use_type_invariant(self);
        }
        self.means.len()
    }

    /// The fitted mean of each feature; every one is a number.
    pub fn means(&self) -> (m: &Vec<u64>)
        ensures
            m@ == self.source_means(),
            means_usable(m@),
    {
        proof {
            use_type_invariant(self);
        }
        &self.means
    }

    /// The fitted variance of each feature; every one is a number above zero.
    pub fn variances(&self) -> (v: &Vec<u64>)
        ensures
            v@ == self.source_variances(),
            variances_usable(v@),
    {
        proof {
            use_type_invariant(self);
        }
        &self.variances
    }

    /// The mean that features are mapped to.
    pub fn target_mean(&self) -> (m: u64)
        ensures
            m == self.target().0,
    {
        self.target_mean
    }

    /// The variance that features are mapped to.
    pub fn target_variance(&self) -> (v: u64)
        ensures
            v == self.target().1,
    {
        self.target_variance
    }

    /// Decides whether `inputs` may be transformed with these parameters:
    /// it must have one column per fitted feature, else `ShapeMismatch`.
    pub fn check_transform(&self, inputs: &Matrix<u64>) -> (r: Result<(), Error>)
        ensures
            r is Ok <==> table_width(*inputs) == self.source_means().len(),
            r matches Err(e) ==> e == Error::ShapeMismatch,
    {
        if matrix_cols(inputs) == self.means.len() {
            Ok(())
        } else {
            Err(Error::ShapeMismatch)
        }
    }
}

} // verus!
