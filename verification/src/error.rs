use vstd::prelude::*;

verus! {

/// Why a request was turned down. Every failure is final for the call that
/// reports it: nothing is substituted and nothing is skipped.
#[derive(Clone, Copy, Debug, PartialEq, Eq, Structural)]
pub enum Error {
    /// A centroid matrix, a noise level, a network layout or a training
    /// setting that cannot be used.
    InvalidConfiguration,
    /// Row or column counts that do not agree with each other.
    ShapeMismatch,
    /// Column statistics that cannot rescale a feature.
    DegenerateStatistics,
}

} // verus!
