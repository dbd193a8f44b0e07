//! The centroid sampler: labelled two-feature points scattered around the
//! rows of a centroid matrix.

use crate::binary64::{is_finite, is_negative, is_zero};
use crate::binary64::{spec_is_finite, spec_is_negative, spec_is_zero};
use crate::error::Error;
use crate::grid::{array_get, CentroidMatrix};
use vstd::arithmetic::div_mod::lemma_fundamental_div_mod_converse;
use vstd::prelude::*;

verus! {

/// One data point: two features and the index of the centroid it belongs to.
#[derive(Clone, Copy, Debug, PartialEq, Eq, Structural)]
pub struct Sample {
    pub height: u64,
    pub length: u64,
    pub category_id: usize,
}

/// A noise level can be sampled with when it denotes a number that is not
/// below zero. Negative zero is zero.
pub open spec fn noise_usable(noise: u64) -> bool {
    spec_is_finite(noise) && !spec_is_negative(noise)
}

/// The inputs the sampler works on: at least one centroid, at least the two
/// features a sample holds, and a usable noise level. A matrix with no rows or
/// no columns is empty; one with a single column cannot fill a sample.
pub open spec fn sampling_admitted(centroids: CentroidMatrix, noise: u64) -> bool {
    centroids@.len() > 0 && centroids.width() >= 2 && noise_usable(noise)
}

/// How a generated feature relates to the centroid feature it was drawn
/// around. At zero noise it is the centroid's feature itself; otherwise it is
/// a result of `perturb` on that feature and the noise level.
pub open spec fn scattered<F: Fn(u64, u64) -> u64>(
    perturb: F,
    noise: u64,
    centre: u64,
    value: u64,
) -> bool {
    if spec_is_zero(noise) {
        value == centre
    } else {
        call_ensures(perturb, (centre, noise), value)
    }
}

/// What holds of the sample at position `k` of the output: it is labelled with
/// centroid `k mod n` of the `n` centroids, and its two features are scattered
/// around the first two features of that centroid.
pub open spec fn sample_placed<F: Fn(u64, u64) -> u64>(
    perturb: F,
    centroids: CentroidMatrix,
    noise: u64,
    k: int,
    sample: Sample,
) -> bool {
    let c = k % (centroids@.len() as int);
    &&& sample.category_id == c
    &&& scattered(perturb, noise, centroids@[c][0], sample.height)
    &&& scattered(perturb, noise, centroids@[c][1], sample.length)
}

/// The output at zero noise: `points_per_centroid` rounds over the centroids,
/// each sample the first two features of its centroid and the centroid's row
/// index.
pub open spec fn noiseless_samples(centroids: CentroidMatrix, points_per_centroid: usize) -> Seq<
    Sample,
> {
    Seq::new(
        (points_per_centroid * centroids@.len()) as nat,
        |k: int|
            {
                let c = k % (centroids@.len() as int);
                Sample {
                    height: centroids@[c][0],
                    length: centroids@[c][1],
                    category_id: c as usize,
                }
            },
    )
}

/// Draws `points_per_centroid` rounds of samples; each round visits every
/// centroid once, in row order.
///
/// `perturb(feature, noise)` stands for one draw from a normal distribution
/// centred on `feature` with standard deviation `noise`. It is called once for
/// every column of the visited centroid, in column order, and not at all when
/// the noise is zero. A sample keeps the first two columns.
///
/// The request is refused with `InvalidConfiguration` exactly when
/// `sampling_admitted` fails. Otherwise there are `points_per_centroid`
/// samples per centroid, and at zero noise each has exactly the features of
/// its centroid.
pub fn generate_data<F: Fn(u64, u64) -> u64>(
    centroids: &CentroidMatrix,
    points_per_centroid: usize,
    noise: u64,
    perturb: F,
) -> (r: Result<Vec<Sample>, Error>)
    requires
        forall|v: u64|
            noise_usable(noise) && !spec_is_zero(noise) ==> call_requires(perturb, (v, noise)),
    ensures
        match r {
            Ok(samples) => {
                &&& sampling_admitted(*centroids, noise)
                &&& samples@.len() == points_per_centroid * centroids@.len()
                &&& forall|k: int|
                    0 <= k < samples@.len() ==> sample_placed(
                        perturb,
                        *centroids,
                        noise,
                        k,
                        #[trigger] samples@[k],
                    )
                &&& spec_is_zero(noise) ==> samples@ == noiseless_samples(
                    *centroids,
                    points_per_centroid,
                )
            },
            Err(e) => e == Error::InvalidConfiguration && !sampling_admitted(*centroids, noise),
        },
        centroids@.len() == 0 || centroids.width() == 0 || spec_is_negative(noise) ==> r is Err,
{
    let rows = centroids.rows();
    let cols = centroids.cols();
    if rows == 0 || cols < 2 || !is_finite(noise) || is_negative(noise) {
        return Err(Error::InvalidConfiguration);
    }
    let exact = is_zero(noise);
    let mut samples: Vec<Sample> = Vec::new();
    let mut round: usize = 0;
    while round < points_per_centroid
        invariant
            round <= points_per_centroid,
            rows == centroids@.len(),
            cols == centroids.width(),
            centroids.rectangular(),
            sampling_admitted(*centroids, noise),
            exact == spec_is_zero(noise),
            forall|v: u64| !exact ==> call_requires(perturb, (v, noise)),
            samples@.len() == round * rows,
            forall|k: int|
                0 <= k < samples@.len() ==> sample_placed(
                    perturb,
                    *centroids,
                    noise,
                    k,
                    #[trigger] samples@[k],
                ),
        decreases points_per_centroid - round,
    {
        let mut c: usize = 0;
        while c < rows
            invariant
                c <= rows,
                round < points_per_centroid,
                rows == centroids@.len(),
                cols == centroids.width(),
                centroids.rectangular(),
                sampling_admitted(*centroids, noise),
                exact == spec_is_zero(noise),
                forall|v: u64| !exact ==> call_requires(perturb, (v, noise)),
                samples@.len() == round * rows + c,
                forall|k: int|
                    0 <= k < samples@.len() ==> sample_placed(
                        perturb,
                        *centroids,
                        noise,
                        k,
                        #[trigger] samples@[k],
                    ),
            decreases rows - c,
        {
            let mut point: Vec<u64> = Vec::new();
            let mut j: usize = 0;
            while j < cols
                invariant
                    j <= cols,
                    c < rows,
                    rows == centroids@.len(),
                    cols == centroids.width(),
                    centroids.rectangular(),
                    exact == spec_is_zero(noise),
                    forall|v: u64| !exact ==> call_requires(perturb, (v, noise)),
                    point@.len() == j,
                    forall|t: int|
                        0 <= t < j ==> scattered(
                            perturb,
                            noise,
                            centroids@[c as int][t],
                            #[trigger] point@[t],
                        ),
                decreases cols - j,
            {
                let centre = array_get(centroids, c, j);
                let value = if exact {
                    centre
                } else {
                    perturb(centre, noise)
                };
                point.push(value);
                j += 1;
            }
            let sample = Sample { height: point[0], length: point[1], category_id: c };
            proof {
                let k = samples@.len() as int;
                lemma_fundamental_div_mod_converse(k, rows as int, round as int, c as int);
                assert(sample_placed(perturb, *centroids, noise, k, sample));
            }
            samples.push(sample);
            c += 1;
        }
        round += 1;
        assert(round * rows == (round - 1) * rows + rows) by (nonlinear_arith);
    }
    proof {
        if exact {
            assert(samples@ =~= noiseless_samples(*centroids, points_per_centroid));
        }
    }
    Ok(samples)
}

} // verus!
