//! Labelled two-feature point clouds around fixed centroids, and the
//! bookkeeping of a standardize, train, predict, evaluate pipeline that
//! classifies them.
//!
//! Real numbers cross this library as IEEE-754 binary64 bit patterns held in
//! `u64`. The library never does arithmetic on them: it classifies them
//! (`binary64`), moves them between containers, and decides which requests an
//! outside numeric engine may be given. Everything it decides is stated in
//! contracts and proved.

pub mod binary64;
pub mod classifier;
pub mod dataset;
pub mod error;
pub mod grid;
pub mod pipeline;
pub mod report;
pub mod sampler;
pub mod standardizer;
pub mod table;
