//! Exploratory factor analysis: the exact, decision-making part of the
//! pipeline that turns a dataset into correlation matrices, extracted and
//! rotated loadings, score coefficients and report tables.
//!
//! Real numbers are IEEE-754 binary64 values held as their bit patterns
//! (`ieee::Real`). The library works on them only with operations that are
//! exact on that encoding: sign, negation, ordering, and moving values
//! between matrices. Arithmetic on them (moments, eigen-decompositions,
//! the rotation iterations) is done by the caller, which hands the results
//! back for every decision:
//!
//! - `ieee`: the encoding, its order and its negation;
//! - `grid`: dense matrices and the exact operations on them;
//! - `ordering`: stable descending orders;
//! - `config`, `error`: the closed option sets and the failure kinds;
//! - `matrix`: data checks, correlation assembly, significance tables;
//! - `extraction`: eigenpair order, factor retention, the sign rule;
//! - `rotation`: the step each family calls for, reflection and factor order;
//! - `scores`: the coefficient route and the score covariance;
//! - `report`, `plots`, `labels`: the report tables, loading plot and labels;
//! - `iteration`: when an iterative procedure stops.
use vstd::prelude::*;

pub mod config;
pub mod error;
pub mod extraction;
pub mod grid;
pub mod ieee;
pub mod iteration;
pub mod labels;
pub mod matrix;
pub mod ordering;
pub mod plots;
pub mod report;
pub mod rotation;
pub mod scores;

verus! {

} // verus!
