//! Staged pipelines for supervised learning on tabular data.
//!
//! A pipeline passes through the stages `Registered`, `Loaded`, `Transformed`,
//! `Trained` and `Inferred` in that order. This crate holds the rules of those
//! stages: how columns are projected out of a source table, how encoders keep
//! their fitted state, where a data set is cut into a training and a testing
//! part, and what a training or inference step is asked to do.
//!
//! The crate never computes with a cell. Matrices are generic in their cell
//! type; reading files, scaling cells and fitting models are the caller's
//! part, who hands in what came of them and is held to the shapes.

pub mod error;
pub mod ratio;
pub mod matrix;
pub mod table;
pub mod splitter;
pub mod encoder;
pub mod model;
pub mod pipeline;

pub mod breast_cancer;
pub mod dowj_stocks;
pub mod house_prices;
pub mod iris;
pub mod monero;
pub mod student_performance;
