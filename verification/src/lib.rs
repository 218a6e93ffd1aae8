//! Colorimetric estimation engine for multi-pad pool-water test strips.
//!
//! The pipeline turns a decoded image plus a brand selector into a set of
//! named pad regions, reduces each region to an average color sample,
//! converts that sample into the perceptually uniform Lab color space, and
//! maps it to a calibrated chemical value by nearest-reference-color
//! matching.
//!
//! All color and chemistry arithmetic is fixed-point integer arithmetic:
//! Lab coordinates are held in millionths of a Lab unit and chemical values
//! in tenths of their reporting unit, so that every step of the pipeline is
//! exact and verified.

pub mod chemistry;
pub mod color;
pub mod image_pipeline;
pub mod laws;
pub mod types;
